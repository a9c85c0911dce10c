//! Bookkeeping of the executor that runs one-shot operations: cancellation
//! tokens, the table of operations still in flight, the same-thread queue of
//! completions that needed no suspension, and the capacity-one hand-off of
//! accepted connections.
//!
//! Whichever of `finish_oneshot` and `cancel` removes a token from the
//! table first decides the operation's outcome: a natural completion, or a
//! cancellation. The other one then finds the token gone.

use vstd::prelude::*;
use std::collections::VecDeque;
use futures::future::AbortHandle;
use crate::errno::Errno;
use crate::sockaddr::SockAddr;

verus! {

#[verifier::external_type_specification]
#[verifier::external_body]
pub struct ExDefaultHashBuilder(flurry::DefaultHashBuilder);

#[verifier::external_type_specification]
#[verifier::external_body]
#[verifier::reject_recursive_types(K)]
#[verifier::reject_recursive_types(V)]
#[verifier::reject_recursive_types(S)]
pub struct ExConcHashMap<K, V, S>(flurry::HashMap<K, V, S>);

#[verifier::external_type_specification]
#[verifier::external_body]
pub struct ExAbortHandle(futures::future::AbortHandle);

/// The keys held by a concurrent map of abort handles.
pub uninterp spec fn ongoing_tokens(m: flurry::HashMap<u64, AbortHandle>) -> Set<u64>;

/// Relies on `flurry::HashMap::new`: a new map holds no key.
#[verifier::external_body]
fn ongoing_new() -> (r: flurry::HashMap<u64, AbortHandle>)
    ensures
        ongoing_tokens(r) == Set::<u64>::empty(),
{
    flurry::HashMap::new()
}

/// Relies on `flurry::HashMap::insert`: afterwards the key is present, and
/// no other key is added or removed.
#[verifier::external_body]
fn ongoing_insert(m: &mut flurry::HashMap<u64, AbortHandle>, key: u64, handle: AbortHandle)
    ensures
        ongoing_tokens(*final(m)) == ongoing_tokens(*old(m)).insert(key),
{
    m.pin().insert(key, handle);
}

/// Relies on `flurry::HashMap::remove`: it hands back the value exactly
/// when the key was present, and the key is absent afterwards.
#[verifier::external_body]
fn ongoing_remove(m: &mut flurry::HashMap<u64, AbortHandle>, key: u64) -> (r: Option<AbortHandle>)
    ensures
        r is Some <==> ongoing_tokens(*old(m)).contains(key),
        ongoing_tokens(*final(m)) == ongoing_tokens(*old(m)).remove(key),
{
    m.pin().remove(&key).cloned()
}

/// Relies on `futures::future::AbortHandle::abort`: it only signals the
/// task registered with the handle to stop at its next await point.
#[verifier::external_body]
fn signal_abort(handle: &AbortHandle) {
    handle.abort()
}

/// Handle of an operation in flight. Zero is never handed out for one: it
/// means that the operation completed at once and there is nothing to cancel.
#[derive(Clone, Copy, Debug, PartialEq, Eq, Structural)]
pub struct CancellationToken(pub u64);

/// The outcome of an operation, with the caller's context echoed back.
#[derive(Clone, Copy, Debug, PartialEq, Eq, Structural)]
pub struct Completion {
    pub result: Errno,
    pub user_context: u64,
}

/// A connection that a listener's accept loop took from the host; `conn_id`
/// names the host stream, which is kept outside this library.
#[derive(Clone, Copy, Debug, PartialEq, Eq)]
pub struct AcceptedConnection {
    pub conn_id: u64,
    pub local: SockAddr,
    pub remote: SockAddr,
}

/// How many accepted connections may wait for the guest to take them.
pub const ACCEPT_QUEUE_CAPACITY: usize = 1;

/// The abstract state of the executor.
pub struct ExecutorModel {
    /// Tokens of the operations still in flight.
    pub ongoing: Set<u64>,
    /// The token to hand out next.
    pub next: u64,
    /// Completions delivered on the calling thread, oldest first.
    pub local: Seq<Completion>,
    /// Accepted connections not yet taken, oldest first.
    pub accepted: Seq<AcceptedConnection>,
}

/// The outcome that `finish_oneshot` reports for token `t` when the
/// operation itself ended with `natural` and `ongoing` is in flight.
pub open spec fn finish_result(ongoing: Set<u64>, t: u64, natural: Errno) -> Errno {
    if ongoing.contains(t) {
        natural
    } else {
        Errno::Canceled
    }
}

/// Whether `cancel` of token `t` succeeds when `ongoing` is in flight.
pub open spec fn cancel_succeeds(ongoing: Set<u64>, t: u64) -> bool {
    ongoing.contains(t)
}

/// For an operation in flight, exactly one of natural completion and
/// cancellation is observed, whichever of the two comes first: cancelling
/// first makes the completion `Canceled`; completing first makes the
/// cancel fail. Either way the token is gone afterwards, so a second
/// cancel fails too. `claim_completion` decides the same way as
/// `finish_oneshot`: it succeeds exactly when `cancel_succeeds` would.
pub proof fn lemma_cancel_or_complete(ongoing: Set<u64>, t: u64, natural: Errno)
    requires
        ongoing.contains(t),
    ensures
        cancel_succeeds(ongoing, t) && finish_result(ongoing.remove(t), t, natural)
            == Errno::Canceled,
        finish_result(ongoing, t, natural) == natural && !cancel_succeeds(ongoing.remove(t), t),
        !cancel_succeeds(ongoing.remove(t).remove(t), t),
{
}

/// Bookkeeping of one executor instance.
pub struct ExecutorState {
    ongoing: flurry::HashMap<u64, AbortHandle>,
    ongoing_next: u64,
    local_completion: VecDeque<Completion>,
    accepted: VecDeque<AcceptedConnection>,
}

impl View for ExecutorState {
    type V = ExecutorModel;

    closed spec fn view(&self) -> ExecutorModel {
        ExecutorModel {
            ongoing: ongoing_tokens(self.ongoing),
            next: self.ongoing_next,
            local: self.local_completion@,
            accepted: self.accepted@,
        }
    }
}

impl ExecutorState {
    /// Every token in flight was handed out before (`0 < t < next`), and
    /// the hand-off queue holds at most one connection.
    pub open spec fn wf(&self) -> bool {
        &&& self@.next >= 1
        &&& forall|t: u64| #[trigger] self@.ongoing.contains(t) ==> 0 < t < self@.next
        &&& self@.accepted.len() <= ACCEPT_QUEUE_CAPACITY
    }

    pub fn new() -> (r: ExecutorState)
        ensures
            r.wf(),
            r@.ongoing == Set::<u64>::empty(),
            r@.next == 1,
            r@.local == Seq::<Completion>::empty(),
            r@.accepted == Seq::<AcceptedConnection>::empty(),
    {
        ExecutorState {
            ongoing: ongoing_new(),
            ongoing_next: 1,
            local_completion: VecDeque::new(),
            accepted: VecDeque::new(),
        }
    }

    /// Registers an operation about to run in the background and hands out
    /// its token: a fresh one, never zero and never handed out before.
    /// `Inval` once the tokens are used up.
    pub fn spawn_oneshot(&mut self, handle: AbortHandle) -> (r: Result<CancellationToken, Errno>)
        requires
            old(self).wf(),
        ensures
            final(self).wf(),
            old(self)@.next < u64::MAX ==> r == Ok::<CancellationToken, Errno>(
                CancellationToken(old(self)@.next),
            ),
            r matches Ok(t) ==> t.0 == old(self)@.next && t.0 != 0 && !old(self)@.ongoing.contains(t.0) && final(self)@
                == (ExecutorModel {
                ongoing: old(self)@.ongoing.insert(t.0),
                next: (old(self)@.next + 1) as u64,
                ..old(self)@
            }),
            r matches Err(e) ==> e == Errno::Inval && final(self)@ == old(self)@ && old(self)@.next == u64::MAX,
    {
        if self.ongoing_next == u64::MAX {
            return Err(Errno::Inval);
        }
        let token = self.ongoing_next;
        ongoing_insert(&mut self.ongoing, token, handle);
        self.ongoing_next = token + 1;
        Ok(CancellationToken(token))
    }

    /// Delivers the completion of an operation that needed no suspension on
    /// the calling thread's queue. Its token is zero: nothing to cancel.
    pub fn enqueue_immediate(&mut self, result: Errno, user_context: u64) -> (r: CancellationToken)
        requires
            old(self).wf(),
        ensures
            final(self).wf(),
            r.0 == 0,
            final(self)@ == (ExecutorModel {
                local: old(self)@.local.push(Completion { result, user_context }),
                ..old(self)@
            }),
    {
        self.local_completion.push_back(Completion { result, user_context });
        CancellationToken(0)
    }

    /// Called when a background operation ends with `result`. If the token
    /// is still in flight, this is its natural completion; if a cancel took
    /// it first, the completion is `Canceled`. Either way the token leaves
    /// the table.
    pub fn finish_oneshot(&mut self, token: CancellationToken, result: Errno, user_context: u64) -> (r:
        Completion)
        requires
            old(self).wf(),
        ensures
            final(self).wf(),
            r == (Completion { result: finish_result(old(self)@.ongoing, token.0, result), user_context }),
            final(self)@ == (ExecutorModel { ongoing: old(self)@.ongoing.remove(token.0), ..old(self)@ }),
    {
        match ongoing_remove(&mut self.ongoing, token.0) {
            Some(_) => Completion { result, user_context },
            None => Completion { result: Errno::Canceled, user_context },
        }
    }

    /// Called when a background operation is ready to take effect, before
    /// it touches socket state or guest memory: it may go ahead exactly
    /// when its token is still in flight. The token leaves the table either
    /// way, so a cancel afterwards fails; if this gives `false`, a cancel
    /// came first and the operation completes as `Canceled` without effect.
    pub fn claim_completion(&mut self, token: CancellationToken) -> (r: bool)
        requires
            old(self).wf(),
        ensures
            final(self).wf(),
            r == cancel_succeeds(old(self)@.ongoing, token.0),
            final(self)@ == (ExecutorModel { ongoing: old(self)@.ongoing.remove(token.0), ..old(self)@ }),
    {
        ongoing_remove(&mut self.ongoing, token.0).is_some()
    }

    /// Best-effort cancellation. If the token is in flight it leaves the
    /// table and the operation is told to abort; otherwise (already
    /// completed, already cancelled, or never handed out) `Inval`.
    pub fn cancel(&mut self, token: CancellationToken) -> (r: Result<(), Errno>)
        requires
            old(self).wf(),
        ensures
            final(self).wf(),
            r.is_ok() == cancel_succeeds(old(self)@.ongoing, token.0),
            r matches Err(e) ==> e == Errno::Inval,
            final(self)@ == (ExecutorModel { ongoing: old(self)@.ongoing.remove(token.0), ..old(self)@ }),
    {
        match ongoing_remove(&mut self.ongoing, token.0) {
            Some(handle) => {
                signal_abort(&handle);
                Ok(())
            },
            None => Err(Errno::Inval),
        }
    }

    /// The oldest completion on the calling thread's queue, if any. The
    /// caller waits on the cross-thread channel only when this is `None`.
    pub fn wait_local(&mut self) -> (r: Option<Completion>)
        requires
            old(self).wf(),
        ensures
            final(self).wf(),
            old(self)@.local.len() == 0 ==> r is None && final(self)@ == old(self)@,
            old(self)@.local.len() > 0 ==> r == Some(old(self)@.local[0]) && final(self)@ == (
            ExecutorModel { local: old(self)@.local.drop_first(), ..old(self)@ }),
    {
        self.local_completion.pop_front()
    }

    /// Offers an accepted connection to the hand-off queue. While a
    /// connection waits there the offer is refused and the connection handed
    /// back: the accept loop has to wait until the guest takes the first.
    pub fn offer_accepted(&mut self, conn: AcceptedConnection) -> (r: Result<(), AcceptedConnection>)
        requires
            old(self).wf(),
        ensures
            final(self).wf(),
            old(self)@.accepted.len() < ACCEPT_QUEUE_CAPACITY ==> r.is_ok() && final(self)@ == (
            ExecutorModel { accepted: old(self)@.accepted.push(conn), ..old(self)@ }),
            old(self)@.accepted.len() >= ACCEPT_QUEUE_CAPACITY ==> r == Err::<(), AcceptedConnection>(
                conn,
            ) && final(self)@ == old(self)@,
    {
        if self.accepted.len() >= ACCEPT_QUEUE_CAPACITY {
            return Err(conn);
        }
        self.accepted.push_back(conn);
        Ok(())
    }

    /// The oldest accepted connection, left in the queue.
    pub fn peek_accepted(&self) -> (r: Option<AcceptedConnection>)
        ensures
            self@.accepted.len() == 0 ==> r is None,
            self@.accepted.len() > 0 ==> r == Some(self@.accepted[0]),
    {
        if self.accepted.len() == 0 {
            None
        } else {
            Some(self.accepted[0])
        }
    }

    /// Takes the oldest accepted connection without waiting: `Again` at once
    /// when none is there.
    pub fn poll_accepted(&mut self) -> (r: Result<AcceptedConnection, Errno>)
        requires
            old(self).wf(),
        ensures
            final(self).wf(),
            old(self)@.accepted.len() == 0 ==> r == Err::<AcceptedConnection, Errno>(Errno::Again)
                && final(self)@ == old(self)@,
            old(self)@.accepted.len() > 0 ==> r == Ok::<AcceptedConnection, Errno>(
                old(self)@.accepted[0],
            ) && final(self)@ == (ExecutorModel {
                accepted: old(self)@.accepted.drop_first(),
                ..old(self)@
            }),
    {
        match self.accepted.pop_front() {
            Some(c) => Ok(c),
            None => Err(Errno::Again),
        }
    }
}

} // verus!
