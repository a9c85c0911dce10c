//! Built-in executables, keyed by path. A command registered under its
//! own name is found at `/bin/<name>`.

use vstd::prelude::*;
use crate::errno::{Errno, errno_code};
use vstd::string::StringExecFns;

verus! {

/// A command available to the guest environment.
pub trait VirtualCommand {
    /// The command's canonical name, as a sequence of characters.
    spec fn name_spec(&self) -> Seq<char>;

    /// The command's canonical name.
    fn name(&self) -> (r: &str)
        ensures
            r@ == self.name_spec(),
    ;
}

/// A command known by its name; what running it does is up to the
/// runtime, which finds it again by that name.
#[derive(Clone, Debug, PartialEq, Eq)]
pub struct NamedCommand {
    name: String,
}

impl NamedCommand {
    pub fn new(name: &str) -> (r: NamedCommand)
        ensures
            r.name_spec() == name@,
    {
        NamedCommand { name: name.to_owned() }
    }
}

impl VirtualCommand for NamedCommand {
    closed spec fn name_spec(&self) -> Seq<char> {
        self.name@
    }

    fn name(&self) -> (r: &str) {
        self.name.as_str()
    }
}

/// Why a path could not be run: the exit code of the process that stands
/// for the failure, and the line for the guest's standard error.
#[derive(Debug)]
pub struct UnknownCommand {
    pub exit_code: u32,
    pub message: String,
}

/// Whether some entry of `s` is registered at path `p`.
pub open spec fn has_path<C>(s: Seq<(Seq<char>, C)>, p: Seq<char>) -> bool {
    exists|i: int| 0 <= i < s.len() && (#[trigger] s[i]).0 == p
}

/// The command registered at path `p` (meaningful when `has_path`).
pub open spec fn command_at<C>(s: Seq<(Seq<char>, C)>, p: Seq<char>) -> C {
    s[choose|i: int| 0 <= i < s.len() && (#[trigger] s[i]).0 == p].1
}

/// The path at which a command of this name is registered by default.
pub open spec fn bin_path(name: Seq<char>) -> Seq<char> {
    seq!['/', 'b', 'i', 'n', '/'] + name
}

/// Each path is registered at most once.
pub open spec fn paths_unique<C>(s: Seq<(Seq<char>, C)>) -> bool {
    forall|i: int, j: int| 0 <= i < s.len() && 0 <= j < s.len() && (#[trigger] s[i]).0 == (#[trigger] s[j]).0 ==> i == j
}

/// The registry of built-in commands.
pub struct Commands<C> {
    commands: Vec<(String, C)>,
}

impl<C> View for Commands<C> {
    type V = Seq<(Seq<char>, C)>;

    closed spec fn view(&self) -> Seq<(Seq<char>, C)> {
        self.commands@.map_values(|e: (String, C)| (e.0@, e.1))
    }
}

impl<C: VirtualCommand> Commands<C> {
    pub open spec fn wf(&self) -> bool {
        paths_unique(self@)
    }

    pub fn new() -> (r: Commands<C>)
        ensures
            r.wf(),
            r@ == Seq::<(Seq<char>, C)>::empty(),
    {
        let r = Commands { commands: Vec::new() };
        assert(r@ =~= Seq::<(Seq<char>, C)>::empty());
        r
    }

    fn find(&self, path: &str) -> (r: Option<usize>)
        ensures
            r matches Some(i) ==> i < self@.len() && self@[i as int].0 == path@,
            r is None ==> !has_path(self@, path@),
    {
        let p = path.to_owned();
        let mut i: usize = 0;
        while i < self.commands.len()
            invariant
                i <= self.commands.len(),
                p@ == path@,
                forall|j: int| 0 <= j < i ==> (#[trigger] self@[j]).0 != path@,
            decreases self.commands.len() - i,
        {
            if self.commands[i].0 == p {
                return Some(i);
            }
            i = i + 1;
        }
        None
    }

    /// Whether a command is registered at `path`.
    pub fn command_exists(&self, path: &str) -> (r: bool)
        ensures
            r == has_path(self@, path@),
    {
        self.find(path).is_some()
    }

    /// The command registered at `path`.
    pub fn get(&self, path: &str) -> (r: Option<&C>)
        requires
            self.wf(),
        ensures
            r matches Some(c) ==> has_path(self@, path@) && *c == command_at(self@, path@),
            r is None ==> !has_path(self@, path@),
    {
        match self.find(path) {
            Some(i) => {
                assert(self@[i as int].0 == path@);
                Some(&self.commands[i].1)
            },
            None => None,
        }
    }

    /// Registers `cmd` at `path`, replacing what was there.
    pub fn register_command_with_path(&mut self, cmd: C, path: String)
        requires
            old(self).wf(),
        ensures
            final(self).wf(),
            has_path(final(self)@, path@),
            command_at(final(self)@, path@) == cmd,
            forall|q: Seq<char>| q != path@ ==> (has_path(final(self)@, q) == has_path(old(self)@, q)),
            forall|q: Seq<char>| q != path@ && has_path(old(self)@, q) ==> command_at(final(self)@, q) == command_at(old(self)@, q),
    {
        let ghost old_view = self@;
        match self.find(path.as_str()) {
            Some(i) => {
                let ghost p = path@;
                self.commands.set(i, (path, cmd));
                assert(self@ =~= old_view.update(i as int, (p, cmd)));
                assert forall|q: Seq<char>| q != p implies has_path(self@, q) == has_path(old_view, q) by {
                    if has_path(old_view, q) {
                        let k = choose|k: int| 0 <= k < old_view.len() && (#[trigger] old_view[k]).0 == q;
                        assert(self@[k].0 == q);
                    }
                    if has_path(self@, q) {
                        let k = choose|k: int| 0 <= k < self@.len() && (#[trigger] self@[k]).0 == q;
                        assert(old_view[k].0 == q);
                    }
                }
                assert(self@[i as int].0 == p);
            },
            None => {
                let ghost p = path@;
                self.commands.push((path, cmd));
                assert(self@ =~= old_view.push((p, cmd)));
                assert forall|q: Seq<char>| q != p implies has_path(self@, q) == has_path(old_view, q) by {
                    if has_path(old_view, q) {
                        let k = choose|k: int| 0 <= k < old_view.len() && (#[trigger] old_view[k]).0 == q;
                        assert(self@[k].0 == q);
                    }
                    if has_path(self@, q) {
                        let k = choose|k: int| 0 <= k < self@.len() && (#[trigger] self@[k]).0 == q;
                        assert(old_view[k].0 == q);
                    }
                }
                assert(self@[old_view.len() as int].0 == p);
            },
        }
    }

    /// Registers `cmd` at `/bin/` followed by its name.
    pub fn register_command(&mut self, cmd: C)
        requires
            old(self).wf(),
        ensures
            final(self).wf(),
            has_path(final(self)@, bin_path(cmd.name_spec())),
            command_at(final(self)@, bin_path(cmd.name_spec())) == cmd,
            forall|q: Seq<char>| q != bin_path(cmd.name_spec()) ==> (has_path(final(self)@, q) == has_path(old(self)@, q)),
            forall|q: Seq<char>| q != bin_path(cmd.name_spec()) && has_path(old(self)@, q) ==> command_at(final(self)@, q) == command_at(old(self)@, q),
    {
        let mut path = "/bin/".to_owned();
        path.append(cmd.name());
        proof {
            reveal_strlit("/bin/");
        }
        assert(path@ =~= bin_path(cmd.name_spec()));
        self.register_command_with_path(cmd, path);
    }

    /// What running `path` starts with: the registered command, or, for an
    /// unknown path, the exit code `Noent` and the line
    /// `wasm command unknown - <path>\r\n` for standard error.
    pub fn exec(&self, path: &str) -> (r: Result<&C, UnknownCommand>)
        requires
            self.wf(),
        ensures
            r matches Ok(c) ==> has_path(self@, path@) && *c == command_at(self@, path@),
            r matches Err(u) ==> !has_path(self@, path@) && u.exit_code == errno_code(Errno::Noent)
                && u.message@ == "wasm command unknown - "@ + path@ + "\r\n"@,
    {
        match self.get(path) {
            Some(c) => Ok(c),
            None => {
                let mut message = "wasm command unknown - ".to_owned();
                message.append(path);
                message.append("\r\n");
                let code = Errno::Noent.code();
                Err(UnknownCommand { exit_code: code as u32, message })
            },
        }
    }
}

} // verus!
