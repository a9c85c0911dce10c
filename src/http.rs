//! The guest's HTTP client binding: whether a client may be made at all,
//! and which hosts it may reach, as the environment's capabilities say.

use vstd::prelude::*;
use vstd::string::StringExecFns;

verus! {

/// Which hosts an HTTP client may reach.
#[derive(Debug)]
pub struct HttpClientCapabilityV1 {
    pub allow_all_hosts: bool,
    pub allowed_hosts: Vec<String>,
}

/// The capabilities a guest runs with.
#[derive(Debug)]
pub struct Capabilities {
    /// Everything is allowed.
    pub insecure_allow_all: bool,
    pub http: HttpClientCapabilityV1,
}

/// Whether host `h` is one of `hosts`.
pub open spec fn host_listed(hosts: Seq<String>, h: Seq<char>) -> bool {
    exists|i: int| 0 <= i < hosts.len() && (#[trigger] hosts[i])@ == h
}

/// No host can be reached.
pub open spec fn deny_all(c: HttpClientCapabilityV1) -> bool {
    !c.allow_all_hosts && c.allowed_hosts@.len() == 0
}

/// Both reach the same hosts.
pub open spec fn same_hosts(a: HttpClientCapabilityV1, b: HttpClientCapabilityV1) -> bool {
    &&& a.allow_all_hosts == b.allow_all_hosts
    &&& a.allowed_hosts@.len() == b.allowed_hosts@.len()
    &&& forall|i: int| 0 <= i < a.allowed_hosts@.len() ==> (#[trigger] a.allowed_hosts@[i])@ == b.allowed_hosts@[i]@
}

impl HttpClientCapabilityV1 {
    /// A capability that reaches every host.
    pub fn new_allow_all() -> (r: HttpClientCapabilityV1)
        ensures
            r.allow_all_hosts,
            r.allowed_hosts@.len() == 0,
    {
        HttpClientCapabilityV1 { allow_all_hosts: true, allowed_hosts: Vec::new() }
    }

    /// No host can be reached.
    pub fn is_deny_all(&self) -> (r: bool)
        ensures
            r == deny_all(*self),
    {
        !self.allow_all_hosts && self.allowed_hosts.len() == 0
    }

    /// Whether `domain` may be reached.
    pub fn can_access_domain(&self, domain: &str) -> (r: bool)
        ensures
            r == (self.allow_all_hosts || host_listed(self.allowed_hosts@, domain@)),
    {
        if self.allow_all_hosts {
            return true;
        }
        let d = domain.to_owned();
        let mut i: usize = 0;
        while i < self.allowed_hosts.len()
            invariant
                i <= self.allowed_hosts.len(),
                d@ == domain@,
                forall|j: int| 0 <= j < i ==> (#[trigger] self.allowed_hosts@[j])@ != domain@,
            decreases self.allowed_hosts.len() - i,
        {
            if self.allowed_hosts[i] == d {
                return true;
            }
            i = i + 1;
        }
        false
    }

    /// A copy with the same hosts.
    pub fn duplicate(&self) -> (r: HttpClientCapabilityV1)
        ensures
            same_hosts(r, *self),
    {
        let mut hosts: Vec<String> = Vec::new();
        let mut i: usize = 0;
        while i < self.allowed_hosts.len()
            invariant
                i <= self.allowed_hosts.len(),
                hosts@.len() == i,
                forall|j: int| 0 <= j < i ==> (#[trigger] hosts@[j])@ == self.allowed_hosts@[j]@,
            decreases self.allowed_hosts.len() - i,
        {
            hosts.push(self.allowed_hosts[i].clone());
            i = i + 1;
        }
        HttpClientCapabilityV1 { allow_all_hosts: self.allow_all_hosts, allowed_hosts: hosts }
    }
}

/// The guest's HTTP client binding.
pub struct WasixHttpClientImpl {
    capabilities: Capabilities,
    /// The runtime offers an HTTP client.
    client_available: bool,
}

/// A client made for the guest, with the hosts it may reach.
#[derive(Debug)]
pub struct ClientImpl {
    pub capabilities: HttpClientCapabilityV1,
}

impl WasixHttpClientImpl {
    pub fn new(capabilities: Capabilities, client_available: bool) -> (r: WasixHttpClientImpl)
        ensures
            r.capabilities() == capabilities,
            r.client_available() == client_available,
    {
        WasixHttpClientImpl { capabilities, client_available }
    }

    pub closed spec fn capabilities(&self) -> Capabilities {
        self.capabilities
    }

    pub closed spec fn client_available(&self) -> bool {
        self.client_available
    }

    /// Makes a client. With every capability allowed it reaches every host;
    /// else it gets the environment's HTTP capability, unless that denies
    /// everything (an error). Without an HTTP client in the runtime, an
    /// error too.
    pub fn client_new(&mut self) -> (r: Result<ClientImpl, String>)
        ensures
            final(self).capabilities() == old(self).capabilities(),
            final(self).client_available() == old(self).client_available(),
            ({
                let caps = old(self).capabilities();
                if caps.insecure_allow_all {
                    &&& (r is Ok <==> old(self).client_available())
                    &&& (r matches Ok(c) ==> c.capabilities.allow_all_hosts && c.capabilities.allowed_hosts@.len() == 0)
                    &&& (r matches Err(m) ==> m@ == "No http client available"@)
                } else if deny_all(caps.http) {
                    r matches Err(m) && m@ == "Permission denied - http client not enabled"@
                } else {
                    &&& (r is Ok <==> old(self).client_available())
                    &&& (r matches Ok(c) ==> same_hosts(c.capabilities, caps.http))
                    &&& (r matches Err(m) ==> m@ == "No http client available"@)
                }
            }),
    {
        let capabilities = if self.capabilities.insecure_allow_all {
            HttpClientCapabilityV1::new_allow_all()
        } else if !self.capabilities.http.is_deny_all() {
            self.capabilities.http.duplicate()
        } else {
            return Err("Permission denied - http client not enabled".to_owned());
        };
        if !self.client_available {
            return Err("No http client available".to_owned());
        }
        Ok(ClientImpl { capabilities })
    }
}

impl ClientImpl {
    /// Refuses a request to a host the client may not reach, with the
    /// message `Permission denied: http capability not enabled for host '<host>'`.
    pub fn check_host(&self, host: &str) -> (r: Result<(), String>)
        ensures
            r is Ok <==> (self.capabilities.allow_all_hosts || host_listed(self.capabilities.allowed_hosts@, host@)),
            r matches Err(m) ==> m@ == "Permission denied: http capability not enabled for host '"@ + host@ + "'"@,
    {
        if self.capabilities.can_access_domain(host) {
            return Ok(());
        }
        let mut m = "Permission denied: http capability not enabled for host '".to_owned();
        m.append(host);
        m.append("'");
        Err(m)
    }
}

} // verus!
