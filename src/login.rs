//! Arguments of logging in to a package registry.

use vstd::prelude::*;

verus! {

/// The registry used when none is named.
pub const DEFAULT_REGISTRY: &'static str = "https://registry.wapm.io";

/// Registry to log in to, and the login token if it was given.
#[derive(Debug, Clone)]
pub struct Login {
    pub registry: Option<String>,
    pub token: Option<String>,
}

impl Login {
    /// The registry named, or the default one.
    pub fn registry_or_default(&self) -> (r: String)
        ensures
            self.registry matches Some(s) ==> r@ == s@,
            self.registry is None ==> r@ == DEFAULT_REGISTRY@,
    {
        match &self.registry {
            Some(s) => s.clone(),
            None => DEFAULT_REGISTRY.to_owned(),
        }
    }

    /// The token given, if any; without one the user has to be asked.
    pub fn given_token(&self) -> (r: Option<String>)
        ensures
            self.token matches Some(s) ==> r matches Some(t) && t@ == s@,
            self.token is None ==> r is None,
    {
        match &self.token {
            Some(s) => Some(s.clone()),
            None => None,
        }
    }
}

} // verus!
