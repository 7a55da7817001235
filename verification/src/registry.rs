use vstd::prelude::*;

use crate::error::Error;

verus! {

/// A one-time-set binding of a counterpart participant's address, for
/// deployments where the ledger address is not known at construction
/// time and is registered later.
#[derive(Clone, Debug, PartialEq, Eq)]
pub struct Registry {
    pub binding: Option<String>,
}

impl Registry {
    /// A registry whose binding is still unset.
    pub fn new() -> (r: Registry)
        ensures
            r.binding is None,
    {
        Registry { binding: None }
    }

    /// Sets the counterpart binding exactly once. A second call fails
    /// with `AlreadyRegistered` and the first value is retained.
    pub fn register(&mut self, counterpart: String) -> (r: Result<(), Error>)
        ensures
            old(self).binding is None ==> r is Ok && final(self).binding == Some(counterpart),
            old(self).binding is Some ==> r == Err::<(), Error>(Error::AlreadyRegistered)
                && *final(self) == *old(self),
    {
        match self.binding {
            None => {
                self.binding = Some(counterpart);
                Ok(())
            },
            Some(_) => Err(Error::AlreadyRegistered),
        }
    }

    /// The registered counterpart address, or `NotRegistered` while the
    /// binding is still unset.
    pub fn registered(&self) -> (r: Result<&String, Error>)
        ensures
            self.binding matches Some(b) ==> (r matches Ok(a) && *a == b),
            self.binding is None ==> r == Err::<&String, Error>(Error::NotRegistered),
    {
        match &self.binding {
            Some(addr) => Ok(addr),
            None => Err(Error::NotRegistered),
        }
    }
}

} // verus!
