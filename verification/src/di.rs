//! A minimal service container.
//!
//! An explicit slot that a collaborator is registered into once at
//! startup and borrowed from thereafter: `insert` stores the service,
//! `get` hands it back if one was stored.

use vstd::prelude::*;

verus! {

/// Holds at most one service of type `T`.
pub struct DiContainer<T> {
    pub service: Option<T>,
}

impl<T> DiContainer<T> {
    pub fn new() -> (r: DiContainer<T>)
        ensures
            r.service is None,
    {
        DiContainer { service: None }
    }

    /// Register a service, replacing any previously registered one.
    pub fn insert(&mut self, service: T)
        ensures
            final(self).service == Some(service),
    {
        self.service = Some(service);
    }

    /// Borrow the registered service: `Some` exactly when one was
    /// registered, and then precisely the stored value.
    pub fn get(&self) -> (r: Option<&T>)
        ensures
            r is Some <==> self.service is Some,
            r matches Some(v) ==> self.service == Some(*v),
    {
        match &self.service {
            Some(v) => Some(v),
            None => None,
        }
    }
}

impl<T> Default for DiContainer<T> {
    fn default() -> (r: Self)
        ensures
            r.service is None,
    {
        DiContainer { service: None }
    }
}

} // verus!
