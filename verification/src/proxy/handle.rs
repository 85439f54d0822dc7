//! A cloneable, thread-safe handle to the proxy's live routing.

use crate::proxy::upstream::Routing;
use std::sync::{Arc, Mutex};
use vstd::prelude::*;

verus! {

/// `std::sync::Mutex`, held opaquely.
#[verifier::external_type_specification]
#[verifier::external_body]
#[verifier::reject_recursive_types(T)]
pub struct ExMutex<T: ?Sized>(Mutex<T>);

/// `Mutex::new`: the lock is created around `t`; its contents are not
/// visible to Verus.
pub assume_specification<T>[ Mutex::<T>::new ](t: T) -> Mutex<T>;

/// `Mutex::lock`, then a clone of the guarded routing; `None` when the lock
/// is poisoned.
///
/// Trusted for nothing but its signature: what it returns depends on what
/// other threads stored, so no clause states it.
#[verifier::external_body]
fn lock_and_clone(m: &Mutex<Routing>) -> Option<Routing> {
    m.lock().ok().map(|g| g.clone())
}

/// `Mutex::lock`, then a store of `routing`; `false` when the lock is
/// poisoned (nothing is stored).
///
/// Trusted for nothing but its signature: the store is visible only to
/// later locks, which Verus does not see.
#[verifier::external_body]
fn lock_and_store(m: &Mutex<Routing>, routing: Routing) -> bool {
    match m.lock() {
        Ok(mut g) => {
            *g = routing;
            true
        },
        Err(_) => false,
    }
}

/// A cloneable, thread-safe handle to the proxy's live [`Routing`].
///
/// The proxy clones the current routing per accepted connection, so swapping
/// the value behind this handle takes effect on the next connection.
#[derive(Clone)]
pub struct RoutingHandle(Arc<Mutex<Routing>>);

impl RoutingHandle {
    /// Wrap an initial routing in a fresh shared handle.
    pub fn new(routing: Routing) -> Self {
        RoutingHandle(Arc::new(Mutex::new(routing)))
    }

    /// A clone of the current routing (`Direct` if the lock is poisoned rather
    /// than panicking).
    pub fn current(&self) -> Routing {
        match lock_and_clone(&self.0) {
            Some(r) => r,
            None => Routing::Direct,
        }
    }

    /// Replace the routing; observed by the next accepted connection.
    pub fn set(&self, routing: Routing) {
        let _ = lock_and_store(&self.0, routing);
    }
}

} // verus!
