//! A callback that runs when a scope is left.
use vstd::prelude::*;

verus! {

/// Holds a callback until it is due.
pub struct ScopeGuard<F: FnOnce()> {
    pub callback: Option<F>,
}

impl<F: FnOnce()> ScopeGuard<F> {
    /// A guard whose callback is still to run.
    pub fn new(callback: F) -> (guard: Self)
        ensures
            guard.callback == Some(callback),
    {
        ScopeGuard { callback: Some(callback) }
    }

    /// Runs the callback if it has not run yet; to be called when the scope is
    /// left.
    pub fn drop(&mut self)
        requires
            old(self).callback matches Some(callback) ==> call_requires(callback, ()),
        ensures
            final(self).callback is None,
            old(self).callback matches Some(callback) ==> call_ensures(callback, (), ()),
    {
        if let Some(callback) = self.callback.take() {
            callback();
        }
    }
}

} // verus!
