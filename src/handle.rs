//! A value carried between the host's thread and the plugin's own threads.

use vstd::prelude::*;

verus! {

/// Wraps a value that is handed from one thread of the host to another,
/// such as the module identity that the attach notification delivers.
pub struct ThreadedWrapper<T>(T);

impl<T> View for ThreadedWrapper<T> {
    type V = T;

    closed spec fn view(&self) -> T {
        self.0
    }
}

impl<T> ThreadedWrapper<T> {
    /// Wraps `t`.
    pub fn new(t: T) -> (r: Self)
        ensures
            r@ == t,
    {
        ThreadedWrapper(t)
    }

    /// The wrapped value.
    pub fn get(&self) -> (r: &T)
        ensures
            *r == self@,
    {
        &self.0
    }
}

impl<T> core::ops::Deref for ThreadedWrapper<T> {
    type Target = T;

    fn deref(&self) -> &T {
        &self.0
    }
}

} // verus!
