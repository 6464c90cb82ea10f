//! Views that wait on a future, with a view shown until it resolves.
use core::future::Future;
use vstd::prelude::*;

verus! {

/// Turns a future into a view that waits on it.
pub trait FutureViewExt: Sized {
    /// The view that waits on this future, with nothing shown meanwhile.
    fn suspend(self) -> (r: Suspend<(), Self>) where Self: Future
        ensures
            r.spec_fut() == self,
            r.spec_fallback() == (),
    {
        Suspend { fallback: (), fut: self }
    }
}

impl<F: Future + Sized> FutureViewExt for F {}

/// A view that waits on a future and shows a fallback until it resolves.
pub struct Suspend<Fal, Fut> {
    fallback: Fal,
    fut: Fut,
}

impl<Fal, Fut> Suspend<Fal, Fut> {
    pub closed spec fn spec_fallback(&self) -> Fal {
        self.fallback
    }

    pub closed spec fn spec_fut(&self) -> Fut {
        self.fut
    }

    /// The same future, with another fallback.
    pub fn with_fallback<Fal2>(self, fallback: Fal2) -> (r: Suspend<Fal2, Fut>)
        ensures
            r.spec_fallback() == fallback,
            r.spec_fut() == self.spec_fut(),
    {
        let fut = self.fut;
        Suspend { fallback, fut }
    }
}

} // verus!
