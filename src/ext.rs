use vstd::prelude::*;

verus! {

/// Extra methods on every future.
pub trait FutureExt: core::future::Future + Sized {
    /// Moves the future to the heap, so that futures of different types can
    /// be held behind one pointer type.
    fn into_box(self) -> (r: Box<Self>)
        ensures
            *r == self,
    {
        Box::new(self)
    }
}

impl<F: core::future::Future> FutureExt for F {}

} // verus!
