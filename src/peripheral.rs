use vstd::prelude::*;

verus! {

/// Holds one piece of hardware until it is taken out, once.
pub struct Peripheral<T> {
    inner: Option<T>,
}

impl<T> View for Peripheral<T> {
    type V = Option<T>;

    closed spec fn view(&self) -> Option<T> {
        self.inner
    }
}

impl<T> Peripheral<T> {
    /// A container that holds `value`.
    pub fn new(value: T) -> (r: Peripheral<T>)
        ensures
            r@ == Some(value),
    {
        Peripheral { inner: Some(value) }
    }

    /// Whether the value is still inside.
    pub fn is_present(&self) -> (r: bool)
        ensures
            r == self@ is Some,
    {
        self.inner.is_some()
    }

    /// Moves the value out and leaves the container empty.
    ///
    /// Taking from an empty container is a programming error: two owners would
    /// drive the same hardware. It is excluded here, and the container stops the
    /// program if it happens anyway.
    pub fn take(&mut self) -> (r: T)
        requires
            old(self)@ is Some,
        ensures
            r == old(self)@->Some_0,
            final(self)@ is None,
    {
        self.inner.take().unwrap()
    }
}

} // verus!
