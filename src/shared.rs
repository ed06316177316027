use vstd::prelude::*;

verus! {

/// A shared borrow of a `T` together with a `bool`.
///
/// The type `T` must require at least two-byte alignment, so that the low bit
/// of any address of a `T` is free to carry the flag. The lifetime `'a` is the
/// lifetime of the original borrow: a `RefWithFlag` cannot outlive the value it
/// refers to, and neither can any reference obtained from it.
pub struct RefWithFlag<'a, T> {
    ptr: &'a T,
    bit: bool,
}

impl<'a, T> RefWithFlag<'a, T> {
    /// The value referred to.
    pub closed spec fn value(&self) -> T {
        *self.ptr
    }

    /// The flag carried beside the reference.
    pub closed spec fn flag(&self) -> bool {
        self.bit
    }

    /// Wraps `ptr` with the flag `bit`. The alignment of `T` must be even.
    pub fn new(ptr: &'a T, bit: bool) -> (r: Self)
        requires
            vstd::layout::align_of::<T>() % 2 == 0,
        ensures
            r.value() == *ptr,
            r.flag() == bit,
    {
        RefWithFlag { ptr, bit }
    }

    /// Like `new`, but checks the alignment of `T` itself: `None` exactly when
    /// it is odd.
    pub fn try_new(ptr: &'a T, bit: bool) -> (r: Option<Self>)
        ensures
            r is None <==> vstd::layout::align_of::<T>() % 2 != 0,
            r matches Some(t) ==> t.value() == *ptr && t.flag() == bit,
    {
        if core::mem::align_of::<T>() % 2 == 0 {
            Some(RefWithFlag::new(ptr, bit))
        } else {
            None
        }
    }

    /// The referred value, borrowed for as long as the original borrow lasts.
    pub fn as_ref(&self) -> (r: &'a T)
        ensures
            *r == self.value(),
    {
        self.ptr
    }

    /// The flag.
    pub fn as_bool(&self) -> (r: bool)
        ensures
            r == self.flag(),
    {
        self.bit
    }
}

impl<'a, T> core::ops::Deref for RefWithFlag<'a, T> {
    type Target = T;

    fn deref(&self) -> (r: &T)
        ensures
            *r == self.value(),
    {
        self.as_ref()
    }
}

} // verus!
