use vstd::prelude::*;

verus! {

/// An exclusive borrow of a `T` together with a `bool`.
///
/// Like `RefWithFlag`, but built from `&mut T`: the flag can be changed in
/// place and the referred value can be written through it. Because it holds
/// the exclusive borrow for `'a`, no other reference to the value can be live
/// while it exists.
pub struct RefWithFlagMut<'a, T> {
    ptr: &'a mut T,
    bit: bool,
}

impl<'a, T> RefWithFlagMut<'a, T> {
    /// The current contents of the referred value.
    pub closed spec fn value(&self) -> T {
        *self.ptr
    }

    /// The flag carried beside the reference.
    pub closed spec fn flag(&self) -> bool {
        self.bit
    }

    /// The same borrow, carrying `bit` as its flag.
    pub closed spec fn with_flag(self, bit: bool) -> Self {
        RefWithFlagMut { bit, ..self }
    }

    /// Wraps `ptr` with the flag `bit`. The alignment of `T` must be even.
    pub fn new(ptr: &'a mut T, bit: bool) -> (r: Self)
        requires
            vstd::layout::align_of::<T>() % 2 == 0,
        ensures
            r.value() == *old(ptr),
            r.flag() == bit,
    {
        RefWithFlagMut { ptr, bit }
    }

    /// Like `new`, but checks the alignment of `T` itself: `None` exactly when
    /// it is odd.
    pub fn try_new(ptr: &'a mut T, bit: bool) -> (r: Option<Self>)
        ensures
            r is None <==> vstd::layout::align_of::<T>() % 2 != 0,
            r matches Some(t) ==> t.value() == *old(ptr) && t.flag() == bit,
    {
        if core::mem::align_of::<T>() % 2 == 0 {
            Some(RefWithFlagMut::new(ptr, bit))
        } else {
            None
        }
    }

    /// The referred value, for reading.
    pub fn as_ref(&self) -> (r: &T)
        ensures
            *r == self.value(),
    {
        &*self.ptr
    }

    /// The referred value, for writing. What is written through the result is
    /// what `value` holds afterwards; the flag is left as it was.
    pub fn as_mut(&mut self) -> (r: &mut T)
        ensures
            *r == old(self).value(),
            final(self).value() == *final(r),
            final(self).flag() == old(self).flag(),
    {
        &mut *self.ptr
    }

    /// The flag.
    pub fn as_bool(&self) -> (r: bool)
        ensures
            r == self.flag(),
    {
        self.bit
    }

    /// Replaces the flag with `bit`, leaving the referred value untouched.
    pub fn set_bool(&mut self, bit: bool)
        ensures
            final(self).flag() == bit,
            final(self).value() == old(self).value(),
            *final(self) == old(self).with_flag(bit),
    {
        self.bit = bit;
    }

    /// Setting the flag is observed by `as_bool` and leaves the referred value
    /// as it was; setting it again to the same value changes nothing, and of
    /// two settings in a row the second one decides.
    pub proof fn lemma_with_flag(self, b: bool, c: bool)
        ensures
            self.with_flag(b).flag() == b,
            self.with_flag(b).value() == self.value(),
            self.with_flag(b).with_flag(b) == self.with_flag(b),
            self.with_flag(b).with_flag(c) == self.with_flag(c),
    {
    }
}

impl<'a, T> core::ops::Deref for RefWithFlagMut<'a, T> {
    type Target = T;

    fn deref(&self) -> (r: &T)
        ensures
            *r == self.value(),
    {
        self.as_ref()
    }
}

impl<'a, T> core::ops::DerefMut for RefWithFlagMut<'a, T> {
    fn deref_mut(&mut self) -> (r: &mut T)
        ensures
            *r == old(self).value(),
            final(self).value() == *final(r),
            final(self).flag() == old(self).flag(),
    {
        self.as_mut()
    }
}

} // verus!
