//! The semantics of the generated operation suite, stated once and for all:
//! a generic pair of a common field and a variant payload, with the eleven
//! operations the emitter binds to every generated wrapper type.
//!
//! Each generated wrapper type is an instance of this shape, with `C` the
//! configured common field type and `V` the generated variants-only type.
//! The contracts here are the documented input/output semantics of the
//! generated operations: what a setter leaves behind, what an accessor
//! observes, and how a mutable reference handed out relates to the value the
//! wrapper holds afterwards.

use vstd::prelude::*;

verus! {

/// A wrapper value: the common field factored out once, beside the variant
/// payload.
pub struct Wrapper<C, V> {
    pub common: C,
    pub variant: V,
}

impl<C, V> Wrapper<C, V> {
    /// Construct a wrapper from a common value and a variant value.
    pub fn new(common: C, variant: V) -> (r: Wrapper<C, V>)
        ensures
            r.common == common,
            r.variant == variant,
    {
        Wrapper { common, variant }
    }

    /// Read-only reference to the common field.
    pub fn common(&self) -> (r: &C)
        ensures
            *r == self.common,
    {
        &self.common
    }

    /// Mutable reference to the common field. Whatever the caller writes
    /// through it is what the wrapper's common field holds afterwards; the
    /// variant payload is untouched.
    pub fn common_mut(&mut self) -> (r: &mut C)
        ensures
            *r == old(self).common,
            final(self).common == *final(r),
            final(self).variant == old(self).variant,
    {
        &mut self.common
    }

    /// Replace the common field's value.
    pub fn set_common(&mut self, common: C)
        ensures
            final(self).common == common,
            final(self).variant == old(self).variant,
    {
        self.common = common;
    }

    /// Read-only reference to the variant payload.
    pub fn variant(&self) -> (r: &V)
        ensures
            *r == self.variant,
    {
        &self.variant
    }

    /// Mutable reference to the variant payload. Whatever the caller writes
    /// through it is what the wrapper's variant payload holds afterwards; the
    /// common field is untouched.
    pub fn variant_mut(&mut self) -> (r: &mut V)
        ensures
            *r == old(self).variant,
            final(self).variant == *final(r),
            final(self).common == old(self).common,
    {
        &mut self.variant
    }

    /// Replace the variant payload's value.
    pub fn set_variant(&mut self, variant: V)
        ensures
            final(self).variant == variant,
            final(self).common == old(self).common,
    {
        self.variant = variant;
    }

    /// A separately named mutable reference to the variant payload, identical
    /// in effect to `variant_mut`; kept as its own operation for call-site
    /// compatibility.
    pub fn as_ref_mut(&mut self) -> (r: &mut V)
        ensures
            *r == old(self).variant,
            final(self).variant == *final(r),
            final(self).common == old(self).common,
    {
        &mut self.variant
    }

    /// View the wrapper read-only as its variant payload.
    pub fn as_ref(&self) -> (r: &V)
        ensures
            *r == self.variant,
    {
        &self.variant
    }

    /// Transparent read-only forwarding to the variant payload: the wrapper
    /// acts as the payload without an explicit accessor call.
    pub fn deref(&self) -> (r: &V)
        ensures
            *r == self.variant,
    {
        &self.variant
    }

    /// Transparent mutable forwarding to the variant payload.
    pub fn deref_mut(&mut self) -> (r: &mut V)
        ensures
            *r == old(self).variant,
            final(self).variant == *final(r),
            final(self).common == old(self).common,
    {
        &mut self.variant
    }
}

} // verus!
