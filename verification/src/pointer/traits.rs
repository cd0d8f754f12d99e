//! The abstract pointer capability that the allocator core programs
//! against.  Exactly one conforming implementation exists per target
//! architecture and is selected when the crate is built, so pointer
//! operations cost nothing beyond the bit operations themselves.

use crate::pointer::x86_64::RawPtr;
use crate::pointer::x86_64::TAG_NATIVE;
use crate::pointer::x86_64::tag_of_word;
use vstd::prelude::*;

verus! {

/// The operations the allocator core may assume of any pointer
/// representation, regardless of target architecture.
pub trait Pointer: Sized + Copy {
    /// The machine word this pointer is stored as.
    spec fn ptr_word(self) -> u64;

    /// The all-zero pointer.
    fn null() -> (r: Self)
        ensures
            r.ptr_word() == 0,
    ;

    /// The architecture's reserved non-dereferenceable sentinel,
    /// distinct from `null`.
    fn dangling() -> (r: Self)
        ensures
            r.ptr_word() != 0,
    ;

    /// The encoded address.  Only a word whose tag bits are the `Native`
    /// encoding holds a real process address, so only such a pointer may
    /// be decoded.
    fn as_ptr(&self) -> (r: u64)
        requires
            tag_of_word((*self).ptr_word()) == TAG_NATIVE,
        ensures
            r == (*self).ptr_word(),
    ;

    /// The encoded address, for call sites that need a mutable system
    /// pointer; the bits returned are the same as `as_ptr`'s.
    fn as_mut_ptr(&self) -> (r: u64)
        requires
            tag_of_word((*self).ptr_word()) == TAG_NATIVE,
        ensures
            r == (*self).ptr_word(),
    ;

    /// Converts to the architecture's canonical untyped raw
    /// representation without changing the encoded bits.
    fn upcast(self) -> (r: RawPtr)
        ensures
            r.word() == self.ptr_word(),
    ;

    /// True when the whole word is zero, independent of the kind tag.
    fn is_null(self) -> (r: bool)
        ensures
            r == (self.ptr_word() == 0),
    ;
}

} // verus!
