//! Tagged-pointer representation layer for a low-level memory allocator.
//!
//! Every address the allocator manipulates is stored as a single machine
//! word that carries a kind tag in its top bits, a reserved handle field,
//! and an address/offset field in its low bits.  This crate provides the
//! closed set of pointer kinds, the bit-layout constants, the untyped and
//! typed pointer wrappers, and the capability interface that an
//! architecture-specific pointer representation satisfies.

pub mod const_init;
pub mod pointer;

pub use pointer::Pointer;
pub use pointer::x86_64::BadPtrKind;
pub use pointer::x86_64::Ptr;
pub use pointer::x86_64::PtrKind;
pub use pointer::x86_64::RawPtr;
