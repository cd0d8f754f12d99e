//! Pointer representations: the abstract capability interface and the one
//! concrete, architecture-specific implementation provided today.

pub mod traits;
pub mod x86_64;

pub use traits::Pointer;
pub use x86_64::Ptr;
pub use x86_64::RawPtr;
