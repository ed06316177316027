//! A reference and a one-bit flag kept together as one value.
//!
//! `RefWithFlag` wraps a shared borrow and `RefWithFlagMut` an exclusive one.
//! Both require the referred type to have an even alignment, the condition
//! under which the low bit of its address is always free to hold the flag.
//! Each is tied by its lifetime to the original borrow, so it can neither
//! outlive the value it refers to nor hand out a reference that does.

mod exclusive;
mod shared;

pub use exclusive::RefWithFlagMut;
pub use shared::RefWithFlag;
