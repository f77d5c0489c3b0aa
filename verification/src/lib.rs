//! Ownership, borrowing and cross-thread sharing of kernel object handles.
//!
//! The kernel is never called from here. Every operation that needs the
//! kernel hands back the call to make as a plain value, and takes the
//! kernel's answer as a plain value, so that each decision of the layer is
//! a function with a contract.

pub mod fs;
pub mod handle;
pub mod result;
pub mod sys;
