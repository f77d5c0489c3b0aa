//! Plain-data mirror of the kernel interface: handle values, the kinds of
//! kernel object they name, and the result codes of kernel calls.

pub mod debug;
pub mod device;
pub mod fs;
pub mod handle;
pub mod io;
pub mod kstr;
pub mod permission;
pub mod result;
pub mod thread;
