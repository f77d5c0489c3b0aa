//! Devices, as the kernel describes them.

use super::fs::FileHandle;
use super::handle::Handle;
use super::handle::HandlePtr;
use super::io::IOHandle;
use super::kstr::KStrCPtr;
use vstd::prelude::*;

verus! {

/// What a block device is created with.
pub struct BlockDeviceConfiguration<'a> {
    /// A name for people to read.
    pub label: KStrCPtr<'a>,
    /// The access control list that says who may open the device.
    pub acl: HandlePtr<FileHandle>,
    /// The size in bytes at which I/O on the device is at least as cheap as
    /// at any smaller size.
    pub optimistic_io_size: u64,
    /// Where in the backing stream the device begins. Zero unless the
    /// stream is random-access.
    pub base: u64,
    /// The largest size of the backing stream that the device exposes.
    pub extent: i64,
}

/// What a character device is created with.
pub struct CharDeviceConfiguration<'a> {
    /// A name for people to read.
    pub label: KStrCPtr<'a>,
    /// The access control list that says who may open the device.
    pub acl: HandlePtr<FileHandle>,
    /// The size in bytes at which I/O on the device is at least as cheap as
    /// at any smaller size.
    pub optimistic_io_size: u64,
}

/// An open device. Every device is also an I/O stream.
#[derive(Debug)]
pub struct DeviceHandle(Handle);

/// Treat every object of the mounted filesystem as having the default
/// access control list.
pub const MOUNT_REPLACE_ACLS: u32 = 0x01;

/// Honour security contexts and legacy set-user and set-group bits on
/// mounted objects.
pub const MOUNT_ALLOW_PRIVILAGED: u32 = 0x02;

/// Treat every object of the mounted filesystem as having the default
/// access control list where the filesystem knows legacy permissions only.
pub const MOUNT_REPLACE_LEGACY_PERMISSIONS: u32 = 0x04;

/// How a filesystem is mounted.
pub struct MountOptions {
    /// The access control list to use where the filesystem has none, or
    /// where the flags ask for its replacement.
    pub default_acl: HandlePtr<FileHandle>,
    /// Any of the `MOUNT_` flags.
    pub flags: u32,
    /// For a filesystem with legacy permissions: the stream that maps its
    /// principals to those of the kernel.
    pub legacy_principal_map: HandlePtr<IOHandle>,
}

} // verus!
