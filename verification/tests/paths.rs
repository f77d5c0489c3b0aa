use kernel_handles::fs::Component;
use kernel_handles::fs::Path;
use kernel_handles::fs::PathBuf;
use kernel_handles::sys::device::BlockDeviceConfiguration;
use kernel_handles::sys::device::CharDeviceConfiguration;
use kernel_handles::sys::device::MountOptions;
use kernel_handles::sys::device::MOUNT_ALLOW_PRIVILAGED;
use kernel_handles::sys::device::MOUNT_REPLACE_ACLS;
use kernel_handles::sys::device::MOUNT_REPLACE_LEGACY_PERMISSIONS;
use kernel_handles::sys::handle::HandlePtr;
use kernel_handles::sys::kstr::KStrCPtr;

fn all_components(text: &str) -> Vec<Component<'_>> {
    let mut components = Path::new(text).components();
    let mut all = Vec::new();
    while let Some(component) = components.next() {
        all.push(component);
    }
    assert_eq!(components.next(), None);
    all
}

fn name(text: &str) -> Component<'_> {
    Component::RealPath(Path::new(text))
}

#[test]
fn components_of_an_absolute_path() {
    assert_eq!(
        all_components("/usr/./lib/../bin"),
        vec![
            Component::Root,
            name("usr"),
            Component::CurDir,
            name("lib"),
            Component::ParentDir,
            name("bin"),
        ]
    );
}

#[test]
fn components_of_a_relative_path() {
    assert_eq!(all_components("a/b.txt"), vec![name("a"), name("b.txt")]);
    assert_eq!(all_components("../x"), vec![Component::ParentDir, name("x")]);
    assert_eq!(all_components("."), vec![Component::CurDir]);
    assert_eq!(all_components(".."), vec![Component::ParentDir]);
    assert_eq!(all_components("..."), vec![name("...")]);
    assert_eq!(all_components(".a"), vec![name(".a")]);
}

#[test]
fn components_of_the_empty_path() {
    assert_eq!(all_components(""), vec![name("")]);
}

#[test]
fn components_of_the_root() {
    assert_eq!(all_components("/"), vec![Component::Root, name("")]);
}

#[test]
fn empty_pieces_are_components_too() {
    assert_eq!(all_components("a//b"), vec![name("a"), name(""), name("b")]);
    assert_eq!(all_components("a/"), vec![name("a"), name("")]);
    assert_eq!(all_components("//"), vec![Component::Root, name(""), name("")]);
}

#[test]
fn components_of_text_beyond_ascii() {
    assert_eq!(
        all_components("/höme/ü/."),
        vec![Component::Root, name("höme"), name("ü"), Component::CurDir]
    );
}

#[test]
fn cuts_fall_between_characters_of_any_width() {
    assert_eq!(all_components("é/€/😀"), vec![name("é"), name("€"), name("😀")]);
    assert_eq!(all_components("😀/"), vec![name("😀"), name("")]);
    assert_eq!(Path::new("😀/€😀").file_name(), Some(Path::new("€😀")));
    assert_eq!(Path::new("€/").file_name(), Some(Path::new("")));
    assert_eq!(Path::new("/€").file_name(), Some(Path::new("€")));
}

#[test]
fn file_name_is_what_follows_the_last_slash() {
    assert_eq!(Path::new("a/b/c.txt").file_name(), Some(Path::new("c.txt")));
    assert_eq!(Path::new("/etc").file_name(), Some(Path::new("etc")));
    assert_eq!(Path::new("dir/").file_name(), Some(Path::new("")));
    assert_eq!(Path::new("/").file_name(), Some(Path::new("")));
    assert_eq!(Path::new("a/é").file_name(), Some(Path::new("é")));
}

#[test]
fn path_without_slash_has_no_file_name() {
    assert_eq!(Path::new("c.txt").file_name(), None);
    assert_eq!(Path::new("").file_name(), None);
}

#[test]
fn len_counts_bytes() {
    assert_eq!(Path::new("").len(), 0);
    assert_eq!(Path::new("/usr/lib").len(), 8);
    assert_eq!(Path::new("héllo").len(), 6);
}

#[test]
fn path_keeps_its_text() {
    let path = Path::new("/a/b");
    assert_eq!(path.as_str(), "/a/b");
    assert_eq!(path, Path::new("/a/b"));
    assert_ne!(path, Path::new("/a/c"));
    assert!(Path::new("a") < Path::new("b"));
}

#[test]
fn path_buf_round_trip() {
    let owned = Path::new("/a/b").to_path_buf();
    assert_eq!(owned, PathBuf::from_string(String::from("/a/b")));
    assert_eq!(owned.as_path(), Path::new("/a/b"));
    assert_eq!(owned.as_path().file_name(), Some(Path::new("b")));
    assert_eq!(owned.clone().into_string(), "/a/b");
    assert_eq!(owned.into_string(), String::from("/a/b"));
}

#[test]
fn new_path_buf_is_empty() {
    assert_eq!(PathBuf::new().into_string(), "");
    assert_eq!(PathBuf::new().as_path().len(), 0);
}

#[test]
fn kernel_string_of_a_path() {
    let kstr = Path::new("/dev/ü").to_kstr_raw();
    assert_eq!(kstr.as_str(), "/dev/ü");
    assert_eq!(kstr.len(), 7);
    assert_eq!(KStrCPtr::from_str("").len(), 0);
}

#[test]
fn device_configurations_hold_what_they_are_given() {
    let block = BlockDeviceConfiguration {
        label: KStrCPtr::from_str("disk0"),
        acl: HandlePtr::from_addr(0x10),
        optimistic_io_size: 4096,
        base: 512,
        extent: -1,
    };
    assert_eq!(block.label.as_str(), "disk0");
    assert_eq!(block.acl.as_addr(), 0x10);
    assert_eq!((block.optimistic_io_size, block.base, block.extent), (4096, 512, -1));
    let tty = CharDeviceConfiguration {
        label: KStrCPtr::from_str("tty0"),
        acl: HandlePtr::null(),
        optimistic_io_size: 1,
    };
    assert_eq!(tty.label.len(), 4);
    assert!(tty.acl.is_null());
    assert_eq!(tty.optimistic_io_size, 1);
}

#[test]
fn mount_flags_are_distinct_bits() {
    assert_eq!(MOUNT_REPLACE_ACLS, 0x01);
    assert_eq!(MOUNT_ALLOW_PRIVILAGED, 0x02);
    assert_eq!(MOUNT_REPLACE_LEGACY_PERMISSIONS, 0x04);
    let options = MountOptions {
        default_acl: HandlePtr::from_addr(3),
        flags: MOUNT_REPLACE_ACLS | MOUNT_ALLOW_PRIVILAGED,
        legacy_principal_map: HandlePtr::null(),
    };
    assert_eq!(options.flags, 0x03);
    assert_eq!(options.default_acl.as_addr(), 3);
    assert!(options.legacy_principal_map.is_null());
}
