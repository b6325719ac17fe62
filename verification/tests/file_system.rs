use vmm_devices::passthrough_fs::{
    create_plan, directory_flags, directory_mode, file_type, flags_after_create, path_len,
    update_open_flags, AttrStep, CachePolicy, FileAttr, FileStat, FileType, FsConfig, LookupStep,
    OpenFlags, OpenOption, PassthroughFs, SetTime, SetattrValid, Timeout, EBADF, ROOT_ID, S_IFDIR,
    S_IFREG,
};

/// The bits of the host.
fn bits() -> OpenFlags {
    OpenFlags {
        rdonly: 0,
        wronly: 1,
        nofollow: 0x100,
        cloexec: 0x100_0000,
        directory: 0x10_0000,
        creat: 0x200,
        excl: 0x800,
        noctty: 0x2_0000,
    }
}

fn config(cache_policy: CachePolicy, writeback: bool) -> FsConfig {
    FsConfig {
        timeout: Timeout { secs: 5, nanos: 7 },
        cache_policy,
        writeback,
    }
}

fn stat(ino: u64, mode: u16) -> FileStat {
    FileStat { ino, dev: 1, mode }
}

fn mounted(cache_policy: CachePolicy) -> PassthroughFs {
    let mut fs = PassthroughFs::new("tag", config(cache_policy, true));
    fs.set_root_dir("/".to_owned());
    assert!(fs.init(stat(2, S_IFDIR), 100, bits(), true).writeback_cache);
    fs
}

#[test]
fn root_is_known_after_mount() {
    let fs = mounted(CachePolicy::Auto);
    let root = fs.find_inode(ROOT_ID).unwrap();
    assert_eq!(root.refcount, 2);
    assert_eq!(root.filetype, FileType::Directory);
    assert_eq!(root.file, 100);
    assert_eq!(fs.find_inode(7).err(), Some(EBADF));
}

#[test]
fn writeback_needs_both_sides() {
    let mut fs = PassthroughFs::new("tag", config(CachePolicy::Auto, true));
    let options = fs.init(stat(2, S_IFDIR), 100, bits(), false);
    assert!(options.do_readdirplus && options.readdirplus_auto && options.dont_mask);
    assert!(!options.writeback_cache);
    let mut fs = PassthroughFs::new("tag", config(CachePolicy::Auto, false));
    assert!(!fs.init(stat(2, S_IFDIR), 100, bits(), true).writeback_cache);
}

#[test]
fn forgetting_undoes_a_lookup() {
    let mut fs = mounted(CachePolicy::Auto);
    assert!(matches!(
        fs.start_lookup(stat(30, S_IFREG), bits()),
        LookupStep::Open(_)
    ));
    let (entry, kept) = fs.add_entry(stat(30, S_IFREG), 130, 0);
    assert!(kept);
    assert_eq!(entry.attr_timeout, Timeout { secs: 5, nanos: 7 });
    assert_eq!(entry.entry_timeout, entry.attr_timeout);
    // The second look-up finds the same file.
    match fs.start_lookup(stat(30, S_IFREG), bits()) {
        LookupStep::Known(again) => assert_eq!(again.inode, entry.inode),
        LookupStep::Open(_) => panic!("the file is known"),
    }
    assert_eq!(fs.find_inode(entry.inode).unwrap().refcount, 2);
    let (third, kept) = fs.add_entry(stat(30, S_IFREG), 131, 0);
    assert!(!kept);
    assert_eq!(third.inode, entry.inode);
    fs.forget(entry.inode, 2);
    assert_eq!(fs.find_inode(entry.inode).unwrap().refcount, 1);
    fs.batch_forget(&[(entry.inode, 1), (99, 4)]);
    assert_eq!(fs.find_inode(entry.inode).err(), Some(EBADF));
    assert!(fs.find_inode(ROOT_ID).is_ok());
}

#[test]
fn release_undoes_open() {
    let mut fs = mounted(CachePolicy::Always);
    let (entry, _) = fs.add_entry(stat(30, S_IFREG), 130, 0);
    assert!(fs.start_open(entry.inode, 0, bits()).is_ok());
    assert_eq!(fs.start_open(77, 0, bits()).err(), Some(EBADF));
    let (handle, option) = fs.finish_open(entry.inode, 140);
    assert_eq!(option, OpenOption::KeepCache);
    assert_eq!(fs.find_handle(handle, entry.inode).unwrap().file, 140);
    assert_eq!(fs.find_handle(handle, ROOT_ID).err(), Some(EBADF));
    assert_eq!(fs.do_release(ROOT_ID, handle), Err(EBADF));
    assert_eq!(fs.do_release(entry.inode, handle), Ok(()));
    assert_eq!(fs.do_release(entry.inode, handle), Err(EBADF));
}

#[test]
fn cache_policy_decides_the_options() {
    assert_eq!(
        mounted(CachePolicy::Never).get_cache_open_options(),
        OpenOption::DirectIo
    );
    assert_eq!(
        mounted(CachePolicy::Auto).get_cache_open_options(),
        OpenOption::Default
    );
}

#[test]
fn attributes_are_set_in_order() {
    let mut fs = mounted(CachePolicy::Auto);
    let (entry, _) = fs.add_entry(stat(30, S_IFREG), 130, 0);
    let (handle, _) = fs.finish_open(entry.inode, 140);
    let attr = FileAttr {
        mode: 0o600,
        uid: 1,
        gid: 2,
        size: 10,
        atime: 3,
        atime_nsec: 4,
        mtime: 5,
        mtime_nsec: 6,
    };
    let valid = SetattrValid {
        mode: true,
        uid: true,
        gid: false,
        size: true,
        atime: true,
        atime_now: true,
        mtime: false,
        mtime_now: false,
    };
    let steps = fs.setattr(entry.inode, attr, Some(handle), valid).unwrap();
    assert_eq!(
        steps,
        vec![
            AttrStep::Chmod {
                file: 140,
                mode: 0o600
            },
            AttrStep::Chown {
                file: 140,
                uid: 1,
                gid: u32::MAX
            },
            AttrStep::Truncate {
                file: 140,
                size: 10
            },
            AttrStep::SetTimes {
                file: 140,
                atime: SetTime::Now,
                mtime: SetTime::Omit
            },
            AttrStep::Stat { file: 130 },
        ]
    );
    let steps = fs.setattr(entry.inode, attr, None, valid).unwrap();
    assert!(steps.contains(&AttrStep::ReopenAndTruncate {
        file: 130,
        size: 10
    }));
    assert_eq!(
        fs.setattr(88, attr, None, valid).err(),
        Some(EBADF)
    );
}

#[test]
fn file_types_and_modes() {
    assert_eq!(file_type(S_IFREG | 0o644), FileType::Regular);
    assert_eq!(file_type(S_IFDIR), FileType::Directory);
    assert_eq!(file_type(0xa000), FileType::Other);
    assert_eq!(directory_mode(0o777, 0o022), 0o755);
}

#[test]
fn open_flags() {
    assert_eq!(
        update_open_flags(bits(), 0x100 | 2) & 0x100_0000,
        0x100_0000
    );
    let (flags, mode) = create_plan(bits(), 2, 0o666, 0o022);
    assert_eq!(flags & 0xa00, 0x200);
    assert_eq!(flags & 0x100, 0x100);
    assert_eq!(mode, 0o644);
    assert_eq!(flags_after_create(bits(), 0xa02) & 0xa00, 0);
    assert_eq!(directory_flags(bits(), 0), 0x10_0000);
}

#[test]
fn path_ends_at_the_first_zero() {
    assert_eq!(path_len(b"/tmp\0x\0"), Some(4));
    assert_eq!(path_len(b"/tmp"), None);
}

#[test]
fn mounting_again_replaces_the_root() {
    let mut fs = mounted(CachePolicy::Auto);
    let (entry, _) = fs.add_entry(stat(30, S_IFDIR), 130, 0);
    let (other, _) = fs.add_entry(stat(31, S_IFREG), 131, 0);
    assert_eq!(fs.keep_rds(), vec![100, 130, 131]);
    // The new root was known by another inode.
    fs.init(stat(30, S_IFDIR), 200, bits(), true);
    assert_eq!(fs.find_inode(ROOT_ID).unwrap().ino, 30);
    assert_eq!(fs.find_inode(ROOT_ID).unwrap().refcount, 2);
    assert_eq!(fs.find_inode(entry.inode).err(), Some(EBADF));
    assert_eq!(fs.find_inode(other.inode).unwrap().file, 131);
    assert_eq!(fs.keep_rds(), vec![200, 131]);
    match fs.start_lookup(stat(30, S_IFDIR), bits()) {
        LookupStep::Known(again) => assert_eq!(again.inode, ROOT_ID),
        LookupStep::Open(_) => panic!("the file is known"),
    }
}
