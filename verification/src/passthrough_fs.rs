//! A file system that passes requests on to a directory of the host.
use std::collections::BTreeMap;
use vstd::prelude::*;

verus! {

pub const EBADF: i32 = 9;

/// The inode of the directory that is shared.
pub const ROOT_ID: u64 = 1;

/// How often the root counts as looked up at the start.
pub const ROOT_REFCOUNT: u64 = 2;

pub const S_IFMT: u16 = 0xf000;

pub const S_IFREG: u16 = 0x8000;

pub const S_IFDIR: u16 = 0x4000;

/// What kind of file an inode is.
#[derive(Clone, Copy, Debug, PartialEq, Eq, Structural)]
pub enum FileType {
    Regular,
    Directory,
    Other,
}

pub open spec fn file_type_of(mode: u16) -> FileType {
    if mode & S_IFMT == S_IFREG {
        FileType::Regular
    } else if mode & S_IFMT == S_IFDIR {
        FileType::Directory
    } else {
        FileType::Other
    }
}

/// The kind of a file with a mode.
pub fn file_type(mode: u16) -> (r: FileType)
    ensures
        r == file_type_of(mode),
{
    let kind: u16 = mode & S_IFMT;
    if kind == S_IFREG {
        FileType::Regular
    } else if kind == S_IFDIR {
        FileType::Directory
    } else {
        FileType::Other
    }
}

/// What the host says of a file.
#[derive(Clone, Copy, Debug, PartialEq, Eq, Structural)]
pub struct FileStat {
    pub ino: u64,
    pub dev: i64,
    pub mode: u16,
}

/// A file that the guest knows.
#[derive(Clone, Copy, Debug, PartialEq, Eq, Structural)]
pub struct InodeData {
    pub inode: u64,
    pub ino: u64,
    pub dev: i64,
    /// The open file of the host.
    pub file: u64,
    pub open_flags: i32,
    /// How often the guest has looked the file up.
    pub refcount: u64,
    pub filetype: FileType,
}

/// A file that the guest has open.
#[derive(Clone, Copy, Debug, PartialEq, Eq, Structural)]
pub struct HandleData {
    pub handle: u64,
    pub inode: u64,
    /// The open file of the host.
    pub file: u64,
}

/// When the guest may keep what it has read.
#[derive(Clone, Copy, Debug, PartialEq, Eq, Structural)]
pub enum CachePolicy {
    Never,
    Auto,
    Always,
}

/// What the guest is told about the cache when it opens a file.
#[derive(Clone, Copy, Debug, PartialEq, Eq, Structural)]
pub enum OpenOption {
    DirectIo,
    KeepCache,
    Default,
}

/// Bits of the host for opening files.
#[derive(Clone, Copy, Debug, PartialEq, Eq, Structural)]
pub struct OpenFlags {
    pub rdonly: i32,
    pub wronly: i32,
    pub nofollow: i32,
    pub cloexec: i32,
    pub directory: i32,
    pub creat: i32,
    pub excl: i32,
    pub noctty: i32,
}

/// How long something stays valid.
#[derive(Clone, Copy, Debug, PartialEq, Eq, Structural)]
pub struct Timeout {
    pub secs: u64,
    pub nanos: u32,
}

/// Settings of a file system.
#[derive(Clone, Copy, Debug, PartialEq, Eq, Structural)]
pub struct FsConfig {
    pub timeout: Timeout,
    pub cache_policy: CachePolicy,
    pub writeback: bool,
}

/// What the guest gets for a file that it looked up.
#[derive(Clone, Copy, Debug, PartialEq, Eq, Structural)]
pub struct Entry {
    pub inode: u64,
    pub generation: u64,
    pub attr_timeout: Timeout,
    pub entry_timeout: Timeout,
}

/// What the file system can do, as it tells the guest.
#[derive(Clone, Copy, Debug, PartialEq, Eq, Structural)]
pub struct FsOptions {
    /// Directories can be read together with the attributes of their files.
    pub do_readdirplus: bool,
    /// The guest chooses when to read directories so.
    pub readdirplus_auto: bool,
    /// The guest's umask is not applied.
    pub dont_mask: bool,
    /// The guest may write back later.
    pub writeback_cache: bool,
}

/// What is to be done for a look-up.
#[derive(Clone, Copy, Debug, PartialEq, Eq, Structural)]
pub enum LookupStep {
    /// The guest knows the file.
    Known(Entry),
    /// The file is to be opened with these flags.
    Open(i32),
}

/// What is to be done for an open.
#[derive(Clone, Copy, Debug, PartialEq, Eq, Structural)]
pub struct ReopenPlan {
    pub file: u64,
    pub flags: i32,
}

/// What the guest wants to set of a file.
#[derive(Clone, Copy, Debug, PartialEq, Eq, Structural)]
pub struct SetattrValid {
    pub mode: bool,
    pub uid: bool,
    pub gid: bool,
    pub size: bool,
    pub atime: bool,
    pub atime_now: bool,
    pub mtime: bool,
    pub mtime_now: bool,
}

/// What the guest wants to set a file's attributes to.
#[derive(Clone, Copy, Debug, PartialEq, Eq, Structural)]
pub struct FileAttr {
    pub mode: u16,
    pub uid: u32,
    pub gid: u32,
    pub size: i64,
    pub atime: i64,
    pub atime_nsec: i64,
    pub mtime: i64,
    pub mtime_nsec: i64,
}

/// A time to set.
#[derive(Clone, Copy, Debug, PartialEq, Eq, Structural)]
pub enum SetTime {
    Omit,
    Now,
    At(i64, i64),
}

/// One step of setting attributes. The steps are done in their order, up to the
/// first that fails.
#[derive(Clone, Copy, Debug, PartialEq, Eq, Structural)]
pub enum AttrStep {
    Chmod { file: u64, mode: u16 },
    Chown { file: u64, uid: u32, gid: u32 },
    Truncate { file: u64, size: i64 },
    /// Open the file anew for writing and cut it.
    ReopenAndTruncate { file: u64, size: i64 },
    SetTimes { file: u64, atime: SetTime, mtime: SetTime },
    /// Read the attributes of the file.
    Stat { file: u64 },
}

/// The files that the guest knows, by inode.
pub open spec fn inode_map(s: Seq<InodeData>) -> Map<u64, InodeData>
    decreases s.len(),
{
    if s.len() == 0 {
        Map::empty()
    } else {
        inode_map(s.drop_last()).insert(s.last().inode, s.last())
    }
}

/// Whether the inodes rise.
pub open spec fn inodes_rise(s: Seq<InodeData>) -> bool {
    forall|i: int, j: int| 0 <= i < j < s.len() ==> (#[trigger] s[i]).inode < (#[trigger] s[j]).inode
}

/// Whether no file of the host has two inodes.
pub open spec fn files_distinct(s: Seq<InodeData>) -> bool {
    forall|i: int, j: int|
        0 <= i < j < s.len() ==> !((#[trigger] s[i]).ino == (#[trigger] s[j]).ino && s[i].dev
            == s[j].dev)
}

proof fn inode_map_entries(s: Seq<InodeData>)
    requires
        inodes_rise(s),
    ensures
        forall|i: int|
            0 <= i < s.len() ==> inode_map(s).contains_key((#[trigger] s[i]).inode) && inode_map(
                s,
            )[s[i].inode] == s[i],
        forall|k: u64| #[trigger]
            inode_map(s).contains_key(k) ==> exists|i: int|
                0 <= i < s.len() && (#[trigger] s[i]).inode == k,
    decreases s.len(),
{
    if s.len() > 0 {
        let t = s.drop_last();
        assert forall|i: int, j: int| 0 <= i < j < t.len() implies (#[trigger] t[i]).inode < (
        #[trigger] t[j]).inode by {
            assert(t[i] == s[i] && t[j] == s[j]);
        }
        inode_map_entries(t);
        assert forall|i: int| 0 <= i < s.len() implies inode_map(s).contains_key(
            (#[trigger] s[i]).inode,
        ) && inode_map(s)[s[i].inode] == s[i] by {
            if i < t.len() {
                assert(t[i] == s[i]);
                assert(s[i].inode < s[s.len() - 1].inode);
            }
        }
        assert forall|k: u64| #[trigger] inode_map(s).contains_key(k) implies exists|i: int|
            0 <= i < s.len() && (#[trigger] s[i]).inode == k by {
            if k == s.last().inode {
                assert(s[s.len() - 1].inode == k);
            } else {
                assert(inode_map(t).contains_key(k));
                let i = choose|i: int| 0 <= i < t.len() && (#[trigger] t[i]).inode == k;
                assert(s[i].inode == k);
            }
        }
    }
}

/// The inodes of `m`, in rising order.
pub open spec fn in_order(m: Map<u64, InodeData>, order: Seq<u64>) -> bool {
    &&& forall|i: int, j: int| 0 <= i < j < order.len() ==> #[trigger] order[i] < #[trigger] order[j]
    &&& forall|k: u64| m.contains_key(k) <==> #[trigger] order.contains(k)
}

/// The files without that of the host that is known by `ino` and `dev`.
pub open spec fn without_file(m: Map<u64, InodeData>, ino: u64, dev: i64) -> Map<u64, InodeData> {
    if knows(m, ino, dev) {
        m.remove(known_inode(m, ino, dev))
    } else {
        m
    }
}

proof fn one_inode_per_file_in(s: Seq<InodeData>, a: u64, b: u64)
    requires
        inodes_rise(s),
        files_distinct(s),
        inode_map(s).contains_key(a),
        inode_map(s).contains_key(b),
        inode_map(s)[a].ino == inode_map(s)[b].ino,
        inode_map(s)[a].dev == inode_map(s)[b].dev,
    ensures
        a == b,
{
    inode_map_entries(s);
    let i = choose|i: int| 0 <= i < s.len() && (#[trigger] s[i]).inode == a;
    let j = choose|j: int| 0 <= j < s.len() && (#[trigger] s[j]).inode == b;
    if i < j {
        assert(!(s[i].ino == s[j].ino && s[i].dev == s[j].dev));
    } else if j < i {
        assert(!(s[j].ino == s[i].ino && s[j].dev == s[i].dev));
    }
}

proof fn added_first(s: Seq<InodeData>, t: Seq<InodeData>, d: InodeData)
    requires
        inodes_rise(s),
        files_distinct(s),
        t == s.insert(0, d),
        forall|i: int|
            0 <= i < s.len() ==> (#[trigger] s[i]).inode > d.inode && !(s[i].ino == d.ino
                && s[i].dev == d.dev),
    ensures
        inodes_rise(t),
        files_distinct(t),
        inode_map(t) == inode_map(s).insert(d.inode, d),
{
    assert forall|a: int, b: int| 0 <= a < b < t.len() implies (#[trigger] t[a]).inode < (
    #[trigger] t[b]).inode && !(t[a].ino == t[b].ino && t[a].dev == t[b].dev) by {
        assert(t[b] == s[b - 1]);
        if a > 0 {
            assert(t[a] == s[a - 1]);
            assert(s[a - 1].inode < s[b - 1].inode);
        }
    }
    inode_map_entries(s);
    inode_map_entries(t);
    let goal = inode_map(s).insert(d.inode, d);
    assert forall|k: u64| #[trigger] inode_map(t).contains_key(k) implies goal.contains_key(k)
        && inode_map(t)[k] == goal[k] by {
        let a = choose|a: int| 0 <= a < t.len() && (#[trigger] t[a]).inode == k;
        if a > 0 {
            assert(t[a] == s[a - 1]);
        }
    }
    assert forall|k: u64| #[trigger] goal.contains_key(k) implies inode_map(t).contains_key(k) by {
        if k == d.inode {
            assert(t[0].inode == k);
        } else {
            let a = choose|a: int| 0 <= a < s.len() && (#[trigger] s[a]).inode == k;
            assert(t[a + 1].inode == k);
        }
    }
    assert(inode_map(t) =~= goal);
}

/// Whether the guest knows a file of the host.
pub open spec fn knows(m: Map<u64, InodeData>, ino: u64, dev: i64) -> bool {
    exists|k: u64| #[trigger] m.contains_key(k) && m[k].ino == ino && m[k].dev == dev
}

/// The inode of a file of the host that the guest knows.
pub open spec fn known_inode(m: Map<u64, InodeData>, ino: u64, dev: i64) -> u64 {
    choose|k: u64| #[trigger] m.contains_key(k) && m[k].ino == ino && m[k].dev == dev
}

/// A file that was looked up once more.
pub open spec fn looked_up(d: InodeData) -> InodeData {
    InodeData { refcount: ((d.refcount + 1) % 0x1_0000_0000_0000_0000) as u64, ..d }
}

/// What is left of the files after one was forgotten `count` times: once it is
/// not looked up any more, it is gone.
pub open spec fn forgotten(m: Map<u64, InodeData>, inode: u64, count: u64) -> Map<u64, InodeData> {
    if !m.contains_key(inode) {
        m
    } else if m[inode].refcount <= count {
        m.remove(inode)
    } else {
        m.insert(
            inode,
            InodeData { refcount: (m[inode].refcount - count) as u64, ..m[inode] },
        )
    }
}

/// What is left of the files after several requests to forget one.
pub open spec fn all_forgotten(m: Map<u64, InodeData>, requests: Seq<(u64, u64)>) -> Map<
    u64,
    InodeData,
>
    decreases requests.len(),
{
    if requests.len() == 0 {
        m
    } else {
        forgotten(
            all_forgotten(m, requests.drop_last()),
            requests.last().0,
            requests.last().1,
        )
    }
}

/// The file system. The files of the host are known by numbers.
#[derive(Debug)]
pub struct PassthroughFs {
    tag: String,
    inodes: Vec<InodeData>,
    next_inode: u64,
    handles: BTreeMap<u64, HandleData>,
    next_handle: u64,
    writeback: bool,
    cfg: FsConfig,
    root_dir: String,
}

/// Model of the file system.
#[verifier::ext_equal]
pub struct FsModel {
    pub tag: Seq<char>,
    pub inodes: Map<u64, InodeData>,
    pub next_inode: u64,
    pub handles: Map<u64, HandleData>,
    pub next_handle: u64,
    pub writeback: bool,
    pub cfg: FsConfig,
    pub root_dir: Seq<char>,
}

impl FsModel {
    /// What a look-up returns for an inode.
    pub open spec fn entry(self, inode: u64) -> Entry {
        Entry {
            inode,
            generation: 0,
            attr_timeout: self.cfg.timeout,
            entry_timeout: self.cfg.timeout,
        }
    }

    /// The file system after a file of the host was looked up: one that the
    /// guest knows counts once more, another gets a new inode.
    pub open spec fn entry_added(self, st: FileStat, file: u64, open_flags: i32) -> FsModel {
        if knows(self.inodes, st.ino, st.dev) {
            let k = known_inode(self.inodes, st.ino, st.dev);
            FsModel { inodes: self.inodes.insert(k, looked_up(self.inodes[k])), ..self }
        } else {
            FsModel {
                inodes: self.inodes.insert(
                    self.next_inode,
                    InodeData {
                        inode: self.next_inode,
                        ino: st.ino,
                        dev: st.dev,
                        file,
                        open_flags,
                        refcount: 1,
                        filetype: file_type_of(st.mode),
                    },
                ),
                next_inode: (self.next_inode + 1) as u64,
                ..self
            }
        }
    }

    /// The inode that a file of the host has or gets.
    pub open spec fn inode_for(self, st: FileStat) -> u64 {
        if knows(self.inodes, st.ino, st.dev) {
            known_inode(self.inodes, st.ino, st.dev)
        } else {
            self.next_inode
        }
    }

    /// The file system after a file was opened.
    pub open spec fn opened(self, inode: u64, file: u64) -> FsModel {
        FsModel {
            handles: self.handles.insert(
                self.next_handle,
                HandleData { handle: self.next_handle, inode, file },
            ),
            next_handle: (self.next_handle + 1) as u64,
            ..self
        }
    }

    /// Whether a handle is one of an inode.
    pub open spec fn has_handle(self, handle: u64, inode: u64) -> bool {
        self.handles.contains_key(handle) && self.handles[handle].inode == inode
    }
}

impl PassthroughFs {
    pub closed spec fn wf(&self) -> bool {
        &&& inodes_rise(self.inodes@)
        &&& files_distinct(self.inodes@)
        &&& forall|i: int|
            0 <= i < self.inodes@.len() ==> ROOT_ID <= (#[trigger] self.inodes@[i]).inode
                < self.next_inode
        &&& forall|k: u64| #[trigger]
            self.handles@.contains_key(k) ==> k < self.next_handle && self.handles@[k].handle == k
        &&& self.next_inode > ROOT_ID
    }
}

impl View for PassthroughFs {
    type V = FsModel;

    closed spec fn view(&self) -> FsModel {
        FsModel {
            tag: self.tag@,
            inodes: inode_map(self.inodes@),
            next_inode: self.next_inode,
            handles: self.handles@,
            next_handle: self.next_handle,
            writeback: self.writeback,
            cfg: self.cfg,
            root_dir: self.root_dir@,
        }
    }
}

impl PassthroughFs {
    pub fn new(tag: &str, cfg: FsConfig) -> (r: PassthroughFs)
        ensures
            r.wf(),
            r@ == (FsModel {
                tag: tag@,
                inodes: Map::empty(),
                next_inode: (ROOT_ID + 1) as u64,
                handles: Map::empty(),
                next_handle: 1,
                writeback: false,
                cfg,
                root_dir: "/"@,
            }),
    {
        PassthroughFs {
            tag: tag.to_owned(),
            inodes: Vec::new(),
            next_inode: ROOT_ID + 1,
            handles: BTreeMap::new(),
            next_handle: 1,
            writeback: false,
            cfg,
            root_dir: "/".to_owned(),
        }
    }

    pub fn cfg(&self) -> (r: FsConfig)
        ensures
            r == self@.cfg,
    {
        self.cfg
    }

    pub fn set_root_dir(&mut self, root_dir: String)
        requires
            old(self).wf(),
        ensures
            final(self).wf(),
            final(self)@ == (FsModel { root_dir: root_dir@, ..old(self)@ }),
    {
        self.root_dir = root_dir;
    }

    /// The open files of the host behind the inodes, in the order of these.
    pub fn keep_rds(&self) -> (r: Vec<u64>)
        requires
            self.wf(),
        ensures
            exists|order: Seq<u64>|
                {
                    &&& #[trigger] in_order(self@.inodes, order)
                    &&& r@ == order.map(|i: int, k: u64| self@.inodes[k].file)
                },
    {
        let ghost goal = self.inodes@.map(|i: int, d: InodeData| d.file);
        let mut out: Vec<u64> = Vec::new();
        let mut i: usize = 0;
        while i < self.inodes.len()
            invariant
                i <= self.inodes@.len(),
                goal == self.inodes@.map(|i: int, d: InodeData| d.file),
                out@ == goal.take(i as int),
            decreases self.inodes.len() - i,
        {
            out.push(self.inodes[i].file);
            i = i + 1;
            assert(out@ =~= goal.take(i as int));
        }
        proof {
            let s = self.inodes@;
            let order = s.map(|i: int, d: InodeData| d.inode);
            inode_map_entries(s);
            assert forall|k: u64| self@.inodes.contains_key(k) <==> #[trigger] order.contains(k) by {
                if self@.inodes.contains_key(k) {
                    let j = choose|j: int| 0 <= j < s.len() && (#[trigger] s[j]).inode == k;
                    assert(order[j] == k);
                }
                if order.contains(k) {
                    let j = choose|j: int| 0 <= j < order.len() && order[j] == k;
                    assert(s[j].inode == k);
                }
            }
            assert(in_order(self@.inodes, order));
            assert(out@ =~= order.map(|i: int, k: u64| self@.inodes[k].file)) by {
                assert forall|j: int| 0 <= j < s.len() implies out@[j] == self@.inodes[order[j]].file by {
                    assert(self@.inodes[s[j].inode] == s[j]);
                }
            }
        }
        out
    }

    fn inode_position(&self, inode: u64) -> (r: Option<usize>)
        requires
            self.wf(),
        ensures
            r is Some <==> self@.inodes.contains_key(inode),
            r matches Some(i) ==> i < self.inodes@.len() && self.inodes@[i as int].inode == inode
                && self@.inodes[inode] == self.inodes@[i as int],
    {
        proof {
            inode_map_entries(self.inodes@);
        }
        let mut i: usize = 0;
        while i < self.inodes.len()
            invariant
                i <= self.inodes@.len(),
                self.wf(),
                forall|j: int| 0 <= j < i ==> (#[trigger] self.inodes@[j]).inode != inode,
                forall|j: int|
                    0 <= j < self.inodes@.len() ==> inode_map(self.inodes@).contains_key(
                        (#[trigger] self.inodes@[j]).inode,
                    ) && inode_map(self.inodes@)[self.inodes@[j].inode] == self.inodes@[j],
            decreases self.inodes.len() - i,
        {
            if self.inodes[i].inode == inode {
                return Some(i);
            }
            i = i + 1;
        }
        None
    }

    fn file_position(&self, ino: u64, dev: i64) -> (r: Option<usize>)
        requires
            self.wf(),
        ensures
            r is Some <==> knows(self@.inodes, ino, dev),
            r matches Some(i) ==> i < self.inodes@.len() && self.inodes@[i as int].inode
                == known_inode(self@.inodes, ino, dev) && self@.inodes[self.inodes@[i as int].inode]
                == self.inodes@[i as int],
    {
        proof {
            inode_map_entries(self.inodes@);
        }
        let ghost m = inode_map(self.inodes@);
        let mut i: usize = 0;
        while i < self.inodes.len()
            invariant
                i <= self.inodes@.len(),
                self.wf(),
                m == inode_map(self.inodes@),
                forall|j: int|
                    0 <= j < i ==> !((#[trigger] self.inodes@[j]).ino == ino && self.inodes@[j].dev
                        == dev),
                forall|j: int|
                    0 <= j < self.inodes@.len() ==> m.contains_key(
                        (#[trigger] self.inodes@[j]).inode,
                    ) && m[self.inodes@[j].inode] == self.inodes@[j],
                forall|k: u64| #[trigger]
                    m.contains_key(k) ==> exists|i: int|
                        0 <= i < self.inodes@.len() && (#[trigger] self.inodes@[i]).inode == k,
            decreases self.inodes.len() - i,
        {
            if self.inodes[i].ino == ino && self.inodes[i].dev == dev {
                proof {
                    let d = self.inodes@[i as int];
                    assert(m.contains_key(d.inode) && m[d.inode].ino == ino && m[d.inode].dev
                        == dev);
                    let k = known_inode(m, ino, dev);
                    let j = choose|j: int|
                        0 <= j < self.inodes@.len() && (#[trigger] self.inodes@[j]).inode == k;
                    assert(self.inodes@[j].ino == ino && self.inodes@[j].dev == dev);
                    if i != j {
                        if i < j {
                            assert(!(self.inodes@[i as int].ino == self.inodes@[j].ino
                                && self.inodes@[i as int].dev == self.inodes@[j].dev));
                        } else {
                            assert(!(self.inodes@[j].ino == self.inodes@[i as int].ino
                                && self.inodes@[j].dev == self.inodes@[i as int].dev));
                        }
                    }
                }
                return Some(i);
            }
            i = i + 1;
        }
        proof {
            if knows(m, ino, dev) {
                let k = known_inode(m, ino, dev);
                let j = choose|j: int|
                    0 <= j < self.inodes@.len() && (#[trigger] self.inodes@[j]).inode == k;
                assert(self.inodes@[j].ino == ino && self.inodes@[j].dev == dev);
            }
        }
        None
    }

    /// The file of an inode.
    pub fn find_inode(&self, inode: u64) -> (r: Result<InodeData, i32>)
        requires
            self.wf(),
        ensures
            r == (if self@.inodes.contains_key(inode) {
                Ok(self@.inodes[inode])
            } else {
                Err::<InodeData, i32>(EBADF)
            }),
    {
        match self.inode_position(inode) {
            Some(i) => Ok(self.inodes[i]),
            None => Err(EBADF),
        }
    }

    /// The open file of a handle, which must be one of the inode.
    pub fn find_handle(&self, handle: u64, inode: u64) -> (r: Result<HandleData, i32>)
        requires
            self.wf(),
        ensures
            r == (if self@.has_handle(handle, inode) {
                Ok(self@.handles[handle])
            } else {
                Err::<HandleData, i32>(EBADF)
            }),
    {
        match self.handles.get(&handle) {
            Some(data) => if data.inode == inode {
                Ok(*data)
            } else {
                Err(EBADF)
            },
            None => Err(EBADF),
        }
    }

    fn set_refcount(&mut self, i: usize, refcount: u64)
        requires
            old(self).wf(),
            i < old(self).inodes@.len(),
            old(self)@.inodes.contains_key(old(self).inodes@[i as int].inode),
        ensures
            final(self).wf(),
            final(self)@ == (FsModel {
                inodes: old(self)@.inodes.insert(
                    old(self).inodes@[i as int].inode,
                    InodeData { refcount, ..old(self).inodes@[i as int] },
                ),
                ..old(self)@
            }),
    {
        let mut d = self.inodes[i];
        d.refcount = refcount;
        self.inodes.set(i, d);
        proof {
            let s = old(self).inodes@;
            let t = self.inodes@;
            assert forall|a: int, b: int| 0 <= a < b < t.len() implies (#[trigger] t[a]).inode < (
            #[trigger] t[b]).inode by {
                assert(t[a].inode == s[a].inode && t[b].inode == s[b].inode);
            }
            assert forall|a: int, b: int| 0 <= a < b < t.len() implies !((#[trigger] t[a]).ino == (
            #[trigger] t[b]).ino && t[a].dev == t[b].dev) by {
                assert(t[a].ino == s[a].ino && t[b].ino == s[b].ino);
                assert(t[a].dev == s[a].dev && t[b].dev == s[b].dev);
                assert(!(s[a].ino == s[b].ino && s[a].dev == s[b].dev));
            }
            assert forall|a: int| 0 <= a < t.len() implies ROOT_ID <= (#[trigger] t[a]).inode
                < self.next_inode by {
                assert(t[a].inode == s[a].inode);
            }
            inode_map_entries(s);
            inode_map_entries(t);
            let goal = inode_map(s).insert(s[i as int].inode, d);
            assert(inode_map(t) =~= goal) by {
                assert forall|k: u64| #[trigger] inode_map(t).contains_key(k) implies goal.contains_key(k)
                    && inode_map(t)[k] == goal[k] by {
                    let a = choose|a: int| 0 <= a < t.len() && (#[trigger] t[a]).inode == k;
                    assert(s[a].inode == k);
                    if a != i {
                        assert(s[a].inode != s[i as int].inode) by {
                            if a < i {
                                assert(s[a].inode < s[i as int].inode);
                            } else {
                                assert(s[i as int].inode < s[a].inode);
                            }
                        }
                    }
                }
                assert forall|k: u64| #[trigger] goal.contains_key(k) implies inode_map(t).contains_key(k) by {
                    if k == s[i as int].inode {
                        assert(t[i as int].inode == k);
                    } else {
                        let a = choose|a: int| 0 <= a < s.len() && (#[trigger] s[a]).inode == k;
                        assert(t[a].inode == k);
                    }
                }
            }
        }
    }

    /// Notes that a file was looked up. Returns what the guest gets, and whether
    /// the open file is kept; that of a file that the guest knows is closed.
    pub fn add_entry(&mut self, st: FileStat, file: u64, open_flags: i32) -> (r: (Entry, bool))
        requires
            old(self).wf(),
            old(self)@.next_inode < u64::MAX,
        ensures
            final(self).wf(),
            final(self)@ == old(self)@.entry_added(st, file, open_flags),
            r.0 == old(self)@.entry(old(self)@.inode_for(st)),
            r.1 == !knows(old(self)@.inodes, st.ino, st.dev),
    {
        match self.file_position(st.ino, st.dev) {
            Some(i) => (self.count_up(i), false),
            None => {
                let inode: u64 = self.next_inode;
                let ghost s = self.inodes@;
                self.next_inode = inode + 1;
                let d = InodeData {
                    inode,
                    ino: st.ino,
                    dev: st.dev,
                    file,
                    open_flags,
                    refcount: 1,
                    filetype: file_type(st.mode),
                };
                self.inodes.push(d);
                proof {
                    let t = self.inodes@;
                    inode_map_entries(s);
                    assert(t.drop_last() =~= s);
                    assert forall|a: int, b: int| 0 <= a < b < t.len() implies !((
                    #[trigger] t[a]).ino == (#[trigger] t[b]).ino && t[a].dev == t[b].dev) by {
                        assert(t[a] == s[a]);
                        if b < s.len() {
                            assert(t[b] == s[b]);
                        } else {
                            assert(inode_map(s).contains_key(s[a].inode) && inode_map(
                                s,
                            )[s[a].inode] == s[a]);
                        }
                    }
                    assert forall|a: int| 0 <= a < t.len() implies ROOT_ID <= (#[trigger] t[a]).inode
                        < self.next_inode by {
                        if a < s.len() {
                            assert(t[a] == s[a]);
                        }
                    }
                    assert forall|a: int, b: int| 0 <= a < b < t.len() implies (
                    #[trigger] t[a]).inode < (#[trigger] t[b]).inode by {
                        assert(t[a] == s[a]);
                        if b < s.len() {
                            assert(t[b] == s[b]);
                        }
                    }
                }
                (self.entry(inode), true)
            },
        }
    }

    fn entry(&self, inode: u64) -> (r: Entry)
        ensures
            r == self@.entry(inode),
    {
        Entry {
            inode,
            generation: 0,
            attr_timeout: self.cfg.timeout,
            entry_timeout: self.cfg.timeout,
        }
    }

    fn count_up(&mut self, i: usize) -> (r: Entry)
        requires
            old(self).wf(),
            i < old(self).inodes@.len(),
            old(self)@.inodes.contains_key(old(self).inodes@[i as int].inode),
        ensures
            final(self).wf(),
            final(self)@ == (FsModel {
                inodes: old(self)@.inodes.insert(
                    old(self).inodes@[i as int].inode,
                    looked_up(old(self).inodes@[i as int]),
                ),
                ..old(self)@
            }),
            r == old(self)@.entry(old(self).inodes@[i as int].inode),
    {
        let count: u64 = self.inodes[i].refcount.wrapping_add(1);
        let inode: u64 = self.inodes[i].inode;
        self.set_refcount(i, count);
        self.entry(inode)
    }

    /// Starts a look-up of a file that the host knows.
    pub fn start_lookup(&mut self, st: FileStat, flags: OpenFlags) -> (r: LookupStep)
        requires
            old(self).wf(),
        ensures
            final(self).wf(),
            knows(old(self)@.inodes, st.ino, st.dev) ==> {
                &&& final(self)@ == old(self)@.entry_added(st, 0, 0)
                &&& r == LookupStep::Known(old(self)@.entry(old(self)@.inode_for(st)))
            },
            !knows(old(self)@.inodes, st.ino, st.dev) ==> {
                &&& final(self)@ == old(self)@
                &&& r == LookupStep::Open(lookup_flags(flags, st.mode))
            },
    {
        match self.file_position(st.ino, st.dev) {
            Some(i) => LookupStep::Known(self.count_up(i)),
            None => {
                let mut f: i32 = flags.rdonly | flags.nofollow | flags.cloexec;
                match file_type(st.mode) {
                    FileType::Directory => {
                        f = f | flags.directory;
                    },
                    _ => {},
                }
                LookupStep::Open(f)
            },
        }
    }

    /// Starts to open the file of an inode.
    pub fn start_open(&self, inode: u64, flags: u32, bits: OpenFlags) -> (r: Result<
        ReopenPlan,
        i32,
    >)
        requires
            self.wf(),
        ensures
            r == (if self@.inodes.contains_key(inode) {
                Ok(
                    ReopenPlan {
                        file: self@.inodes[inode].file,
                        flags: reopen_flags(bits, flags as i32),
                    },
                )
            } else {
                Err::<ReopenPlan, i32>(EBADF)
            }),
    {
        match self.find_inode(inode) {
            Ok(d) => Ok(ReopenPlan { file: d.file, flags: update_open_flags(bits, flags as i32) }),
            Err(e) => Err(e),
        }
    }

    /// Notes that a file was opened. Returns its handle.
    pub fn finish_open(&mut self, inode: u64, file: u64) -> (r: (u64, OpenOption))
        requires
            old(self).wf(),
            old(self)@.next_handle < u64::MAX,
        ensures
            final(self).wf(),
            final(self)@ == old(self)@.opened(inode, file),
            r.0 == old(self)@.next_handle,
            r.1 == cache_option(old(self)@.cfg.cache_policy),
    {
        let handle: u64 = self.next_handle;
        self.next_handle = handle + 1;
        self.handles.insert(handle, HandleData { handle, inode, file });
        (handle, self.get_cache_open_options())
    }

    /// What the guest is told about the cache.
    pub fn get_cache_open_options(&self) -> (r: OpenOption)
        ensures
            r == cache_option(self@.cfg.cache_policy),
    {
        match self.cfg.cache_policy {
            CachePolicy::Never => OpenOption::DirectIo,
            CachePolicy::Always => OpenOption::KeepCache,
            CachePolicy::Auto => OpenOption::Default,
        }
    }

    /// Closes a handle, which must be one of the inode.
    pub fn do_release(&mut self, inode: u64, handle: u64) -> (r: Result<(), i32>)
        requires
            old(self).wf(),
        ensures
            final(self).wf(),
            r == (if old(self)@.has_handle(handle, inode) {
                Ok(())
            } else {
                Err::<(), i32>(EBADF)
            }),
            final(self)@ == (if r is Ok {
                FsModel { handles: old(self)@.handles.remove(handle), ..old(self)@ }
            } else {
                old(self)@
            }),
    {
        match self.find_handle(handle, inode) {
            Ok(_) => {
                self.handles.remove(&handle);
                Ok(())
            },
            Err(e) => Err(e),
        }
    }

    fn remove_inode(&mut self, i: usize)
        requires
            old(self).wf(),
            i < old(self).inodes@.len(),
        ensures
            final(self).wf(),
            final(self).inodes@ == old(self).inodes@.remove(i as int),
            final(self)@ == (FsModel {
                inodes: old(self)@.inodes.remove(old(self).inodes@[i as int].inode),
                ..old(self)@
            }),
    {
        let ghost s = self.inodes@;
        self.inodes.remove(i);
        proof {
            let t = self.inodes@;
            removed_inode(s, t, i as int);
            assert forall|a: int| 0 <= a < t.len() implies ROOT_ID <= (#[trigger] t[a]).inode
                < self.next_inode by {
                let c = if a < i {
                    a
                } else {
                    a + 1
                };
                assert(t[a] == s[c]);
            }
        }
    }

    /// The guest forgets `count` look-ups of an inode.
    pub fn forget(&mut self, inode: u64, count: u64)
        requires
            old(self).wf(),
        ensures
            final(self).wf(),
            final(self)@ == (FsModel {
                inodes: forgotten(old(self)@.inodes, inode, count),
                ..old(self)@
            }),
    {
        match self.inode_position(inode) {
            Some(i) => {
                let refcount: u64 = self.inodes[i].refcount;
                if refcount > count {
                    self.set_refcount(i, refcount - count);
                } else {
                    self.remove_inode(i);
                }
            },
            None => {},
        }
    }

    /// The guest forgets look-ups of several inodes.
    pub fn batch_forget(&mut self, requests: &[(u64, u64)])
        requires
            old(self).wf(),
        ensures
            final(self).wf(),
            final(self)@ == (FsModel {
                inodes: all_forgotten(old(self)@.inodes, requests@),
                ..old(self)@
            }),
    {
        let mut i: usize = 0;
        while i < requests.len()
            invariant
                i <= requests@.len(),
                self.wf(),
                self@ == (FsModel {
                    inodes: all_forgotten(old(self)@.inodes, requests@.take(i as int)),
                    ..old(self)@
                }),
            decreases requests.len() - i,
        {
            proof {
                assert(requests@.take(i + 1).drop_last() =~= requests@.take(i as int));
                assert(requests@.take(i + 1).last() == requests@[i as int]);
            }
            let (inode, count) = requests[i];
            self.forget(inode, count);
            i = i + 1;
        }
        assert(requests@.take(i as int) =~= requests@);
    }

    fn drop_file(&mut self, ino: u64, dev: i64)
        requires
            old(self).wf(),
        ensures
            final(self).wf(),
            final(self)@ == (FsModel {
                inodes: without_file(old(self)@.inodes, ino, dev),
                ..old(self)@
            }),
            !knows(final(self)@.inodes, ino, dev),
    {
        match self.file_position(ino, dev) {
            Some(i) => {
                self.remove_inode(i);
                proof {
                    let m = old(self)@.inodes;
                    let k = known_inode(m, ino, dev);
                    assert forall|j: u64| #[trigger] m.remove(k).contains_key(j) implies !(
                    m.remove(k)[j].ino == ino && m.remove(k)[j].dev == dev) by {
                        if m[j].ino == ino && m[j].dev == dev {
                            one_inode_per_file_in(old(self).inodes@, j, k);
                        }
                    }
                }
            },
            None => {},
        }
    }

    fn place_root(&mut self, root: InodeData)
        requires
            old(self).wf(),
            root.inode == ROOT_ID,
            !knows(old(self)@.inodes, root.ino, root.dev),
        ensures
            final(self).wf(),
            final(self)@ == (FsModel {
                inodes: old(self)@.inodes.insert(ROOT_ID, root),
                ..old(self)@
            }),
    {
        let ghost m = self@.inodes;
        match self.inode_position(ROOT_ID) {
            Some(i) => {
                self.remove_inode(i);
            },
            None => {},
        }
        let ghost s = self.inodes@;
        proof {
            inode_map_entries(s);
            assert(self@.inodes =~= m.remove(ROOT_ID));
            assert forall|a: int| 0 <= a < s.len() implies (#[trigger] s[a]).inode > ROOT_ID && !(
            s[a].ino == root.ino && s[a].dev == root.dev) by {
                assert(m.remove(ROOT_ID).contains_key(s[a].inode));
                assert(m.contains_key(s[a].inode));
            }
        }
        self.inodes.insert(0, root);
        proof {
            added_first(s, self.inodes@, root);
            assert forall|a: int| 0 <= a < self.inodes@.len() implies ROOT_ID <= (
            #[trigger] self.inodes@[a]).inode < self.next_inode by {
                if a > 0 {
                    assert(self.inodes@[a] == s[a - 1]);
                }
            }
            assert(m.remove(ROOT_ID).insert(ROOT_ID, root) =~= m.insert(ROOT_ID, root));
        }
    }

    /// The shared directory was opened. It gets the inode of the root; another
    /// inode that it had, or another file that was the root, is forgotten. Returns
    /// what the guest is told; it may write back later if both sides can.
    pub fn init(&mut self, st: FileStat, file: u64, flags: OpenFlags, capable_writeback: bool) -> (r:
        FsOptions)
        requires
            old(self).wf(),
        ensures
            final(self).wf(),
            r == (FsOptions {
                do_readdirplus: true,
                readdirplus_auto: true,
                dont_mask: true,
                writeback_cache: old(self)@.cfg.writeback && capable_writeback,
            }),
            final(self)@ == (FsModel {
                inodes: without_file(old(self)@.inodes, st.ino, st.dev).insert(
                    ROOT_ID,
                    InodeData {
                        inode: ROOT_ID,
                        ino: st.ino,
                        dev: st.dev,
                        file,
                        open_flags: root_flags(flags),
                        refcount: ROOT_REFCOUNT,
                        filetype: file_type_of(st.mode),
                    },
                ),
                writeback: old(self)@.writeback || r.writeback_cache,
                ..old(self)@
            }),
    {
        self.drop_file(st.ino, st.dev);
        let root = InodeData {
            inode: ROOT_ID,
            ino: st.ino,
            dev: st.dev,
            file,
            open_flags: flags.rdonly | flags.directory | flags.nofollow | flags.cloexec,
            refcount: ROOT_REFCOUNT,
            filetype: file_type(st.mode),
        };
        self.place_root(root);
        let writeback_cache: bool = self.cfg.writeback && capable_writeback;
        if writeback_cache {
            self.writeback = true;
        }
        FsOptions { do_readdirplus: true, readdirplus_auto: true, dont_mask: true, writeback_cache }
    }

    /// The steps that set attributes of a file, which is known by a handle that
    /// is not zero, or by its inode.
    pub fn setattr(
        &self,
        inode: u64,
        attr: FileAttr,
        handle: Option<u64>,
        valid: SetattrValid,
    ) -> (r: Result<Vec<AttrStep>, i32>)
        requires
            self.wf(),
        ensures
            r is Ok <==> self@.inodes.contains_key(inode) && (handle matches Some(h)
                ==> h == 0 || self@.has_handle(h, inode)),
            r matches Err(e) ==> e == EBADF,
            r matches Ok(steps) ==> steps@ == attr_steps(
                self@.inodes[inode].file,
                if handle is Some && handle->0 != 0 {
                    self@.handles[handle->0].file
                } else {
                    self@.inodes[inode].file
                },
                handle is Some,
                attr,
                valid,
            ),
    {
        let inode_data = match self.find_inode(inode) {
            Ok(d) => d,
            Err(e) => {
                return Err(e);
            },
        };
        let mut fd: u64 = inode_data.file;
        if let Some(h) = handle {
            if h != 0 {
                match self.find_handle(h, inode) {
                    Ok(d) => {
                        fd = d.file;
                    },
                    Err(e) => {
                        return Err(e);
                    },
                }
            }
        }
        let mut steps: Vec<AttrStep> = Vec::new();
        if valid.mode {
            steps.push(AttrStep::Chmod { file: fd, mode: attr.mode });
        }
        if valid.uid || valid.gid {
            let uid: u32 = if valid.uid {
                attr.uid
            } else {
                u32::MAX
            };
            let gid: u32 = if valid.gid {
                attr.gid
            } else {
                u32::MAX
            };
            steps.push(AttrStep::Chown { file: fd, uid, gid });
        }
        if valid.size {
            if handle.is_some() {
                steps.push(AttrStep::Truncate { file: fd, size: attr.size });
            } else {
                steps.push(AttrStep::ReopenAndTruncate { file: inode_data.file, size: attr.size });
            }
        }
        if valid.atime || valid.mtime {
            let mut atime: SetTime = SetTime::Omit;
            let mut mtime: SetTime = SetTime::Omit;
            if valid.atime_now {
                atime = SetTime::Now;
            } else if valid.atime {
                atime = SetTime::At(attr.atime, attr.atime_nsec);
            }
            if valid.mtime_now {
                mtime = SetTime::Now;
            } else if valid.mtime {
                mtime = SetTime::At(attr.mtime, attr.mtime_nsec);
            }
            steps.push(AttrStep::SetTimes { file: fd, atime, mtime });
        }
        steps.push(AttrStep::Stat { file: inode_data.file });
        assert(steps@ =~= attr_steps(inode_data.file, fd, handle is Some, attr, valid));
        Ok(steps)
    }
}

/// The steps that set attributes of a file, in their order. Without a handle
/// the file is opened anew to cut it.
pub open spec fn attr_steps(
    inode_file: u64,
    file: u64,
    by_handle: bool,
    attr: FileAttr,
    valid: SetattrValid,
) -> Seq<AttrStep> {
    let mode = if valid.mode {
        seq![AttrStep::Chmod { file, mode: attr.mode }]
    } else {
        Seq::empty()
    };
    let owner = if valid.uid || valid.gid {
        seq![
            AttrStep::Chown {
                file,
                uid: if valid.uid {
                    attr.uid
                } else {
                    u32::MAX
                },
                gid: if valid.gid {
                    attr.gid
                } else {
                    u32::MAX
                },
            },
        ]
    } else {
        Seq::empty()
    };
    let size = if valid.size {
        seq![
            if by_handle {
                AttrStep::Truncate { file, size: attr.size }
            } else {
                AttrStep::ReopenAndTruncate { file: inode_file, size: attr.size }
            },
        ]
    } else {
        Seq::empty()
    };
    let times = if valid.atime || valid.mtime {
        seq![
            AttrStep::SetTimes {
                file,
                atime: time_to_set(valid.atime_now, valid.atime, attr.atime, attr.atime_nsec),
                mtime: time_to_set(valid.mtime_now, valid.mtime, attr.mtime, attr.mtime_nsec),
            },
        ]
    } else {
        Seq::empty()
    };
    mode + owner + size + times + seq![AttrStep::Stat { file: inode_file }]
}

/// A time that is set to now, to a value, or not at all.
pub open spec fn time_to_set(now: bool, set: bool, sec: i64, nsec: i64) -> SetTime {
    if now {
        SetTime::Now
    } else if set {
        SetTime::At(sec, nsec)
    } else {
        SetTime::Omit
    }
}

/// Flags with which a file is opened when it is looked up.
pub open spec fn lookup_flags(flags: OpenFlags, mode: u16) -> i32 {
    let f = flags.rdonly | flags.nofollow | flags.cloexec;
    if file_type_of(mode) == FileType::Directory {
        f | flags.directory
    } else {
        f
    }
}

/// Flags with which the shared directory is opened.
pub open spec fn root_flags(flags: OpenFlags) -> i32 {
    flags.rdonly | flags.directory | flags.nofollow | flags.cloexec
}

/// Flags with which a file is opened anew: those of the guest without the ones
/// that create files, and links are followed.
pub open spec fn reopen_flags(bits: OpenFlags, flags: i32) -> i32 {
    ((flags & !bits.nofollow) & !(bits.creat | bits.excl | bits.noctty)) | bits.cloexec
}

/// Flags with which a file is created.
pub open spec fn create_flags_of(bits: OpenFlags, flags: i32) -> i32 {
    reopen_flags(bits, flags) | bits.creat | bits.cloexec | bits.nofollow
}

/// What the guest is told about the cache.
pub open spec fn cache_option(policy: CachePolicy) -> OpenOption {
    match policy {
        CachePolicy::Never => OpenOption::DirectIo,
        CachePolicy::Always => OpenOption::KeepCache,
        CachePolicy::Auto => OpenOption::Default,
    }
}

/// Flags with which a file is opened anew.
pub fn update_open_flags(bits: OpenFlags, flags: i32) -> (r: i32)
    ensures
        r == reopen_flags(bits, flags),
{
    let mut new_flags: i32 = flags & !bits.nofollow;
    new_flags = new_flags & !(bits.creat | bits.excl | bits.noctty);
    new_flags = new_flags | bits.cloexec;
    new_flags
}

/// How a file is created: the flags and the permissions.
pub fn create_plan(bits: OpenFlags, flags: u32, mode: u32, umask: u32) -> (r: (i32, u32))
    ensures
        r.0 == create_flags_of(bits, flags as i32),
        r.1 == mode & !umask,
        r.1 & umask == 0,
        forall|x: u32| x & umask == 0 ==> #[trigger] (r.1 & x) == mode & x,
{
    proof {
        assert forall|x: u32| x & umask == 0 implies #[trigger] ((mode & !umask) & x) == mode
            & x by {
            mask_facts(mode, umask, x, 0);
        }
        mask_facts(mode, umask, 0, 0);
    }
    let create_flags: i32 = update_open_flags(bits, flags as i32) | bits.creat | bits.cloexec
        | bits.nofollow;
    (create_flags, mode & !umask)
}

/// The flags with which a file that was created is opened.
pub fn flags_after_create(bits: OpenFlags, flags: u32) -> (r: u32)
    ensures
        r == flags & !((bits.creat | bits.excl | bits.noctty) as u32),
        r & ((bits.creat | bits.excl | bits.noctty) as u32) == 0,
        forall|x: u32|
            x & ((bits.creat | bits.excl | bits.noctty) as u32) == 0 ==> #[trigger] (r & x) == flags
                & x,
{
    proof {
        let mask = (bits.creat | bits.excl | bits.noctty) as u32;
        assert forall|x: u32| x & mask == 0 implies #[trigger] ((flags & !mask) & x) == flags & x by {
            mask_facts(flags, mask, x, 0);
        }
        mask_facts(flags, mask, 0, 0);
    }
    flags & !((bits.creat | bits.excl | bits.noctty) as u32)
}

/// The permissions of a directory that is created.
pub fn directory_mode(mode: u32, umask: u32) -> (r: u16)
    ensures
        r == (mode & !umask) as u16,
{
    (mode & !umask) as u16
}

/// The flags with which a directory is opened.
pub fn directory_flags(bits: OpenFlags, flags: u32) -> (r: u32)
    ensures
        r == flags | (bits.directory as u32),
        r & (bits.directory as u32) == bits.directory as u32,
        forall|x: u32| x & (bits.directory as u32) == 0 ==> #[trigger] (r & x) == flags & x,
{
    proof {
        let mask = bits.directory as u32;
        assert forall|x: u32| x & mask == 0 implies #[trigger] ((flags | mask) & x) == flags & x by {
            mask_facts(flags, mask, x, 0);
        }
        mask_facts(flags, mask, 0, 0);
    }
    flags | (bits.directory as u32)
}

/// The length of a path that ends with a zero byte, if it does.
pub fn path_len(buf: &[u8]) -> (r: Option<usize>)
    ensures
        match r {
            Some(n) => n < buf@.len() && buf@[n as int] == 0 && forall|i: int|
                0 <= i < n ==> #[trigger] buf@[i] != 0,
            None => forall|i: int| 0 <= i < buf@.len() ==> #[trigger] buf@[i] != 0,
        },
{
    let mut i: usize = 0;
    while i < buf.len()
        invariant
            i <= buf@.len(),
            forall|j: int| 0 <= j < i ==> #[trigger] buf@[j] != 0,
        decreases buf.len() - i,
    {
        if buf[i] == 0 {
            return Some(i);
        }
        i = i + 1;
    }
    None
}

proof fn removed_inode(s: Seq<InodeData>, t: Seq<InodeData>, i: int)
    requires
        inodes_rise(s),
        files_distinct(s),
        0 <= i < s.len(),
        t == s.remove(i),
    ensures
        inodes_rise(t),
        files_distinct(t),
        inode_map(t) == inode_map(s).remove(s[i].inode),
{
    let at = |a: int|
        if a < i {
            a
        } else {
            a + 1
        };
    assert forall|a: int, b: int| 0 <= a < b < t.len() implies (#[trigger] t[a]).inode < (
    #[trigger] t[b]).inode by {
        assert(t[a] == s[at(a)] && t[b] == s[at(b)]);
    }
    assert forall|a: int, b: int| 0 <= a < b < t.len() implies !((#[trigger] t[a]).ino == (
    #[trigger] t[b]).ino && t[a].dev == t[b].dev) by {
        assert(t[a] == s[at(a)] && t[b] == s[at(b)]);
        assert(!(s[at(a)].ino == s[at(b)].ino && s[at(a)].dev == s[at(b)].dev));
    }
    inode_map_entries(s);
    inode_map_entries(t);
    let goal = inode_map(s).remove(s[i].inode);
    assert forall|k: u64| #[trigger] inode_map(t).contains_key(k) implies goal.contains_key(k)
        && inode_map(t)[k] == goal[k] by {
        let a = choose|a: int| 0 <= a < t.len() && (#[trigger] t[a]).inode == k;
        assert(t[a] == s[at(a)]);
        if at(a) < i {
            assert(s[at(a)].inode < s[i].inode);
        } else {
            assert(s[i].inode < s[at(a)].inode);
        }
    }
    assert forall|k: u64| #[trigger] goal.contains_key(k) implies inode_map(t).contains_key(k) by {
        assert(inode_map(s).contains_key(k));
        let c = choose|c: int| 0 <= c < s.len() && (#[trigger] s[c]).inode == k;
        let a = if c < i {
            c
        } else {
            c - 1
        };
        assert(c != i);
        assert(t[a] == s[c]);
    }
    assert(inode_map(t) =~= goal);
}

/// A new file that is looked up once and forgotten once is not known any more.
pub proof fn forget_undoes_lookup(m: FsModel, st: FileStat, file: u64, flags: i32)
    requires
        !knows(m.inodes, st.ino, st.dev),
        !m.inodes.contains_key(m.next_inode),
    ensures
        forgotten(m.entry_added(st, file, flags).inodes, m.next_inode, 1) == m.inodes,
{
    assert(forgotten(m.entry_added(st, file, flags).inodes, m.next_inode, 1) =~= m.inodes);
}

/// A file that is looked up again keeps its inode, and stays known until it is
/// forgotten as often as it was looked up.
pub proof fn known_file_keeps_inode(m: FsModel, st: FileStat, file: u64, flags: i32)
    requires
        knows(m.inodes, st.ino, st.dev),
        m.inodes[known_inode(m.inodes, st.ino, st.dev)].refcount < u64::MAX,
    ensures
        m.entry_added(st, file, flags).inodes.dom() == m.inodes.dom(),
        forgotten(m.entry_added(st, file, flags).inodes, m.inode_for(st), 1) == (
        if m.inodes[m.inode_for(st)].refcount == 0 {
            m.inodes.remove(m.inode_for(st))
        } else {
            m.inodes
        }),
{
    let k = known_inode(m.inodes, st.ino, st.dev);
    assert(m.inodes.contains_key(k));
    let after = m.entry_added(st, file, flags).inodes;
    assert(after.dom() =~= m.inodes.dom());
    assert(forgotten(after, k, 1) =~= (if m.inodes[k].refcount == 0 {
        m.inodes.remove(k)
    } else {
        m.inodes
    }));
}

/// Closing what was just opened leaves the open files as they were.
pub proof fn release_undoes_open(m: FsModel, inode: u64, file: u64)
    requires
        !m.handles.contains_key(m.next_handle),
    ensures
        m.opened(inode, file).has_handle(m.next_handle, inode),
        m.opened(inode, file).handles.remove(m.next_handle) == m.handles,
{
    assert(m.opened(inode, file).handles.remove(m.next_handle) =~= m.handles);
}

/// Inodes and handles that are in use are lower than the next ones, so that new
/// ones are never in use.
pub proof fn next_numbers_are_free(fs: PassthroughFs)
    requires
        fs.wf(),
    ensures
        !fs@.inodes.contains_key(fs@.next_inode),
        !fs@.handles.contains_key(fs@.next_handle),
{
    inode_map_entries(fs.inodes@);
}

/// No file of the host has two inodes.
pub proof fn one_inode_per_file(fs: PassthroughFs, a: u64, b: u64)
    requires
        fs.wf(),
        fs@.inodes.contains_key(a),
        fs@.inodes.contains_key(b),
        fs@.inodes[a].ino == fs@.inodes[b].ino,
        fs@.inodes[a].dev == fs@.inodes[b].dev,
    ensures
        a == b,
{
    one_inode_per_file_in(fs.inodes@, a, b);
}

/// A forget of an inode does not touch any other.
pub proof fn forget_touches_one(m: Map<u64, InodeData>, inode: u64, count: u64, other: u64)
    requires
        other != inode,
        m.contains_key(other),
    ensures
        forgotten(m, inode, count).contains_key(other),
        forgotten(m, inode, count)[other] == m[other],
{
}

proof fn open_flag_facts(
    flags: i32,
    nofollow: i32,
    creat: i32,
    excl: i32,
    noctty: i32,
    cloexec: i32,
    x: i32,
)
    by (bit_vector)
    ensures
        ({
            let r = ((flags & !nofollow) & !(creat | excl | noctty)) | cloexec;
            let c = r | creat | cloexec | nofollow;
            &&& x & (nofollow | creat | excl | noctty | cloexec) == 0 ==> r & x == flags & x
            &&& r & cloexec == cloexec
            &&& x & (nofollow | creat | excl | noctty) == x && x & cloexec == 0 ==> r & x == 0
            &&& x & (nofollow | creat | excl | noctty | cloexec) == 0 ==> c & x == flags & x
            &&& c & creat == creat
            &&& c & cloexec == cloexec
            &&& c & nofollow == nofollow
            &&& x & (excl | noctty) == x && x & (creat | cloexec | nofollow) == 0 ==> c & x == 0
        }),
{
}

proof fn host_flag_facts(a: i32, b: i32, c: i32, d: i32, x: i32)
    by (bit_vector)
    ensures
        ({
            let f = a | b | c;
            let g = a | b | c | d;
            &&& f & a == a && f & b == b && f & c == c
            &&& g & a == a && g & b == b && g & c == c && g & d == d
            &&& x & a == 0 && x & b == 0 && x & c == 0 ==> f & x == 0
            &&& x & a == 0 && x & b == 0 && x & c == 0 && x & d == 0 ==> g & x == 0
        }),
{
}

proof fn mask_facts(v: u32, mask: u32, x: u32, mode: u16)
    by (bit_vector)
    ensures
        (v & !mask) & mask == 0,
        x & mask == 0 ==> (v & !mask) & x == v & x,
        (v | mask) & mask == mask,
        x & mask == 0 ==> (v | mask) & x == v & x,
        (mode & 0xf000u16 == 0x8000u16) == (mode / 0x1000 == 8),
        (mode & 0xf000u16 == 0x4000u16) == (mode / 0x1000 == 4),
{
}

/// The flags that a file is opened anew with agree with those of the guest on
/// every bit but the ones that follow no links, create files, ask for a new file
/// or a terminal, and close on exec; so the access mode is kept. Of these, closing
/// on exec is set and the others are clear.
pub proof fn reopening_keeps_the_guests_flags(bits: OpenFlags, flags: i32, x: i32)
    ensures
        x & (bits.nofollow | bits.creat | bits.excl | bits.noctty | bits.cloexec) == 0
            ==> reopen_flags(bits, flags) & x == flags & x,
        reopen_flags(bits, flags) & bits.cloexec == bits.cloexec,
        x & (bits.nofollow | bits.creat | bits.excl | bits.noctty) == x && x & bits.cloexec == 0
            ==> reopen_flags(bits, flags) & x == 0,
{
    open_flag_facts(
        flags,
        bits.nofollow,
        bits.creat,
        bits.excl,
        bits.noctty,
        bits.cloexec,
        x,
    );
}

/// The flags that a file is created with keep those of the guest in the same way;
/// the file is created, no link is followed, and it is closed on exec.
pub proof fn creating_keeps_the_guests_flags(bits: OpenFlags, flags: i32, x: i32)
    ensures
        x & (bits.nofollow | bits.creat | bits.excl | bits.noctty | bits.cloexec) == 0
            ==> create_flags_of(bits, flags) & x == flags & x,
        create_flags_of(bits, flags) & bits.creat == bits.creat,
        create_flags_of(bits, flags) & bits.cloexec == bits.cloexec,
        create_flags_of(bits, flags) & bits.nofollow == bits.nofollow,
        x & (bits.excl | bits.noctty) == x && x & (bits.creat | bits.cloexec | bits.nofollow) == 0
            ==> create_flags_of(bits, flags) & x == 0,
{
    open_flag_facts(
        flags,
        bits.nofollow,
        bits.creat,
        bits.excl,
        bits.noctty,
        bits.cloexec,
        x,
    );
}

/// A file is looked up by opening it for reading, without following links and
/// closed on exec, a directory as a directory, and with no other flag. So is the
/// shared directory itself.
pub proof fn looking_up_opens_for_reading(bits: OpenFlags, mode: u16, x: i32)
    ensures
        ({
            let f = lookup_flags(bits, mode);
            &&& f & bits.rdonly == bits.rdonly
            &&& f & bits.nofollow == bits.nofollow
            &&& f & bits.cloexec == bits.cloexec
            &&& mode / 0x1000 == 4 ==> f & bits.directory == bits.directory && f == bits.rdonly
                | bits.nofollow | bits.cloexec | bits.directory
            &&& x & bits.rdonly == 0 && x & bits.nofollow == 0 && x & bits.cloexec == 0 && (mode
                / 0x1000 != 4 || x & bits.directory == 0) ==> f & x == 0
        }),
        ({
            let f = root_flags(bits);
            &&& f & bits.rdonly == bits.rdonly
            &&& f & bits.nofollow == bits.nofollow
            &&& f & bits.cloexec == bits.cloexec
            &&& f & bits.directory == bits.directory
            &&& x & bits.rdonly == 0 && x & bits.nofollow == 0 && x & bits.cloexec == 0 && x
                & bits.directory == 0 ==> f & x == 0
        }),
{
    host_flag_facts(bits.rdonly, bits.nofollow, bits.cloexec, bits.directory, x);
    host_flag_facts(bits.rdonly, bits.directory, bits.nofollow, bits.cloexec, x);
    mask_facts(0, 0, 0, mode);
}

/// The upper four bits of a mode tell regular files, directories and the rest
/// apart.
pub proof fn mode_tells_the_kind(mode: u16)
    ensures
        file_type_of(mode) == FileType::Regular <==> mode / 0x1000 == 8,
        file_type_of(mode) == FileType::Directory <==> mode / 0x1000 == 4,
{
    mask_facts(0, 0, 0, mode);
}

/// Each attribute that is to be set has its step, with the value that the guest
/// gave, and none that is not; the owner that is not to be set is left as it is,
/// and so is the time. The last step reads what became of the file.
pub proof fn attributes_are_set_as_asked(
    inode_file: u64,
    file: u64,
    by_handle: bool,
    attr: FileAttr,
    valid: SetattrValid,
)
    ensures
        ({
            let steps = attr_steps(inode_file, file, by_handle, attr, valid);
            let n: int = (if valid.mode {
                1int
            } else {
                0
            }) + (if valid.uid || valid.gid {
                1int
            } else {
                0
            }) + (if valid.size {
                1int
            } else {
                0
            }) + (if valid.atime || valid.mtime {
                1int
            } else {
                0
            });
            &&& steps.len() == n + 1
            &&& steps[n] == AttrStep::Stat { file: inode_file }
            &&& valid.mode ==> steps[0] == AttrStep::Chmod { file, mode: attr.mode }
            &&& valid.uid && valid.gid ==> steps.contains(
                AttrStep::Chown { file, uid: attr.uid, gid: attr.gid },
            )
            &&& valid.uid && !valid.gid ==> steps.contains(
                AttrStep::Chown { file, uid: attr.uid, gid: 0xffff_ffff },
            )
            &&& !valid.uid && valid.gid ==> steps.contains(
                AttrStep::Chown { file, uid: 0xffff_ffff, gid: attr.gid },
            )
            &&& valid.size && by_handle ==> steps.contains(
                AttrStep::Truncate { file, size: attr.size },
            )
            &&& valid.size && !by_handle ==> steps.contains(
                AttrStep::ReopenAndTruncate { file: inode_file, size: attr.size },
            )
            &&& valid.atime || valid.mtime ==> {
                &&& steps[n - 1] matches AttrStep::SetTimes { file: f, atime, mtime } && f == file
                    && (valid.atime_now ==> atime == SetTime::Now) && (valid.mtime_now ==> mtime
                    == SetTime::Now) && (!valid.atime_now && valid.atime ==> atime == SetTime::At(
                    attr.atime,
                    attr.atime_nsec,
                )) && (!valid.mtime_now && valid.mtime ==> mtime == SetTime::At(
                    attr.mtime,
                    attr.mtime_nsec,
                )) && (!valid.atime_now && !valid.atime ==> atime == SetTime::Omit) && (
                !valid.mtime_now && !valid.mtime ==> mtime == SetTime::Omit)
            }
        }),
{
    let steps = attr_steps(inode_file, file, by_handle, attr, valid);
    let i: int = if valid.mode {
        1
    } else {
        0
    };
    if valid.uid || valid.gid {
        assert(steps[i] is Chown);
        assert(steps.contains(steps[i]));
    }
    let j: int = if valid.uid || valid.gid {
        i + 1
    } else {
        i
    };
    if valid.size {
        assert(steps[j] is Truncate || steps[j] is ReopenAndTruncate);
        assert(steps.contains(steps[j]));
    }
}

/// A look-up counts: a file that is new to the guest starts with one look-up and
/// with what the host says of it, another has one more than before. No other file
/// is touched.
pub proof fn lookups_are_counted(
    m: FsModel,
    st: FileStat,
    file: u64,
    flags: i32,
    other: u64,
)
    requires
        m.next_inode < u64::MAX,
        other != m.inode_for(st),
    ensures
        ({
            let n = m.entry_added(st, file, flags);
            let k = m.inode_for(st);
            &&& n.inodes.contains_key(k)
            &&& n.inodes[k].ino == st.ino && n.inodes[k].dev == st.dev
            &&& n.inodes.contains_key(other) == m.inodes.contains_key(other)
            &&& n.inodes.contains_key(other) ==> n.inodes[other] == m.inodes[other]
            &&& knows(m.inodes, st.ino, st.dev) ==> {
                &&& m.inodes[k].refcount < u64::MAX ==> n.inodes[k].refcount
                    == m.inodes[k].refcount + 1
                &&& n.inodes[k].file == m.inodes[k].file
                &&& n.next_inode == m.next_inode
            }
            &&& !knows(m.inodes, st.ino, st.dev) ==> {
                &&& k == m.next_inode
                &&& n.next_inode == k + 1
                &&& n.inodes[k].refcount == 1
                &&& n.inodes[k].inode == k
                &&& n.inodes[k].file == file
                &&& n.inodes[k].open_flags == flags
            }
        }),
        m.entry(other).inode == other,
        m.entry(other).attr_timeout == m.cfg.timeout,
        m.entry(other).entry_timeout == m.cfg.timeout,
{
    if knows(m.inodes, st.ino, st.dev) {
        let k = known_inode(m.inodes, st.ino, st.dev);
        assert(m.inodes.contains_key(k) && m.inodes[k].ino == st.ino && m.inodes[k].dev == st.dev);
    }
}

/// A file stays known as long as it was looked up more often than it was
/// forgotten, and forgetting it in two requests is forgetting it once for both.
pub proof fn forgetting_adds_up(m: Map<u64, InodeData>, inode: u64, a: u64, b: u64)
    requires
        m.contains_key(inode),
        a + b <= u64::MAX,
    ensures
        forgotten(m, inode, a).contains_key(inode) <==> m[inode].refcount > a,
        m[inode].refcount > a ==> forgotten(m, inode, a)[inode].refcount == m[inode].refcount - a
            && forgotten(m, inode, a)[inode].file == m[inode].file,
        forgotten(forgotten(m, inode, a), inode, b) == forgotten(m, inode, (a + b) as u64),
        all_forgotten(m, seq![(inode, a), (inode, b)]) == forgotten(m, inode, (a + b) as u64),
{
    assert(forgotten(forgotten(m, inode, a), inode, b) =~= forgotten(m, inode, (a + b) as u64));
    let requests = seq![(inode, a), (inode, b)];
    reveal_with_fuel(all_forgotten, 3);
    assert(requests.drop_last() =~= seq![(inode, a)]);
    assert(requests.drop_last().drop_last() =~= Seq::<(u64, u64)>::empty());
}

/// An open hands out a handle that was not in use, which stands for the file and
/// the inode it was opened for; the next open hands out another.
pub proof fn handles_are_new(m: FsModel, inode: u64, file: u64, again: u64)
    requires
        m.next_handle < u64::MAX,
    ensures
        m.opened(inode, file).handles[m.next_handle].inode == inode,
        m.opened(inode, file).handles[m.next_handle].file == file,
        m.opened(inode, file).next_handle != m.next_handle,
        again != m.next_handle ==> m.opened(inode, file).handles.contains_key(again)
            == m.handles.contains_key(again),
        again != m.next_handle && m.handles.contains_key(again) ==> m.opened(
            inode,
            file,
        ).handles[again] == m.handles[again],
        m.opened(inode, file).has_handle(m.next_handle, again) <==> again == inode,
{
}

/// A guest that must not cache reads directly, one that may always cache keeps
/// what it has, and otherwise the guest decides.
pub proof fn cache_policy_is_told(policy: CachePolicy)
    ensures
        policy == CachePolicy::Never <==> cache_option(policy) == OpenOption::DirectIo,
        policy == CachePolicy::Always <==> cache_option(policy) == OpenOption::KeepCache,
        policy == CachePolicy::Auto <==> cache_option(policy) == OpenOption::Default,
{
}

/// Dropping a file of the host leaves every other file that the guest knows.
pub proof fn other_files_stay(m: Map<u64, InodeData>, ino: u64, dev: i64, k: u64)
    requires
        m.contains_key(k),
        m[k].ino != ino || m[k].dev != dev,
    ensures
        without_file(m, ino, dev).contains_key(k),
        without_file(m, ino, dev)[k] == m[k],
{
    if knows(m, ino, dev) {
        let g = known_inode(m, ino, dev);
        assert(m.contains_key(g) && m[g].ino == ino && m[g].dev == dev);
    }
}

/// The guest knows a file of the host where one of its inodes has the number and the
/// device of that file, both of them, and the file is then under such an inode.
pub proof fn files_are_known_by_number_and_device(
    m: Map<u64, InodeData>,
    ino: u64,
    dev: i64,
    k: u64,
)
    ensures
        m.contains_key(k) ==> knows(m, m[k].ino, m[k].dev),
        (forall|i: u64| #[trigger] m.contains_key(i) ==> m[i].ino != ino || m[i].dev != dev)
            ==> !knows(m, ino, dev),
        knows(m, ino, dev) ==> {
            let i = known_inode(m, ino, dev);
            m.contains_key(i) && m[i].ino == ino && m[i].dev == dev
        },
{
}

} // verus!
