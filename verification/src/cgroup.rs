//! Control groups: the memory limit of each guest and its accounting.
//!
//! Each guest has a group of its own under `/sys/fs/cgroup/clone`. What has to
//! be done to the file system is given as a list of operations.
use vstd::prelude::*;

use crate::text;
use crate::text::{decimal_string, parse_u64, path_join, trim};

verus! {

/// Where the control groups are mounted.
pub const CGROUP_ROOT: &'static str = "/sys/fs/cgroup";

/// The group that holds the groups of all guests.
pub const PARENT_NAME: &'static str = "clone";

/// An operation on the file system of the control groups.
#[derive(Debug)]
pub enum CgroupOp {
    /// Make a directory.
    MakeDir { path: String },
    /// Write text to a file. Where it is `optional`, failing does not matter.
    Write { path: String, data: String, optional: bool },
}

/// The directory that holds the groups of all guests.
pub open spec fn parent_dir() -> Seq<char> {
    text::joined(CGROUP_ROOT@, PARENT_NAME@)
}

/// The directory of a guest's group.
pub open spec fn vm_dir(vm_id: Seq<char>) -> Seq<char> {
    text::joined(parent_dir(), vm_id)
}

/// The directory that holds the groups of all guests.
pub fn parent_path() -> (p: String)
    ensures
        p@ == parent_dir(),
{
    path_join(CGROUP_ROOT, PARENT_NAME)
}

/// The directory of a guest's group.
pub fn vm_cgroup_path(vm_id: &str) -> (p: String)
    ensures
        p@ == vm_dir(vm_id@),
{
    path_join(parent_path().as_str(), vm_id)
}

/// Whether guests can have groups: version 2 of the control groups is there, and
/// the parent group can be written.
pub fn is_available(root_present: bool, parent_writable: bool) -> (b: bool)
    ensures
        b == (root_present && parent_writable),
{
    root_present && parent_writable
}

/// Whether the parent group can be written: the group itself where it exists, and
/// else the directory in which it is made.
pub fn parent_writable(exists: bool, writable: bool, root_writable: bool) -> (b: bool)
    ensures
        b == (if exists {
            writable
        } else {
            root_writable
        }),
{
    if exists {
        writable
    } else {
        root_writable
    }
}

/// `op` makes this directory.
pub open spec fn makes(op: CgroupOp, dir: Seq<char>) -> bool {
    op matches CgroupOp::MakeDir { path } && path@ == dir
}

/// `op` writes this text to this file.
pub open spec fn writes(op: CgroupOp, file: Seq<char>, text: Seq<char>, optional: bool) -> bool {
    op matches CgroupOp::Write { path, data, optional: o } && path@ == file && data@ == text && o
        == optional
}

/// `op` enables the controllers that the groups of guests need.
pub open spec fn enables_controllers(op: CgroupOp) -> bool {
    writes(
        op,
        text::joined(CGROUP_ROOT@, "cgroup.subtree_control"@),
        "+memory +cpu +pids"@,
        true,
    )
}

/// The memory limit as it is written: bytes, or "max" for none.
pub open spec fn limit_text(memory_limit_mb: Option<u32>) -> Seq<char> {
    match memory_limit_mb {
        Some(mb) => text::decimal((mb * 1024 * 1024) as nat),
        None => "max"@,
    }
}

/// The operations that make a guest's group with its limits.
pub open spec fn makes_vm(ops: Seq<CgroupOp>, vm_id: Seq<char>, memory_limit_mb: Option<u32>) -> bool {
    &&& ops.len() == 3
    &&& makes(ops[0], vm_dir(vm_id))
    &&& writes(
        ops[1],
        text::joined(vm_dir(vm_id), "memory.max"@),
        limit_text(memory_limit_mb),
        false,
    )
    &&& writes(ops[2], text::joined(vm_dir(vm_id), "pids.max"@), "4096"@, true)
}

/// What makes the parent group exist, unless it does already, and enables its
/// controllers.
pub fn ensure_parent(exists: bool) -> (ops: Vec<CgroupOp>)
    ensures
        exists ==> ops@.len() == 1,
        !exists ==> ops@.len() == 2 && makes(ops@[0], parent_dir()),
        enables_controllers(ops@.last()),
{
    let mut ops: Vec<CgroupOp> = Vec::new();
    if !exists {
        ops.push(CgroupOp::MakeDir { path: parent_path() });
    }
    ops.push(
        CgroupOp::Write {
            path: path_join(CGROUP_ROOT, "cgroup.subtree_control"),
            data: "+memory +cpu +pids".to_owned(),
            optional: true,
        },
    );
    ops
}

/// What makes a group for a guest with the given memory limit in megabytes.
/// None is unlimited.
pub fn create_vm_cgroup(vm_id: &str, memory_limit_mb: Option<u32>) -> (ops: Vec<CgroupOp>)
    ensures
        makes_vm(ops@, vm_id@, memory_limit_mb),
{
    let dir = vm_cgroup_path(vm_id);
    let limit = match memory_limit_mb {
        Some(mb) => decimal_string(mb as u64 * 1024 * 1024),
        None => "max".to_owned(),
    };
    let memory_max = path_join(dir.as_str(), "memory.max");
    let pids_max = path_join(dir.as_str(), "pids.max");
    let mut ops: Vec<CgroupOp> = Vec::new();
    ops.push(CgroupOp::MakeDir { path: dir });
    ops.push(CgroupOp::Write { path: memory_max, data: limit, optional: false });
    ops.push(CgroupOp::Write { path: pids_max, data: "4096".to_owned(), optional: true });
    ops
}

/// What puts a process into a guest's group.
pub fn add_process(vm_id: &str, pid: u32) -> (op: CgroupOp)
    ensures
        writes(
            op,
            text::joined(vm_dir(vm_id@), "cgroup.procs"@),
            text::decimal(pid as nat),
            false,
        ),
{
    CgroupOp::Write {
        path: path_join(vm_cgroup_path(vm_id).as_str(), "cgroup.procs"),
        data: decimal_string(pid as u64),
        optional: false,
    }
}

/// The group of a guest that was just started, given whether making it
/// succeeded. That the process could not be put into it does not matter.
pub fn setup_cgroup(vm_id: &str, created: bool) -> (path: Option<String>)
    ensures
        path is Some <==> created,
        path is Some ==> path->0@ == vm_dir(vm_id@),
{
    if created {
        Some(vm_cgroup_path(vm_id))
    } else {
        None
    }
}

/// File that holds the memory that a guest uses now.
pub fn memory_usage_path(vm_id: &str) -> (p: String)
    ensures
        p@ == text::joined(vm_dir(vm_id@), "memory.current"@),
{
    path_join(vm_cgroup_path(vm_id).as_str(), "memory.current")
}

/// File that holds the most memory that a guest has used.
pub fn memory_peak_path(vm_id: &str) -> (p: String)
    ensures
        p@ == text::joined(vm_dir(vm_id@), "memory.peak"@),
{
    path_join(vm_cgroup_path(vm_id).as_str(), "memory.peak")
}

/// Reads a number of bytes as the kernel writes it. White space around it does
/// not matter.
pub fn parse_memory(contents: &str) -> (r: Option<u64>)
    ensures
        r == text::parsed_u64(text::trimmed(contents@)),
{
    parse_u64(trim(contents))
}

/// Why the memory of a guest could not be told.
#[derive(Debug)]
pub enum MemoryError {
    /// The file could not be read.
    Unreadable { path: String },
    /// The file holds no number.
    Invalid { contents: String },
}

/// What the contents of a memory file at `path`, if they could be read, say.
pub open spec fn memory_in(path: String, contents: Option<String>) -> Result<u64, MemoryError> {
    match contents {
        None => Err(MemoryError::Unreadable { path }),
        Some(contents) => match text::parsed_u64(text::trimmed(contents@)) {
            Some(n) => Ok(n),
            None => Err(MemoryError::Invalid { contents }),
        },
    }
}

fn read_memory<F: FnOnce(&String) -> Option<String>>(path: String, read: F) -> (r: Result<
    u64,
    MemoryError,
>)
    requires
        read.requires((&path,)),
    ensures
        exists|contents: Option<String>| #[trigger]
            read.ensures((&path,), contents) && r == memory_in(path, contents),
{
    match read(&path) {
        None => Err(MemoryError::Unreadable { path }),
        Some(contents) => match parse_memory(contents.as_str()) {
            Some(n) => Ok(n),
            None => Err(MemoryError::Invalid { contents }),
        },
    }
}

/// The memory that a guest uses now, in bytes. `read` gives the contents of a
/// file, if it can be read.
pub fn get_memory_usage<F: FnOnce(&String) -> Option<String>>(vm_id: &str, read: F) -> (r: Result<
    u64,
    MemoryError,
>)
    requires
        forall|path: &String|
            path@ == text::joined(vm_dir(vm_id@), "memory.current"@) ==> #[trigger] read.requires(
                (path,),
            ),
    ensures
        exists|path: String, contents: Option<String>|
            path@ == text::joined(vm_dir(vm_id@), "memory.current"@) && #[trigger] read.ensures(
                (&path,),
                contents,
            ) && r == memory_in(path, contents),
{
    read_memory(memory_usage_path(vm_id), read)
}

/// The most memory that a guest has used, in bytes. `read` gives the contents of
/// a file, if it can be read.
pub fn get_memory_peak<F: FnOnce(&String) -> Option<String>>(vm_id: &str, read: F) -> (r: Result<
    u64,
    MemoryError,
>)
    requires
        forall|path: &String|
            path@ == text::joined(vm_dir(vm_id@), "memory.peak"@) ==> #[trigger] read.requires(
                (path,),
            ),
    ensures
        exists|path: String, contents: Option<String>|
            path@ == text::joined(vm_dir(vm_id@), "memory.peak"@) && #[trigger] read.ensures(
                (&path,),
                contents,
            ) && r == memory_in(path, contents),
{
    read_memory(memory_peak_path(vm_id), read)
}

/// What is left to remove of a guest's group: its directory with the groups below
/// it, if it exists.
pub fn remove_cgroup(vm_id: &str, exists: bool) -> (dir: Option<String>)
    ensures
        dir is Some <==> exists,
        dir is Some ==> dir->0@ == vm_dir(vm_id@),
{
    if exists {
        Some(vm_cgroup_path(vm_id))
    } else {
        None
    }
}

/// The group of a guest whose id is a plain name is a directory of its own below
/// the parent group.
pub proof fn lemma_vm_dir_is_namespaced(vm_id: Seq<char>)
    requires
        vm_id.len() == 0 || vm_id[0] != '/',
    ensures
        vm_dir(vm_id) == "/sys/fs/cgroup/clone/"@ + vm_id,
{
    reveal_strlit("/sys/fs/cgroup");
    reveal_strlit("clone");
    reveal_strlit("/sys/fs/cgroup/clone/");
    assert(parent_dir() =~= "/sys/fs/cgroup"@ + seq!['/'] + "clone"@);
    assert(parent_dir().last() == 'e');
    assert(parent_dir() + seq!['/'] =~= "/sys/fs/cgroup/clone/"@);
    assert(vm_dir(vm_id) =~= "/sys/fs/cgroup/clone/"@ + vm_id);
}

/// A limit that the kernel reports back is the number of bytes asked for.
pub proof fn lemma_limit_reads_back(mb: u32)
    ensures
        text::parsed_u64(limit_text(Some(mb))) == Some((mb * 1048576) as u64),
{
    text::lemma_parse_decimal((mb * 1024 * 1024) as u64);
}

} // verus!
