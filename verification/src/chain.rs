//! Diff chains: from an incremental snapshot back to its root, and forward
//! again to the memory it stands for.
use vstd::prelude::*;

use crate::snapshot;
use crate::snapshot::{
    apply_diff, default_snapshot_type_full, memory_digest, DeviceStates, IncrementalSnapshot,
    MemoryImage, TemplateSnapshot, VcpuState,
};
use crate::strmap::StrMap;
use crate::text;
use crate::text::{cat2, cat3, clone_option, path_join, str_eq};

verus! {

/// One snapshot of a diff chain.
#[derive(Debug)]
pub struct ChainNode {
    pub tag: Option<String>,
    pub snapshot_type: String,
    pub chain_depth: u32,
    pub dir: String,
}

/// A diff chain from root to leaf.
#[derive(Debug)]
pub struct ChainInfo {
    pub nodes: Vec<ChainNode>,
    pub total_depth: u32,
}

/// What was found in a snapshot directory. A directory that holds both kinds of
/// metadata counts as incremental.
#[derive(Debug)]
pub enum StoredSnapshot {
    /// An incremental snapshot, with its changed pages where they were read.
    Incremental { diff: IncrementalSnapshot, pages: Option<Vec<u8>> },
    /// A full snapshot, with its memory image where it was read.
    Full { template: TemplateSnapshot, memory: Option<Vec<u8>> },
    /// Neither kind could be loaded.
    Absent,
}

/// What a directory counts as in which the given metadata was found: an
/// incremental snapshot if there is one, else a full snapshot whose memory image
/// is there. `pages` and `image` are what was read of the files that the metadata
/// names.
pub fn classify(
    diff: Option<IncrementalSnapshot>,
    pages: Option<Vec<u8>>,
    template: Option<TemplateSnapshot>,
    image: MemoryImage,
) -> (s: StoredSnapshot)
    ensures
        s == (match (diff, template) {
            (Some(diff), _) => StoredSnapshot::Incremental { diff, pages },
            (None, Some(template)) => match image {
                MemoryImage::Missing => StoredSnapshot::Absent,
                MemoryImage::Unread => StoredSnapshot::Full { template, memory: None },
                MemoryImage::Bytes(b) => StoredSnapshot::Full { template, memory: Some(b) },
            },
            (None, None) => StoredSnapshot::Absent,
        }),
{
    match (diff, template) {
        (Some(diff), _) => StoredSnapshot::Incremental { diff, pages },
        (None, Some(template)) => match TemplateSnapshot::load(template, &image, false) {
            Ok(template) => StoredSnapshot::Full {
                template,
                memory: match image {
                    MemoryImage::Bytes(b) => Some(b),
                    _ => None,
                },
            },
            Err(_) => StoredSnapshot::Absent,
        },
        (None, None) => StoredSnapshot::Absent,
    }
}

/// The snapshot directories that were looked into, by path.
#[derive(Debug)]
pub struct SnapshotStore {
    pub dirs: StrMap<StoredSnapshot>,
}

impl View for SnapshotStore {
    type V = Map<Seq<char>, StoredSnapshot>;

    open spec fn view(&self) -> Map<Seq<char>, StoredSnapshot> {
        self.dirs@
    }
}

/// Why a diff chain could not be followed or resolved.
#[derive(Debug)]
pub enum ChainError {
    /// The directory was not looked into yet.
    NotProbed { dir: String },
    /// The directory holds no snapshot.
    Unloadable { dir: String },
    /// The chain is longer than the limit; the directory comes next.
    TooDeep { dir: String },
    /// A snapshot above the root is not incremental.
    NotIncremental { dir: String },
    /// The memory image of the root was not read.
    NoRootMemory { file: String },
    /// The changed pages of a snapshot were not read.
    NoDirtyPages { file: String },
}

/// What a `ChainError` says.
pub enum ChainFault {
    NotProbed { dir: Seq<char> },
    Unloadable { dir: Seq<char> },
    TooDeep { dir: Seq<char> },
    NotIncremental { dir: Seq<char> },
    NoRootMemory { file: Seq<char> },
    NoDirtyPages { file: Seq<char> },
}

impl View for ChainError {
    type V = ChainFault;

    open spec fn view(&self) -> ChainFault {
        match *self {
            ChainError::NotProbed { dir } => ChainFault::NotProbed { dir: dir@ },
            ChainError::Unloadable { dir } => ChainFault::Unloadable { dir: dir@ },
            ChainError::TooDeep { dir } => ChainFault::TooDeep { dir: dir@ },
            ChainError::NotIncremental { dir } => ChainFault::NotIncremental { dir: dir@ },
            ChainError::NoRootMemory { file } => ChainFault::NoRootMemory { file: file@ },
            ChainError::NoDirtyPages { file } => ChainFault::NoDirtyPages { file: file@ },
        }
    }
}

impl ChainError {
    /// The error in words.
    pub open spec fn described(self) -> Seq<char> {
        match self {
            ChainError::NotProbed { dir } => "Snapshot directory not read yet: "@ + dir@,
            ChainError::Unloadable { dir } => {
                "Cannot load snapshot at "@ + dir@ + ": not a valid template or incremental"@
            },
            ChainError::TooDeep { dir } => {
                "Chain too deep (>256), possible cycle at "@ + dir@
            },
            ChainError::NotIncremental { dir } => {
                "Failed to read incremental metadata: "@ + text::joined(
                    dir@,
                    snapshot::INCREMENTAL_METADATA_FILE@,
                )
            },
            ChainError::NoRootMemory { file } => "Failed to read root memory: "@ + file@,
            ChainError::NoDirtyPages { file } => "Failed to read dirty pages: "@ + file@,
        }
    }

    /// The error in words.
    pub fn message(&self) -> (s: String)
        ensures
            s@ == self.described(),
    {
        match self {
            ChainError::NotProbed { dir } => cat2("Snapshot directory not read yet: ", dir.as_str()),
            ChainError::Unloadable { dir } => {
                cat3(
                    "Cannot load snapshot at ",
                    dir.as_str(),
                    ": not a valid template or incremental",
                )
            },
            ChainError::TooDeep { dir } => {
                cat2("Chain too deep (>256), possible cycle at ", dir.as_str())
            },
            ChainError::NotIncremental { dir } => {
                let path = IncrementalSnapshot::metadata_path(dir.as_str());
                cat2("Failed to read incremental metadata: ", path.as_str())
            },
            ChainError::NoRootMemory { file } => cat2("Failed to read root memory: ", file.as_str()),
            ChainError::NoDirtyPages { file } => cat2("Failed to read dirty pages: ", file.as_str()),
        }
    }
}

/// The directory of the snapshot's parent, if it has one.
pub open spec fn parent_dir(s: StoredSnapshot) -> Option<Seq<char>> {
    match s {
        StoredSnapshot::Incremental { diff, pages } => Some(diff.parent()),
        StoredSnapshot::Full { template, memory } => match template.parent_tag {
            Some(p) => Some(p@),
            None => None,
        },
        StoredSnapshot::Absent => None,
    }
}

/// The directories from `dir` back to the root of its chain, `dir` first, where
/// at most `room` snapshots that have a parent come before the root.
pub open spec fn chain_dirs(
    store: Map<Seq<char>, StoredSnapshot>,
    dir: Seq<char>,
    room: nat,
) -> Result<Seq<Seq<char>>, ChainFault>
    decreases room,
{
    if !store.dom().contains(dir) {
        Err(ChainFault::NotProbed { dir })
    } else if store[dir] is Absent {
        Err(ChainFault::Unloadable { dir })
    } else {
        match parent_dir(store[dir]) {
            None => Ok(seq![dir]),
            Some(parent) => if room == 0 {
                Err(ChainFault::TooDeep { dir: parent })
            } else {
                match chain_dirs(store, parent, (room - 1) as nat) {
                    Ok(rest) => Ok(seq![dir] + rest),
                    Err(e) => Err(e),
                }
            },
        }
    }
}

/// How many snapshots of a chain may have a parent.
pub const MAX_CHAIN: u32 = 256;

/// The directories of the chain of `leaf` in root-to-leaf order, or what stops
/// the walk.
pub open spec fn chain_of(
    store: Map<Seq<char>, StoredSnapshot>,
    leaf: Seq<char>,
) -> Result<Seq<Seq<char>>, ChainFault> {
    match chain_dirs(store, leaf, 256) {
        Ok(dirs) => Ok(dirs.reverse()),
        Err(e) => Err(e),
    }
}

/// `node` describes the snapshot stored in its directory.
pub open spec fn describes(store: Map<Seq<char>, StoredSnapshot>, node: ChainNode, dir: Seq<char>) -> bool {
    &&& node.dir@ == dir
    &&& store.dom().contains(dir)
    &&& match store[dir] {
        StoredSnapshot::Incremental { diff, pages } => {
            &&& node.tag == diff.tag
            &&& node.snapshot_type == diff.snapshot_type
            &&& node.chain_depth == diff.chain_depth
        },
        StoredSnapshot::Full { template, memory } => {
            &&& node.tag == template.tag
            &&& node.snapshot_type == template.snapshot_type
            &&& node.chain_depth == template.chain_depth
        },
        StoredSnapshot::Absent => false,
    }
}

/// The nodes are those of the directories, in order.
pub open spec fn describe_all(
    store: Map<Seq<char>, StoredSnapshot>,
    nodes: Seq<ChainNode>,
    dirs: Seq<Seq<char>>,
) -> bool {
    &&& nodes.len() == dirs.len()
    &&& forall|i: int| 0 <= i < nodes.len() ==> describes(store, #[trigger] nodes[i], dirs[i])
}

fn walk_from(store: &SnapshotStore, dir: &str, room: u32) -> (r: Result<Vec<ChainNode>, ChainError>)
    ensures
        match r {
            Ok(nodes) => {
                &&& chain_dirs(store@, dir@, room as nat) matches Ok(dirs)
                &&& describe_all(store@, nodes@, dirs.reverse())
            },
            Err(e) => chain_dirs(store@, dir@, room as nat) == Err::<Seq<Seq<char>>, ChainFault>(e@),
        },
    decreases room,
{
    let (node, parent) = match store.dirs.get(dir) {
        None => {
            return Err(ChainError::NotProbed { dir: dir.to_owned() });
        },
        Some(StoredSnapshot::Absent) => {
            return Err(ChainError::Unloadable { dir: dir.to_owned() });
        },
        Some(StoredSnapshot::Incremental { diff, pages: _ }) => {
            let node = ChainNode {
                tag: clone_option(&diff.tag),
                snapshot_type: diff.snapshot_type.clone(),
                chain_depth: diff.chain_depth,
                dir: dir.to_owned(),
            };
            let parent = match &diff.parent_tag {
                Some(p) => p.clone(),
                None => diff.base_template.clone(),
            };
            (node, Some(parent))
        },
        Some(StoredSnapshot::Full { template, memory: _ }) => {
            let node = ChainNode {
                tag: clone_option(&template.tag),
                snapshot_type: template.snapshot_type.clone(),
                chain_depth: template.chain_depth,
                dir: dir.to_owned(),
            };
            (node, clone_option(&template.parent_tag))
        },
    };
    assert(describes(store@, node, dir@));
    match parent {
        None => {
            let mut nodes: Vec<ChainNode> = Vec::new();
            nodes.push(node);
            assert(seq![dir@].reverse() =~= seq![dir@]);
            Ok(nodes)
        },
        Some(p) => {
            if room == 0 {
                return Err(ChainError::TooDeep { dir: p });
            }
            let mut nodes = walk_from(store, p.as_str(), room - 1)?;
            proof {
                let rest = chain_dirs(store@, p@, (room - 1) as nat)->Ok_0;
                assert((seq![dir@] + rest).reverse() =~= rest.reverse().push(dir@));
            }
            nodes.push(node);
            Ok(nodes)
        },
    }
}

/// Follows the diff chain from `leaf_dir` back to its root. The snapshots come
/// in root-to-leaf order.
pub fn walk_chain(store: &SnapshotStore, leaf_dir: &str) -> (r: Result<Vec<ChainNode>, ChainError>)
    ensures
        match r {
            Ok(nodes) => {
                &&& chain_of(store@, leaf_dir@) matches Ok(dirs)
                &&& describe_all(store@, nodes@, dirs)
            },
            Err(e) => chain_of(store@, leaf_dir@) == Err::<Seq<Seq<char>>, ChainFault>(e@),
        },
{
    walk_from(store, leaf_dir, MAX_CHAIN)
}

/// The chain has a root and a leaf, and nothing between them is missing: each
/// snapshot is stored, the first has no parent, and each other one has the one
/// before it as its parent.
pub proof fn lemma_chain_links(store: Map<Seq<char>, StoredSnapshot>, leaf: Seq<char>)
    requires
        chain_of(store, leaf) is Ok,
    ensures
        ({
            let dirs = chain_of(store, leaf)->Ok_0;
            &&& 1 <= dirs.len() <= 257
            &&& dirs.last() == leaf
            &&& parent_dir(store[dirs[0]]) is None
            &&& store[dirs[0]] is Full
            &&& forall|i: int|
                0 <= i < dirs.len() ==> store.dom().contains(#[trigger] dirs[i])
                    && !(store[dirs[i]] is Absent)
            &&& forall|i: int|
                1 <= i < dirs.len() ==> parent_dir(store[#[trigger] dirs[i]]) == Some(dirs[i - 1])
        }),
{
    lemma_dirs_links(store, leaf, 256);
}

proof fn lemma_dirs_links(store: Map<Seq<char>, StoredSnapshot>, dir: Seq<char>, room: nat)
    requires
        chain_dirs(store, dir, room) is Ok,
    ensures
        ({
            let dirs = chain_dirs(store, dir, room)->Ok_0;
            &&& 1 <= dirs.len() <= room + 1
            &&& dirs[0] == dir
            &&& store[dirs.last()] is Full
            &&& parent_dir(store[dirs.last()]) is None
            &&& forall|i: int|
                0 <= i < dirs.len() ==> store.dom().contains(#[trigger] dirs[i])
                    && !(store[dirs[i]] is Absent)
            &&& forall|i: int|
                0 <= i < dirs.len() - 1 ==> parent_dir(store[#[trigger] dirs[i]]) == Some(
                    dirs[i + 1],
                )
        }),
    decreases room,
{
    if parent_dir(store[dir]) is Some {
        lemma_dirs_links(store, parent_dir(store[dir])->0, (room - 1) as nat);
    }
}

/// Information on the chain of `leaf_dir`: its snapshots from root to leaf, and
/// the depth recorded in the leaf.
pub fn chain_info(store: &SnapshotStore, leaf_dir: &str) -> (r: Result<ChainInfo, ChainError>)
    ensures
        match r {
            Ok(info) => {
                &&& chain_of(store@, leaf_dir@) matches Ok(dirs)
                &&& describe_all(store@, info.nodes@, dirs)
                &&& info.nodes@.len() > 0
                &&& info.total_depth == info.nodes@.last().chain_depth
            },
            Err(e) => chain_of(store@, leaf_dir@) == Err::<Seq<Seq<char>>, ChainFault>(e@),
        },
{
    let nodes = walk_chain(store, leaf_dir)?;
    proof {
        lemma_chain_links(store@, leaf_dir@);
    }
    let total_depth: u32 = nodes[nodes.len() - 1].chain_depth;
    Ok(ChainInfo { nodes, total_depth })
}

/// The distance from the chain root that a snapshot records.
pub open spec fn depth_of(s: StoredSnapshot) -> u32 {
    match s {
        StoredSnapshot::Incremental { diff, pages } => diff.chain_depth,
        StoredSnapshot::Full { template, memory } => template.chain_depth,
        StoredSnapshot::Absent => 0,
    }
}

/// The distance from the chain root that a snapshot records, zero where there is
/// none.
pub fn stored_depth(s: &StoredSnapshot) -> (d: u32)
    ensures
        d == depth_of(*s),
{
    match s {
        StoredSnapshot::Incremental { diff, pages: _ } => diff.chain_depth,
        StoredSnapshot::Full { template, memory: _ } => template.chain_depth,
        StoredSnapshot::Absent => 0,
    }
}

/// Each snapshot of the chain, given from root to leaf, records a depth of one
/// more than its parent, and the root records zero.
pub open spec fn numbered(
    store: Map<Seq<char>, StoredSnapshot>,
    dirs: Seq<Seq<char>>,
) -> bool {
    &&& depth_of(store[dirs[0]]) == 0
    &&& forall|i: int|
        1 <= i < dirs.len() ==> depth_of(store[#[trigger] dirs[i]]) == depth_of(store[dirs[i - 1]])
            + 1
}

/// The depth recorded in a leaf is the number of snapshots below it, where each
/// snapshot of its chain was given the depth of its base and one more.
pub proof fn lemma_depth_counts_links(store: Map<Seq<char>, StoredSnapshot>, leaf: Seq<char>)
    requires
        chain_of(store, leaf) is Ok,
        numbered(store, chain_of(store, leaf)->Ok_0),
    ensures
        depth_of(store[leaf]) == chain_of(store, leaf)->Ok_0.len() - 1,
{
    let dirs = chain_of(store, leaf)->Ok_0;
    lemma_chain_links(store, leaf);
    lemma_depth_at(store, dirs, dirs.len() - 1);
}

proof fn lemma_depth_at(store: Map<Seq<char>, StoredSnapshot>, dirs: Seq<Seq<char>>, i: int)
    requires
        0 <= i < dirs.len(),
        numbered(store, dirs),
    ensures
        depth_of(store[dirs[i]]) == i,
    decreases i,
{
    if i > 0 {
        lemma_depth_at(store, dirs, i - 1);
    }
}

/// What stops the chain `dirs`, given from root to leaf, from being resolved:
/// the first snapshot of it whose data is missing or of the wrong kind.
pub open spec fn resolve_fault(
    store: Map<Seq<char>, StoredSnapshot>,
    dirs: Seq<Seq<char>>,
) -> Option<ChainFault>
    decreases dirs.len(),
{
    if dirs.len() <= 1 {
        match store[dirs[0]] {
            StoredSnapshot::Full { template, memory } => if memory is None {
                Some(ChainFault::NoRootMemory { file: template.memory_file@ })
            } else {
                None
            },
            _ => None,
        }
    } else if resolve_fault(store, dirs.drop_last()) is Some {
        resolve_fault(store, dirs.drop_last())
    } else {
        match store[dirs.last()] {
            StoredSnapshot::Incremental { diff, pages } => if pages is None {
                Some(ChainFault::NoDirtyPages { file: diff.dirty_pages_file@ })
            } else {
                None
            },
            _ => Some(ChainFault::NotIncremental { dir: dirs.last() }),
        }
    }
}

/// The memory that the chain `dirs`, given from root to leaf, stands for: the
/// root's image with each diff laid over it in turn.
pub open spec fn resolved_memory(
    store: Map<Seq<char>, StoredSnapshot>,
    dirs: Seq<Seq<char>>,
) -> Seq<u8>
    decreases dirs.len(),
{
    if dirs.len() <= 1 {
        store[dirs[0]]->memory->0@
    } else {
        snapshot::applied(
            resolved_memory(store, dirs.drop_last()),
            store[dirs.last()]->diff.memory_size as nat,
            store[dirs.last()]->diff.dirty_bitmap@,
            store[dirs.last()]->pages->0@,
        )
    }
}

/// The outcome of resolving the chain of `leaf`: the memory, or what stops it.
pub open spec fn resolution(
    store: Map<Seq<char>, StoredSnapshot>,
    leaf: Seq<char>,
) -> Result<Seq<u8>, ChainFault> {
    match chain_of(store, leaf) {
        Err(e) => Err(e),
        Ok(dirs) => match resolve_fault(store, dirs) {
            Some(e) => Err(e),
            None => Ok(resolved_memory(store, dirs)),
        },
    }
}

/// The register state recorded in a snapshot.
pub open spec fn vcpus_of(s: StoredSnapshot) -> Vec<VcpuState> {
    match s {
        StoredSnapshot::Incremental { diff, pages } => diff.vcpu_states,
        _ => s->template.vcpu_states,
    }
}

/// The device state recorded in a snapshot.
pub open spec fn devices_of(s: StoredSnapshot) -> DeviceStates {
    match s {
        StoredSnapshot::Incremental { diff, pages } => diff.device_states,
        _ => s->template.device_states,
    }
}

fn root_memory(store: &SnapshotStore, dir: &str) -> (r: Result<Vec<u8>, ChainError>)
    requires
        store@.dom().contains(dir@),
        store@[dir@] is Full,
    ensures
        match r {
            Ok(mem) => store@[dir@]->memory is Some && mem@ == store@[dir@]->memory->0@,
            Err(e) => store@[dir@]->memory is None && e@ == (ChainFault::NoRootMemory {
                file: store@[dir@]->template.memory_file@,
            }),
        },
{
    match store.dirs.get(dir) {
        Some(StoredSnapshot::Full { template, memory }) => match memory {
            Some(m) => {
                let copy = m.clone();
                assert(copy@ =~= m@);
                Ok(copy)
            },
            None => Err(ChainError::NoRootMemory { file: template.memory_file.clone() }),
        },
        _ => Ok(Vec::new()),
    }
}

/// Rebuilds the memory of `leaf_dir` by laying the diffs of its chain over the
/// root's image in root-to-leaf order. The register and device state is the
/// leaf's.
pub fn resolve_chain<'a>(store: &'a SnapshotStore, leaf_dir: &str) -> (r: Result<
    (Vec<u8>, &'a Vec<VcpuState>, &'a DeviceStates),
    ChainError,
>)
    ensures
        match r {
            Ok((mem, vcpus, devices)) => {
                &&& resolution(store@, leaf_dir@) == Ok::<Seq<u8>, ChainFault>(mem@)
                &&& *vcpus == vcpus_of(store@[leaf_dir@])
                &&& *devices == devices_of(store@[leaf_dir@])
            },
            Err(e) => resolution(store@, leaf_dir@) == Err::<Seq<u8>, ChainFault>(e@),
        },
{
    let chain = walk_chain(store, leaf_dir)?;
    let ghost dirs = chain_of(store@, leaf_dir@)->Ok_0;
    proof {
        lemma_chain_links(store@, leaf_dir@);
        assert(dirs.take(dirs.len() as int) =~= dirs);
        lemma_fault_prefix(store@, dirs, 1);
        assert(dirs.take(1)[0] == dirs[0]);
    }
    assert(describes(store@, chain[0], dirs[0]));
    let mut mem = root_memory(store, chain[0].dir.as_str())?;
    let mut i: usize = 1;
    while i < chain.len()
        invariant
            1 <= i <= chain@.len(),
            chain_of(store@, leaf_dir@) == Ok::<Seq<Seq<char>>, ChainFault>(dirs),
            describe_all(store@, chain@, dirs),
            resolve_fault(store@, dirs.take(i as int)) is None,
            mem@ == resolved_memory(store@, dirs.take(i as int)),
        decreases chain@.len() - i,
    {
        proof {
            assert(describes(store@, chain[i as int], dirs[i as int]));
            lemma_fault_prefix(store@, dirs, i as int + 1);
            assert(dirs.take(dirs.len() as int) =~= dirs);
            assert(dirs.take(i as int + 1).drop_last() =~= dirs.take(i as int));
            assert(dirs.take(i as int + 1).last() == dirs[i as int]);
        }
        match store.dirs.get(chain[i].dir.as_str()) {
            Some(StoredSnapshot::Incremental { diff, pages }) => match pages {
                Some(p) => {
                    apply_diff(mem.as_mut_slice(), diff, p.as_slice());
                },
                None => {
                    return Err(ChainError::NoDirtyPages { file: diff.dirty_pages_file.clone() });
                },
            },
            _ => {
                return Err(ChainError::NotIncremental { dir: chain[i].dir.clone() });
            },
        }
        i = i + 1;
    }
    proof {
        assert(dirs.take(dirs.len() as int) =~= dirs);
        assert(dirs[dirs.len() - 1] == leaf_dir@);
    }
    match store.dirs.get(leaf_dir) {
        Some(StoredSnapshot::Incremental { diff, pages: _ }) => {
            Ok((mem, &diff.vcpu_states, &diff.device_states))
        },
        Some(StoredSnapshot::Full { template, memory: _ }) => {
            Ok((mem, &template.vcpu_states, &template.device_states))
        },
        _ => Err(ChainError::Unloadable { dir: leaf_dir.to_owned() }),
    }
}

/// What stops a part of a chain stops the whole chain.
proof fn lemma_fault_prefix(
    store: Map<Seq<char>, StoredSnapshot>,
    dirs: Seq<Seq<char>>,
    n: int,
)
    requires
        1 <= n <= dirs.len(),
    ensures
        resolve_fault(store, dirs.take(n)) is Some ==> resolve_fault(store, dirs) == resolve_fault(
            store,
            dirs.take(n),
        ),
    decreases dirs.len() - n,
{
    if n < dirs.len() {
        lemma_fault_prefix(store, dirs, n + 1);
        assert(dirs.take(n + 1).drop_last() =~= dirs.take(n));
    } else {
        assert(dirs.take(n) =~= dirs);
    }
}

/// Replaces the chain of `leaf_dir` by one full snapshot in `output_dir`, which
/// has no parent. The second part of the result is the memory image to be
/// written to the snapshot's memory file.
pub fn compact_chain(store: &SnapshotStore, leaf_dir: &str, output_dir: &str) -> (r: Result<
    (TemplateSnapshot, Vec<u8>),
    ChainError,
>)
    ensures
        match r {
            Ok((s, mem)) => {
                &&& resolution(store@, leaf_dir@) == Ok::<Seq<u8>, ChainFault>(mem@)
                &&& s.memory_file@ == text::joined(output_dir@, "memory.raw"@)
                &&& snapshot::vcpu_views(s.vcpu_states@) == snapshot::vcpu_views(
                    vcpus_of(store@[leaf_dir@])@,
                )
                &&& s.device_states@ == devices_of(store@[leaf_dir@])@
                &&& s.memory_size == mem@.len()
                &&& snapshot::intact(s.memory_hash@, mem@)
                &&& s.is_plain_root()
                &&& ({
                    let root = store@[chain_of(store@, leaf_dir@)->Ok_0[0]]->template;
                    &&& s.runtime_type == root.runtime_type
                    &&& s.block_device == root.block_device
                    &&& s.clock_ns == root.clock_ns
                    &&& s.overlay_path == root.overlay_path
                    &&& s.guest_ip == root.guest_ip
                })
            },
            Err(e) => resolution(store@, leaf_dir@) == Err::<Seq<u8>, ChainFault>(e@),
        },
{
    let (mem, vcpus, devices) = resolve_chain(store, leaf_dir)?;
    let chain = walk_chain(store, leaf_dir)?;
    let ghost dirs = chain_of(store@, leaf_dir@)->Ok_0;
    proof {
        lemma_chain_links(store@, leaf_dir@);
        assert(describes(store@, chain[0], dirs[0]));
    }
    let root = match store.dirs.get(chain[0].dir.as_str()) {
        Some(StoredSnapshot::Full { template, memory: _ }) => template,
        _ => {
            return Err(ChainError::Unloadable { dir: leaf_dir.to_owned() });
        },
    };
    let vcpu_states = vcpus.clone();
    proof {
        assert forall|i: int| 0 <= i < vcpus@.len() implies (#[trigger] vcpu_states@[i])@ == vcpus@[i]@ by {
            assert(cloned::<VcpuState>(vcpus@[i], vcpu_states@[i]));
        }
        assert(snapshot::vcpu_views(vcpu_states@) =~= snapshot::vcpu_views(vcpus@));
    }
    let s = TemplateSnapshot {
        memory_file: path_join(output_dir, "memory.raw"),
        vcpu_states,
        device_states: devices.clone(),
        memory_size: mem.len() as u64,
        runtime_type: root.runtime_type.clone(),
        memory_hash: memory_digest(mem.as_slice()),
        block_device: clone_option(&root.block_device),
        clock_ns: root.clock_ns,
        overlay_path: clone_option(&root.overlay_path),
        guest_ip: clone_option(&root.guest_ip),
        tag: None,
        parent_tag: None,
        chain_depth: 0,
        snapshot_type: default_snapshot_type_full(),
    };
    Ok((s, mem))
}

/// A compacted chain stands for the same memory as the chain it replaces: once
/// the snapshot and its image are stored in `dir`, resolving `dir` gives the
/// image back, whatever else is stored.
pub proof fn lemma_compacted_resolves(
    store: Map<Seq<char>, StoredSnapshot>,
    dir: Seq<char>,
    meta: TemplateSnapshot,
    memory: Vec<u8>,
)
    requires
        meta.is_plain_root(),
    ensures
        ({
            let full = StoredSnapshot::Full { template: meta, memory: Some(memory) };
            let after = store.insert(dir, full);
            &&& chain_of(after, dir) == Ok::<Seq<Seq<char>>, ChainFault>(seq![dir])
            &&& resolution(after, dir) == Ok::<Seq<u8>, ChainFault>(memory@)
            &&& vcpus_of(after[dir]) == meta.vcpu_states
            &&& devices_of(after[dir]) == meta.device_states
        }),
{
    assert(seq![dir].reverse() =~= seq![dir]);
}

/// The chain of a root snapshot is that snapshot alone.
pub proof fn lemma_root_chain(store: Map<Seq<char>, StoredSnapshot>, dir: Seq<char>)
    requires
        store.dom().contains(dir),
        store[dir] is Full,
        store[dir]->template.parent_tag is None,
    ensures
        chain_of(store, dir) == Ok::<Seq<Seq<char>>, ChainFault>(seq![dir]),
{
    assert(seq![dir].reverse() =~= seq![dir]);
}

proof fn lemma_room(store: Map<Seq<char>, StoredSnapshot>, dir: Seq<char>, room: nat, less: nat)
    requires
        chain_dirs(store, dir, room) matches Ok(dirs) && dirs.len() <= less + 1,
        less <= room,
    ensures
        chain_dirs(store, dir, less) == chain_dirs(store, dir, room),
    decreases room,
{
    lemma_dirs_links(store, dir, room);
    if parent_dir(store[dir]) is Some {
        let parent = parent_dir(store[dir])->0;
        lemma_dirs_links(store, parent, (room - 1) as nat);
        lemma_room(store, parent, (room - 1) as nat, (less - 1) as nat);
    }
}

/// A chain gives back the memory of its leaf: if the chain of the parent resolves
/// to `base`, and the incremental snapshot in `leaf` holds the pages of `now` that
/// changed since, then the chain of `leaf` resolves to `now`.
pub proof fn lemma_leaf_restores(
    store: Map<Seq<char>, StoredSnapshot>,
    leaf: Seq<char>,
    base: Seq<u8>,
    now: Seq<u8>,
)
    requires
        store.dom().contains(leaf),
        store[leaf] is Incremental,
        resolution(store, store[leaf]->diff.parent()) == Ok::<Seq<u8>, ChainFault>(base),
        chain_of(store, store[leaf]->diff.parent())->Ok_0.len() <= 256,
        base.len() == now.len(),
        store[leaf]->diff.memory_size <= now.len(),
        snapshot::marks_changes(
            base,
            now,
            store[leaf]->diff.memory_size as nat,
            store[leaf]->diff.dirty_bitmap@,
        ),
        store[leaf]->pages is Some,
        store[leaf]->pages->0@ == snapshot::collected(
            now,
            store[leaf]->diff.dirty_bitmap@,
            (store[leaf]->diff.memory_size / 4096) as nat,
        ),
    ensures
        resolution(store, leaf) == Ok::<Seq<u8>, ChainFault>(now),
{
    let diff = store[leaf]->diff;
    let parent = diff.parent();
    let up = chain_of(store, parent)->Ok_0;
    lemma_chain_links(store, parent);
    lemma_room(store, parent, 256, 255);
    let rest = chain_dirs(store, parent, 256)->Ok_0;
    let dirs = chain_of(store, leaf)->Ok_0;
    assert(chain_dirs(store, leaf, 256) == Ok::<Seq<Seq<char>>, ChainFault>(seq![leaf] + rest));
    assert(dirs =~= up.push(leaf));
    assert(dirs.drop_last() =~= up);
    snapshot::lemma_diff_restores(base, now, diff.memory_size as nat, diff.dirty_bitmap@);
}

/// Storing something in a directory that a chain does not pass leaves the chain
/// as it is.
proof fn lemma_chain_frame(
    store: Map<Seq<char>, StoredSnapshot>,
    dir: Seq<char>,
    room: nat,
    other: Seq<char>,
    found: StoredSnapshot,
)
    requires
        chain_dirs(store, dir, room) matches Ok(dirs) && !dirs.contains(other),
    ensures
        chain_dirs(store.insert(other, found), dir, room) == chain_dirs(store, dir, room),
    decreases room,
{
    let dirs = chain_dirs(store, dir, room)->Ok_0;
    lemma_dirs_links(store, dir, room);
    assert(dirs[0] == dir);
    if parent_dir(store[dir]) is Some {
        let parent = parent_dir(store[dir])->0;
        let rest = chain_dirs(store, parent, (room - 1) as nat)->Ok_0;
        assert forall|k: int| 0 <= k < rest.len() implies rest[k] != other by {
            assert(dirs[k + 1] == rest[k]);
        }
        lemma_chain_frame(store, parent, (room - 1) as nat, other, found);
    }
}

/// Nor does it change what the chain resolves to.
proof fn lemma_resolve_frame(
    store: Map<Seq<char>, StoredSnapshot>,
    dirs: Seq<Seq<char>>,
    other: Seq<char>,
    found: StoredSnapshot,
)
    requires
        dirs.len() >= 1,
        !dirs.contains(other),
    ensures
        resolve_fault(store.insert(other, found), dirs) == resolve_fault(store, dirs),
        resolved_memory(store.insert(other, found), dirs) == resolved_memory(store, dirs),
    decreases dirs.len(),
{
    assert(dirs[0] != other);
    assert(dirs[dirs.len() - 1] != other);
    if dirs.len() > 1 {
        let rest = dirs.drop_last();
        assert forall|k: int| 0 <= k < rest.len() implies rest[k] != other by {
            assert(dirs[k] == rest[k]);
        }
        lemma_resolve_frame(store, rest, other, found);
    }
}

/// What an incremental snapshot of a running guest is for. The base resolves to
/// the memory `base` of its time, the bitmap marks every page changed since, and
/// the pages were read from the stopped guest, whose memory is `now`. Once the
/// snapshot is stored in `dir`, resolving `dir` gives `now` back. The snapshot is
/// stored outside the chain of its base, which has room for another link.
pub proof fn lemma_saved_diff_resolves(
    store: Map<Seq<char>, StoredSnapshot>,
    dir: Seq<char>,
    diff: IncrementalSnapshot,
    pages: Vec<u8>,
    base: Seq<u8>,
    now: Seq<u8>,
)
    requires
        diff.parent_tag is None,
        resolution(store, diff.base_template@) == Ok::<Seq<u8>, ChainFault>(base),
        chain_of(store, diff.base_template@)->Ok_0.len() <= 256,
        !chain_of(store, diff.base_template@)->Ok_0.contains(dir),
        base.len() == now.len(),
        diff.memory_size == now.len(),
        snapshot::marks_changes(base, now, diff.memory_size as nat, diff.dirty_bitmap@),
        pages@ == snapshot::collected(
            now,
            diff.dirty_bitmap@,
            (diff.memory_size / 4096) as nat,
        ),
    ensures
        resolution(
            store.insert(dir, StoredSnapshot::Incremental { diff, pages: Some(pages) }),
            dir,
        ) == Ok::<Seq<u8>, ChainFault>(now),
{
    let found = StoredSnapshot::Incremental { diff, pages: Some(pages) };
    let after = store.insert(dir, found);
    let parent = diff.base_template@;
    let up = chain_of(store, parent)->Ok_0;
    let dirs = chain_dirs(store, parent, 256)->Ok_0;
    assert forall|k: int| 0 <= k < dirs.len() implies dirs[k] != dir by {
        assert(up[dirs.len() - 1 - k] == dirs[k]);
    }
    lemma_chain_links(store, parent);
    lemma_chain_frame(store, parent, 256, dir, found);
    lemma_resolve_frame(store, up, dir, found);
    lemma_leaf_restores(after, dir, base, now);
}

/// The `n`-th ancestor of `dir`, the directory itself being the zeroth.
pub open spec fn ancestor_at(
    store: Map<Seq<char>, StoredSnapshot>,
    dir: Seq<char>,
    n: nat,
) -> Option<Seq<char>>
    decreases n,
{
    if n == 0 {
        Some(dir)
    } else {
        match ancestor_at(store, dir, (n - 1) as nat) {
            Some(d) => if store.dom().contains(d) {
                parent_dir(store[d])
            } else {
                None
            },
            None => None,
        }
    }
}

/// `a` is `dir` or one of its ancestors.
pub open spec fn in_lineage(
    store: Map<Seq<char>, StoredSnapshot>,
    dir: Seq<char>,
    a: Seq<char>,
) -> bool {
    exists|n: nat| #[trigger] ancestor_at(store, dir, n) == Some(a)
}

/// The set holds the parent of each of its members, and its members are stored.
spec fn parent_closed(store: Map<Seq<char>, StoredSnapshot>, set: Set<Seq<char>>) -> bool {
    forall|d: Seq<char>| #[trigger]
        set.contains(d) ==> store.dom().contains(d) && (parent_dir(store[d]) is Some
            ==> set.contains(parent_dir(store[d])->0))
}

proof fn lemma_closed_holds_lineage(
    store: Map<Seq<char>, StoredSnapshot>,
    set: Set<Seq<char>>,
    dir: Seq<char>,
    n: nat,
)
    requires
        parent_closed(store, set),
        set.contains(dir),
        ancestor_at(store, dir, n) is Some,
    ensures
        set.contains(ancestor_at(store, dir, n)->0),
    decreases n,
{
    if n > 0 {
        lemma_closed_holds_lineage(store, set, dir, (n - 1) as nat);
    }
}

/// Adds `start` and its ancestors to `visited`.
fn mark_lineage(store: &SnapshotStore, start: String, visited: &mut StrMap<bool>) -> (r: Result<
    (),
    ChainError,
>)
    requires
        parent_closed(store@, old(visited)@.dom()),
    ensures
        match r {
            Ok(_) => {
                &&& parent_closed(store@, final(visited)@.dom())
                &&& forall|a: Seq<char>| #[trigger]
                    final(visited)@.dom().contains(a) <==> old(visited)@.dom().contains(a)
                        || in_lineage(store@, start@, a)
            },
            Err(e) => {
                &&& e@ matches ChainFault::NotProbed { dir }
                &&& in_lineage(store@, start@, dir)
                &&& !store@.dom().contains(dir)
            },
        },
{
    let ghost before = visited@.dom();
    let ghost start_dir = start@;
    assert(ancestor_at(store@, start_dir, 0) == Some(start_dir));
    let mut cur: Option<String> = Some(start);
    let ghost mut steps: nat = 0;
    let total: usize = store.dirs.len();
    let count: usize = visited.len();
    proof {
        vstd::set_lib::lemma_len_subset(visited@.dom(), store@.dom());
    }
    loop
        invariant_except_break
            cur is Some ==> ancestor_at(store@, start_dir, steps) == Some(cur->0@),
            forall|d: Seq<char>| #[trigger]
                visited@.dom().contains(d) ==> store@.dom().contains(d) && (parent_dir(store@[d])
                    is Some ==> visited@.dom().contains(parent_dir(store@[d])->0) || (cur is Some
                    && cur->0@ == parent_dir(store@[d])->0)),
            visited@.dom().contains(start_dir) || (cur is Some && cur->0@ == start_dir),
        invariant
            start_dir == start@,
            total == store@.dom().len(),
            store@.dom().finite(),
            visited@.dom().finite(),
            visited@.dom().len() <= total,
            forall|d: Seq<char>| #[trigger]
                visited@.dom().contains(d) ==> before.contains(d) || in_lineage(
                    store@,
                    start_dir,
                    d,
                ),
            forall|d: Seq<char>| #[trigger] before.contains(d) ==> visited@.dom().contains(d),
        ensures
            parent_closed(store@, visited@.dom()),
            visited@.dom().contains(start_dir),
        decreases total - visited@.dom().len(),
    {
        let dir = match cur {
            Some(d) => d,
            None => {
                break;
            },
        };
        assert(in_lineage(store@, start_dir, dir@));
        if visited.contains_key(dir.as_str()) {
            break;
        }
        let parent = match store.dirs.get(dir.as_str()) {
            None => {
                return Err(ChainError::NotProbed { dir });
            },
            Some(StoredSnapshot::Incremental { diff, pages: _ }) => match &diff.parent_tag {
                Some(p) => Some(p.clone()),
                None => Some(diff.base_template.clone()),
            },
            Some(StoredSnapshot::Full { template, memory: _ }) => clone_option(&template.parent_tag),
            Some(StoredSnapshot::Absent) => None,
        };
        let ghost here = dir@;
        let ghost old_set = visited@.dom();
        visited.insert(dir, true);
        proof {
            assert(visited@.dom() =~= old_set.insert(here));
            vstd::set_lib::lemma_len_subset(visited@.dom(), store@.dom());
            assert(ancestor_at(store@, start_dir, steps + 1) == parent_dir(store@[here]));
            steps = steps + 1;
        }
        cur = parent;
    }
    proof {
        assert forall|a: Seq<char>| in_lineage(store@, start_dir, a) implies #[trigger] visited@.dom().contains(
            a,
        ) by {
            let n = choose|n: nat| #[trigger] ancestor_at(store@, start_dir, n) == Some(a);
            lemma_closed_holds_lineage(store@, visited@.dom(), start_dir, n);
        }
    }
    Ok(())
}

/// An entry of a directory of snapshots.
#[derive(Debug)]
pub struct SnapshotEntry {
    /// Name of the entry.
    pub name: String,
    /// Whether it holds the metadata of a snapshot of either kind.
    pub has_metadata: bool,
}

impl SnapshotEntry {
    /// The entry is a snapshot: it has metadata, and it is not hidden.
    pub open spec fn is_snapshot(self) -> bool {
        self.has_metadata && !(self.name@.len() > 0 && self.name@[0] == '.')
    }

    fn check_snapshot(&self) -> (b: bool)
        ensures
            b == self.is_snapshot(),
    {
        self.has_metadata && !(self.name.as_str().unicode_len() > 0 && self.name.as_str().get_char(0)
            == '.')
    }
}

/// The tag recorded in a snapshot.
pub open spec fn tag_of(s: StoredSnapshot) -> Option<Seq<char>> {
    match s {
        StoredSnapshot::Incremental { diff, pages } => match diff.tag {
            Some(t) => Some(t@),
            None => None,
        },
        StoredSnapshot::Full { template, memory } => match template.tag {
            Some(t) => Some(t@),
            None => None,
        },
        StoredSnapshot::Absent => None,
    }
}

/// `t` is one of the tags.
pub open spec fn listed(tags: Seq<String>, t: Seq<char>) -> bool {
    exists|i: int| 0 <= i < tags.len() && (#[trigger] tags[i])@ == t
}

/// `dir` holds a snapshot whose tag is active: a directory named by an active
/// tag, or an entry that records one.
pub open spec fn active_dir(
    store: Map<Seq<char>, StoredSnapshot>,
    base: Seq<char>,
    entries: Seq<SnapshotEntry>,
    active: Seq<String>,
    dir: Seq<char>,
) -> bool {
    ||| exists|i: int|
        0 <= i < active.len() && dir == text::joined(base, (#[trigger] active[i])@)
    ||| exists|j: int|
        0 <= j < entries.len() && (#[trigger] entries[j]).is_snapshot() && dir == text::joined(
            base,
            entries[j].name@,
        ) && store.dom().contains(dir) && tag_of(store[dir]) is Some && listed(
            active,
            tag_of(store[dir])->0,
        )
}

/// `a` is a snapshot whose tag is active, or an ancestor of one.
pub open spec fn reachable(
    store: Map<Seq<char>, StoredSnapshot>,
    base: Seq<char>,
    entries: Seq<SnapshotEntry>,
    active: Seq<String>,
    a: Seq<char>,
) -> bool {
    exists|d: Seq<char>| #[trigger]
        active_dir(store, base, entries, active, d) && in_lineage(store, d, a)
}

/// The entry `name` has to stay: it is reachable, by its directory or as the tag
/// of a reachable snapshot.
pub open spec fn kept(
    store: Map<Seq<char>, StoredSnapshot>,
    base: Seq<char>,
    entries: Seq<SnapshotEntry>,
    active: Seq<String>,
    name: Seq<char>,
) -> bool {
    ||| reachable(store, base, entries, active, text::joined(base, name))
    ||| exists|a: Seq<char>| #[trigger]
        reachable(store, base, entries, active, a) && tag_of(store[a]) == Some(name)
}

/// The names among `some` that are snapshots and do not have to stay, in order.
pub open spec fn doomed(
    store: Map<Seq<char>, StoredSnapshot>,
    base: Seq<char>,
    entries: Seq<SnapshotEntry>,
    active: Seq<String>,
    some: Seq<SnapshotEntry>,
) -> Seq<Seq<char>>
    decreases some.len(),
{
    if some.len() == 0 {
        seq![]
    } else {
        let rest = doomed(store, base, entries, active, some.drop_last());
        if some.last().is_snapshot() && !kept(store, base, entries, active, some.last().name@) {
            rest.push(some.last().name@)
        } else {
            rest
        }
    }
}

/// The directory has to be looked into before the garbage can be told.
pub open spec fn gc_needs(
    store: Map<Seq<char>, StoredSnapshot>,
    base: Seq<char>,
    entries: Seq<SnapshotEntry>,
    active: Seq<String>,
    dir: Seq<char>,
) -> bool {
    ||| reachable(store, base, entries, active, dir)
    ||| exists|j: int|
        0 <= j < entries.len() && (#[trigger] entries[j]).is_snapshot() && dir == text::joined(
            base,
            entries[j].name@,
        )
}

fn contains_tag(tags: &[String], t: &str) -> (b: bool)
    ensures
        b == listed(tags@, t@),
{
    let mut i: usize = 0;
    while i < tags.len()
        invariant
            i <= tags@.len(),
            forall|j: int| 0 <= j < i ==> (#[trigger] tags@[j])@ != t@,
        decreases tags@.len() - i,
    {
        if str_eq(tags[i].as_str(), t) {
            return true;
        }
        i = i + 1;
    }
    false
}

fn stored_tag(s: &StoredSnapshot) -> (t: Option<&String>)
    ensures
        t is Some <==> tag_of(*s) is Some,
        t is Some ==> t->0@ == tag_of(*s)->0,
{
    match s {
        StoredSnapshot::Incremental { diff, pages: _ } => match &diff.tag {
            Some(t) => Some(t),
            None => None,
        },
        StoredSnapshot::Full { template, memory: _ } => match &template.tag {
            Some(t) => Some(t),
            None => None,
        },
        StoredSnapshot::Absent => None,
    }
}

/// Whether a directory among `visited` records the tag `name`.
fn tagged_in(store: &SnapshotStore, visited: &StrMap<bool>, name: &str) -> (b: bool)
    requires
        parent_closed(store@, visited@.dom()),
    ensures
        b <==> exists|a: Seq<char>| #[trigger]
            visited@.dom().contains(a) && tag_of(store@[a]) == Some(name@),
{
    proof {
        crate::strmap::lemma_keys(*visited);
    }
    let mut i: usize = 0;
    let n: usize = visited.len();
    while i < n
        invariant
            i <= n == visited.keys().len(),
            parent_closed(store@, visited@.dom()),
            forall|k: int|
                0 <= k < visited.keys().len() ==> #[trigger] visited@.dom().contains(visited.keys()[k]),
            forall|k: int|
                0 <= k < i ==> tag_of(store@[#[trigger] visited.keys()[k]]) != Some(name@),
        decreases n - i,
    {
        let dir = visited.key_at(i);
        if let Some(s) = store.dirs.get(dir.as_str()) {
            if let Some(t) = stored_tag(s) {
                if str_eq(t.as_str(), name) {
                    return true;
                }
            }
        }
        i = i + 1;
    }
    proof {
        assert forall|a: Seq<char>| #[trigger] visited@.dom().contains(a) implies tag_of(store@[a])
            != Some(name@) by {
            let k = visited.keys().index_of(a);
            assert(visited.keys().contains(a));
        }
    }
    false
}

/// The snapshots under `base_dir` that may be removed. One has to stay if its
/// tag is in `active_tags` or if it is an ancestor of a snapshot whose tag is.
pub fn gc_snapshots(
    store: &SnapshotStore,
    base_dir: &str,
    entries: &Vec<SnapshotEntry>,
    active_tags: &[String],
) -> (r: Result<Vec<String>, ChainError>)
    ensures
        match r {
            Ok(removed) => {
                &&& removed@.map_values(|n: String| n@) == doomed(
                    store@,
                    base_dir@,
                    entries@,
                    active_tags@,
                    entries@,
                )
                &&& forall|d: Seq<char>| #[trigger]
                    gc_needs(store@, base_dir@, entries@, active_tags@, d)
                        ==> store@.dom().contains(d)
            },
            Err(e) => {
                &&& e@ matches ChainFault::NotProbed { dir }
                &&& gc_needs(store@, base_dir@, entries@, active_tags@, dir)
                &&& !store@.dom().contains(dir)
            },
        },
{
    let ghost m = store@;
    let ghost base = base_dir@;
    let ghost es = entries@;
    let ghost act = active_tags@;
    let mut visited: StrMap<bool> = StrMap::new();
    let mut i: usize = 0;
    while i < active_tags.len()
        invariant
            i <= active_tags@.len(),
            m == store@, base == base_dir@, es == entries@, act == active_tags@,
            parent_closed(m, visited@.dom()),
            forall|a: Seq<char>| #[trigger]
                visited@.dom().contains(a) ==> reachable(m, base, es, act, a),
            forall|k: int, a: Seq<char>|
                0 <= k < i && #[trigger] in_lineage(m, text::joined(base, act[k]@), a)
                    ==> visited@.dom().contains(a),
        decreases active_tags@.len() - i,
    {
        let dir = path_join(base_dir, active_tags[i].as_str());
        let ghost start = dir@;
        assert(active_dir(m, base, es, act, start));
        mark_lineage(store, dir, &mut visited)?;
        i = i + 1;
    }
    let mut j: usize = 0;
    while j < entries.len()
        invariant
            j <= entries@.len(),
            m == store@, base == base_dir@, es == entries@, act == active_tags@,
            parent_closed(m, visited@.dom()),
            forall|a: Seq<char>| #[trigger]
                visited@.dom().contains(a) ==> reachable(m, base, es, act, a),
            forall|k: int, a: Seq<char>|
                0 <= k < act.len() && #[trigger] in_lineage(m, text::joined(base, act[k]@), a)
                    ==> visited@.dom().contains(a),
            forall|k: int|
                0 <= k < j && (#[trigger] es[k]).is_snapshot() ==> m.dom().contains(
                    text::joined(base, es[k].name@),
                ),
            forall|k: int, a: Seq<char>|
                0 <= k < j && (#[trigger] es[k]).is_snapshot() && tag_of(
                    m[text::joined(base, es[k].name@)],
                ) is Some && listed(act, tag_of(m[text::joined(base, es[k].name@)])->0)
                    && #[trigger] in_lineage(m, text::joined(base, es[k].name@), a)
                    ==> visited@.dom().contains(a),
        decreases entries@.len() - j,
    {
        if entries[j].check_snapshot() {
            let dir = path_join(base_dir, entries[j].name.as_str());
            let ghost start = dir@;
            assert(start == text::joined(base, es[j as int].name@));
            match store.dirs.get(dir.as_str()) {
                None => {
                    assert(gc_needs(m, base, es, act, dir@));
                    return Err(ChainError::NotProbed { dir });
                },
                Some(s) => {
                    if let Some(t) = stored_tag(s) {
                        if contains_tag(active_tags, t.as_str()) {
                            assert(active_dir(m, base, es, act, start));
                            mark_lineage(store, dir, &mut visited)?;
                        }
                    }
                },
            }
        }
        j = j + 1;
    }
    proof {
        assert forall|a: Seq<char>| reachable(m, base, es, act, a) implies #[trigger] visited@.dom().contains(
            a,
        ) by {
            let d = choose|d: Seq<char>| #[trigger]
                active_dir(m, base, es, act, d) && in_lineage(m, d, a);
            if exists|k: int|
                0 <= k < act.len() && d == text::joined(base, (#[trigger] act[k])@) {
                let k = choose|k: int|
                    0 <= k < act.len() && d == text::joined(base, (#[trigger] act[k])@);
                assert(in_lineage(m, text::joined(base, act[k]@), a));
            } else {
                let k = choose|k: int|
                    0 <= k < es.len() && (#[trigger] es[k]).is_snapshot() && d == text::joined(
                        base,
                        es[k].name@,
                    ) && m.dom().contains(d) && tag_of(m[d]) is Some && listed(
                        act,
                        tag_of(m[d])->0,
                    );
                assert(in_lineage(m, text::joined(base, es[k].name@), a));
            }
        }
    }
    let mut removed: Vec<String> = Vec::new();
    let mut j: usize = 0;
    while j < entries.len()
        invariant
            j <= entries@.len(),
            m == store@, base == base_dir@, es == entries@, act == active_tags@,
            parent_closed(m, visited@.dom()),
            forall|a: Seq<char>| #[trigger]
                visited@.dom().contains(a) <==> reachable(m, base, es, act, a),
            removed@.map_values(|n: String| n@) == doomed(m, base, es, act, es.take(j as int)),
        decreases entries@.len() - j,
    {
        let ghost old_removed = removed@;
        assert(es.take(j as int + 1).drop_last() =~= es.take(j as int));
        assert(es.take(j as int + 1).last() == es[j as int]);
        if entries[j].check_snapshot() {
            let dir = path_join(base_dir, entries[j].name.as_str());
            let stays = visited.contains_key(dir.as_str()) || tagged_in(
                store,
                &visited,
                entries[j].name.as_str(),
            );
            assert(visited@.dom().contains(dir@) == reachable(m, base, es, act, dir@));
            assert(stays == kept(m, base, es, act, es[j as int].name@)) by {
                if exists|a: Seq<char>| #[trigger]
                    reachable(m, base, es, act, a) && tag_of(m[a]) == Some(es[j as int].name@) {
                    let a = choose|a: Seq<char>| #[trigger]
                        reachable(m, base, es, act, a) && tag_of(m[a]) == Some(es[j as int].name@);
                    assert(visited@.dom().contains(a));
                }
                if exists|a: Seq<char>| #[trigger]
                    visited@.dom().contains(a) && tag_of(m[a]) == Some(es[j as int].name@) {
                    let a = choose|a: Seq<char>| #[trigger]
                        visited@.dom().contains(a) && tag_of(m[a]) == Some(es[j as int].name@);
                    assert(reachable(m, base, es, act, a));
                }
            }
            if !stays {
                removed.push(entries[j].name.clone());
                assert(removed@.map_values(|n: String| n@) =~= old_removed.map_values(
                    |n: String| n@,
                ).push(es[j as int].name@));
            }
        }
        j = j + 1;
    }
    assert(es.take(j as int) =~= es);
    Ok(removed)
}

/// What garbage collection keeps: no removed snapshot has an active tag, by its
/// name or as recorded, and none is an ancestor of a snapshot that has one, by its
/// directory or by its name.
pub proof fn lemma_gc_spares_active(
    store: Map<Seq<char>, StoredSnapshot>,
    base: Seq<char>,
    entries: Seq<SnapshotEntry>,
    active: Seq<String>,
    name: Seq<char>,
)
    requires
        doomed(store, base, entries, active, entries).contains(name),
    ensures
        !listed(active, name),
        !reachable(store, base, entries, active, text::joined(base, name)),
        !kept(store, base, entries, active, name),
        exists|j: int|
            0 <= j < entries.len() && (#[trigger] entries[j]).name@ == name
                && entries[j].is_snapshot(),
{
    lemma_doomed_members(store, base, entries, active, entries, name);
    if listed(active, name) {
        let d = text::joined(base, name);
        assert(active_dir(store, base, entries, active, d));
        assert(ancestor_at(store, d, 0) == Some(d));
        assert(in_lineage(store, d, d));
    }
}

/// Garbage collection removes every snapshot that does not have to stay.
pub proof fn lemma_gc_removes_rest(
    store: Map<Seq<char>, StoredSnapshot>,
    base: Seq<char>,
    entries: Seq<SnapshotEntry>,
    active: Seq<String>,
    j: int,
)
    requires
        0 <= j < entries.len(),
        entries[j].is_snapshot(),
        !kept(store, base, entries, active, entries[j].name@),
    ensures
        doomed(store, base, entries, active, entries).contains(entries[j].name@),
{
    lemma_doomed_holds(store, base, entries, active, entries, j);
}

proof fn lemma_doomed_members(
    store: Map<Seq<char>, StoredSnapshot>,
    base: Seq<char>,
    entries: Seq<SnapshotEntry>,
    active: Seq<String>,
    some: Seq<SnapshotEntry>,
    name: Seq<char>,
)
    requires
        doomed(store, base, entries, active, some).contains(name),
    ensures
        !kept(store, base, entries, active, name),
        exists|j: int|
            0 <= j < some.len() && (#[trigger] some[j]).name@ == name && some[j].is_snapshot(),
    decreases some.len(),
{
    let rest = doomed(store, base, entries, active, some.drop_last());
    if rest.contains(name) {
        lemma_doomed_members(store, base, entries, active, some.drop_last(), name);
        let j = choose|j: int|
            0 <= j < some.drop_last().len() && (#[trigger] some.drop_last()[j]).name@ == name
                && some.drop_last()[j].is_snapshot();
        assert(some[j].name@ == name);
    } else {
        assert(some[some.len() - 1].name@ == name);
    }
}

proof fn lemma_doomed_holds(
    store: Map<Seq<char>, StoredSnapshot>,
    base: Seq<char>,
    entries: Seq<SnapshotEntry>,
    active: Seq<String>,
    some: Seq<SnapshotEntry>,
    j: int,
)
    requires
        0 <= j < some.len(),
        some[j].is_snapshot(),
        !kept(store, base, entries, active, some[j].name@),
    ensures
        doomed(store, base, entries, active, some).contains(some[j].name@),
    decreases some.len(),
{
    let all = doomed(store, base, entries, active, some);
    let rest = doomed(store, base, entries, active, some.drop_last());
    if j < some.len() - 1 {
        lemma_doomed_holds(store, base, entries, active, some.drop_last(), j);
        let k = rest.index_of(some[j].name@);
        assert(all[k] == some[j].name@);
    } else {
        assert(all[all.len() - 1] == some[j].name@);
    }
}

} // verus!
