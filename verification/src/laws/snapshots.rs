//! Snapshots, diff chains, and the collection of what no one needs.
use vstd::prelude::*;

use crate::chain;
use crate::chain::{
    chain_info, classify, compact_chain, gc_snapshots, resolve_chain, stored_depth, walk_chain,
    ChainError, ChainFault, ChainInfo, ChainNode, SnapshotEntry, SnapshotStore, StoredSnapshot,
};
use crate::snapshot;
use crate::snapshot::{
    apply_diff, fork_from_template, save_incremental, save_template, DeviceStates, GuestLayout,
    IncrementalSnapshot, LoadError, MemoryImage, TemplateSnapshot, VcpuState,
};
use crate::text;

verus! {

/// Each directory of the line holds a snapshot, and the next one is its parent: for
/// an incremental snapshot the parent it names or else its base, for a full one
/// the parent it names.
pub open spec fn linked(store: Map<Seq<char>, StoredSnapshot>, line: Seq<Seq<char>>) -> bool {
    &&& line.len() > 0
    &&& forall|i: int|
        0 <= i < line.len() - 1 ==> store.dom().contains(#[trigger] line[i]) && (match store[line[i]] {
            StoredSnapshot::Incremental { diff, pages } => match diff.parent_tag {
                Some(p) => line[i + 1] == p@,
                None => line[i + 1] == diff.base_template@,
            },
            StoredSnapshot::Full { template, memory } => match template.parent_tag {
                Some(p) => line[i + 1] == p@,
                None => false,
            },
            StoredSnapshot::Absent => false,
        })
}

/// The directory holds a full snapshot that names no parent.
pub open spec fn rooted(store: Map<Seq<char>, StoredSnapshot>, dir: Seq<char>) -> bool {
    store.dom().contains(dir) && (store[dir] matches StoredSnapshot::Full { template, memory }
        && template.parent_tag is None)
}

/// The snapshot records this tag.
pub open spec fn records_tag(s: StoredSnapshot, tag: Seq<char>) -> bool {
    match s {
        StoredSnapshot::Incremental { diff, pages } => diff.tag is Some && diff.tag->0@ == tag,
        StoredSnapshot::Full { template, memory } => template.tag is Some && template.tag->0@ == tag,
        StoredSnapshot::Absent => false,
    }
}

/// The directory is named by an active tag, or is a snapshot below `base` that
/// records one.
pub open spec fn in_use(
    store: Map<Seq<char>, StoredSnapshot>,
    base: Seq<char>,
    entries: Seq<SnapshotEntry>,
    active_tags: Seq<String>,
    dir: Seq<char>,
) -> bool {
    ||| exists|t: int|
        0 <= t < active_tags.len() && dir == text::joined(base, (#[trigger] active_tags[t])@)
    ||| exists|j: int, t: int|
        0 <= j < entries.len() && 0 <= t < active_tags.len() && (#[trigger] entries[j]).has_metadata
            && !(entries[j].name@.len() > 0 && entries[j].name@[0] == '.') && dir == text::joined(
            base,
            entries[j].name@,
        ) && store.dom().contains(dir) && records_tag(store[dir], (#[trigger] active_tags[t])@)
}

proof fn lemma_line_is_lineage(
    store: Map<Seq<char>, StoredSnapshot>,
    line: Seq<Seq<char>>,
    i: int,
)
    requires
        linked(store, line),
        0 <= i < line.len(),
    ensures
        chain::ancestor_at(store, line[0], i as nat) == Some(line[i]),
    decreases i,
{
    if i > 0 {
        lemma_line_is_lineage(store, line, i - 1);
    }
}

proof fn lemma_in_use_is_active(
    store: Map<Seq<char>, StoredSnapshot>,
    base: Seq<char>,
    entries: Seq<SnapshotEntry>,
    active_tags: Seq<String>,
    dir: Seq<char>,
)
    ensures
        in_use(store, base, entries, active_tags, dir) <==> chain::active_dir(
            store,
            base,
            entries,
            active_tags,
            dir,
        ),
{
    if chain::active_dir(store, base, entries, active_tags, dir) {
        if !(exists|t: int|
            0 <= t < active_tags.len() && dir == text::joined(base, (#[trigger] active_tags[t])@)) {
            let j = choose|j: int|
                0 <= j < entries.len() && (#[trigger] entries[j]).is_snapshot() && dir
                    == text::joined(base, entries[j].name@) && store.dom().contains(dir)
                    && chain::tag_of(store[dir]) is Some && chain::listed(
                    active_tags,
                    chain::tag_of(store[dir])->0,
                );
            let t = choose|t: int|
                0 <= t < active_tags.len() && (#[trigger] active_tags[t])@ == chain::tag_of(
                    store[dir],
                )->0;
            assert(entries[j].has_metadata && records_tag(store[dir], active_tags[t]@));
        }
    }
}

/// Garbage collection keeps what active snapshots are made of: no snapshot on the
/// line of parents of an active one is removed, neither its directory nor an entry
/// that is named by its tag.
pub proof fn lemma_collection_keeps_ancestors(
    store: &SnapshotStore,
    base_dir: &str,
    entries: &Vec<SnapshotEntry>,
    active_tags: &[String],
    removed: Vec<String>,
    line: Seq<Seq<char>>,
    i: int,
    k: int,
)
    requires
        call_ensures(
            gc_snapshots,
            (store, base_dir, entries, active_tags),
            Ok::<Vec<String>, ChainError>(removed),
        ),
        linked(store@, line),
        in_use(store@, base_dir@, entries@, active_tags@, line[0]),
        0 <= i < line.len(),
        0 <= k < removed@.len(),
    ensures
        text::joined(base_dir@, removed@[k]@) != line[i],
        !records_tag(store@[line[i]], removed@[k]@),
        forall|t: int| 0 <= t < active_tags@.len() ==> removed@[k]@ != (#[trigger] active_tags@[t])@,
{
    let (m, base, es, act) = (store@, base_dir@, entries@, active_tags@);
    let name = removed@[k]@;
    let all = chain::doomed(m, base, es, act, es);
    assert(all[k] == removed@.map_values(|n: String| n@)[k]);
    assert(all.contains(name));
    chain::lemma_gc_spares_active(m, base, es, act, name);
    lemma_in_use_is_active(m, base, es, act, line[0]);
    lemma_line_is_lineage(m, line, i);
    assert(chain::in_lineage(m, line[0], line[i]));
    assert(chain::reachable(m, base, es, act, line[i]));
}

/// Only snapshots below the base directory are removed, and none that is hidden.
pub proof fn lemma_collection_removes_entries(
    store: &SnapshotStore,
    base_dir: &str,
    entries: &Vec<SnapshotEntry>,
    active_tags: &[String],
    removed: Vec<String>,
    k: int,
)
    requires
        call_ensures(
            gc_snapshots,
            (store, base_dir, entries, active_tags),
            Ok::<Vec<String>, ChainError>(removed),
        ),
        0 <= k < removed@.len(),
    ensures
        exists|j: int|
            0 <= j < entries@.len() && (#[trigger] entries@[j]).name@ == removed@[k]@
                && entries@[j].has_metadata && !(removed@[k]@.len() > 0 && removed@[k]@[0] == '.'),
{
    let (m, base, es, act) = (store@, base_dir@, entries@, active_tags@);
    let all = chain::doomed(m, base, es, act, es);
    assert(all[k] == removed@.map_values(|n: String| n@)[k]);
    assert(all.contains(removed@[k]@));
    chain::lemma_gc_spares_active(m, base, es, act, removed@[k]@);
}

/// Each member of the set is a directory that was looked into, and the parent of
/// each is in the set.
pub open spec fn holds_parents(
    store: Map<Seq<char>, StoredSnapshot>,
    keep: Set<Seq<char>>,
) -> bool {
    forall|d: Seq<char>| #[trigger]
        keep.contains(d) ==> store.dom().contains(d) && (match store[d] {
            StoredSnapshot::Incremental { diff, pages } => match diff.parent_tag {
                Some(p) => keep.contains(p@),
                None => keep.contains(diff.base_template@),
            },
            StoredSnapshot::Full { template, memory } => match template.parent_tag {
                Some(p) => keep.contains(p@),
                None => true,
            },
            StoredSnapshot::Absent => true,
        })
}

proof fn lemma_lineage_stays_inside(
    store: Map<Seq<char>, StoredSnapshot>,
    keep: Set<Seq<char>>,
    dir: Seq<char>,
    n: nat,
)
    requires
        holds_parents(store, keep),
        keep.contains(dir),
        chain::ancestor_at(store, dir, n) is Some,
    ensures
        keep.contains(chain::ancestor_at(store, dir, n)->0),
    decreases n,
{
    if n > 0 {
        lemma_lineage_stays_inside(store, keep, dir, (n - 1) as nat);
    }
}

proof fn lemma_reachable_stays_inside(
    store: Map<Seq<char>, StoredSnapshot>,
    base: Seq<char>,
    entries: Seq<SnapshotEntry>,
    active_tags: Seq<String>,
    keep: Set<Seq<char>>,
)
    requires
        holds_parents(store, keep),
        forall|d: Seq<char>| #[trigger]
            in_use(store, base, entries, active_tags, d) ==> keep.contains(d),
    ensures
        forall|a: Seq<char>| #[trigger]
            chain::reachable(store, base, entries, active_tags, a) ==> keep.contains(a),
{
    assert forall|a: Seq<char>| #[trigger]
        chain::reachable(store, base, entries, active_tags, a) implies keep.contains(a) by {
        let d = choose|d: Seq<char>| #[trigger]
            chain::active_dir(store, base, entries, active_tags, d) && chain::in_lineage(
                store,
                d,
                a,
            );
        lemma_in_use_is_active(store, base, entries, active_tags, d);
        let n = choose|n: nat| #[trigger] chain::ancestor_at(store, d, n) == Some(a);
        lemma_lineage_stays_inside(store, keep, d, n);
    }
}

/// Garbage collection keeps nothing else. Let `keep` be any set of directories
/// that holds the active ones and, with each, its parent. Once these and all
/// snapshots among the entries were looked into, the collection succeeds, and it
/// removes each snapshot that is neither in the set nor named by a tag in it.
pub proof fn lemma_collection_removes_the_rest(
    store: &SnapshotStore,
    base_dir: &str,
    entries: &Vec<SnapshotEntry>,
    active_tags: &[String],
    r: Result<Vec<String>, ChainError>,
    keep: Set<Seq<char>>,
    j: int,
)
    requires
        call_ensures(gc_snapshots, (store, base_dir, entries, active_tags), r),
        holds_parents(store@, keep),
        forall|d: Seq<char>| #[trigger]
            in_use(store@, base_dir@, entries@, active_tags@, d) ==> keep.contains(d),
        forall|e: int|
            0 <= e < entries@.len() && (#[trigger] entries@[e]).has_metadata && !(
            entries@[e].name@.len() > 0 && entries@[e].name@[0] == '.') ==> store@.dom().contains(
                text::joined(base_dir@, entries@[e].name@),
            ),
        0 <= j < entries@.len(),
        entries@[j].has_metadata,
        !(entries@[j].name@.len() > 0 && entries@[j].name@[0] == '.'),
        !keep.contains(text::joined(base_dir@, entries@[j].name@)),
        forall|d: Seq<char>| #[trigger]
            keep.contains(d) ==> !records_tag(store@[d], entries@[j].name@),
    ensures
        r matches Ok(removed) && exists|k: int|
            0 <= k < removed@.len() && (#[trigger] removed@[k])@ == entries@[j].name@,
{
    let (m, base, es, act) = (store@, base_dir@, entries@, active_tags@);
    let name = es[j].name@;
    lemma_reachable_stays_inside(m, base, es, act, keep);
    if r is Err {
        let dir = r->Err_0@->NotProbed_dir;
        if !chain::reachable(m, base, es, act, dir) {
            let e = choose|e: int|
                0 <= e < es.len() && (#[trigger] es[e]).is_snapshot() && dir == text::joined(
                    base,
                    es[e].name@,
                );
            assert(m.dom().contains(text::joined(base, es[e].name@)));
        }
    }
    let removed = r->Ok_0;
    let all = chain::doomed(m, base, es, act, es);
    if exists|a: Seq<char>| #[trigger]
        chain::reachable(m, base, es, act, a) && chain::tag_of(m[a]) == Some(name) {
        let a = choose|a: Seq<char>| #[trigger]
            chain::reachable(m, base, es, act, a) && chain::tag_of(m[a]) == Some(name);
        assert(keep.contains(a));
        assert(records_tag(m[a], name));
    }
    chain::lemma_gc_removes_rest(m, base, es, act, j);
    let k = all.index_of(name);
    assert(removed@.map_values(|n: String| n@)[k] == name);
    assert(removed@[k]@ == name);
}

proof fn lemma_line_walked(
    store: Map<Seq<char>, StoredSnapshot>,
    line: Seq<Seq<char>>,
    room: nat,
)
    requires
        linked(store, line),
    ensures
        line.len() >= room + 2 ==> chain::chain_dirs(store, line[0], room) == Err::<
            Seq<Seq<char>>,
            ChainFault,
        >(ChainFault::TooDeep { dir: line[room as int + 1] }),
        line.len() <= room + 1 && !store.dom().contains(line.last()) ==> chain::chain_dirs(
            store,
            line[0],
            room,
        ) == Err::<Seq<Seq<char>>, ChainFault>(ChainFault::NotProbed { dir: line.last() }),
        line.len() <= room + 1 && store.dom().contains(line.last()) && store[line.last()] is Absent
            ==> chain::chain_dirs(store, line[0], room) == Err::<Seq<Seq<char>>, ChainFault>(
            ChainFault::Unloadable { dir: line.last() },
        ),
        line.len() <= room + 1 && rooted(store, line.last()) ==> chain::chain_dirs(
            store,
            line[0],
            room,
        ) == Ok::<Seq<Seq<char>>, ChainFault>(line),
    decreases line.len(),
{
    if line.len() > 1 {
        let rest = line.skip(1);
        assert(store.dom().contains(line[0]));
        assert(chain::parent_dir(store[line[0]]) == Some(line[1]));
        if room > 0 {
            assert forall|i: int| 0 <= i < rest.len() - 1 implies store.dom().contains(#[trigger] rest[i]) && (
            match store[rest[i]] {
                StoredSnapshot::Incremental { diff, pages } => match diff.parent_tag {
                    Some(p) => rest[i + 1] == p@,
                    None => rest[i + 1] == diff.base_template@,
                },
                StoredSnapshot::Full { template, memory } => match template.parent_tag {
                    Some(p) => rest[i + 1] == p@,
                    None => false,
                },
                StoredSnapshot::Absent => false,
            }) by {
                assert(rest[i] == line[i + 1]);
            }
            lemma_line_walked(store, rest, (room - 1) as nat);
            assert(seq![line[0]] + rest =~= line);
            assert(rest.last() == line.last());
        }
    } else {
        assert(line =~= seq![line[0]]);
    }
}

/// The walk along a chain follows the parents that the snapshots name. Where they
/// lead from the leaf to a root within 257 snapshots, these are the chain, root
/// first, each with the tag, type and depth that its metadata holds; where they
/// lead to a directory that was not looked into or holds no snapshot, or lead on
/// further, the walk says so and names the directory.
pub proof fn lemma_walk_follows_parents(
    store: &SnapshotStore,
    leaf_dir: &str,
    r: Result<Vec<ChainNode>, ChainError>,
    line: Seq<Seq<char>>,
)
    requires
        call_ensures(walk_chain, (store, leaf_dir), r),
        linked(store@, line),
        line[0] == leaf_dir@,
    ensures
        line.len() <= 257 && rooted(store@, line.last()) ==> r is Ok && r->Ok_0@.len() == line.len()
            && forall|i: int|
            0 <= i < line.len() ==> (#[trigger] r->Ok_0@[i]).dir@ == line[line.len() - 1 - i] && (
            match store@[line[line.len() - 1 - i]] {
                StoredSnapshot::Incremental { diff, pages } => r->Ok_0@[i].tag == diff.tag
                    && r->Ok_0@[i].snapshot_type == diff.snapshot_type && r->Ok_0@[i].chain_depth
                    == diff.chain_depth,
                StoredSnapshot::Full { template, memory } => r->Ok_0@[i].tag == template.tag
                    && r->Ok_0@[i].snapshot_type == template.snapshot_type
                    && r->Ok_0@[i].chain_depth == template.chain_depth,
                StoredSnapshot::Absent => false,
            }),
        line.len() <= 257 && !store@.dom().contains(line.last()) ==> (r matches Err(
            ChainError::NotProbed { dir },
        ) && dir@ == line.last()),
        line.len() <= 257 && store@.dom().contains(line.last()) && store@[line.last()] is Absent
            ==> (r matches Err(ChainError::Unloadable { dir }) && dir@ == line.last()),
        line.len() > 257 ==> (r matches Err(ChainError::TooDeep { dir }) && dir@ == line[257]),
{
    lemma_line_walked(store@, line, 256);
    if r is Ok && line.len() <= 257 && rooted(store@, line.last()) {
        let nodes = r->Ok_0@;
        assert forall|i: int| 0 <= i < line.len() implies chain::describes(
            store@,
            #[trigger] nodes[i],
            line[line.len() - 1 - i],
        ) by {
            assert(line.reverse()[i] == line[line.len() - 1 - i]);
        }
    }
}

/// What is told of a chain is what the walk along it finds, and its depth is the
/// one that the leaf records.
pub proof fn lemma_info_is_the_walk(
    store: &SnapshotStore,
    leaf_dir: &str,
    walked: Result<Vec<ChainNode>, ChainError>,
    r: Result<ChainInfo, ChainError>,
)
    requires
        call_ensures(walk_chain, (store, leaf_dir), walked),
        call_ensures(chain_info, (store, leaf_dir), r),
    ensures
        r is Ok <==> walked is Ok,
        r is Err ==> r->Err_0@ == walked->Err_0@,
        r matches Ok(info) ==> {
            &&& info.nodes@.len() == walked->Ok_0@.len()
            &&& forall|i: int|
                0 <= i < info.nodes@.len() ==> {
                    &&& (#[trigger] info.nodes@[i]).dir@ == walked->Ok_0@[i].dir@
                    &&& info.nodes@[i].tag == walked->Ok_0@[i].tag
                    &&& info.nodes@[i].snapshot_type == walked->Ok_0@[i].snapshot_type
                    &&& info.nodes@[i].chain_depth == walked->Ok_0@[i].chain_depth
                }
            &&& match store@[leaf_dir@] {
                StoredSnapshot::Incremental { diff, pages } => info.total_depth == diff.chain_depth,
                StoredSnapshot::Full { template, memory } => info.total_depth
                    == template.chain_depth,
                StoredSnapshot::Absent => false,
            }
        },
{
    if r is Ok {
        let dirs = chain::chain_of(store@, leaf_dir@)->Ok_0;
        let (a, b) = (r->Ok_0.nodes@, walked->Ok_0@);
        chain::lemma_chain_links(store@, leaf_dir@);
        assert forall|i: int| 0 <= i < a.len() implies chain::describes(
            store@,
            #[trigger] a[i],
            dirs[i],
        ) && chain::describes(store@, b[i], dirs[i]) by {
            assert(chain::describes(store@, b[i], dirs[i]));
        }
    }
}

proof fn lemma_chain_is_line(
    store: Map<Seq<char>, StoredSnapshot>,
    leaf: Seq<char>,
    line: Seq<Seq<char>>,
)
    requires
        linked(store, line),
        line[0] == leaf,
        line.len() <= 257,
        rooted(store, line.last()),
    ensures
        chain::chain_of(store, leaf) == Ok::<Seq<Seq<char>>, ChainFault>(line.reverse()),
{
    lemma_line_walked(store, line, 256);
}

/// The snapshot has its changed pages at hand.
pub open spec fn has_pages(s: StoredSnapshot) -> bool {
    s matches StoredSnapshot::Incremental { diff, pages } && pages is Some
}

proof fn lemma_sound_prefix(
    store: Map<Seq<char>, StoredSnapshot>,
    line: Seq<Seq<char>>,
    n: int,
)
    requires
        1 <= n <= line.len(),
        rooted(store, line.last()),
        store[line.last()]->memory is Some,
        forall|i: int| line.len() - n <= i < line.len() - 1 ==> has_pages(store[#[trigger] line[i]]),
    ensures
        chain::resolve_fault(store, line.reverse().take(n)) is None,
    decreases n,
{
    let dirs = line.reverse();
    if n > 1 {
        lemma_sound_prefix(store, line, n - 1);
        assert(dirs.take(n).drop_last() =~= dirs.take(n - 1));
        assert(dirs.take(n).last() == line[line.len() - n]);
    } else {
        assert(dirs.take(1)[0] == line.last());
    }
}

proof fn lemma_fault_of_prefix(
    store: Map<Seq<char>, StoredSnapshot>,
    dirs: Seq<Seq<char>>,
    n: int,
)
    requires
        1 <= n <= dirs.len(),
        chain::resolve_fault(store, dirs.take(n)) is Some,
    ensures
        chain::resolve_fault(store, dirs) == chain::resolve_fault(store, dirs.take(n)),
    decreases dirs.len() - n,
{
    if n < dirs.len() {
        assert(dirs.take(n + 1).drop_last() =~= dirs.take(n));
        lemma_fault_of_prefix(store, dirs, n + 1);
    } else {
        assert(dirs.take(n) =~= dirs);
    }
}

/// A chain resolves once the root's image and the changed pages of all others are
/// at hand. The register and device state is then the leaf's own.
pub proof fn lemma_complete_chain_resolves(
    store: &SnapshotStore,
    leaf_dir: &str,
    r: Result<(Vec<u8>, &Vec<VcpuState>, &DeviceStates), ChainError>,
    line: Seq<Seq<char>>,
)
    requires
        call_ensures(resolve_chain, (store, leaf_dir), r),
        linked(store@, line),
        line[0] == leaf_dir@,
        line.len() <= 257,
        rooted(store@, line.last()),
        store@[line.last()]->memory is Some,
        forall|i: int| 0 <= i < line.len() - 1 ==> has_pages(store@[#[trigger] line[i]]),
    ensures
        r is Ok,
        match store@[leaf_dir@] {
            StoredSnapshot::Incremental { diff, pages } => *(r->Ok_0.1) == diff.vcpu_states && *(
            r->Ok_0.2) == diff.device_states,
            StoredSnapshot::Full { template, memory } => *(r->Ok_0.1) == template.vcpu_states && *(
            r->Ok_0.2) == template.device_states && memory is Some && r->Ok_0.0@ == memory->0@,
            StoredSnapshot::Absent => false,
        },
{
    lemma_chain_is_line(store@, leaf_dir@, line);
    lemma_sound_prefix(store@, line, line.len() as int);
    assert(line.reverse().take(line.len() as int) =~= line.reverse());
}

/// A chain whose parts are not all at hand does not resolve, and the part nearest
/// to the root is named: the root's image, the changed pages of an incremental
/// snapshot, or a full snapshot that is not the root.
pub proof fn lemma_broken_chain_is_refused(
    store: &SnapshotStore,
    leaf_dir: &str,
    r: Result<(Vec<u8>, &Vec<VcpuState>, &DeviceStates), ChainError>,
    line: Seq<Seq<char>>,
    bad: int,
)
    requires
        call_ensures(resolve_chain, (store, leaf_dir), r),
        linked(store@, line),
        line[0] == leaf_dir@,
        line.len() <= 257,
        rooted(store@, line.last()),
        0 <= bad < line.len(),
        forall|i: int| bad < i < line.len() - 1 ==> has_pages(store@[#[trigger] line[i]]),
        bad < line.len() - 1 ==> store@[line.last()]->memory is Some && !has_pages(
            store@[line[bad]],
        ),
        bad == line.len() - 1 ==> store@[line.last()]->memory is None,
    ensures
        match store@[line[bad]] {
            StoredSnapshot::Incremental { diff, pages } => r matches Err(
                ChainError::NoDirtyPages { file },
            ) && file@ == diff.dirty_pages_file@,
            StoredSnapshot::Full { template, memory } => if bad == line.len() - 1 {
                r matches Err(ChainError::NoRootMemory { file }) && file@ == template.memory_file@
            } else {
                r matches Err(ChainError::NotIncremental { dir }) && dir@ == line[bad]
            },
            StoredSnapshot::Absent => false,
        },
{
    let dirs = line.reverse();
    let n = line.len() - bad;
    lemma_chain_is_line(store@, leaf_dir@, line);
    assert(dirs.take(1)[0] == line.last());
    if n > 1 {
        lemma_sound_prefix(store@, line, n - 1);
        assert(dirs.take(n).drop_last() =~= dirs.take(n - 1));
        assert(dirs.take(n).last() == line[bad]);
    }
    lemma_fault_of_prefix(store@, dirs, n);
}

/// Page `page` is marked in the bitmap: bit `page % 8`, counted from the least
/// significant one, of byte `page / 8` is set.
pub open spec fn bit_set(bitmap: Seq<u8>, page: int) -> bool {
    page / 8 < bitmap.len() && (bitmap[page / 8] >> ((page % 8) as u8)) & 1 == 1
}

proof fn lemma_bit_set(bitmap: Seq<u8>, page: int)
    requires
        page >= 0,
    ensures
        bit_set(bitmap, page) <==> snapshot::marked(bitmap, page),
{
    if page / 8 < bitmap.len() {
        let b = bitmap[page / 8];
        let k = (page % 8) as u8;
        assert((b & (1u8 << k) != 0) == ((b >> k) & 1 == 1)) by (bit_vector)
            requires
                k < 8,
        ;
    }
}

proof fn lemma_none_before(bitmap: Seq<u8>, page: nat)
    requires
        forall|q: int| 0 <= q < page ==> !#[trigger] bit_set(bitmap, q),
    ensures
        snapshot::marked_before(bitmap, page) == 0,
    decreases page,
{
    if page > 0 {
        lemma_none_before(bitmap, (page - 1) as nat);
        assert(!bit_set(bitmap, page - 1));
        lemma_bit_set(bitmap, page - 1);
    }
}

proof fn lemma_none_between(bitmap: Seq<u8>, first: nat, page: nat)
    requires
        first < page,
        bit_set(bitmap, first as int),
        forall|q: int| first < q < page ==> !#[trigger] bit_set(bitmap, q),
    ensures
        snapshot::marked_before(bitmap, page) == snapshot::marked_before(bitmap, first) + 1,
    decreases page,
{
    lemma_bit_set(bitmap, page - 1);
    if first < page - 1 {
        assert(!bit_set(bitmap, page - 1));
        lemma_none_between(bitmap, first, (page - 1) as nat);
    }
}

/// A diff leaves the size of the memory alone, and every byte outside the pages
/// that its bitmap marks and its memory size covers.
pub proof fn lemma_diff_touches_marked_pages_only(
    base_mem: &mut [u8],
    diff: &IncrementalSnapshot,
    dirty_data: &[u8],
    i: int,
)
    requires
        call_ensures(apply_diff, (base_mem, diff, dirty_data), ()),
        0 <= i < old(base_mem)@.len(),
        !bit_set(diff.dirty_bitmap@, i / 4096) || i / 4096 >= diff.memory_size / 4096,
    ensures
        final(base_mem)@.len() == old(base_mem)@.len(),
        final(base_mem)@[i] == old(base_mem)@[i],
{
    lemma_bit_set(diff.dirty_bitmap@, i / 4096);
}

/// The first page that the bitmap marks is the first page of the data.
pub proof fn lemma_first_marked_page(
    base_mem: &mut [u8],
    diff: &IncrementalSnapshot,
    dirty_data: &[u8],
    page: nat,
    o: int,
)
    requires
        call_ensures(apply_diff, (base_mem, diff, dirty_data), ()),
        page < diff.memory_size / 4096,
        (page + 1) * 4096 <= old(base_mem)@.len(),
        bit_set(diff.dirty_bitmap@, page as int),
        forall|q: int| 0 <= q < page ==> !#[trigger] bit_set(diff.dirty_bitmap@, q),
        dirty_data@.len() >= 4096,
        0 <= o < 4096,
    ensures
        final(base_mem)@[page * 4096 + o] == dirty_data@[o],
{
    lemma_bit_set(diff.dirty_bitmap@, page as int);
    lemma_none_before(diff.dirty_bitmap@, page);
    assert((page * 4096 + o) / 4096 == page);
    assert((page * 4096 + o) % 4096 == o);
}

/// Marked pages take the pages of the data in turn: where one takes the page at
/// `at`, the next marked one takes the page behind it.
pub proof fn lemma_next_marked_page(
    base_mem: &mut [u8],
    diff: &IncrementalSnapshot,
    dirty_data: &[u8],
    first: nat,
    page: nat,
    at: nat,
    o: int,
)
    requires
        call_ensures(apply_diff, (base_mem, diff, dirty_data), ()),
        first < page < diff.memory_size / 4096,
        (page + 1) * 4096 <= old(base_mem)@.len(),
        bit_set(diff.dirty_bitmap@, first as int),
        bit_set(diff.dirty_bitmap@, page as int),
        forall|q: int| first < q < page ==> !#[trigger] bit_set(diff.dirty_bitmap@, q),
        at == snapshot::marked_before(diff.dirty_bitmap@, first),
        (at + 2) * 4096 <= dirty_data@.len(),
        0 <= o < 4096,
    ensures
        final(base_mem)@[first * 4096 + o] == dirty_data@[at * 4096 + o],
        final(base_mem)@[page * 4096 + o] == dirty_data@[(at + 1) * 4096 + o],
{
    let bitmap = diff.dirty_bitmap@;
    lemma_bit_set(bitmap, first as int);
    lemma_bit_set(bitmap, page as int);
    lemma_none_between(bitmap, first, page);
    assert((first * 4096 + o) / 4096 == first && (first * 4096 + o) % 4096 == o);
    assert((page * 4096 + o) / 4096 == page && (page * 4096 + o) % 4096 == o);
}

proof fn lemma_same_dirs(store: Map<Seq<char>, StoredSnapshot>, dir: Seq<char>, a: nat, b: nat)
    requires
        chain::chain_dirs(store, dir, a) is Ok,
        chain::chain_dirs(store, dir, b) is Ok,
    ensures
        chain::chain_dirs(store, dir, a) == chain::chain_dirs(store, dir, b),
    decreases a,
{
    match chain::parent_dir(store[dir]) {
        None => {},
        Some(p) => {
            if a > 0 && b > 0 {
                lemma_same_dirs(store, p, (a - 1) as nat, (b - 1) as nat);
            }
        },
    }
}

/// The memory of an incremental snapshot is the memory of its parent with the
/// diff's pages laid over it, as resolving the two shows.
pub proof fn lemma_leaf_is_parent_with_diff(
    store: &SnapshotStore,
    leaf_dir: &str,
    parent_dir: &str,
    base_mem: &mut [u8],
    diff: &IncrementalSnapshot,
    dirty_data: &[u8],
    below: (Vec<u8>, &Vec<VcpuState>, &DeviceStates),
    here: (Vec<u8>, &Vec<VcpuState>, &DeviceStates),
)
    requires
        call_ensures(
            resolve_chain,
            (store, parent_dir),
            Ok::<(Vec<u8>, &Vec<VcpuState>, &DeviceStates), ChainError>(below),
        ),
        call_ensures(
            resolve_chain,
            (store, leaf_dir),
            Ok::<(Vec<u8>, &Vec<VcpuState>, &DeviceStates), ChainError>(here),
        ),
        store@[leaf_dir@] matches StoredSnapshot::Incremental { diff: d, pages: Some(p) } && d
            == *diff && p@ == dirty_data@,
        parent_dir@ == (match diff.parent_tag {
            Some(p) => p@,
            None => diff.base_template@,
        }),
        old(base_mem)@ == below.0@,
        call_ensures(apply_diff, (base_mem, diff, dirty_data), ()),
    ensures
        here.0@ == final(base_mem)@,
        *here.1 == diff.vcpu_states,
        *here.2 == diff.device_states,
{
    let m = store@;
    let (leaf, parent) = (leaf_dir@, parent_dir@);
    let up = chain::chain_dirs(m, parent, 256)->Ok_0;
    let dirs = chain::chain_of(m, leaf)->Ok_0;
    assert(chain::chain_dirs(m, leaf, 256) is Ok);
    assert(chain::chain_dirs(m, parent, 255) is Ok);
    lemma_same_dirs(m, parent, 256, 255);
    chain::lemma_chain_links(m, parent);
    assert(dirs =~= up.reverse().push(leaf));
    assert(dirs.drop_last() =~= up.reverse());
}

/// Compacting a chain changes nothing of what it stands for: the new snapshot,
/// once it is stored, resolves to the memory, registers and devices that the chain
/// resolved to.
pub proof fn lemma_compaction_keeps_what_resolves(
    store: &SnapshotStore,
    leaf_dir: &str,
    output_dir: &str,
    after: &SnapshotStore,
    before: Result<(Vec<u8>, &Vec<VcpuState>, &DeviceStates), ChainError>,
    compacted: Result<(TemplateSnapshot, Vec<u8>), ChainError>,
    r: Result<(Vec<u8>, &Vec<VcpuState>, &DeviceStates), ChainError>,
)
    requires
        call_ensures(resolve_chain, (store, leaf_dir), before),
        call_ensures(compact_chain, (store, leaf_dir, output_dir), compacted),
        compacted is Ok ==> after@ == store@.insert(
            output_dir@,
            StoredSnapshot::Full { template: compacted->Ok_0.0, memory: Some(compacted->Ok_0.1) },
        ),
        call_ensures(resolve_chain, (after, output_dir), r),
    ensures
        compacted is Ok <==> before is Ok,
        compacted is Err ==> compacted->Err_0@ == before->Err_0@,
        compacted is Ok ==> {
            &&& r is Ok
            &&& r->Ok_0.0@ == before->Ok_0.0@
            &&& r->Ok_0.1@.len() == before->Ok_0.1@.len()
            &&& forall|i: int|
                0 <= i < r->Ok_0.1@.len() ==> same_registers(
                    #[trigger] r->Ok_0.1@[i],
                    before->Ok_0.1@[i],
                )
            &&& same_devices(*(r->Ok_0.2), *(before->Ok_0.2))
        },
{
    if compacted is Ok {
        let (meta, memory) = compacted->Ok_0;
        chain::lemma_compacted_resolves(store@, output_dir@, meta, memory);
        let (a, b) = (snapshot::vcpu_views(r->Ok_0.1@), snapshot::vcpu_views(before->Ok_0.1@));
        assert(a == b);
        assert(a.len() == r->Ok_0.1@.len() && b.len() == before->Ok_0.1@.len());
        assert forall|i: int| 0 <= i < r->Ok_0.1@.len() implies same_registers(
            #[trigger] r->Ok_0.1@[i],
            before->Ok_0.1@[i],
        ) by {
            assert(a[i] == b[i]);
        }
        lemma_same_devices(*(r->Ok_0.2), *(before->Ok_0.2));
    }
}

/// Two device states hold the same: the serial port, each device's configuration
/// and transport, the interrupt controllers and the timer.
pub open spec fn same_devices(a: DeviceStates, b: DeviceStates) -> bool {
    &&& a.serial is Some <==> b.serial is Some
    &&& a.serial is Some ==> a.serial->0@ == b.serial->0@
    &&& a.virtio_configs@.dom() == b.virtio_configs@.dom()
    &&& forall|k: Seq<char>| #[trigger]
        a.virtio_configs@.dom().contains(k) ==> a.virtio_configs@[k]@ == b.virtio_configs@[k]@
    &&& a.transports@.len() == b.transports@.len()
    &&& forall|i: int|
        0 <= i < a.transports@.len() ==> (#[trigger] a.transports@[i])@ == b.transports@[i]@
    &&& a.irqchip@.len() == b.irqchip@.len()
    &&& forall|i: int| 0 <= i < a.irqchip@.len() ==> (#[trigger] a.irqchip@[i])@ == b.irqchip@[i]@
    &&& a.pit@ == b.pit@
}

/// Two register states hold the same in each part.
pub open spec fn same_registers(a: VcpuState, b: VcpuState) -> bool {
    &&& a.regs@ == b.regs@ && a.sregs@ == b.sregs@ && a.lapic@ == b.lapic@
    &&& a.fpu@ == b.fpu@ && a.xsave@ == b.xsave@ && a.xcrs@ == b.xcrs@
    &&& a.mp_state@ == b.mp_state@ && a.vcpu_events@ == b.vcpu_events@
    &&& a.debug_regs@ == b.debug_regs@ && a.msrs@ == b.msrs@
    &&& a.tsc_khz == b.tsc_khz && a.cpuid@ == b.cpuid@
}

proof fn lemma_same_devices(a: DeviceStates, b: DeviceStates)
    requires
        a@ == b@,
    ensures
        same_devices(a, b),
{
    let (x, y) = (a@, b@);
    assert(a.virtio_configs@.dom() =~= x.virtio_configs.dom());
    assert(b.virtio_configs@.dom() =~= y.virtio_configs.dom());
    assert forall|k: Seq<char>| #[trigger] a.virtio_configs@.dom().contains(k) implies
        a.virtio_configs@[k]@ == b.virtio_configs@[k]@ by {
        assert(x.virtio_configs[k] == y.virtio_configs[k]);
    }
    assert(x.transports.len() == a.transports@.len() && y.transports.len() == b.transports@.len());
    assert forall|i: int| 0 <= i < a.transports@.len() implies (#[trigger] a.transports@[i])@
        == b.transports@[i]@ by {
        assert(x.transports[i] == y.transports[i]);
    }
    assert(x.irqchip.len() == a.irqchip@.len() && y.irqchip.len() == b.irqchip@.len());
    assert forall|i: int| 0 <= i < a.irqchip@.len() implies (#[trigger] a.irqchip@[i])@
        == b.irqchip@[i]@ by {
        assert(x.irqchip[i] == y.irqchip[i]);
    }
}

/// A copy of registers or devices holds all that the first one holds, and devices
/// begin with nothing.
pub proof fn lemma_copies_are_complete(
    v: &VcpuState,
    w: VcpuState,
    d: &DeviceStates,
    e: DeviceStates,
    none: DeviceStates,
)
    requires
        call_ensures(<VcpuState as Clone>::clone, (v,), w),
        call_ensures(<DeviceStates as Clone>::clone, (d,), e),
        call_ensures(<DeviceStates as Default>::default, (), none),
    ensures
        same_registers(w, *v),
        same_devices(e, *d),
        none.serial is None && none.transports@.len() == 0 && none.irqchip@.len() == 0,
        none.pit@.len() == 0 && none.virtio_configs@.dom().is_empty(),
{
    lemma_same_devices(e, *d);
    assert(none@.transports.len() == none.transports@.len());
    assert(none@.irqchip.len() == none.irqchip@.len());
    assert(none@.virtio_configs.dom() =~= none.virtio_configs@.dom());
}

/// A compacted chain is a root of its own: it names no parent, counts as full, and
/// keeps the disk, overlay, address, clock and runtime of the chain's root. Its
/// image passes verification.
pub proof fn lemma_compaction_makes_a_root(
    store: &SnapshotStore,
    leaf_dir: &str,
    output_dir: &str,
    s: TemplateSnapshot,
    mem: Vec<u8>,
    line: Seq<Seq<char>>,
    loaded: Result<TemplateSnapshot, LoadError>,
)
    requires
        call_ensures(
            compact_chain,
            (store, leaf_dir, output_dir),
            Ok::<(TemplateSnapshot, Vec<u8>), ChainError>((s, mem)),
        ),
        linked(store@, line),
        line[0] == leaf_dir@,
        line.len() <= 257,
        rooted(store@, line.last()),
        call_ensures(TemplateSnapshot::load, (s, &MemoryImage::Bytes(mem), true), loaded),
    ensures
        s.memory_file@ == text::joined(output_dir@, "memory.raw"@),
        s.memory_size == mem@.len(),
        s.tag is None,
        s.parent_tag is None,
        s.chain_depth == 0,
        s.snapshot_type@ == "full"@,
        s.runtime_type == store@[line.last()]->template.runtime_type,
        s.block_device == store@[line.last()]->template.block_device,
        s.overlay_path == store@[line.last()]->template.overlay_path,
        s.guest_ip == store@[line.last()]->template.guest_ip,
        s.clock_ns == store@[line.last()]->template.clock_ns,
        loaded == Ok::<TemplateSnapshot, LoadError>(s),
{
    lemma_chain_is_line(store@, leaf_dir@, line);
    assert(line.reverse()[0] == line.last());
}

proof fn lemma_dirs_without(
    store: Map<Seq<char>, StoredSnapshot>,
    after: Map<Seq<char>, StoredSnapshot>,
    dir: Seq<char>,
    room: nat,
)
    requires
        chain::chain_dirs(store, dir, room) is Ok,
        forall|i: int|
            0 <= i < chain::chain_dirs(store, dir, room)->Ok_0.len() ==> after.dom().contains(
                #[trigger] chain::chain_dirs(store, dir, room)->Ok_0[i],
            ) && after[chain::chain_dirs(store, dir, room)->Ok_0[i]]
                == store[chain::chain_dirs(store, dir, room)->Ok_0[i]],
    ensures
        chain::chain_dirs(after, dir, room) == chain::chain_dirs(store, dir, room),
    decreases room,
{
    let dirs = chain::chain_dirs(store, dir, room)->Ok_0;
    assert(dirs[0] == dir);
    if chain::parent_dir(store[dir]) is Some {
        let p = chain::parent_dir(store[dir])->0;
        let rest = chain::chain_dirs(store, p, (room - 1) as nat)->Ok_0;
        assert forall|i: int| 0 <= i < rest.len() implies after.dom().contains(#[trigger] rest[i])
            && after[rest[i]] == store[rest[i]] by {
            assert(dirs[i + 1] == rest[i]);
        }
        lemma_dirs_without(store, after, p, (room - 1) as nat);
    }
}

proof fn lemma_resolved_without(
    store: Map<Seq<char>, StoredSnapshot>,
    after: Map<Seq<char>, StoredSnapshot>,
    dirs: Seq<Seq<char>>,
)
    requires
        dirs.len() >= 1,
        forall|i: int| 0 <= i < dirs.len() ==> after[#[trigger] dirs[i]] == store[dirs[i]],
    ensures
        chain::resolve_fault(after, dirs) == chain::resolve_fault(store, dirs),
        chain::resolved_memory(after, dirs) == chain::resolved_memory(store, dirs),
    decreases dirs.len(),
{
    assert(after[dirs[0]] == store[dirs[0]]);
    if dirs.len() > 1 {
        let rest = dirs.drop_last();
        assert forall|i: int| 0 <= i < rest.len() implies after[#[trigger] rest[i]]
            == store[rest[i]] by {
            assert(rest[i] == dirs[i]);
        }
        assert(after[dirs[dirs.len() - 1]] == store[dirs[dirs.len() - 1]]);
        lemma_resolved_without(store, after, rest);
    }
}

proof fn lemma_chain_is_linked(store: Map<Seq<char>, StoredSnapshot>, leaf: Seq<char>)
    requires
        chain::chain_of(store, leaf) is Ok,
    ensures
        linked(store, chain::chain_of(store, leaf)->Ok_0.reverse()),
        chain::chain_of(store, leaf)->Ok_0.reverse()[0] == leaf,
{
    let dirs = chain::chain_of(store, leaf)->Ok_0;
    let up = dirs.reverse();
    chain::lemma_chain_links(store, leaf);
    assert forall|i: int| 0 <= i < up.len() - 1 implies chain::parent_dir(store[#[trigger] up[i]])
        == Some(up[i + 1]) && store.dom().contains(up[i]) && !(store[up[i]] is Absent) by {
        assert(dirs[up.len() - 1 - i] == up[i]);
        assert(dirs[up.len() - 2 - i] == up[i + 1]);
    }
}

/// Garbage collection removes no directory of the chain of an active snapshot, as
/// the walk along the chain finds it.
pub proof fn lemma_collection_spares_the_chain(
    store: &SnapshotStore,
    base_dir: &str,
    entries: &Vec<SnapshotEntry>,
    active_tags: &[String],
    removed: Vec<String>,
    leaf_dir: &str,
    nodes: Vec<ChainNode>,
    i: int,
    k: int,
)
    requires
        call_ensures(
            gc_snapshots,
            (store, base_dir, entries, active_tags),
            Ok::<Vec<String>, ChainError>(removed),
        ),
        in_use(store@, base_dir@, entries@, active_tags@, leaf_dir@),
        call_ensures(walk_chain, (store, leaf_dir), Ok::<Vec<ChainNode>, ChainError>(nodes)),
        0 <= i < nodes@.len(),
        0 <= k < removed@.len(),
    ensures
        text::joined(base_dir@, removed@[k]@) != nodes@[i].dir@,
{
    let dirs = chain::chain_of(store@, leaf_dir@)->Ok_0;
    lemma_chain_is_linked(store@, leaf_dir@);
    assert(chain::describes(store@, nodes@[i], dirs[i]));
    assert(dirs.reverse()[dirs.len() - 1 - i] == dirs[i]);
    lemma_collection_keeps_ancestors(
        store,
        base_dir,
        entries,
        active_tags,
        removed,
        dirs.reverse(),
        dirs.len() - 1 - i,
        k,
    );
}

/// Whatever garbage collection removes, an active snapshot resolves afterwards to
/// what it resolved to before. `after` is the store without the removed
/// directories.
pub proof fn lemma_active_chain_survives_collection(
    store: &SnapshotStore,
    after: &SnapshotStore,
    base_dir: &str,
    entries: &Vec<SnapshotEntry>,
    active_tags: &[String],
    removed: Vec<String>,
    leaf_dir: &str,
    r0: Result<(Vec<u8>, &Vec<VcpuState>, &DeviceStates), ChainError>,
    r1: Result<(Vec<u8>, &Vec<VcpuState>, &DeviceStates), ChainError>,
)
    requires
        call_ensures(
            gc_snapshots,
            (store, base_dir, entries, active_tags),
            Ok::<Vec<String>, ChainError>(removed),
        ),
        forall|d: Seq<char>| #[trigger]
            store@.dom().contains(d) && !(exists|k: int|
                0 <= k < removed@.len() && d == text::joined(base_dir@, (#[trigger] removed@[k])@))
                ==> after@.dom().contains(d) && after@[d] == store@[d],
        in_use(store@, base_dir@, entries@, active_tags@, leaf_dir@),
        call_ensures(resolve_chain, (store, leaf_dir), r0),
        call_ensures(resolve_chain, (after, leaf_dir), r1),
        r0 is Ok,
    ensures
        r1 is Ok,
        r1->Ok_0.0@ == r0->Ok_0.0@,
        *(r1->Ok_0.1) == *(r0->Ok_0.1),
        *(r1->Ok_0.2) == *(r0->Ok_0.2),
{
    let m = store@;
    let dirs = chain::chain_of(m, leaf_dir@)->Ok_0;
    let up = dirs.reverse();
    lemma_chain_is_linked(m, leaf_dir@);
    chain::lemma_chain_links(m, leaf_dir@);
    assert(up =~= chain::chain_dirs(m, leaf_dir@, 256)->Ok_0);
    assert forall|i: int| 0 <= i < up.len() implies after@.dom().contains(#[trigger] up[i])
        && after@[up[i]] == m[up[i]] by {
        assert(dirs[up.len() - 1 - i] == up[i]);
        assert(m.dom().contains(up[i]));
        if exists|k: int|
            0 <= k < removed@.len() && up[i] == text::joined(base_dir@, (#[trigger] removed@[k])@) {
            let k = choose|k: int|
                0 <= k < removed@.len() && up[i] == text::joined(
                    base_dir@,
                    (#[trigger] removed@[k])@,
                );
            lemma_collection_keeps_ancestors(
                store,
                base_dir,
                entries,
                active_tags,
                removed,
                up,
                i,
                k,
            );
        }
    }
    lemma_dirs_without(m, after@, leaf_dir@, 256);
    assert forall|i: int| 0 <= i < dirs.len() implies after@[#[trigger] dirs[i]] == m[dirs[i]] by {
        assert(dirs[i] == up[up.len() - 1 - i]);
    }
    lemma_resolved_without(m, after@, dirs);
    assert(after@[leaf_dir@] == m[leaf_dir@]) by {
        assert(up[0] == leaf_dir@);
    }
}

/// An incremental snapshot restores the guest as it was. The chain of its base
/// resolves to the memory `base` of that time, the bitmap marks every page that is
/// different in the memory `now` of the stopped guest, and the marked pages were
/// read from it one after the other. Once what was saved is stored outside the
/// base's chain, resolving it gives back `now`, with the registers and devices
/// that were saved.
pub proof fn lemma_incremental_restores_the_guest(
    store: &SnapshotStore,
    after: &SnapshotStore,
    base_dir: &str,
    dir: &str,
    bitmap: Vec<u8>,
    vcpu_states: Vec<VcpuState>,
    device_states: DeviceStates,
    base_depth: u32,
    memory_size: u64,
    saved: IncrementalSnapshot,
    pages: Vec<u8>,
    base: (Vec<u8>, &Vec<VcpuState>, &DeviceStates),
    now: Seq<u8>,
    line: Seq<Seq<char>>,
    r: Result<(Vec<u8>, &Vec<VcpuState>, &DeviceStates), ChainError>,
)
    requires
        call_ensures(
            resolve_chain,
            (store, base_dir),
            Ok::<(Vec<u8>, &Vec<VcpuState>, &DeviceStates), ChainError>(base),
        ),
        linked(store@, line),
        line[0] == base_dir@,
        line.len() <= 256,
        rooted(store@, line.last()),
        !line.contains(dir@),
        call_ensures(
            save_incremental,
            (memory_size, bitmap, vcpu_states, device_states, base_dir, base_depth, dir),
            saved,
        ),
        memory_size == now.len(),
        base.0@.len() == now.len(),
        forall|i: int|
            0 <= i < now.len() && base.0@[i] != #[trigger] now[i] ==> i / 4096 < memory_size / 4096
                && bit_set(bitmap@, i / 4096),
        pages@ == snapshot::collected(now, bitmap@, (memory_size / 4096) as nat),
        after@ == store@.insert(
            dir@,
            StoredSnapshot::Incremental { diff: saved, pages: Some(pages) },
        ),
        call_ensures(resolve_chain, (after, dir), r),
    ensures
        r is Ok,
        r->Ok_0.0@ == now,
        *(r->Ok_0.1) == vcpu_states,
        *(r->Ok_0.2) == device_states,
{
    lemma_chain_is_line(store@, base_dir@, line);
    assert forall|i: int| 0 <= i < line.len() implies line.reverse()[i] != dir@ by {
        assert(line[line.len() - 1 - i] != dir@);
    }
    assert forall|i: int| 0 <= i < now.len() && base.0@[i] != #[trigger] now[i] implies i / 4096
        < memory_size as nat / 4096 && snapshot::marked(bitmap@, i / 4096) by {
        lemma_bit_set(bitmap@, i / 4096);
    }
    chain::lemma_saved_diff_resolves(store@, dir@, saved, pages, base.0@, now);
}

/// Incremental snapshots can be stacked: one that is taken on top of a stored
/// snapshot follows it in the chain, one deeper.
pub proof fn lemma_incremental_extends_the_chain(
    store: &SnapshotStore,
    after: &SnapshotStore,
    base_dir: &str,
    dir: &str,
    bitmap: Vec<u8>,
    vcpu_states: Vec<VcpuState>,
    device_states: DeviceStates,
    memory_size: u64,
    depth: u32,
    saved: IncrementalSnapshot,
    pages: Option<Vec<u8>>,
    line: Seq<Seq<char>>,
    below: Vec<ChainNode>,
    r: Result<ChainInfo, ChainError>,
)
    requires
        linked(store@, line),
        line[0] == base_dir@,
        line.len() <= 256,
        rooted(store@, line.last()),
        !line.contains(dir@),
        call_ensures(walk_chain, (store, base_dir), Ok::<Vec<ChainNode>, ChainError>(below)),
        call_ensures(stored_depth, (&store@[base_dir@],), depth),
        call_ensures(
            save_incremental,
            (memory_size, bitmap, vcpu_states, device_states, base_dir, depth, dir),
            saved,
        ),
        depth < u32::MAX,
        after@ == store@.insert(dir@, StoredSnapshot::Incremental { diff: saved, pages }),
        call_ensures(chain_info, (after, dir), r),
    ensures
        r is Ok,
        r->Ok_0.nodes@.len() == below@.len() + 1,
        forall|i: int|
            0 <= i < below@.len() ==> (#[trigger] r->Ok_0.nodes@[i]).dir@ == below@[i].dir@,
        r->Ok_0.nodes@.last().dir@ == dir@,
        r->Ok_0.nodes@.last().snapshot_type@ == "incremental"@,
        r->Ok_0.total_depth == below@.last().chain_depth + 1,
        saved.dirty_pages_file@ == text::joined(dir@, "dirty_pages.raw"@),
        saved.memory_size == memory_size,
        saved.dirty_bitmap == bitmap,
        saved.tag is None,
{
    let m = store@;
    let found = StoredSnapshot::Incremental { diff: saved, pages };
    let longer = seq![dir@] + line;
    assert(longer.skip(1) =~= line);
    assert forall|i: int| 0 <= i < longer.len() - 1 implies after@.dom().contains(#[trigger] longer[i])
        && (match after@[longer[i]] {
        StoredSnapshot::Incremental { diff, pages } => match diff.parent_tag {
            Some(p) => longer[i + 1] == p@,
            None => longer[i + 1] == diff.base_template@,
        },
        StoredSnapshot::Full { template, memory } => match template.parent_tag {
            Some(p) => longer[i + 1] == p@,
            None => false,
        },
        StoredSnapshot::Absent => false,
    }) by {
        if i > 0 {
            assert(longer[i] == line[i - 1]);
            assert(line[i - 1] != dir@);
        }
    }
    assert(longer.last() == line.last());
    assert(line[line.len() - 1] != dir@);
    lemma_chain_is_line(m, base_dir@, line);
    lemma_chain_is_line(after@, dir@, longer);
    let nodes = r->Ok_0.nodes@;
    let (a, b) = (longer.reverse(), line.reverse());
    assert forall|i: int| 0 <= i < below@.len() implies (#[trigger] nodes[i]).dir@ == below@[i].dir@ by {
        assert(chain::describes(after@, nodes[i], a[i]));
        assert(chain::describes(m, below@[i], b[i]));
        assert(a[i] == longer[longer.len() - 1 - i]);
        assert(b[i] == line[line.len() - 1 - i]);
    }
    let last = below@.len() as int;
    assert(chain::describes(after@, nodes[last], a[last]));
    assert(a[last] == dir@);
    assert(chain::describes(m, below@[last - 1], b[last - 1]));
    assert(b[last - 1] == base_dir@);
}

/// A full snapshot records what it was given: the guest's registers, devices, disk,
/// overlay, address and clock, and the size of its memory. It is a root.
pub proof fn lemma_template_records_the_guest(
    memory: &[u8],
    vcpu_states: Vec<VcpuState>,
    device_states: DeviceStates,
    runtime_type: &str,
    output_dir: &str,
    block_device: Option<String>,
    clock_ns: u64,
    overlay_path: Option<String>,
    guest_ip: Option<String>,
    s: TemplateSnapshot,
)
    requires
        call_ensures(
            save_template,
            (
                memory,
                vcpu_states,
                device_states,
                runtime_type,
                output_dir,
                block_device,
                clock_ns,
                overlay_path,
                guest_ip,
            ),
            s,
        ),
    ensures
        s.vcpu_states == vcpu_states,
        s.device_states == device_states,
        s.memory_size == memory@.len(),
        s.memory_file@ == text::joined(output_dir@, "memory.raw"@),
        s.runtime_type@ == runtime_type@,
        s.block_device == block_device,
        s.clock_ns == clock_ns,
        s.overlay_path == overlay_path,
        s.guest_ip == guest_ip,
        s.tag is None && s.parent_tag is None && s.chain_depth == 0,
        s.snapshot_type@ == "full"@,
{
}

proof fn lemma_hex_injective(a: Seq<u8>, b: Seq<u8>)
    requires
        text::hex(a) == text::hex(b),
    ensures
        a == b,
{
    assert(text::hex(a).len() == 2 * a.len());
    assert(text::hex(b).len() == 2 * b.len());
    assert forall|i: int| 0 <= i < a.len() implies a[i] == b[i] by {
        assert(text::hex(a)[2 * i] == text::digit_char((a[i] / 16) as nat));
        assert(text::hex(b)[2 * i] == text::digit_char((b[i] / 16) as nat));
        assert(text::hex(a)[2 * i + 1] == text::digit_char((a[i] % 16) as nat));
        assert(text::hex(b)[2 * i + 1] == text::digit_char((b[i] % 16) as nat));
    }
    assert(a =~= b);
}

/// A snapshot that was saved is loaded again as it was saved. With verification it
/// is loaded exactly where its image still has the digest that it was saved with;
/// one whose image is gone is not loaded at all.
pub proof fn lemma_saved_template_is_loaded(
    memory: &[u8],
    vcpu_states: Vec<VcpuState>,
    device_states: DeviceStates,
    runtime_type: &str,
    output_dir: &str,
    block_device: Option<String>,
    clock_ns: u64,
    overlay_path: Option<String>,
    guest_ip: Option<String>,
    s: TemplateSnapshot,
    image: MemoryImage,
    verify: bool,
    r: Result<TemplateSnapshot, LoadError>,
)
    requires
        call_ensures(
            save_template,
            (
                memory,
                vcpu_states,
                device_states,
                runtime_type,
                output_dir,
                block_device,
                clock_ns,
                overlay_path,
                guest_ip,
            ),
            s,
        ),
        call_ensures(TemplateSnapshot::load, (s, &image, verify), r),
    ensures
        r is Ok ==> r->Ok_0 == s,
        image is Missing ==> (r matches Err(LoadError::MemoryNotFound { file }) && file@
            == s.memory_file@),
        image is Unread && !verify ==> r is Ok,
        image is Unread && verify ==> (r matches Err(LoadError::MemoryUnreadable { file }) && file@
            == s.memory_file@),
        image is Bytes && !verify ==> r is Ok,
        image is Bytes && verify ==> (r is Ok <==> snapshot::sha256(image->Bytes_0@)
            == snapshot::sha256(memory@)),
        image is Bytes && r is Err ==> (r matches Err(
            LoadError::IntegrityMismatch { expected, actual },
        ) && expected@ == text::hex(snapshot::sha256(memory@)) && actual@ == text::hex(
            snapshot::sha256(image->Bytes_0@),
        )),
{
    if image is Bytes && verify && r is Ok {
        lemma_hex_injective(
            snapshot::sha256(image->Bytes_0@),
            snapshot::sha256(memory@),
        );
    }
}

/// A forked guest sees the whole image of its template. What lies below the hole
/// for devices, three gigabytes, is mapped at its own address; the rest continues
/// at four gigabytes.
pub proof fn lemma_fork_maps_the_image(template: &TemplateSnapshot, l: GuestLayout)
    requires
        call_ensures(fork_from_template, (template,), l),
    ensures
        l.memory_file == template.memory_file,
        l.size == template.memory_size,
        template.memory_size <= 3 * 1024 * 1024 * 1024 ==> l.hole is None,
        template.memory_size > 3 * 1024 * 1024 * 1024 ==> (l.hole matches Some((from, to)) && from
            == 3 * 1024 * 1024 * 1024 && to == 4 * 1024 * 1024 * 1024),
{
}

/// A directory counts as what its metadata says. Incremental metadata comes first;
/// a full snapshot without its image is none.
pub proof fn lemma_directory_is_what_it_holds(
    diff: Option<IncrementalSnapshot>,
    pages: Option<Vec<u8>>,
    template: Option<TemplateSnapshot>,
    image: MemoryImage,
    s: StoredSnapshot,
)
    requires
        call_ensures(classify, (diff, pages, template, image), s),
    ensures
        diff is Some ==> (s matches StoredSnapshot::Incremental { diff: d, pages: p } && Some(d)
            == diff && p == pages),
        diff is None && template is Some && !(image is Missing) ==> (s matches StoredSnapshot::Full {
            template: t,
            memory,
        } && Some(t) == template && (memory is Some <==> image is Bytes) && (memory is Some
            ==> memory->0 == image->Bytes_0)),
        diff is None && (template is None || image is Missing) ==> s is Absent,
{
}

/// A page that the memory has no room for, or that the data do not reach, is left as
/// it is.
pub proof fn lemma_short_diff_stops(
    base_mem: &mut [u8],
    diff: &IncrementalSnapshot,
    dirty_data: &[u8],
    i: int,
)
    requires
        call_ensures(apply_diff, (base_mem, diff, dirty_data), ()),
        0 <= i < old(base_mem)@.len(),
        (i / 4096 + 1) * 4096 > old(base_mem)@.len() || dirty_data@.len() < 4096,
    ensures
        final(base_mem)@[i] == old(base_mem)@[i],
{
}

proof fn lemma_doomed_in_order(
    store: Map<Seq<char>, StoredSnapshot>,
    base: Seq<char>,
    entries: Seq<SnapshotEntry>,
    active: Seq<String>,
    some: Seq<SnapshotEntry>,
) -> (at: Seq<int>)
    ensures
        at.len() == chain::doomed(store, base, entries, active, some).len(),
        forall|k: int|
            0 <= k < at.len() ==> 0 <= #[trigger] at[k] < some.len() && some[at[k]].name@
                == chain::doomed(store, base, entries, active, some)[k],
        forall|k: int, l: int| 0 <= k < l < at.len() ==> #[trigger] at[k] < #[trigger] at[l],
    decreases some.len(),
{
    if some.len() == 0 {
        seq![]
    } else {
        let most = some.drop_last();
        let before = lemma_doomed_in_order(store, base, entries, active, most);
        let all = chain::doomed(store, base, entries, active, some);
        let rest = chain::doomed(store, base, entries, active, most);
        let at = if all.len() > rest.len() {
            before.push(some.len() - 1)
        } else {
            before
        };
        assert forall|k: int| 0 <= k < at.len() implies 0 <= #[trigger] at[k] < some.len()
            && some[at[k]].name@ == all[k] by {
            if k < before.len() {
                assert(at[k] == before[k]);
                assert(most[before[k]].name@ == rest[k]);
                assert(all[k] == rest[k]);
            }
        }
        at
    }
}

/// What is removed is told in the order of the entries, and none twice: the places
/// of the removed entries go up.
pub proof fn lemma_removed_in_order(
    store: &SnapshotStore,
    base_dir: &str,
    entries: &Vec<SnapshotEntry>,
    active_tags: &[String],
    removed: Vec<String>,
)
    requires
        call_ensures(
            gc_snapshots,
            (store, base_dir, entries, active_tags),
            Ok::<Vec<String>, ChainError>(removed),
        ),
    ensures
        exists|at: Seq<int>|
            {
                &&& #[trigger] at.len() == removed@.len()
                &&& forall|k: int|
                    0 <= k < at.len() ==> 0 <= #[trigger] at[k] < entries@.len()
                        && entries@[at[k]].name@ == removed@[k]@
                &&& forall|k: int, l: int|
                    0 <= k < l < at.len() ==> #[trigger] at[k] < #[trigger] at[l]
            },
{
    let (m, base, es, act) = (store@, base_dir@, entries@, active_tags@);
    let at = lemma_doomed_in_order(m, base, es, act, es);
    let names = removed@.map_values(|n: String| n@);
    assert(at.len() == removed@.len());
    assert forall|k: int| 0 <= k < at.len() implies 0 <= #[trigger] at[k] < es.len()
        && es[at[k]].name@ == removed@[k]@ by {
        assert(names[k] == removed@[k]@);
    }
}

} // verus!
