use clone_vmm::chain::{
    chain_info, classify, compact_chain, gc_snapshots, resolve_chain, stored_depth, walk_chain, ChainError,
    SnapshotEntry, SnapshotStore, StoredSnapshot,
};
use clone_vmm::pool::TemplatePool;
use clone_vmm::snapshot::{
    apply_diff, default_snapshot_type_full, default_snapshot_type_inc, fork_from_template,
    memory_digest, save_incremental, save_template, DeviceStates, IncrementalSnapshot, LoadError,
    MemoryImage, TemplateSnapshot, VcpuState, PAGE_SIZE,
};
use clone_vmm::strmap::StrMap;

/// An incremental snapshot that marks the given pages, with the data of those
/// pages: each page is filled with its own index.
fn make_incremental(memory_size: u64, dirty_page_indices: &[u64]) -> (IncrementalSnapshot, Vec<u8>) {
    let total_pages = memory_size / PAGE_SIZE;
    let mut bitmap = vec![0u8; ((total_pages + 7) / 8) as usize];
    for &idx in dirty_page_indices {
        bitmap[(idx / 8) as usize] |= 1 << (idx % 8);
    }
    let mut dirty_data = Vec::new();
    for &idx in dirty_page_indices {
        let fill = (idx % 256) as u8;
        dirty_data.extend(std::iter::repeat(fill).take(PAGE_SIZE as usize));
    }
    let snap = IncrementalSnapshot {
        base_template: String::new(),
        dirty_bitmap: bitmap,
        dirty_pages_file: "dirty_pages.raw".to_string(),
        vcpu_states: Vec::new(),
        device_states: DeviceStates::default(),
        memory_size,
        tag: None,
        parent_tag: None,
        chain_depth: 0,
        snapshot_type: "incremental".to_string(),
    };
    (snap, dirty_data)
}

fn make_full(memory: &[u8], dir: &str, tag: Option<&str>) -> TemplateSnapshot {
    TemplateSnapshot {
        memory_file: format!("{dir}/memory.raw"),
        vcpu_states: Vec::new(),
        device_states: DeviceStates::default(),
        memory_size: memory.len() as u64,
        runtime_type: "bare".to_string(),
        memory_hash: memory_digest(memory),
        block_device: None,
        clock_ns: 0,
        overlay_path: None,
        guest_ip: None,
        tag: tag.map(|t| t.to_string()),
        parent_tag: None,
        chain_depth: 0,
        snapshot_type: "full".to_string(),
    }
}

fn store() -> SnapshotStore {
    SnapshotStore { dirs: StrMap::new() }
}

fn put_full(s: &mut SnapshotStore, dir: &str, template: TemplateSnapshot, memory: Option<Vec<u8>>) {
    s.dirs.insert(dir.to_string(), StoredSnapshot::Full { template, memory });
}

fn put_inc(s: &mut SnapshotStore, dir: &str, diff: IncrementalSnapshot, pages: Option<Vec<u8>>) {
    s.dirs.insert(dir.to_string(), StoredSnapshot::Incremental { diff, pages });
}

#[test]
fn apply_diff_writes_only_dirty_pages() {
    let memory_size = PAGE_SIZE * 16; // 16 pages
    let dirty_indices = vec![0u64, 3, 7, 15];
    let (inc, data) = make_incremental(memory_size, &dirty_indices);

    // Base memory: all zeros.
    let mut base = vec![0u8; memory_size as usize];
    apply_diff(&mut base, &inc, &data);

    // Dirty pages should now contain their fill pattern.
    for &idx in &dirty_indices {
        let off = (idx * PAGE_SIZE) as usize;
        let fill = (idx % 256) as u8;
        assert_eq!(base[off], fill, "page {idx} byte 0 mismatch");
        assert_eq!(base[off + PAGE_SIZE as usize - 1], fill);
    }

    // Non-dirty pages should be untouched.
    for idx in 0u64..16 {
        if dirty_indices.contains(&idx) {
            continue;
        }
        let off = (idx * PAGE_SIZE) as usize;
        assert_eq!(base[off], 0, "non-dirty page {idx} unexpectedly modified");
    }
}

#[test]
fn apply_diff_stops_where_the_data_ends() {
    let (inc, data) = make_incremental(PAGE_SIZE * 8, &[1, 2, 5]);
    let mut base = vec![9u8; (PAGE_SIZE * 8) as usize];
    apply_diff(&mut base, &inc, &data[..(PAGE_SIZE * 2 + 100) as usize]);
    assert_eq!(base[PAGE_SIZE as usize], 1);
    assert_eq!(base[2 * PAGE_SIZE as usize], 2);
    assert_eq!(base[5 * PAGE_SIZE as usize], 9);
}

#[test]
fn apply_diff_stops_where_the_memory_ends() {
    let (inc, data) = make_incremental(PAGE_SIZE * 8, &[0, 2]);
    let mut base = vec![9u8; PAGE_SIZE as usize * 2 + 7];
    apply_diff(&mut base, &inc, &data);
    assert_eq!(base.len(), PAGE_SIZE as usize * 2 + 7);
    assert_eq!(base[0], 0);
    assert_eq!(base[2 * PAGE_SIZE as usize], 9);
}

#[test]
fn applying_a_diff_twice_is_applying_it_once() {
    let (inc, data) = make_incremental(PAGE_SIZE * 8, &[3, 6]);
    let mut once = vec![1u8; (PAGE_SIZE * 8) as usize];
    apply_diff(&mut once, &inc, &data);
    let mut twice = once.clone();
    apply_diff(&mut twice, &inc, &data);
    assert_eq!(once, twice);
}

#[test]
fn an_empty_diff_changes_nothing() {
    let (mut inc, data) = make_incremental(PAGE_SIZE * 8, &[3]);
    inc.dirty_bitmap = Vec::new();
    let mut base = vec![1u8; (PAGE_SIZE * 8) as usize];
    apply_diff(&mut base, &inc, &data);
    assert!(base.iter().all(|b| *b == 1));
}

#[test]
fn walk_chain_root_only_returns_single_node() {
    // Build a root full template with no parent.
    let memory_size = PAGE_SIZE * 4;
    let memory: Vec<u8> = vec![0xAA; memory_size as usize];
    let snap = make_full(&memory, "/snap/root", None);
    let mut s = store();
    put_full(&mut s, "/snap/root", snap, Some(memory));

    let chain = walk_chain(&s, "/snap/root").unwrap();
    assert_eq!(chain.len(), 1);
    assert_eq!(chain[0].snapshot_type, "full");
    assert_eq!(chain[0].dir, "/snap/root");
}

fn two_level_store() -> SnapshotStore {
    let memory_size = PAGE_SIZE * 8;
    let mut s = store();

    // 1. Create root full snapshot.
    let root_mem: Vec<u8> = vec![0u8; memory_size as usize];
    let root_snap = make_full(&root_mem, "/snap/root", Some("root"));
    put_full(&mut s, "/snap/root", root_snap, Some(root_mem));

    // 2. Create an incremental on top.
    let (mut inc, data) = make_incremental(memory_size, &[1, 4]);
    inc.parent_tag = Some("/snap/root".to_string());
    inc.base_template = "/snap/root".to_string();
    inc.tag = Some("inc1".to_string());
    inc.chain_depth = 1;
    inc.vcpu_states.push(VcpuState { tsc_khz: 77, ..VcpuState::empty() });
    put_inc(&mut s, "/snap/inc1", inc, Some(data));
    s
}

#[test]
fn resolve_chain_applies_diffs_in_order() {
    let s = two_level_store();

    // 3. Resolve the chain → should return memory with pages 1 and 4 patched.
    let (resolved_mem, vcpus, _) = resolve_chain(&s, "/snap/inc1").unwrap();
    // Page 1 should contain fill pattern 1.
    assert_eq!(resolved_mem[PAGE_SIZE as usize], 1);
    // Page 4 should contain fill pattern 4.
    assert_eq!(resolved_mem[(4 * PAGE_SIZE) as usize], 4);
    // Page 0 should be untouched (0).
    assert_eq!(resolved_mem[0], 0);
    // The register state is the leaf's.
    assert_eq!(vcpus.len(), 1);
    assert_eq!(vcpus[0].tsc_khz, 77);
}

#[test]
fn later_diffs_win_over_earlier_ones() {
    let mut s = two_level_store();
    let (mut inc, _) = make_incremental(PAGE_SIZE * 8, &[4]);
    inc.parent_tag = Some("/snap/inc1".to_string());
    inc.chain_depth = 2;
    put_inc(&mut s, "/snap/inc2", inc, Some(vec![0x5A; PAGE_SIZE as usize]));
    let (mem, _, _) = resolve_chain(&s, "/snap/inc2").unwrap();
    assert_eq!(mem[PAGE_SIZE as usize], 1);
    assert_eq!(mem[(4 * PAGE_SIZE) as usize], 0x5A);
    let info = chain_info(&s, "/snap/inc2").unwrap();
    let dirs: Vec<&str> = info.nodes.iter().map(|n| n.dir.as_str()).collect();
    assert_eq!(dirs, vec!["/snap/root", "/snap/inc1", "/snap/inc2"]);
    assert_eq!(info.total_depth, 2);
}

#[test]
fn the_base_template_is_the_parent_without_a_parent_tag() {
    let mut s = two_level_store();
    let (mut inc, data) = make_incremental(PAGE_SIZE * 8, &[2]);
    inc.base_template = "/snap/root".to_string();
    put_inc(&mut s, "/snap/legacy", inc, Some(data));
    assert_eq!(walk_chain(&s, "/snap/legacy").unwrap().len(), 2);
}

#[test]
fn walk_chain_reports_what_stops_it() {
    let mut s = two_level_store();
    match walk_chain(&s, "/snap/none") {
        Err(ChainError::NotProbed { dir }) => assert_eq!(dir, "/snap/none"),
        other => panic!("{other:?}"),
    }
    s.dirs.insert("/snap/none".to_string(), StoredSnapshot::Absent);
    let e = walk_chain(&s, "/snap/none").unwrap_err();
    assert_eq!(
        e.message(),
        "Cannot load snapshot at /snap/none: not a valid template or incremental"
    );
    // Two snapshots that are each other's parents.
    let (mut a, _) = make_incremental(PAGE_SIZE, &[]);
    a.parent_tag = Some("/snap/b".to_string());
    let (mut b, _) = make_incremental(PAGE_SIZE, &[]);
    b.parent_tag = Some("/snap/a".to_string());
    put_inc(&mut s, "/snap/a", a, None);
    put_inc(&mut s, "/snap/b", b, None);
    let e = walk_chain(&s, "/snap/a").unwrap_err();
    assert_eq!(e.message(), "Chain too deep (>256), possible cycle at /snap/b");
}

fn long_chain(diffs: usize) -> SnapshotStore {
    let mut s = store();
    let memory = vec![0u8; PAGE_SIZE as usize];
    put_full(&mut s, "d0", make_full(&memory, "d0", None), Some(memory));
    for i in 1..=diffs {
        let (mut inc, _) = make_incremental(PAGE_SIZE, &[]);
        inc.parent_tag = Some(format!("d{}", i - 1));
        put_inc(&mut s, &format!("d{i}"), inc, Some(Vec::new()));
    }
    s
}

#[test]
fn a_chain_may_have_256_snapshots_above_its_root() {
    let s = long_chain(257);
    assert_eq!(walk_chain(&s, "d256").unwrap().len(), 257);
    assert!(matches!(walk_chain(&s, "d257"), Err(ChainError::TooDeep { .. })));
}

#[test]
fn resolve_chain_reports_missing_data() {
    let mut s = two_level_store();
    let (mut inc, _) = make_incremental(PAGE_SIZE * 8, &[2]);
    inc.parent_tag = Some("/snap/root".to_string());
    inc.dirty_pages_file = "/snap/x/dirty_pages.raw".to_string();
    put_inc(&mut s, "/snap/x", inc, None);
    let e = resolve_chain(&s, "/snap/x").unwrap_err();
    assert_eq!(e.message(), "Failed to read dirty pages: /snap/x/dirty_pages.raw");

    let memory = vec![0u8; PAGE_SIZE as usize];
    put_full(&mut s, "/snap/y", make_full(&memory, "/snap/y", None), None);
    let e = resolve_chain(&s, "/snap/y").unwrap_err();
    assert_eq!(e.message(), "Failed to read root memory: /snap/y/memory.raw");

    let mut middle = make_full(&memory, "/snap/m", None);
    middle.parent_tag = Some("/snap/root".to_string());
    put_full(&mut s, "/snap/m", middle, Some(memory));
    assert_eq!(walk_chain(&s, "/snap/m").unwrap().len(), 2);
    let e = resolve_chain(&s, "/snap/m").unwrap_err();
    assert_eq!(
        e.message(),
        "Failed to read incremental metadata: /snap/m/incremental.json"
    );
    let e = resolve_chain(&s, "/snap/unseen").unwrap_err();
    assert_eq!(e.message(), "Snapshot directory not read yet: /snap/unseen");
}

#[test]
fn a_compacted_chain_resolves_to_the_same_memory() {
    let mut s = two_level_store();
    let (resolved, _, _) = resolve_chain(&s, "/snap/inc1").unwrap();
    let (full, memory) = compact_chain(&s, "/snap/inc1", "/snap/flat").unwrap();
    assert_eq!(memory, resolved);
    assert_eq!(full.memory_file, "/snap/flat/memory.raw");
    assert_eq!(full.memory_size, PAGE_SIZE * 8);
    assert_eq!(full.memory_hash, memory_digest(&memory));
    assert_eq!(full.runtime_type, "bare");
    assert!(full.parent_tag.is_none() && full.tag.is_none());
    assert_eq!(full.chain_depth, 0);
    assert_eq!(full.snapshot_type, "full");
    assert_eq!(full.vcpu_states[0].tsc_khz, 77);
    put_full(&mut s, "/snap/flat", full, Some(memory));
    let (again, vcpus, _) = resolve_chain(&s, "/snap/flat").unwrap();
    assert_eq!(again, resolved);
    assert_eq!(vcpus[0].tsc_khz, 77);
    assert!(compact_chain(&s, "/snap/unseen", "/out").is_err());
}

fn entry(name: &str) -> SnapshotEntry {
    SnapshotEntry { name: name.to_string(), has_metadata: true }
}

#[test]
fn garbage_collection_keeps_active_snapshots_and_their_ancestors() {
    let mut s = two_level_store();
    let memory = vec![0u8; PAGE_SIZE as usize];
    put_full(&mut s, "/snap/old", make_full(&memory, "/snap/old", Some("old")), None);
    put_full(&mut s, "/snap/.hidden", make_full(&memory, "/snap/.hidden", None), None);
    let entries = vec![
        entry("root"),
        entry("inc1"),
        entry("old"),
        entry(".hidden"),
        SnapshotEntry { name: "notes".to_string(), has_metadata: false },
    ];
    let removed = gc_snapshots(&s, "/snap", &entries, &["inc1".to_string()]).unwrap();
    assert_eq!(removed, vec!["old".to_string()]);
    let removed = gc_snapshots(&s, "/snap", &entries, &[]).unwrap();
    assert_eq!(removed, vec!["root".to_string(), "inc1".to_string(), "old".to_string()]);
}

#[test]
fn garbage_collection_keeps_an_ancestor_without_a_tag() {
    let mut s = store();
    let memory = vec![0u8; PAGE_SIZE as usize];
    put_full(&mut s, "/snap/base", make_full(&memory, "/snap/base", None), None);
    let (mut inc, _) = make_incremental(PAGE_SIZE, &[]);
    inc.parent_tag = Some("/snap/base".to_string());
    inc.tag = Some("today".to_string());
    put_inc(&mut s, "/snap/2026-01-01", inc, None);
    s.dirs.insert("/snap/today".to_string(), StoredSnapshot::Absent);
    let entries = vec![entry("base"), entry("2026-01-01")];
    let removed = gc_snapshots(&s, "/snap", &entries, &["today".to_string()]).unwrap();
    assert!(removed.is_empty());
}

#[test]
fn garbage_collection_asks_for_directories_it_has_not_seen() {
    let s = two_level_store();
    match gc_snapshots(&s, "/snap", &vec![entry("new")], &["inc1".to_string()]) {
        Err(ChainError::NotProbed { dir }) => assert_eq!(dir, "/snap/new"),
        other => panic!("{other:?}"),
    }
}

#[test]
fn the_digest_of_memory_is_sha_256() {
    assert_eq!(
        memory_digest(b"hello world"),
        "b94d27b9934d3e08a52e52d7da7dabfac484efe37a5380ee9088f7ace2efcde9"
    );
}

#[test]
fn a_saved_template_passes_verification() {
    let memory = vec![7u8; 100];
    let t = save_template(
        &memory,
        vec![VcpuState::empty()],
        DeviceStates::default(),
        "node20",
        "/tpl/node20",
        Some("rootfs.img".to_string()),
        42,
        Some("overlay-172.30.0.2.img".to_string()),
        Some("172.30.0.2".to_string()),
    );
    assert_eq!(t.memory_file, "/tpl/node20/memory.raw");
    assert_eq!(t.memory_size, 100);
    assert_eq!(t.runtime_type, "node20");
    assert_eq!(t.clock_ns, 42);
    assert_eq!(t.overlay_path.as_deref(), Some("overlay-172.30.0.2.img"));
    assert_eq!(t.guest_ip.as_deref(), Some("172.30.0.2"));
    assert_eq!(t.snapshot_type, default_snapshot_type_full());
    let t = TemplateSnapshot::load(t, &MemoryImage::Bytes(memory), true).unwrap();
    let hash = t.memory_hash.clone();
    let e = TemplateSnapshot::load(t, &MemoryImage::Bytes(vec![8u8; 100]), true).unwrap_err();
    let got = memory_digest(&vec![8u8; 100]);
    assert_eq!(
        e.message(),
        format!("Template integrity check failed: expected {hash}, got {got}")
    );
}

#[test]
fn loading_a_template_needs_its_memory() {
    let memory = vec![7u8; 10];
    let e = TemplateSnapshot::load(make_full(&memory, "/t", None), &MemoryImage::Missing, false);
    assert_eq!(e.unwrap_err().message(), "Template memory file not found: /t/memory.raw");
    let e = TemplateSnapshot::load(make_full(&memory, "/t", None), &MemoryImage::Unread, true);
    assert_eq!(
        e.unwrap_err().message(),
        "Failed to read template memory for verification: /t/memory.raw"
    );
    assert!(TemplateSnapshot::load(make_full(&memory, "/t", None), &MemoryImage::Unread, false).is_ok());
    let e = LoadError::Metadata { reason: "Failed to parse template metadata".to_string() };
    assert_eq!(e.message(), "Failed to parse template metadata");
}

#[test]
fn metadata_stands_in_the_snapshot_directory() {
    assert_eq!(TemplateSnapshot::metadata_path("/t"), "/t/template.json");
    assert_eq!(IncrementalSnapshot::metadata_path("/t/"), "/t/incremental.json");
}

#[test]
fn an_incremental_snapshot_is_one_link_above_its_base() {
    let s = save_incremental(8192, vec![3], Vec::new(), DeviceStates::default(), "/base", 0, "/inc");
    assert_eq!(s.chain_depth, 1);
    let s = save_incremental(8192, vec![3], Vec::new(), DeviceStates::default(), "/base", 4, "/inc");
    assert_eq!(s.chain_depth, 5);
    assert_eq!(s.base_template, "/base");
    assert_eq!(s.dirty_pages_file, "/inc/dirty_pages.raw");
    assert_eq!(s.memory_size, 8192);
    assert_eq!(s.dirty_bitmap, vec![3]);
    assert!(s.tag.is_none() && s.parent_tag.is_none());
    assert_eq!(s.snapshot_type, default_snapshot_type_inc());
}

#[test]
fn a_forked_guest_has_a_hole_above_three_gigabytes() {
    let mut t = make_full(&[0u8; 1], "/t", None);
    t.memory_size = 0xC000_0000;
    assert!(fork_from_template(&t).hole.is_none());
    t.memory_size = 0xC000_0001;
    let l = fork_from_template(&t);
    assert_eq!(l.hole, Some((0xC000_0000, 0x1_0000_0000)));
    assert_eq!(l.size, 0xC000_0001);
    assert_eq!(l.memory_file, "/t/memory.raw");
}

#[test]
fn the_pool_loads_a_template_once() {
    let mut pool = TemplatePool::new("/templates");
    assert!(pool.get("node20").is_none());
    let mut asked = String::new();
    let t = pool
        .get_or_load("node20", |dir| {
            asked = dir;
            Ok((make_full(&[1u8; 4], "/templates/node20", None), MemoryImage::Bytes(vec![1u8; 4])))
        })
        .unwrap();
    assert_eq!(t.memory_size, 4);
    assert_eq!(asked, "/templates/node20");
    let t = pool
        .get_or_load("node20", |_| Err(LoadError::Metadata { reason: "unused".to_string() }))
        .unwrap();
    assert_eq!(t.memory_size, 4);
    pool.refresh("node20");
    assert!(pool.get("node20").is_none());
    let e = pool.get_or_load("node20", |_| Err(LoadError::Metadata { reason: "gone".to_string() }));
    assert_eq!(e.unwrap_err().message(), "gone");
    assert!(pool.get("node20").is_none());
    pool.register("bare", make_full(&[1u8; 8], "/templates/bare", None));
    pool.register("python312", make_full(&[1u8; 9], "/templates/python312", None));
    assert_eq!(pool.get("bare").unwrap().memory_size, 8);
    assert_eq!(pool.cached_runtime_types(), vec!["bare", "python312"]);
}

#[test]
fn the_pool_takes_no_template_with_other_memory() {
    let mut pool = TemplatePool::new("/templates");
    let template = make_full(&[1u8; 4], "/templates/bare", None);
    let found = (template, MemoryImage::Bytes(vec![2u8; 4]));
    let e = pool.get_or_load("bare", |_| Ok(found)).unwrap_err();
    assert!(matches!(e, LoadError::IntegrityMismatch { .. }));
    assert!(pool.get("bare").is_none());
    let template = make_full(&[1u8; 4], "/templates/bare", None);
    let e = pool.get_or_load("bare", |_| Ok((template, MemoryImage::Missing))).unwrap_err();
    assert_eq!(e.message(), "Template memory file not found: /templates/bare/memory.raw");
}

#[test]
fn a_directory_counts_as_incremental_first() {
    let full = || Some(make_full(&[1u8; 4], "/t", None));
    let diff = || Some(make_incremental(PAGE_SIZE, &[0]).0);
    assert!(matches!(
        classify(diff(), Some(vec![7]), full(), MemoryImage::Unread),
        StoredSnapshot::Incremental { pages: Some(p), .. } if p == [7]
    ));
    assert!(matches!(
        classify(diff(), None, None, MemoryImage::Missing),
        StoredSnapshot::Incremental { pages: None, .. }
    ));
    // Without verification the memory does not have to have the recorded digest.
    assert!(matches!(
        classify(None, None, full(), MemoryImage::Bytes(vec![2])),
        StoredSnapshot::Full { memory: Some(m), .. } if m == [2]
    ));
    assert!(matches!(
        classify(None, None, full(), MemoryImage::Unread),
        StoredSnapshot::Full { memory: None, .. }
    ));
    assert!(matches!(classify(None, None, full(), MemoryImage::Missing), StoredSnapshot::Absent));
    assert!(matches!(classify(None, None, None, MemoryImage::Unread), StoredSnapshot::Absent));
}

#[test]
fn a_diff_gives_the_changed_memory_back() {
    let size = PAGE_SIZE as usize * 11;
    let base: Vec<u8> = (0..size).map(|i| (i % 251) as u8).collect();
    let mut now = base.clone();
    for page in [2usize, 8, 10] {
        now[page * PAGE_SIZE as usize + 17] ^= 0xff;
    }
    let (mut inc, _) = make_incremental(size as u64, &[2, 5, 8, 10]);
    let mut pages = Vec::new();
    for page in [2usize, 5, 8, 10] {
        let at = page * PAGE_SIZE as usize;
        pages.extend_from_slice(&now[at..at + PAGE_SIZE as usize]);
    }
    let mut memory = base.clone();
    apply_diff(&mut memory, &inc, &pages);
    assert_eq!(memory, now);
    let mut s = store();
    put_full(&mut s, "/root", make_full(&base, "/root", None), Some(base));
    inc.parent_tag = Some("/root".to_string());
    put_inc(&mut s, "/leaf", inc, Some(pages));
    assert_eq!(resolve_chain(&s, "/leaf").unwrap().0, now);
}

#[test]
fn saved_diffs_of_a_running_guest_give_its_memory_back() {
    let size = PAGE_SIZE as usize * 4;
    let page = PAGE_SIZE as usize;
    let base = vec![1u8; size];
    let mut s = store();
    let root = save_template(
        &base,
        Vec::new(),
        DeviceStates::default(),
        "snapshot",
        "/root",
        None,
        0,
        None,
        None,
    );
    put_full(&mut s, "/root", root, Some(base.clone()));
    // The guest writes pages 0 and 2, and is saved; then page 3, and is saved again.
    let mut now = base;
    now[5] = 9;
    now[2 * page] = 8;
    let depth = stored_depth(s.dirs.get("/root").unwrap());
    let one = save_incremental(
        size as u64,
        vec![0b0101],
        Vec::new(),
        DeviceStates::default(),
        "/root",
        depth,
        "/one",
    );
    let pages = [&now[..page], &now[2 * page..3 * page]].concat();
    put_inc(&mut s, "/one", one, Some(pages));
    assert_eq!(resolve_chain(&s, "/one").unwrap().0, now);
    now[3 * page + 1] = 7;
    let depth = stored_depth(s.dirs.get("/one").unwrap());
    let two = save_incremental(
        size as u64,
        vec![0b1101],
        Vec::new(),
        DeviceStates::default(),
        "/one",
        depth,
        "/two",
    );
    let pages = [&now[..page], &now[2 * page..]].concat();
    put_inc(&mut s, "/two", two, Some(pages));
    assert_eq!(resolve_chain(&s, "/two").unwrap().0, now);
    let info = chain_info(&s, "/two").unwrap();
    assert_eq!(info.total_depth, 2);
    assert_eq!(info.nodes.iter().map(|n| n.chain_depth).collect::<Vec<_>>(), vec![0, 1, 2]);
    assert_eq!(stored_depth(&StoredSnapshot::Absent), 0);
}
