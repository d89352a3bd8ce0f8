//! Snapshots of a guest: what a full and an incremental snapshot record, how
//! their memory is checked, and how a diff is laid over a base image.
use vstd::prelude::*;

use crate::strmap::StrMap;
use crate::text;
use crate::text::{cat2, cat4, hex_string, path_join, str_eq};

verus! {

/// Size of a guest page in bytes.
pub const PAGE_SIZE: u64 = 4096;

/// Name of the metadata file of a full snapshot.
pub const TEMPLATE_METADATA_FILE: &'static str = "template.json";

/// Name of the metadata file of an incremental snapshot.
pub const INCREMENTAL_METADATA_FILE: &'static str = "incremental.json";

/// Complete register state of one vCPU, each part as raw bytes.
#[derive(Debug)]
pub struct VcpuState {
    pub regs: Vec<u8>,
    pub sregs: Vec<u8>,
    pub lapic: Vec<u8>,
    pub fpu: Vec<u8>,
    pub xsave: Vec<u8>,
    pub xcrs: Vec<u8>,
    pub mp_state: Vec<u8>,
    pub vcpu_events: Vec<u8>,
    pub debug_regs: Vec<u8>,
    /// Model-specific registers as a JSON array of index and data pairs.
    pub msrs: Vec<u8>,
    pub tsc_khz: u32,
    /// CPUID entries.
    pub cpuid: Vec<u8>,
}

/// What a `VcpuState` holds.
pub struct VcpuStateView {
    pub regs: Seq<u8>,
    pub sregs: Seq<u8>,
    pub lapic: Seq<u8>,
    pub fpu: Seq<u8>,
    pub xsave: Seq<u8>,
    pub xcrs: Seq<u8>,
    pub mp_state: Seq<u8>,
    pub vcpu_events: Seq<u8>,
    pub debug_regs: Seq<u8>,
    pub msrs: Seq<u8>,
    pub tsc_khz: u32,
    pub cpuid: Seq<u8>,
}

impl View for VcpuState {
    type V = VcpuStateView;

    open spec fn view(&self) -> VcpuStateView {
        VcpuStateView {
            regs: self.regs@,
            sregs: self.sregs@,
            lapic: self.lapic@,
            fpu: self.fpu@,
            xsave: self.xsave@,
            xcrs: self.xcrs@,
            mp_state: self.mp_state@,
            vcpu_events: self.vcpu_events@,
            debug_regs: self.debug_regs@,
            msrs: self.msrs@,
            tsc_khz: self.tsc_khz,
            cpuid: self.cpuid@,
        }
    }
}

impl VcpuState {
    /// A state in which every part is empty.
    pub fn empty() -> (s: Self)
        ensures
            s@ == (VcpuStateView {
                regs: seq![],
                sregs: seq![],
                lapic: seq![],
                fpu: seq![],
                xsave: seq![],
                xcrs: seq![],
                mp_state: seq![],
                vcpu_events: seq![],
                debug_regs: seq![],
                msrs: seq![],
                tsc_khz: 0,
                cpuid: seq![],
            }),
    {
        VcpuState {
            regs: Vec::new(),
            sregs: Vec::new(),
            lapic: Vec::new(),
            fpu: Vec::new(),
            xsave: Vec::new(),
            xcrs: Vec::new(),
            mp_state: Vec::new(),
            vcpu_events: Vec::new(),
            debug_regs: Vec::new(),
            msrs: Vec::new(),
            tsc_khz: 0,
            cpuid: Vec::new(),
        }
    }
}

impl Clone for VcpuState {
    fn clone(&self) -> (r: Self)
        ensures
            r@ == self@,
    {
        VcpuState {
            regs: self.regs.clone(),
            sregs: self.sregs.clone(),
            lapic: self.lapic.clone(),
            fpu: self.fpu.clone(),
            xsave: self.xsave.clone(),
            xcrs: self.xcrs.clone(),
            mp_state: self.mp_state.clone(),
            vcpu_events: self.vcpu_events.clone(),
            debug_regs: self.debug_regs.clone(),
            msrs: self.msrs.clone(),
            tsc_khz: self.tsc_khz,
            cpuid: self.cpuid.clone(),
        }
    }
}

/// The contents of each state in turn.
pub open spec fn vcpu_views(states: Seq<VcpuState>) -> Seq<VcpuStateView> {
    states.map_values(|s: VcpuState| s@)
}

/// Device state of a guest at the time of a snapshot.
#[derive(Debug)]
pub struct DeviceStates {
    /// Serial port state, if any.
    pub serial: Option<Vec<u8>>,
    /// Virtio device configurations by device name.
    pub virtio_configs: StrMap<Vec<u8>>,
    /// MMIO transport state of each device.
    pub transports: Vec<Vec<u8>>,
    /// In-kernel interrupt controllers: primary PIC, secondary PIC, IOAPIC.
    pub irqchip: Vec<Vec<u8>>,
    /// In-kernel timer state.
    pub pit: Vec<u8>,
}

/// What a `DeviceStates` holds.
pub struct DeviceStatesView {
    pub serial: Option<Seq<u8>>,
    pub virtio_configs: Map<Seq<char>, Seq<u8>>,
    pub transports: Seq<Seq<u8>>,
    pub irqchip: Seq<Seq<u8>>,
    pub pit: Seq<u8>,
}

/// The contents of each buffer in turn.
pub open spec fn byte_views(bufs: Seq<Vec<u8>>) -> Seq<Seq<u8>> {
    bufs.map_values(|b: Vec<u8>| b@)
}

impl View for DeviceStates {
    type V = DeviceStatesView;

    open spec fn view(&self) -> DeviceStatesView {
        DeviceStatesView {
            serial: match self.serial {
                Some(b) => Some(b@),
                None => None,
            },
            virtio_configs: self.virtio_configs@.map_values(|b: Vec<u8>| b@),
            transports: byte_views(self.transports@),
            irqchip: byte_views(self.irqchip@),
            pit: self.pit@,
        }
    }
}

impl Default for DeviceStates {
    fn default() -> (s: Self)
        ensures
            s@ == (DeviceStatesView {
                serial: None,
                virtio_configs: Map::empty(),
                transports: seq![],
                irqchip: seq![],
                pit: seq![],
            }),
    {
        let s = DeviceStates {
            serial: None,
            virtio_configs: StrMap::new(),
            transports: Vec::new(),
            irqchip: Vec::new(),
            pit: Vec::new(),
        };
        assert(s@.virtio_configs =~= Map::<Seq<char>, Seq<u8>>::empty());
        assert(s@.transports =~= Seq::<Seq<u8>>::empty());
        assert(s@.irqchip =~= Seq::<Seq<u8>>::empty());
        s
    }
}

fn clone_buffers(bufs: &Vec<Vec<u8>>) -> (r: Vec<Vec<u8>>)
    ensures
        byte_views(r@) == byte_views(bufs@),
{
    let mut r: Vec<Vec<u8>> = Vec::new();
    let mut i: usize = 0;
    while i < bufs.len()
        invariant
            i <= bufs@.len(),
            r@.len() == i,
            forall|j: int| 0 <= j < i ==> (#[trigger] r@[j])@ == bufs@[j]@,
        decreases bufs@.len() - i,
    {
        let b = bufs[i].clone();
        assert(b@ =~= bufs@[i as int]@);
        r.push(b);
        i = i + 1;
    }
    assert(byte_views(r@) =~= byte_views(bufs@));
    r
}

impl Clone for DeviceStates {
    fn clone(&self) -> (r: Self)
        ensures
            r@ == self@,
    {
        let r = DeviceStates {
            serial: self.serial.clone(),
            virtio_configs: self.virtio_configs.clone(),
            transports: clone_buffers(&self.transports),
            irqchip: clone_buffers(&self.irqchip),
            pit: self.pit.clone(),
        };
        proof {
            if self.serial is Some {
                assert(r.serial->0@ =~= self.serial->0@);
            }
            assert forall|k: Seq<char>| #[trigger] self@.virtio_configs.dom().contains(k) implies r@.virtio_configs[k]
                == self@.virtio_configs[k] by {
                assert(self.virtio_configs@.dom().contains(k));
                assert(cloned::<Vec<u8>>(self.virtio_configs@[k], r.virtio_configs@[k]));
                assert(r.virtio_configs@[k]@ =~= self.virtio_configs@[k]@);
            }
            assert(r@.virtio_configs =~= self@.virtio_configs);
            assert(r.pit@ =~= self.pit@);
        }
        r
    }
}

/// A full snapshot: a memory image with register and device state, from which
/// guests are forked.
#[derive(Debug)]
pub struct TemplateSnapshot {
    /// Path of the raw memory image.
    pub memory_file: String,
    /// Register state of each vCPU.
    pub vcpu_states: Vec<VcpuState>,
    /// Device state.
    pub device_states: DeviceStates,
    /// Guest memory size in bytes.
    pub memory_size: u64,
    /// Runtime the template was made for, such as "node20" or "bare".
    pub runtime_type: String,
    /// SHA-256 of the memory image in hexadecimal.
    pub memory_hash: String,
    /// Block device used when the template was made.
    pub block_device: Option<String>,
    /// Guest clock in nanoseconds at snapshot time.
    pub clock_ns: u64,
    /// Writable overlay kept with the snapshot.
    pub overlay_path: Option<String>,
    /// Guest address at snapshot time.
    pub guest_ip: Option<String>,
    /// Tag of this snapshot inside a diff chain.
    pub tag: Option<String>,
    /// Where the parent snapshot is. None for a root.
    pub parent_tag: Option<String>,
    /// Distance from the chain root.
    pub chain_depth: u32,
    /// "full" for a full snapshot, "incremental" otherwise.
    pub snapshot_type: String,
}

/// The snapshot type of a full snapshot whose metadata names none.
pub fn default_snapshot_type_full() -> (s: String)
    ensures
        s@ == "full"@,
{
    "full".to_owned()
}

/// The snapshot type of an incremental snapshot whose metadata names none.
pub fn default_snapshot_type_inc() -> (s: String)
    ensures
        s@ == "incremental"@,
{
    "incremental".to_owned()
}

/// The SHA-256 digest of `data`, as the `sha2` crate computes it.
pub uninterp spec fn sha256(data: Seq<u8>) -> Seq<u8>;

/// Calls `sha2::Sha256::digest`. The result is the digest of `data`, which is
/// always 32 bytes long.
#[verifier::external_body]
fn digest_bytes(data: &[u8]) -> (d: Vec<u8>)
    ensures
        d@ == sha256(data@),
        d@.len() == 32,
{
    <sha2::Sha256 as sha2::Digest>::digest(data).to_vec()
}

/// The SHA-256 digest of `data` in lower-case hexadecimal.
pub fn memory_digest(data: &[u8]) -> (s: String)
    ensures
        s@ == text::hex(sha256(data@)),
        s@.len() == 64,
{
    hex_string(digest_bytes(data).as_slice())
}

/// What is known of the memory image of a snapshot that is being loaded.
#[derive(Debug)]
pub enum MemoryImage {
    /// There is no such file.
    Missing,
    /// The file is there and was not read, or could not be.
    Unread,
    /// The file holds these bytes.
    Bytes(Vec<u8>),
}

/// Why a snapshot was not loaded.
#[derive(Debug)]
pub enum LoadError {
    /// The memory image is not where the metadata says.
    MemoryNotFound { file: String },
    /// The memory image could not be read for verification.
    MemoryUnreadable { file: String },
    /// The memory image does not have the recorded digest.
    IntegrityMismatch { expected: String, actual: String },
    /// The metadata could not be read or parsed.
    Metadata { reason: String },
}

impl LoadError {
    /// The error in words.
    pub open spec fn described(self) -> Seq<char> {
        match self {
            LoadError::MemoryNotFound { file } => "Template memory file not found: "@ + file@,
            LoadError::MemoryUnreadable { file } => {
                "Failed to read template memory for verification: "@ + file@
            },
            LoadError::IntegrityMismatch { expected, actual } => {
                "Template integrity check failed: expected "@ + expected@ + ", got "@ + actual@
            },
            LoadError::Metadata { reason } => reason@,
        }
    }

    /// The error in words.
    pub fn message(&self) -> (s: String)
        ensures
            s@ == self.described(),
    {
        match self {
            LoadError::MemoryNotFound { file } => cat2("Template memory file not found: ", file.as_str()),
            LoadError::MemoryUnreadable { file } => {
                cat2("Failed to read template memory for verification: ", file.as_str())
            },
            LoadError::IntegrityMismatch { expected, actual } => {
                cat4(
                    "Template integrity check failed: expected ",
                    expected.as_str(),
                    ", got ",
                    actual.as_str(),
                )
            },
            LoadError::Metadata { reason } => reason.clone(),
        }
    }
}

/// Whether `memory` has the digest that `hash` records.
pub open spec fn intact(hash: Seq<char>, memory: Seq<u8>) -> bool {
    text::hex(sha256(memory)) == hash
}

/// A snapshot whose memory should have the digest `hash` may be loaded.
pub open spec fn loadable(hash: Seq<char>, memory: MemoryImage, verify: bool) -> bool {
    match memory {
        MemoryImage::Missing => false,
        MemoryImage::Unread => !verify,
        MemoryImage::Bytes(b) => verify ==> intact(hash, b@),
    }
}

/// What loading the snapshot gives: the snapshot itself where it is loadable,
/// and else an error that says what is wrong with its memory.
pub open spec fn load_outcome(
    snapshot: TemplateSnapshot,
    memory: MemoryImage,
    verify: bool,
    r: Result<TemplateSnapshot, LoadError>,
) -> bool {
    if loadable(snapshot.memory_hash@, memory, verify) {
        r == Ok::<TemplateSnapshot, LoadError>(snapshot)
    } else {
        &&& r matches Err(e)
        &&& match memory {
            MemoryImage::Missing => e == (LoadError::MemoryNotFound {
                file: snapshot.memory_file,
            }),
            MemoryImage::Unread => e == (LoadError::MemoryUnreadable {
                file: snapshot.memory_file,
            }),
            MemoryImage::Bytes(b) => {
                &&& e matches LoadError::IntegrityMismatch { expected, actual }
                &&& expected == snapshot.memory_hash
                &&& actual@ == text::hex(sha256(b@))
            },
        }
    }
}

impl TemplateSnapshot {
    /// Where the metadata of the snapshot in `template_dir` is kept.
    pub fn metadata_path(template_dir: &str) -> (p: String)
        ensures
            p@ == text::joined(template_dir@, TEMPLATE_METADATA_FILE@),
    {
        path_join(template_dir, TEMPLATE_METADATA_FILE)
    }

    /// Admits metadata that was read from disk. The memory image has to exist,
    /// and with `verify` it has to have the recorded digest.
    pub fn load(snapshot: TemplateSnapshot, memory: &MemoryImage, verify: bool) -> (r: Result<
        TemplateSnapshot,
        LoadError,
    >)
        ensures
            load_outcome(snapshot, *memory, verify, r),
    {
        match memory {
            MemoryImage::Missing => Err(LoadError::MemoryNotFound { file: snapshot.memory_file }),
            MemoryImage::Unread => {
                if verify {
                    Err(LoadError::MemoryUnreadable { file: snapshot.memory_file })
                } else {
                    Ok(snapshot)
                }
            },
            MemoryImage::Bytes(b) => {
                if verify {
                    let actual = memory_digest(b.as_slice());
                    if !str_eq(actual.as_str(), snapshot.memory_hash.as_str()) {
                        return Err(
                            LoadError::IntegrityMismatch { expected: snapshot.memory_hash, actual },
                        );
                    }
                }
                Ok(snapshot)
            },
        }
    }

    /// The snapshot is a root of a diff chain, of type "full".
    pub open spec fn is_plain_root(self) -> bool {
        &&& self.tag is None
        &&& self.parent_tag is None
        &&& self.chain_depth == 0
        &&& self.snapshot_type@ == "full"@
    }
}

/// Describes a guest as a full snapshot in `output_dir`. `memory` is the whole
/// guest memory, to be written to the snapshot's memory file.
pub fn save_template(
    memory: &[u8],
    vcpu_states: Vec<VcpuState>,
    device_states: DeviceStates,
    runtime_type: &str,
    output_dir: &str,
    block_device: Option<String>,
    clock_ns: u64,
    overlay_path: Option<String>,
    guest_ip: Option<String>,
) -> (s: TemplateSnapshot)
    ensures
        s.memory_file@ == text::joined(output_dir@, "memory.raw"@),
        s.vcpu_states == vcpu_states,
        s.device_states == device_states,
        s.memory_size == memory@.len(),
        s.runtime_type@ == runtime_type@,
        intact(s.memory_hash@, memory@),
        s.block_device == block_device,
        s.clock_ns == clock_ns,
        s.overlay_path == overlay_path,
        s.guest_ip == guest_ip,
        s.is_plain_root(),
{
    TemplateSnapshot {
        memory_file: path_join(output_dir, "memory.raw"),
        vcpu_states,
        device_states,
        memory_size: memory.len() as u64,
        runtime_type: runtime_type.to_owned(),
        memory_hash: memory_digest(memory),
        block_device,
        clock_ns,
        overlay_path,
        guest_ip,
        tag: None,
        parent_tag: None,
        chain_depth: 0,
        snapshot_type: default_snapshot_type_full(),
    }
}

/// Where the address hole for memory-mapped devices begins.
pub const MMIO_HOLE_START: u64 = 0xC000_0000;

/// Where the address hole for memory-mapped devices ends.
pub const MMIO_HOLE_END: u64 = 0x1_0000_0000;

/// How the memory image of a forked guest is laid out in guest addresses.
#[derive(Debug)]
pub struct GuestLayout {
    /// File that is mapped copy-on-write.
    pub memory_file: String,
    /// Bytes that are mapped.
    pub size: u64,
    /// First address of the hole and the first address behind it, for a guest
    /// whose memory reaches into it.
    pub hole: Option<(u64, u64)>,
}

/// How to map the memory of a guest forked from `template`. Memory beyond three
/// gigabytes continues behind the hole for memory-mapped devices.
pub fn fork_from_template(template: &TemplateSnapshot) -> (l: GuestLayout)
    ensures
        l.memory_file == template.memory_file,
        l.size == template.memory_size,
        l.hole == (if template.memory_size > 0xC000_0000 {
            Some((0xC000_0000u64, 0x1_0000_0000u64))
        } else {
            None
        }),
{
    GuestLayout {
        memory_file: template.memory_file.clone(),
        size: template.memory_size,
        hole: if template.memory_size > MMIO_HOLE_START {
            Some((MMIO_HOLE_START, MMIO_HOLE_END))
        } else {
            None
        },
    }
}

/// An incremental snapshot: only the pages changed since its parent, with the
/// register and device state of its own time.
#[derive(Debug)]
pub struct IncrementalSnapshot {
    /// Directory of the base snapshot, the parent where `parent_tag` is None.
    pub base_template: String,
    /// One bit for each guest page, set where the page is in this snapshot.
    pub dirty_bitmap: Vec<u8>,
    /// Path of the changed pages, one after the other.
    pub dirty_pages_file: String,
    /// Register state of each vCPU.
    pub vcpu_states: Vec<VcpuState>,
    /// Device state.
    pub device_states: DeviceStates,
    /// Guest memory size in bytes.
    pub memory_size: u64,
    /// Tag of this snapshot inside a diff chain.
    pub tag: Option<String>,
    /// Where the parent snapshot is.
    pub parent_tag: Option<String>,
    /// Distance from the chain root.
    pub chain_depth: u32,
    /// Always "incremental".
    pub snapshot_type: String,
}

impl IncrementalSnapshot {
    /// Where the metadata of the snapshot in `snapshot_dir` is kept.
    pub fn metadata_path(snapshot_dir: &str) -> (p: String)
        ensures
            p@ == text::joined(snapshot_dir@, INCREMENTAL_METADATA_FILE@),
    {
        path_join(snapshot_dir, INCREMENTAL_METADATA_FILE)
    }

    /// The directory of the parent: `parent_tag`, or else the base snapshot.
    pub open spec fn parent(self) -> Seq<char> {
        match self.parent_tag {
            Some(p) => p@,
            None => self.base_template@,
        }
    }
}

/// Describes the pages changed since `base_template` as an incremental snapshot
/// in `output_dir`. `base_depth` is the distance of the base from the chain root.
pub fn save_incremental(
    memory_size: u64,
    dirty_bitmap: Vec<u8>,
    vcpu_states: Vec<VcpuState>,
    device_states: DeviceStates,
    base_template: &str,
    base_depth: u32,
    output_dir: &str,
) -> (s: IncrementalSnapshot)
    requires
        base_depth < u32::MAX,
    ensures
        s.base_template@ == base_template@,
        s.dirty_bitmap == dirty_bitmap,
        s.dirty_pages_file@ == text::joined(output_dir@, "dirty_pages.raw"@),
        s.vcpu_states == vcpu_states,
        s.device_states == device_states,
        s.memory_size == memory_size,
        s.tag is None,
        s.parent_tag is None,
        s.chain_depth == base_depth + 1,
        s.snapshot_type@ == "incremental"@,
{
    IncrementalSnapshot {
        base_template: base_template.to_owned(),
        dirty_bitmap,
        dirty_pages_file: path_join(output_dir, "dirty_pages.raw"),
        vcpu_states,
        device_states,
        memory_size,
        tag: None,
        parent_tag: None,
        chain_depth: base_depth + 1,
        snapshot_type: default_snapshot_type_inc(),
    }
}

/// Whether the bitmap marks page `page`.
pub open spec fn marked(bitmap: Seq<u8>, page: int) -> bool {
    &&& 0 <= page / 8 < bitmap.len()
    &&& bitmap[page / 8] & (1u8 << ((page % 8) as u8)) != 0
}

/// How many pages before `page` the bitmap marks.
pub open spec fn marked_before(bitmap: Seq<u8>, page: nat) -> nat
    decreases page,
{
    if page == 0 {
        0
    } else {
        marked_before(bitmap, (page - 1) as nat) + (if marked(bitmap, page - 1) {
            1nat
        } else {
            0nat
        })
    }
}

/// Whether laying the diff over `base_len` bytes writes page `page`: the page is
/// marked and inside the diff's memory size, it fits into the base, and the diff
/// has data for it.
pub open spec fn page_written(
    base_len: nat,
    memory_size: nat,
    bitmap: Seq<u8>,
    data_len: nat,
    page: nat,
) -> bool {
    &&& page < memory_size / 4096
    &&& marked(bitmap, page as int)
    &&& (page + 1) * 4096 <= base_len
    &&& (marked_before(bitmap, page) + 1) * 4096 <= data_len
}

/// `base` with the pages of the diff laid over it. The pages in `data` stand in
/// the order of the marks.
pub open spec fn applied(
    base: Seq<u8>,
    memory_size: nat,
    bitmap: Seq<u8>,
    data: Seq<u8>,
) -> Seq<u8> {
    Seq::new(
        base.len(),
        |i: int|
            if page_written(base.len(), memory_size, bitmap, data.len(), (i / 4096) as nat) {
                data[marked_before(bitmap, (i / 4096) as nat) * 4096 + i % 4096]
            } else {
                base[i]
            },
    )
}

/// `applied` for the pages before `page` alone.
spec fn applied_upto(
    base: Seq<u8>,
    memory_size: nat,
    bitmap: Seq<u8>,
    data: Seq<u8>,
    page: nat,
) -> Seq<u8> {
    Seq::new(
        base.len(),
        |i: int|
            if i / 4096 < page && page_written(
                base.len(),
                memory_size,
                bitmap,
                data.len(),
                (i / 4096) as nat,
            ) {
                data[marked_before(bitmap, (i / 4096) as nat) * 4096 + i % 4096]
            } else {
                base[i]
            },
    )
}

proof fn lemma_marked_before_grows(bitmap: Seq<u8>, a: nat, b: nat)
    requires
        a <= b,
    ensures
        marked_before(bitmap, a) <= marked_before(bitmap, b),
    decreases b,
{
    if a < b {
        lemma_marked_before_grows(bitmap, a, (b - 1) as nat);
    }
}

/// Writes the pages of `diff`, whose contents are `dirty_data`, over the
/// corresponding pages of `base_mem`.
pub fn apply_diff(base_mem: &mut [u8], diff: &IncrementalSnapshot, dirty_data: &[u8])
    ensures
        final(base_mem)@ == applied(
            old(base_mem)@,
            diff.memory_size as nat,
            diff.dirty_bitmap@,
            dirty_data@,
        ),
{
    let ghost base = base_mem@;
    let ghost size = diff.memory_size as nat;
    let ghost bitmap = diff.dirty_bitmap@;
    let total_pages: u64 = diff.memory_size / PAGE_SIZE;
    let mut dirty_offset: usize = 0;
    let mut page: u64 = 0;
    assert(base_mem@ =~= applied_upto(base, size, bitmap, dirty_data@, 0));
    while page < total_pages
        invariant_except_break
            dirty_offset == marked_before(bitmap, page as nat) * 4096,
            base_mem@ == applied_upto(base, size, bitmap, dirty_data@, page as nat),
        invariant
            page <= total_pages,
            total_pages == diff.memory_size / 4096,
            dirty_offset <= dirty_data@.len(),
            base_mem@.len() == base.len(),
            base == old(base_mem)@,
            size == diff.memory_size,
            bitmap == diff.dirty_bitmap@,
        ensures
            base_mem@ == applied(base, size, bitmap, dirty_data@),
        decreases total_pages - page,
    {
        let byte_idx: u64 = page / 8;
        let bit_idx: u8 = (page % 8) as u8;
        if byte_idx >= diff.dirty_bitmap.len() as u64 {
            assert(base_mem@ =~= applied(base, size, bitmap, dirty_data@));
            break;
        }
        if diff.dirty_bitmap[byte_idx as usize] & (1u8 << bit_idx) != 0 {
            assert(marked(bitmap, page as int));
            let mem_offset: u64 = page * PAGE_SIZE;
            let end: u64 = mem_offset + PAGE_SIZE;
            if end > base_mem.len() as u64 || dirty_data.len() - dirty_offset < 4096 {
                proof {
                    assert forall|p: nat| p >= page && marked(bitmap, p as int) implies !page_written(
                        base.len(),
                        size,
                        bitmap,
                        dirty_data@.len(),
                        p,
                    ) by {
                        lemma_marked_before_grows(bitmap, page as nat, p);
                    }
                }
                assert(base_mem@ =~= applied(base, size, bitmap, dirty_data@));
                break;
            }
            copy_page(base_mem, mem_offset as usize, dirty_data, dirty_offset);
            dirty_offset = dirty_offset + 4096;
        }
        page = page + 1;
        assert(base_mem@ =~= applied_upto(base, size, bitmap, dirty_data@, page as nat));
        assert(page == total_pages ==> base_mem@ =~= applied(base, size, bitmap, dirty_data@));
    }
}

/// Copies one page from `src` at `from` to `dst` at `to`.
fn copy_page(dst: &mut [u8], to: usize, src: &[u8], from: usize)
    requires
        to + 4096 <= old(dst)@.len(),
        from + 4096 <= src@.len(),
    ensures
        final(dst)@ == Seq::new(
            old(dst)@.len(),
            |i: int|
                if to <= i < to + 4096 {
                    src@[from + i - to]
                } else {
                    old(dst)@[i]
                },
        ),
{
    let dst_len: usize = dst.len();
    let src_len: usize = src.len();
    let mut k: usize = 0;
    while k < 4096
        invariant
            k <= 4096,
            to + 4096 <= dst_len == dst@.len(),
            from + 4096 <= src_len == src@.len(),
            dst@.len() == old(dst)@.len(),
            forall|i: int|
                0 <= i < dst@.len() ==> #[trigger] dst@[i] == (if to <= i < to + k {
                    src@[from + i - to]
                } else {
                    old(dst)@[i]
                }),
        decreases 4096 - k,
    {
        dst[to + k] = src[from + k];
        k = k + 1;
    }
}

/// A diff changes no page that it does not mark, and changes nothing else of the
/// memory but what is in its pages.
pub proof fn lemma_unmarked_page_is_kept(
    base: Seq<u8>,
    memory_size: nat,
    bitmap: Seq<u8>,
    data: Seq<u8>,
    i: int,
)
    requires
        0 <= i < base.len(),
        !marked(bitmap, i / 4096),
    ensures
        applied(base, memory_size, bitmap, data).len() == base.len(),
        applied(base, memory_size, bitmap, data)[i] == base[i],
{
}

/// A diff writes each page that it marks, as long as the memory and its own data
/// reach that far: the page then holds the diff's next page.
pub proof fn lemma_marked_page_is_written(
    base: Seq<u8>,
    memory_size: nat,
    bitmap: Seq<u8>,
    data: Seq<u8>,
    page: nat,
    offset: int,
)
    requires
        page_written(base.len(), memory_size, bitmap, data.len(), page),
        0 <= offset < 4096,
    ensures
        applied(base, memory_size, bitmap, data)[page * 4096 + offset] == data[marked_before(
            bitmap,
            page,
        ) * 4096 + offset],
{
    assert((page * 4096 + offset) / 4096 == page);
    assert((page * 4096 + offset) % 4096 == offset);
}

/// A diff that marks nothing changes nothing.
pub proof fn lemma_empty_diff(base: Seq<u8>, memory_size: nat, data: Seq<u8>)
    ensures
        applied(base, memory_size, seq![], data) == base,
{
    assert(applied(base, memory_size, seq![], data) =~= base);
}

/// Laying the same diff over the memory twice is the same as once.
pub proof fn lemma_apply_twice(base: Seq<u8>, memory_size: nat, bitmap: Seq<u8>, data: Seq<u8>)
    ensures
        applied(applied(base, memory_size, bitmap, data), memory_size, bitmap, data) == applied(
            base,
            memory_size,
            bitmap,
            data,
        ),
{
    assert(applied(applied(base, memory_size, bitmap, data), memory_size, bitmap, data) =~= applied(
        base,
        memory_size,
        bitmap,
        data,
    ));
}

/// The marked pages of `memory` before page `page`, one after the other.
pub open spec fn collected(memory: Seq<u8>, bitmap: Seq<u8>, page: nat) -> Seq<u8>
    decreases page,
{
    if page == 0 {
        seq![]
    } else {
        let rest = collected(memory, bitmap, (page - 1) as nat);
        if marked(bitmap, page - 1) {
            rest + memory.subrange((page - 1) * 4096, page as int * 4096)
        } else {
            rest
        }
    }
}

/// The bitmap marks every page in which `base` and `now` differ, among the whole
/// pages of `memory_size` bytes.
pub open spec fn marks_changes(
    base: Seq<u8>,
    now: Seq<u8>,
    memory_size: nat,
    bitmap: Seq<u8>,
) -> bool {
    forall|i: int|
        0 <= i < now.len() && base[i] != #[trigger] now[i] ==> i / 4096 < memory_size / 4096
            && marked(bitmap, i / 4096)
}

proof fn lemma_collected_len(memory: Seq<u8>, bitmap: Seq<u8>, n: nat)
    requires
        n * 4096 <= memory.len(),
    ensures
        collected(memory, bitmap, n).len() == marked_before(bitmap, n) * 4096,
    decreases n,
{
    if n > 0 {
        lemma_collected_len(memory, bitmap, (n - 1) as nat);
    }
}

proof fn lemma_collected_page(memory: Seq<u8>, bitmap: Seq<u8>, n: nat, p: nat, o: int)
    requires
        n * 4096 <= memory.len(),
        p < n,
        marked(bitmap, p as int),
        0 <= o < 4096,
    ensures
        (marked_before(bitmap, p) + 1) * 4096 <= collected(memory, bitmap, n).len(),
        collected(memory, bitmap, n)[marked_before(bitmap, p) * 4096 + o] == memory[p * 4096 + o],
    decreases n,
{
    lemma_collected_len(memory, bitmap, n);
    lemma_collected_len(memory, bitmap, (n - 1) as nat);
    if p < n - 1 {
        lemma_collected_page(memory, bitmap, (n - 1) as nat, p, o);
    }
}

/// What an incremental snapshot is for: if its bitmap marks every page that
/// changed since the base, and its data are the marked pages of the memory of
/// its time, then laying it over the base gives that memory back.
pub proof fn lemma_diff_restores(
    base: Seq<u8>,
    now: Seq<u8>,
    memory_size: nat,
    bitmap: Seq<u8>,
)
    requires
        base.len() == now.len(),
        memory_size <= now.len(),
        marks_changes(base, now, memory_size, bitmap),
    ensures
        applied(base, memory_size, bitmap, collected(now, bitmap, memory_size / 4096)) == now,
{
    let n = memory_size / 4096;
    let data = collected(now, bitmap, n);
    let after = applied(base, memory_size, bitmap, data);
    assert forall|i: int| 0 <= i < now.len() implies after[i] == now[i] by {
        let p = (i / 4096) as nat;
        if p < n && marked(bitmap, p as int) {
            lemma_collected_page(now, bitmap, n, p, i % 4096);
        }
    }
    assert(after =~= now);
}

/// A snapshot that was written passes its verification when it is loaded with
/// the memory that was written, and with no memory of another digest.
pub proof fn lemma_saved_template_loads(memory_hash: Seq<char>, memory: Vec<u8>, other: Vec<u8>)
    requires
        intact(memory_hash, memory@),
    ensures
        loadable(memory_hash, MemoryImage::Bytes(memory), true),
        loadable(memory_hash, MemoryImage::Bytes(memory), false),
        text::hex(sha256(other@)) != memory_hash ==> !loadable(
            memory_hash,
            MemoryImage::Bytes(other),
            true,
        ),
{
}

} // verus!
