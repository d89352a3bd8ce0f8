//! Requests to the control plane and its answers.
use vstd::prelude::*;

use crate::text::cat2;

verus! {

/// A request, to the daemon or to the control socket of a single guest.
#[allow(inconsistent_fields)]
#[derive(Debug)]
pub enum Request {
    /// Boot a guest from a kernel.
    CreateVm {
        kernel: String,
        initrd: Option<String>,
        cmdline: String,
        mem_mb: u32,
        vcpus: u32,
        rootfs: Option<String>,
        overlay: Option<String>,
        shared_dir: Option<String>,
        block: Option<String>,
        net: bool,
        tap: Option<String>,
        seccomp: bool,
        jail: Option<String>,
        memory_limit_mb: Option<u32>,
    },
    /// Stop a guest and forget it.
    DestroyVm { vm_id: String },
    /// Ask for the state of a guest.
    VmStatus { vm_id: String },
    /// List all guests.
    ListVms,
    /// Write a full snapshot of a guest.
    Snapshot { vm_id: String, output_path: String },
    /// Start a guest that shares memory with a template.
    ForkVm {
        template_path: String,
        net: bool,
        shared_dir: Option<String>,
        mem_mb: Option<u32>,
        vcpus: Option<u32>,
        overlay_size: Option<String>,
        memory_limit_mb: Option<u32>,
    },
    /// Ask for the metrics of a guest, or of the host.
    Metrics { vm_id: String },
    /// Start a guest from its own snapshot.
    RestoreVm {
        snapshot_path: String,
        net: bool,
        shared_dir: Option<String>,
        block: Option<String>,
        memory_limit_mb: Option<u32>,
    },
    /// Stop the vCPUs.
    Pause,
    /// Let the vCPUs run again.
    Resume,
    /// Shut the guest down.
    Shutdown,
    /// Write the pages changed since a base snapshot.
    IncrementalSnapshot { output_path: String, base_template: String },
    /// Move the running guest to another host.
    LiveMigrate { dest_host: String, dest_port: u16 },
    /// Run a command in the guest.
    Exec { command: String, args: Vec<String> },
    /// Set the memory that the guest may use.
    SetBalloon { target_mb: u32 },
    /// Start a copy of the running guest.
    Branch { output_dir: Option<String>, net: bool, shared_dir: Option<String> },
}

/// An answer.
#[derive(Debug)]
pub enum Response {
    Success { body: ResponseBody },
    Error { message: String },
}

/// What an answer holds. Times are in nanoseconds.
#[derive(Debug)]
pub enum ResponseBody {
    VmCreated { vm_id: String, pid: u32 },
    ExecResult { exit_code: i32, stdout: String, stderr: String },
    VmStatus { state: String, uptime_nanos: u64, memory_usage_bytes: u64 },
    VmList { vms: Vec<VmSummary> },
    Metrics { metrics: Json },
    SnapshotComplete { path: String },
    Status { state: String, pid: u32, vcpus: u32 },
    MigrationComplete { total_pages_sent: u64, rounds: u32, downtime_ms: u64, total_time_ms: u64 },
    BranchComplete { new_vm_id: String, new_pid: u32, pause_duration_ms: u64, total_duration_ms: u64 },
    Ack,
}

/// A guest in a list. The uptime is in nanoseconds.
#[derive(Debug)]
pub struct VmSummary {
    pub vm_id: String,
    pub state: String,
    pub uptime_nanos: u64,
}

/// A JSON value. A duration stands for a number of seconds.
#[derive(Debug)]
pub enum Json {
    Null,
    Bool(bool),
    Int(i64),
    Nat(u64),
    /// Seconds, given in nanoseconds.
    Seconds(u64),
    /// Any other number, as it is written.
    Number(String),
    Text(String),
    List(Vec<Json>),
    Object(Vec<(String, Json)>),
}

/// Memory use of a guest.
#[derive(Debug, Clone, Copy)]
pub struct VmMetrics {
    pub private_rss_bytes: u64,
    pub shared_rss_bytes: u64,
}

impl Default for VmMetrics {
    fn default() -> (m: Self)
        ensures
            m.private_rss_bytes == 0,
            m.shared_rss_bytes == 0,
    {
        VmMetrics { private_rss_bytes: 0, shared_rss_bytes: 0 }
    }
}

/// Something that happened to a guest.
#[derive(Debug)]
pub enum VmEvent {
    Boot { vm_id: String },
    Shutdown { vm_id: String },
    TemplateHit { vm_id: String, template: String },
}

/// The answer to bytes that are no request.
pub fn protocol_error(reason: &str) -> (r: Response)
    ensures
        r matches Response::Error { message } && message@ == "Protocol error: "@ + reason@,
{
    Response::Error { message: cat2("Protocol error: ", reason) }
}

/// A length as four bytes, the least significant first.
pub open spec fn length_bytes(n: nat) -> Seq<u8> {
    seq![
        (n % 256) as u8,
        (n / 256 % 256) as u8,
        (n / 65536 % 256) as u8,
        (n / 16777216 % 256) as u8,
    ]
}

/// The length that four bytes stand for.
pub open spec fn length_of(b: Seq<u8>) -> nat {
    (b[0] + b[1] * 256 + b[2] * 65536 + b[3] * 16777216) as nat
}

/// A message on the wire: its length, then itself.
pub open spec fn framed(body: Seq<u8>) -> Seq<u8> {
    length_bytes(body.len()) + body
}

/// The message at the beginning of `bytes`, once all of it is there.
pub open spec fn first_message(bytes: Seq<u8>) -> Option<Seq<u8>> {
    if bytes.len() >= 4 && bytes.len() >= 4 + length_of(bytes) {
        Some(bytes.subrange(4, 4 + length_of(bytes) as int))
    } else {
        None
    }
}

/// Puts a message on the wire. None if it is too long for its length to be
/// written.
pub fn write_frame(body: &[u8]) -> (r: Option<Vec<u8>>)
    ensures
        r is Some <==> body@.len() < 0x1_0000_0000,
        r is Some ==> r->0@ == framed(body@),
{
    let n: u64 = body.len() as u64;
    if n >= 0x1_0000_0000 {
        return None;
    }
    let mut out: Vec<u8> = Vec::new();
    out.push((n % 256) as u8);
    out.push((n / 256 % 256) as u8);
    out.push((n / 65536 % 256) as u8);
    out.push((n / 16777216 % 256) as u8);
    out.extend_from_slice(body);
    assert(out@ =~= framed(body@));
    Some(out)
}

/// The message at the beginning of what came in, once all of it is there.
pub fn read_frame(bytes: &[u8]) -> (r: Option<Vec<u8>>)
    ensures
        r is Some <==> first_message(bytes@) is Some,
        r is Some ==> r->0@ == first_message(bytes@)->0,
{
    if bytes.len() < 4 {
        return None;
    }
    let n: u64 = bytes[0] as u64 + bytes[1] as u64 * 256 + bytes[2] as u64 * 65536 + bytes[3] as u64
        * 16777216;
    assert(n == length_of(bytes@));
    if (bytes.len() - 4) as u64 >= n {
        let end: usize = 4 + n as usize;
        let body = vstd::slice::slice_subrange(bytes, 4, end);
        Some(vstd::slice::slice_to_vec(body))
    } else {
        None
    }
}

/// A message that was put on the wire is read back, whatever follows it.
pub proof fn lemma_frame_reads_back(body: Seq<u8>, rest: Seq<u8>)
    requires
        body.len() < 0x1_0000_0000,
    ensures
        first_message(framed(body) + rest) == Some(body),
{
    let bytes = framed(body) + rest;
    let n = body.len();
    assert(bytes[0] == (n % 256) as u8);
    assert(bytes[1] == (n / 256 % 256) as u8);
    assert(bytes[2] == (n / 65536 % 256) as u8);
    assert(bytes[3] == (n / 16777216 % 256) as u8);
    assert(length_of(bytes) == n);
    assert(bytes.subrange(4, 4 + n as int) =~= body);
}

} // verus!
