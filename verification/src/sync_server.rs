//! The control socket of a single guest: pausing and resuming its vCPUs, taking
//! snapshots of it, copying it while it runs, and passing commands to it.
use vstd::prelude::*;

use crate::prometheus_metrics::{observe_branch_duration, Metrics, MetricsView};
use crate::protocol::{Request, Response, ResponseBody};
use crate::server;
use crate::server::per_vm_socket;
use crate::snapshot;
use crate::snapshot::{DeviceStates, VcpuState};
use crate::strmap::StrMap;
use crate::text;
use crate::text::{cat2, cat5, clone_option, decimal_string};

verus! {

/// Socket path of the guest that runs as process `pid`.
pub fn socket_path(pid: u32) -> (s: String)
    ensures
        s@ == server::socket_of(pid),
{
    per_vm_socket(pid)
}

/// How long vCPUs are given to stop, in nanoseconds.
pub const PAUSE_TIMEOUT_NANOS: u64 = 10_000_000_000;

/// How long the guest agent is given to connect, in nanoseconds.
pub const AGENT_TIMEOUT_NANOS: u64 = 30_000_000_000;

/// How the vCPUs of a guest are stopped and let go.
#[derive(Debug)]
pub struct PauseState {
    /// vCPUs are to stop.
    pub pause_requested: bool,
    /// How many have stopped.
    pub paused_count: u32,
    /// How many there are.
    pub total_vcpus: u32,
    /// All have stopped.
    pub all_paused: bool,
    /// Stopped vCPUs may go on.
    pub resume: bool,
    /// The registers of each vCPU that has stopped.
    pub captured: Vec<Option<VcpuState>>,
}

/// What to do while vCPUs are stopping.
#[derive(Debug)]
pub enum PauseWait {
    /// All have stopped.
    Done,
    /// Wait for so many nanoseconds at most, and look again.
    Wait(u64),
    /// They took too long. Wake those that have stopped, and report this.
    TimedOut(String),
}

/// No registers are captured.
pub open spec fn none_captured(captured: Seq<Option<VcpuState>>) -> bool {
    forall|i: int| 0 <= i < captured.len() ==> (#[trigger] captured[i]) is None
}

/// The report on vCPUs that did not stop in time.
pub open spec fn pause_timeout(paused: u32, total: u32) -> Seq<char> {
    "Timeout waiting for vCPUs to pause (got "@ + text::decimal(paused as nat) + "/"@
        + text::decimal(total as nat) + ")"@
}

impl PauseState {
    /// Asks the vCPUs to stop. What an earlier pause captured is dropped.
    pub fn request_pause(&mut self)
        ensures
            final(self).pause_requested,
            final(self).paused_count == 0,
            !final(self).all_paused,
            none_captured(final(self).captured@),
            final(self).captured@.len() == old(self).captured@.len(),
            final(self).total_vcpus == old(self).total_vcpus,
            final(self).resume == old(self).resume,
    {
        self.paused_count = 0;
        let n: usize = self.captured.len();
        let mut i: usize = 0;
        while i < n
            invariant
                i <= n == self.captured@.len(),
                n == old(self).captured@.len(),
                self.paused_count == 0,
                self.total_vcpus == old(self).total_vcpus,
                self.resume == old(self).resume,
                forall|j: int| 0 <= j < i ==> (#[trigger] self.captured@[j]) is None,
            decreases n - i,
        {
            self.captured[i] = None;
            i = i + 1;
        }
        self.all_paused = false;
        self.pause_requested = true;
    }

    /// Looks at vCPUs that were asked to stop `elapsed` nanoseconds ago. After
    /// the timeout the request is withdrawn.
    pub fn wait_pause(&mut self, elapsed: u64) -> (w: PauseWait)
        ensures
            old(self).all_paused ==> w is Done && *final(self) == *old(self),
            !old(self).all_paused && elapsed < PAUSE_TIMEOUT_NANOS ==> w == PauseWait::Wait(
                (PAUSE_TIMEOUT_NANOS - elapsed) as u64,
            ) && *final(self) == *old(self),
            !old(self).all_paused && elapsed >= PAUSE_TIMEOUT_NANOS ==> {
                &&& w matches PauseWait::TimedOut(message)
                &&& message@ == pause_timeout(old(self).paused_count, old(self).total_vcpus)
                &&& *final(self) == (PauseState { pause_requested: false, ..*old(self) })
            },
    {
        if self.all_paused {
            PauseWait::Done
        } else if elapsed >= PAUSE_TIMEOUT_NANOS {
            self.pause_requested = false;
            let got = decimal_string(self.paused_count as u64);
            let total = decimal_string(self.total_vcpus as u64);
            PauseWait::TimedOut(
                cat5(
                    "Timeout waiting for vCPUs to pause (got ",
                    got.as_str(),
                    "/",
                    total.as_str(),
                    ")",
                ),
            )
        } else {
            PauseWait::Wait(PAUSE_TIMEOUT_NANOS - elapsed)
        }
    }

    /// Lets the vCPUs go on.
    pub fn resume_vcpus(&mut self)
        ensures
            *final(self) == (PauseState {
                pause_requested: false,
                paused_count: 0,
                resume: true,
                ..*old(self)
            }),
    {
        self.pause_requested = false;
        self.paused_count = 0;
        self.resume = true;
    }

    /// Whether the guest counts as paused, in words.
    pub open spec fn word(self) -> Seq<char> {
        if self.pause_requested {
            "paused"@
        } else {
            "running"@
        }
    }
}

/// What the control socket knows of its guest.
#[derive(Debug)]
pub struct GuestInfo {
    /// Process that runs the guest.
    pub pid: u32,
    /// Guest memory in bytes.
    pub mem_size: u64,
    pub num_vcpus: u32,
    /// Whether the pages that the guest writes can be tracked.
    pub tracks_pages: bool,
    /// Whether the guest has an agent.
    pub has_agent: bool,
    pub block_device: Option<String>,
    pub overlay_path: Option<String>,
    pub guest_ip: Option<String>,
}

/// Why the vCPUs are being stopped, and what is to follow.
#[derive(Debug)]
pub enum Goal {
    /// Nothing else.
    Pause,
    /// A full snapshot. The guest stays stopped.
    Snapshot { output_path: String },
    /// A snapshot of the pages written since the base.
    Incremental { output_path: String, base_template: String },
    /// A copy of the guest, by way of a full snapshot in `snap_dir`.
    Branch {
        snap_dir: String,
        net: bool,
        shared_dir: Option<String>,
        /// When the request came, in nanoseconds.
        started: u64,
        /// How long it took to stop the vCPUs, once they have.
        pause_nanos: Option<u64>,
    },
}

/// A snapshot that is to be written.
#[derive(Debug)]
pub struct SnapshotJob {
    pub vcpu_states: Vec<VcpuState>,
    pub device_states: DeviceStates,
    pub output_dir: String,
}

/// What the control socket does next.
#[derive(Debug)]
pub enum Turn {
    /// Answer.
    Reply(Response),
    /// Stop the vCPUs and report how that went.
    Pause(Goal),
    /// Read registers and devices of the stopped guest and report them. The
    /// interrupt controllers and the timer are read if `irqchip` is set.
    Capture { goal: Goal, irqchip: bool },
    /// Write a full snapshot and report how that went.
    SaveTemplate {
        goal: Goal,
        job: SnapshotJob,
        runtime_type: String,
        block_device: Option<String>,
        clock_ns: u64,
        overlay_path: Option<String>,
        guest_ip: Option<String>,
    },
    /// Write an incremental snapshot of all pages written since the base, and
    /// report how that went.
    SaveIncremental { goal: Goal, job: SnapshotJob, base_template: String },
    /// Start a guest from the snapshot and report how that went.
    SpawnFork { goal: Goal, template_path: String, net: bool, shared_dir: Option<String> },
    /// Let the vCPUs go on, then answer.
    ResumeAndReply(Response),
    /// Have all vCPUs leave the guest, letting them go on if they are stopped,
    /// then answer.
    ShutdownAndReply { resume: bool, reply: Response },
    /// Move the guest to another host and report how that went.
    Migrate { dest_host: String, dest_port: u16 },
    /// Wait for the agent, have it run a command, and report what came of it.
    Exec { command: String, args: Vec<String> },
    /// Set the balloon to so many pages, tell the guest, and report whether it
    /// has a balloon.
    SetBalloon { reclaim_pages: u32 },
}

/// Where a branch keeps its snapshot.
pub open spec fn branch_dir(dir: Seq<char>, output_dir: Option<String>, pid: u32) -> bool {
    match output_dir {
        Some(d) => dir == d@,
        None => dir == "/tmp/clone-branch-"@ + text::decimal(pid as nat),
    }
}

/// The pages that the balloon takes from a guest of `mem_size` bytes that is to
/// have `target_mb` megabytes: 256 for each megabyte too many.
pub open spec fn balloon_pages(mem_size: u64, target_mb: u32) -> int {
    let mem_mb = mem_size as int / 0x10_0000;
    if target_mb < mem_mb {
        (mem_mb - target_mb) * 256
    } else {
        0
    }
}

/// The answer to an error.
pub open spec fn is_error(r: Response, message: Seq<char>) -> bool {
    r matches Response::Error { message: m } && m@ == message
}

/// The answer to a request that was carried out.
pub open spec fn is_ack(r: Response) -> bool {
    r == (Response::Success { body: ResponseBody::Ack })
}

/// What the control socket does first on a request.
pub open spec fn dispatched(
    req: Request,
    guest: GuestInfo,
    pause: PauseState,
    now: u64,
    turn: Turn,
) -> bool {
    match req {
        Request::Snapshot { vm_id, output_path } => turn == Turn::Pause(
            Goal::Snapshot { output_path },
        ),
        Request::IncrementalSnapshot { output_path, base_template } => if guest.tracks_pages {
            turn == Turn::Pause(Goal::Incremental { output_path, base_template })
        } else {
            turn matches Turn::Reply(r) && is_error(
                r,
                "VM fd not available for dirty page tracking"@,
            )
        },
        Request::Pause => turn == Turn::Pause(Goal::Pause),
        Request::Resume => turn matches Turn::ResumeAndReply(r) && is_ack(r),
        Request::Shutdown => {
            &&& turn matches Turn::ShutdownAndReply { resume, reply }
            &&& resume == pause.pause_requested
            &&& is_ack(reply)
        },
        Request::LiveMigrate { dest_host, dest_port } => turn == (Turn::Migrate {
            dest_host,
            dest_port,
        }),
        Request::Branch { output_dir, net, shared_dir } => {
            &&& turn matches Turn::Pause(goal)
            &&& goal is Branch
            &&& goal == (Goal::Branch {
                snap_dir: goal->snap_dir,
                net,
                shared_dir,
                started: now,
                pause_nanos: None,
            })
            &&& branch_dir(goal->snap_dir@, output_dir, guest.pid)
        },
        Request::VmStatus { vm_id } => {
            &&& turn matches Turn::Reply(Response::Success { body })
            &&& body matches ResponseBody::Status { state, pid, vcpus }
            &&& state@ == pause.word()
            &&& pid == guest.pid
            &&& vcpus == guest.num_vcpus
        },
        Request::Exec { command, args } => if guest.has_agent {
            turn == (Turn::Exec { command, args })
        } else {
            turn matches Turn::Reply(r) && is_error(r, "Guest agent not available"@)
        },
        Request::SetBalloon { target_mb } => {
            &&& turn matches Turn::SetBalloon { reclaim_pages }
            &&& reclaim_pages == balloon_pages(guest.mem_size, target_mb)
        },
        _ => turn matches Turn::Reply(r) && is_error(
            r,
            "Unsupported command on per-VM control socket"@,
        ),
    }
}

fn error(message: &str) -> (r: Response)
    ensures
        is_error(r, message@),
{
    Response::Error { message: message.to_owned() }
}

fn ack() -> (r: Response)
    ensures
        is_ack(r),
{
    Response::Success { body: ResponseBody::Ack }
}

/// Takes a request in. The memory of a guest whose balloon is set is so small
/// that its megabytes, and the pages that the balloon takes, can be counted in 32
/// bits.
pub fn dispatch(req: Request, guest: &GuestInfo, pause: &PauseState, now: u64) -> (turn: Turn)
    requires
        req matches Request::SetBalloon { target_mb } ==> guest.mem_size < 0x10_0000_0000_0000
            && balloon_pages(guest.mem_size, target_mb) <= u32::MAX,
    ensures
        dispatched(req, *guest, *pause, now, turn),
{
    match req {
        Request::Snapshot { vm_id: _, output_path } => Turn::Pause(Goal::Snapshot { output_path }),
        Request::IncrementalSnapshot { output_path, base_template } => {
            if guest.tracks_pages {
                Turn::Pause(Goal::Incremental { output_path, base_template })
            } else {
                Turn::Reply(error("VM fd not available for dirty page tracking"))
            }
        },
        Request::Pause => Turn::Pause(Goal::Pause),
        Request::Resume => Turn::ResumeAndReply(ack()),
        Request::Shutdown => Turn::ShutdownAndReply {
            resume: pause.pause_requested,
            reply: ack(),
        },
        Request::LiveMigrate { dest_host, dest_port } => Turn::Migrate { dest_host, dest_port },
        Request::Branch { output_dir, net, shared_dir } => {
            let snap_dir = match output_dir {
                Some(d) => d,
                None => {
                    let number = decimal_string(guest.pid as u64);
                    cat2("/tmp/clone-branch-", number.as_str())
                },
            };
            Turn::Pause(
                Goal::Branch { snap_dir, net, shared_dir, started: now, pause_nanos: None },
            )
        },
        Request::VmStatus { vm_id: _ } => {
            let state = if pause.pause_requested {
                "paused".to_owned()
            } else {
                "running".to_owned()
            };
            Turn::Reply(
                Response::Success {
                    body: ResponseBody::Status { state, pid: guest.pid, vcpus: guest.num_vcpus },
                },
            )
        },
        Request::Exec { command, args } => {
            if guest.has_agent {
                Turn::Exec { command, args }
            } else {
                Turn::Reply(error("Guest agent not available"))
            }
        },
        Request::SetBalloon { target_mb } => {
            let mem_mb: u32 = (guest.mem_size / 0x10_0000) as u32;
            let reclaim_pages: u32 = if target_mb < mem_mb {
                (mem_mb - target_mb) * 256
            } else {
                0
            };
            Turn::SetBalloon { reclaim_pages }
        },
        _ => Turn::Reply(error("Unsupported command on per-VM control socket")),
    }
}

/// The time from `from` to `to`, zero where `to` comes first.
pub open spec fn span(from: u64, to: u64) -> u64 {
    if to >= from {
        (to - from) as u64
    } else {
        0
    }
}

/// What follows when the vCPUs have stopped, or have not.
pub open spec fn paused(goal: Goal, result: Result<(), String>, now: u64, turn: Turn) -> bool {
    match goal {
        Goal::Pause => match result {
            Ok(_) => turn matches Turn::Reply(r) && is_ack(r),
            Err(e) => turn == Turn::Reply(Response::Error { message: e }),
        },
        Goal::Snapshot { output_path } => match result {
            Ok(_) => turn == (Turn::Capture { goal, irqchip: true }),
            Err(e) => turn == Turn::Reply(Response::Error { message: e }),
        },
        Goal::Incremental { output_path, base_template } => match result {
            Ok(_) => turn == (Turn::Capture { goal, irqchip: false }),
            Err(e) => turn == Turn::Reply(Response::Error { message: e }),
        },
        Goal::Branch { snap_dir, net, shared_dir, started, pause_nanos } => match pause_nanos {
            None => match result {
                Ok(_) => turn == Turn::Pause(
                    Goal::Branch {
                        snap_dir,
                        net,
                        shared_dir,
                        started,
                        pause_nanos: Some(span(started, now)),
                    },
                ),
                Err(e) => turn matches Turn::Reply(r) && is_error(
                    r,
                    "Branch: pause failed: "@ + e@,
                ),
            },
            Some(_) => match result {
                Ok(_) => turn == (Turn::Capture { goal, irqchip: true }),
                Err(e) => turn matches Turn::ResumeAndReply(r) && is_error(
                    r,
                    "Branch: snapshot failed: "@ + e@,
                ),
            },
        },
    }
}

/// Goes on when the vCPUs have stopped, or have not. A branch stops them once
/// for itself and once more for its snapshot.
pub fn after_pause(goal: Goal, result: Result<(), String>, now: u64) -> (turn: Turn)
    ensures
        paused(goal, result, now, turn),
{
    match goal {
        Goal::Pause => match result {
            Ok(_) => Turn::Reply(ack()),
            Err(message) => Turn::Reply(Response::Error { message }),
        },
        Goal::Snapshot { output_path } => match result {
            Ok(_) => Turn::Capture { goal: Goal::Snapshot { output_path }, irqchip: true },
            Err(message) => Turn::Reply(Response::Error { message }),
        },
        Goal::Incremental { output_path, base_template } => match result {
            Ok(_) => Turn::Capture {
                goal: Goal::Incremental { output_path, base_template },
                irqchip: false,
            },
            Err(message) => Turn::Reply(Response::Error { message }),
        },
        Goal::Branch { snap_dir, net, shared_dir, started, pause_nanos } => match pause_nanos {
            None => match result {
                Ok(_) => {
                    let nanos: u64 = if now >= started {
                        now - started
                    } else {
                        0
                    };
                    Turn::Pause(
                        Goal::Branch {
                            snap_dir,
                            net,
                            shared_dir,
                            started,
                            pause_nanos: Some(nanos),
                        },
                    )
                },
                Err(e) => Turn::Reply(
                    Response::Error { message: cat2("Branch: pause failed: ", e.as_str()) },
                ),
            },
            Some(nanos) => match result {
                Ok(_) => Turn::Capture {
                    goal: Goal::Branch {
                        snap_dir,
                        net,
                        shared_dir,
                        started,
                        pause_nanos: Some(nanos),
                    },
                    irqchip: true,
                },
                Err(e) => Turn::ResumeAndReply(
                    Response::Error { message: cat2("Branch: snapshot failed: ", e.as_str()) },
                ),
            },
        },
    }
}

/// What was read from a stopped guest.
#[derive(Debug)]
pub struct Captured {
    /// Registers of each vCPU, where they were captured.
    pub vcpus: Vec<Option<VcpuState>>,
    pub transports: Vec<Vec<u8>>,
    pub irqchip: Vec<Vec<u8>>,
    pub pit: Vec<u8>,
    pub serial: Vec<u8>,
    /// Guest clock, where it could be read.
    pub clock_ns: Option<u64>,
}

/// Registers that are all empty.
pub open spec fn empty_registers() -> snapshot::VcpuStateView {
    snapshot::VcpuStateView {
        regs: seq![],
        sregs: seq![],
        lapic: seq![],
        fpu: seq![],
        xsave: seq![],
        xcrs: seq![],
        mp_state: seq![],
        vcpu_events: seq![],
        debug_regs: seq![],
        msrs: seq![],
        tsc_khz: 0,
        cpuid: seq![],
    }
}

/// The registers that go into a snapshot: those captured, and empty ones for a
/// vCPU whose registers were not.
pub open spec fn registers(
    states: Seq<VcpuState>,
    captured: Seq<Option<VcpuState>>,
) -> bool {
    &&& states.len() == captured.len()
    &&& forall|i: int|
        0 <= i < states.len() ==> (match captured[i] {
            Some(s) => (#[trigger] states[i])@ == s@,
            None => states[i]@ == empty_registers(),
        })
}

/// The devices that go into a snapshot.
pub open spec fn devices(d: DeviceStates, c: Captured, irqchip: bool) -> bool {
    &&& d.serial == Some(c.serial)
    &&& d.virtio_configs@ == Map::<Seq<char>, Vec<u8>>::empty()
    &&& d.transports == c.transports
    &&& if irqchip {
        d.irqchip == c.irqchip && d.pit == c.pit
    } else {
        d.irqchip@.len() == 0 && d.pit@.len() == 0
    }
}

/// The snapshot that is written of what was captured.
pub open spec fn job_of(job: SnapshotJob, c: Captured, irqchip: bool, output_dir: String) -> bool {
    &&& registers(job.vcpu_states@, c.vcpus@)
    &&& devices(job.device_states, c, irqchip)
    &&& job.output_dir == output_dir
}

fn fill_registers(captured: &Vec<Option<VcpuState>>) -> (states: Vec<VcpuState>)
    ensures
        registers(states@, captured@),
{
    let mut states: Vec<VcpuState> = Vec::new();
    let mut i: usize = 0;
    while i < captured.len()
        invariant
            i <= captured@.len(),
            registers(states@, captured@.take(i as int)),
        decreases captured@.len() - i,
    {
        let s = match &captured[i] {
            Some(s) => s.clone(),
            None => VcpuState::empty(),
        };
        states.push(s);
        i = i + 1;
    }
    assert(captured@.take(i as int) =~= captured@);
    states
}

/// What follows when a stopped guest was read.
pub open spec fn captured_next(goal: Goal, c: Captured, guest: GuestInfo, turn: Turn) -> bool {
    match goal {
        Goal::Incremental { output_path, base_template } => {
            &&& turn matches Turn::SaveIncremental { goal: g, job, base_template: base }
            &&& g == goal
            &&& job_of(job, c, false, output_path)
            &&& base == base_template
        },
        Goal::Snapshot { output_path } => saves_template(turn, goal, c, guest, output_path),
        Goal::Branch { snap_dir, .. } => saves_template(turn, goal, c, guest, snap_dir),
        Goal::Pause => true,
    }
}

/// `turn` writes a full snapshot of what was captured to `output_dir`.
pub open spec fn saves_template(
    turn: Turn,
    goal: Goal,
    c: Captured,
    guest: GuestInfo,
    output_dir: String,
) -> bool {
    &&& turn matches Turn::SaveTemplate {
        goal: g,
        job,
        runtime_type,
        block_device,
        clock_ns,
        overlay_path,
        guest_ip,
    }
    &&& g == goal
    &&& job_of(job, c, true, output_dir)
    &&& runtime_type@ == "snapshot"@
    &&& block_device == guest.block_device
    &&& clock_ns == (match c.clock_ns {
        Some(n) => n,
        None => 0,
    })
    &&& overlay_path == guest.overlay_path
    &&& guest_ip == guest.guest_ip
}

fn template_turn(goal: Goal, c: Captured, guest: &GuestInfo, output_dir: String) -> (turn: Turn)
    ensures
        saves_template(turn, goal, c, *guest, output_dir),
{
    let vcpu_states = fill_registers(&c.vcpus);
    let clock_ns: u64 = match c.clock_ns {
        Some(n) => n,
        None => 0,
    };
    Turn::SaveTemplate {
        goal,
        job: SnapshotJob {
            vcpu_states,
            device_states: DeviceStates {
                serial: Some(c.serial),
                virtio_configs: StrMap::new(),
                transports: c.transports,
                irqchip: c.irqchip,
                pit: c.pit,
            },
            output_dir,
        },
        runtime_type: "snapshot".to_owned(),
        block_device: clone_option(&guest.block_device),
        clock_ns,
        overlay_path: clone_option(&guest.overlay_path),
        guest_ip: clone_option(&guest.guest_ip),
    }
}

/// Goes on when a stopped guest was read.
pub fn after_capture(goal: Goal, c: Captured, guest: &GuestInfo) -> (turn: Turn)
    requires
        !(goal is Pause),
    ensures
        captured_next(goal, c, *guest, turn),
{
    match goal {
        Goal::Pause => Turn::Reply(ack()),
        Goal::Snapshot { output_path } => {
            let dir = output_path.clone();
            template_turn(Goal::Snapshot { output_path }, c, guest, dir)
        },
        Goal::Branch { snap_dir, net, shared_dir, started, pause_nanos } => {
            let dir = snap_dir.clone();
            template_turn(
                Goal::Branch { snap_dir, net, shared_dir, started, pause_nanos },
                c,
                guest,
                dir,
            )
        },
        Goal::Incremental { output_path, base_template } => {
            let vcpu_states = fill_registers(&c.vcpus);
            let output_dir = output_path.clone();
            let base = base_template.clone();
            Turn::SaveIncremental {
                goal: Goal::Incremental { output_path, base_template },
                job: SnapshotJob {
                    vcpu_states,
                    device_states: DeviceStates {
                        serial: Some(c.serial),
                        virtio_configs: StrMap::new(),
                        transports: c.transports,
                        irqchip: Vec::new(),
                        pit: Vec::new(),
                    },
                    output_dir,
                },
                base_template: base,
            }
        },
    }
}

/// The answer to a snapshot that was written.
pub open spec fn snapshot_done(r: Response, path: String) -> bool {
    r == (Response::Success { body: ResponseBody::SnapshotComplete { path } })
}

/// What follows when a snapshot was written, or was not.
pub open spec fn saved(goal: Goal, result: Result<(), String>, turn: Turn) -> bool {
    match goal {
        Goal::Pause => true,
        Goal::Snapshot { output_path } => match result {
            Ok(_) => turn matches Turn::Reply(r) && snapshot_done(r, output_path),
            Err(e) => turn matches Turn::Reply(r) && is_error(r, "Snapshot failed: "@ + e@),
        },
        Goal::Incremental { output_path, base_template } => match result {
            Ok(_) => turn matches Turn::ResumeAndReply(r) && snapshot_done(r, output_path),
            Err(e) => turn matches Turn::ResumeAndReply(r) && is_error(
                r,
                "Incremental snapshot failed: "@ + e@,
            ),
        },
        Goal::Branch { snap_dir, net, shared_dir, started, pause_nanos } => match result {
            Ok(_) => turn == (Turn::SpawnFork { goal, template_path: snap_dir, net, shared_dir }),
            Err(e) => turn matches Turn::ResumeAndReply(r) && is_error(
                r,
                "Branch: snapshot failed: "@ + ("Snapshot failed: "@ + e@),
            ),
        },
    }
}

/// Goes on when a snapshot was written, or was not. After a full snapshot the
/// guest stays stopped, so that a shutdown can follow before it runs again.
pub fn after_save(goal: Goal, result: Result<(), String>) -> (turn: Turn)
    requires
        !(goal is Pause),
    ensures
        saved(goal, result, turn),
{
    match goal {
        Goal::Pause => Turn::Reply(ack()),
        Goal::Snapshot { output_path } => match result {
            Ok(_) => Turn::Reply(
                Response::Success { body: ResponseBody::SnapshotComplete { path: output_path } },
            ),
            Err(e) => Turn::Reply(
                Response::Error { message: cat2("Snapshot failed: ", e.as_str()) },
            ),
        },
        Goal::Incremental { output_path, base_template: _ } => match result {
            Ok(_) => Turn::ResumeAndReply(
                Response::Success { body: ResponseBody::SnapshotComplete { path: output_path } },
            ),
            Err(e) => Turn::ResumeAndReply(
                Response::Error { message: cat2("Incremental snapshot failed: ", e.as_str()) },
            ),
        },
        Goal::Branch { snap_dir, net, shared_dir, started, pause_nanos } => match result {
            Ok(_) => {
                let template_path = snap_dir.clone();
                let dir = clone_option(&shared_dir);
                Turn::SpawnFork {
                    goal: Goal::Branch { snap_dir, net, shared_dir, started, pause_nanos },
                    template_path,
                    net,
                    shared_dir: dir,
                }
            },
            Err(e) => {
                let inner = cat2("Snapshot failed: ", e.as_str());
                Turn::ResumeAndReply(
                    Response::Error { message: cat2("Branch: snapshot failed: ", inner.as_str()) },
                )
            },
        },
    }
}

/// Goes on when the copy of a guest was started, or was not. Either way the
/// guest that was copied goes on.
pub fn after_fork(goal: Goal, result: Result<u32, String>, now: u64, prom: &mut Metrics) -> (turn: Turn)
    requires
        goal is Branch,
    ensures
        turn is ResumeAndReply,
        match result {
            Ok(pid) => {
                &&& final(prom)@ == (MetricsView {
                    branch_durations: old(prom)@.branch_durations.push(span(goal->started, now)),
                    ..old(prom)@
                })
                &&& turn->ResumeAndReply_0 matches Response::Success { body }
                &&& body matches ResponseBody::BranchComplete {
                    new_vm_id,
                    new_pid,
                    pause_duration_ms,
                    total_duration_ms,
                }
                &&& new_vm_id@ == "branch-"@ + text::decimal(pid as nat)
                &&& new_pid == pid
                &&& pause_duration_ms == (match goal->pause_nanos {
                    Some(n) => n / 1_000_000,
                    None => 0,
                })
                &&& total_duration_ms == span(goal->started, now) / 1_000_000
            },
            Err(e) => {
                &&& final(prom)@ == old(prom)@
                &&& is_error(turn->ResumeAndReply_0, "Branch: fork spawn failed: "@ + e@)
            },
        },
{
    let (started, pause_nanos): (u64, u64) = match goal {
        Goal::Branch { started, pause_nanos, .. } => (
            started,
            match pause_nanos {
                Some(n) => n,
                None => 0,
            },
        ),
        _ => (0, 0),
    };
    match result {
        Ok(pid) => {
            let total: u64 = if now >= started {
                now - started
            } else {
                0
            };
            observe_branch_duration(prom, total);
            let number = decimal_string(pid as u64);
            Turn::ResumeAndReply(
                Response::Success {
                    body: ResponseBody::BranchComplete {
                        new_vm_id: cat2("branch-", number.as_str()),
                        new_pid: pid,
                        pause_duration_ms: pause_nanos / 1_000_000,
                        total_duration_ms: total / 1_000_000,
                    },
                },
            )
        },
        Err(e) => Turn::ResumeAndReply(
            Response::Error { message: cat2("Branch: fork spawn failed: ", e.as_str()) },
        ),
    }
}

/// What a migration took.
#[derive(Debug)]
pub struct MigrationStats {
    pub total_pages_sent: u64,
    pub rounds: u32,
    pub downtime_ms: u64,
    pub total_time_ms: u64,
}

/// Answers when a guest was moved, or was not.
pub fn after_migrate(result: Result<MigrationStats, String>) -> (r: Response)
    ensures
        match result {
            Ok(s) => r == (Response::Success {
                body: ResponseBody::MigrationComplete {
                    total_pages_sent: s.total_pages_sent,
                    rounds: s.rounds,
                    downtime_ms: s.downtime_ms,
                    total_time_ms: s.total_time_ms,
                },
            }),
            Err(e) => is_error(r, "Live migration failed: "@ + e@),
        },
{
    match result {
        Ok(s) => Response::Success {
            body: ResponseBody::MigrationComplete {
                total_pages_sent: s.total_pages_sent,
                rounds: s.rounds,
                downtime_ms: s.downtime_ms,
                total_time_ms: s.total_time_ms,
            },
        },
        Err(e) => Response::Error { message: cat2("Live migration failed: ", e.as_str()) },
    }
}

/// What to do about an agent that has to connect first.
#[derive(Debug)]
pub enum AgentWait {
    /// It is there: send it the command.
    Send,
    /// Look again in a moment.
    Wait,
    /// It took too long: answer.
    GiveUp(Response),
}

/// Looks at an agent that has been waited for since `waited` nanoseconds.
pub fn await_agent(connected: bool, waited: u64) -> (w: AgentWait)
    ensures
        connected ==> w is Send,
        !connected && waited <= AGENT_TIMEOUT_NANOS ==> w is Wait,
        !connected && waited > AGENT_TIMEOUT_NANOS ==> (w matches AgentWait::GiveUp(r) && is_error(
            r,
            "Timed out waiting for guest agent"@,
        )),
{
    if connected {
        AgentWait::Send
    } else if waited > AGENT_TIMEOUT_NANOS {
        AgentWait::GiveUp(error("Timed out waiting for guest agent"))
    } else {
        AgentWait::Wait
    }
}

/// Answers when the agent has run a command, or could not.
pub fn after_exec(result: Result<(i32, String, String), String>) -> (r: Response)
    ensures
        match result {
            Ok((exit_code, stdout, stderr)) => r == (Response::Success {
                body: ResponseBody::ExecResult { exit_code, stdout, stderr },
            }),
            Err(e) => r == (Response::Error { message: e }),
        },
{
    match result {
        Ok((exit_code, stdout, stderr)) => Response::Success {
            body: ResponseBody::ExecResult { exit_code, stdout, stderr },
        },
        Err(message) => Response::Error { message },
    }
}

/// Answers when the balloon was set. `found` says whether there is one.
pub fn after_balloon(found: bool) -> (r: Response)
    ensures
        found ==> is_ack(r),
        !found ==> is_error(r, "balloon device not found"@),
{
    if found {
        ack()
    } else {
        error("balloon device not found")
    }
}

/// Whatever was asked of the vCPUs before, a guest that was let go counts as
/// running.
pub proof fn lemma_resumed_runs(before: PauseState)
    ensures
        (PauseState { pause_requested: false, paused_count: 0, resume: true, ..before }).word()
            == "running"@,
{
}

/// A branch lets the guest that it copies go on in every case: it answers
/// without doing so only where the guest could not be stopped at all.
pub proof fn lemma_branch_resumes(goal: Goal, result: Result<(), String>, now: u64, turn: Turn)
    requires
        goal is Branch,
    ensures
        paused(goal, result, now, turn) && turn is Reply ==> goal->pause_nanos is None
            && result is Err,
        saved(goal, result, turn) ==> turn is SpawnFork || turn is ResumeAndReply,
{
}

/// A full snapshot keeps the guest's disk, overlay and address, and the state of
/// its interrupt controllers and timer, so that a restored guest finds them again.
pub proof fn lemma_snapshot_keeps_disk_and_address(
    goal: Goal,
    c: Captured,
    guest: GuestInfo,
    turn: Turn,
)
    requires
        captured_next(goal, c, guest, turn),
        goal is Snapshot || goal is Branch,
    ensures
        turn matches Turn::SaveTemplate { job, block_device, overlay_path, guest_ip, .. } && {
            &&& block_device == guest.block_device
            &&& overlay_path == guest.overlay_path
            &&& guest_ip == guest.guest_ip
            &&& job.device_states.irqchip == c.irqchip
            &&& job.device_states.pit == c.pit
        },
{
}

/// An incremental snapshot lets the guest go on whether or not it was written; a
/// full one never does.
pub proof fn lemma_snapshot_leaves_stopped(goal: Goal, result: Result<(), String>, turn: Turn)
    requires
        saved(goal, result, turn),
    ensures
        goal is Incremental ==> turn is ResumeAndReply,
        goal is Snapshot ==> turn is Reply,
{
}

} // verus!
