//! State of the daemon, and what it does on each request.
use vstd::prelude::*;

use crate::prometheus_metrics::{
    observe_fork_duration, observe_snapshot_duration, remove_vm_memory, set_vm_count, Metrics,
    MetricsView,
};
use crate::prom;
use crate::protocol::{Json, Request, Response, ResponseBody, VmEvent, VmMetrics, VmSummary};
use crate::strmap::StrMap;
use crate::text;
use crate::text::{cat2, cat3, cat4, decimal_string, padded_decimal, str_eq};

verus! {

/// Where the daemon listens unless it is told otherwise.
pub const DEFAULT_SOCKET_PATH: &'static str = "/run/clone/control.sock";

/// A guest that the daemon tracks.
#[derive(Debug)]
pub struct VmRecord {
    pub vm_id: String,
    /// Process that runs the guest.
    pub pid: u32,
    pub state: VmState,
    /// When the guest was started, in nanoseconds of a clock that never goes back.
    pub boot_time: u64,
    pub config: VmRecordConfig,
    /// Directory of the guest's cgroup, if it has one.
    pub cgroup_path: Option<String>,
    /// Memory limit in megabytes. None is unlimited.
    pub memory_limit_mb: Option<u32>,
}

/// How a guest was booted. Empty for a guest that was forked or restored.
#[derive(Debug)]
pub struct VmRecordConfig {
    pub kernel: String,
    pub initrd: Option<String>,
    pub cmdline: String,
    pub mem_mb: u32,
    pub vcpus: u32,
}

/// Whether a guest runs.
#[derive(Debug, Clone, Copy, PartialEq, Eq, Structural)]
pub enum VmState {
    Running,
    Stopped,
    Paused,
}

impl VmState {
    /// The state in words.
    pub open spec fn word(self) -> Seq<char> {
        match self {
            VmState::Running => "running"@,
            VmState::Stopped => "stopped"@,
            VmState::Paused => "paused"@,
        }
    }

    /// The state in words.
    pub fn as_str(&self) -> (s: &'static str)
        ensures
            s@ == self.word(),
    {
        match self {
            VmState::Running => "running",
            VmState::Stopped => "stopped",
            VmState::Paused => "paused",
        }
    }
}

/// The counters that outlive the daemon.
#[derive(Debug, Clone, Copy, PartialEq, Eq, Structural)]
pub struct PersistedState {
    pub next_id: u64,
    pub next_cid: u64,
}

/// What the daemon knows: the guests it runs, and the numbers to give out next.
#[derive(Debug)]
pub struct ServerState {
    vms: StrMap<VmRecord>,
    next_id: u64,
    next_cid: u64,
    metrics: StrMap<VmMetrics>,
    state_file: Option<String>,
}

/// What a `ServerState` holds.
pub struct ServerView {
    pub vms: Map<Seq<char>, VmRecord>,
    pub next_id: u64,
    pub next_cid: u64,
    pub metrics: Map<Seq<char>, VmMetrics>,
    pub state_file: Option<String>,
}

impl View for ServerState {
    type V = ServerView;

    closed spec fn view(&self) -> ServerView {
        ServerView {
            vms: self.vms@,
            next_id: self.next_id,
            next_cid: self.next_cid,
            metrics: self.metrics@,
            state_file: self.state_file,
        }
    }
}

/// The id of the `n`-th guest.
pub open spec fn vm_name(n: nat) -> Seq<char> {
    "vm-"@ + text::zero_padded(text::decimal(n), 4)
}

/// The control socket of the guest that runs as process `pid`.
pub open spec fn socket_of(pid: u32) -> Seq<char> {
    "/tmp/clone-"@ + text::decimal(pid as nat) + ".sock"@
}

/// The address of the guest with context id `cid`. Context ids start at 3, and
/// the first guest has the address after the gateway's.
pub open spec fn guest_ip(cid: nat) -> Seq<char> {
    "172.30."@ + text::decimal(((cid - 1) / 256) as nat) + "."@ + text::decimal(
        ((cid - 1) % 256) as nat,
    )
}

/// The kernel command line with what the guest has to know of its agent and of
/// its network.
pub open spec fn full_cmdline(cmdline: Seq<char>, net: bool, cid: nat) -> Seq<char> {
    let with_agent = cmdline + " clone.agent_port=9999"@;
    if net {
        with_agent + " clone.net_ip="@ + guest_ip(cid)
            + " clone.net_gw=172.30.0.1 clone.net_mask=16"@
    } else {
        with_agent
    }
}

impl ServerView {
    /// Ids and context ids in use were given out before, and guests are kept
    /// under their own id.
    pub open spec fn wf(self) -> bool {
        &&& self.next_id >= 1
        &&& self.next_cid >= 3
        &&& forall|k: Seq<char>| #[trigger]
            self.vms.dom().contains(k) ==> self.vms[k].vm_id@ == k && self.given_out(k)
        &&& forall|k: Seq<char>| #[trigger]
            self.metrics.dom().contains(k) ==> self.metrics[k].private_rss_bytes
                + self.metrics[k].shared_rss_bytes <= u64::MAX
        &&& self.vms.dom().finite()
    }

    /// `id` is the id of a guest that was started before.
    pub open spec fn given_out(self, id: Seq<char>) -> bool {
        exists|n: nat| 1 <= n < self.next_id && id == #[trigger] vm_name(n)
    }

    /// Another guest can still be numbered.
    pub open spec fn has_room(self) -> bool {
        self.next_id < u64::MAX && self.next_cid < u64::MAX
    }

    /// The counters as they are kept on disk.
    pub open spec fn counters(self) -> PersistedState {
        PersistedState { next_id: self.next_id, next_cid: self.next_cid }
    }
}

/// The counters with which a daemon starts, given what was read from disk.
pub open spec fn restored(persisted: Option<PersistedState>) -> PersistedState {
    match persisted {
        Some(p) => PersistedState {
            next_id: if p.next_id > 1 {
                p.next_id
            } else {
                1
            },
            next_cid: if p.next_cid > 3 {
                p.next_cid
            } else {
                3
            },
        },
        None => PersistedState { next_id: 1, next_cid: 3 },
    }
}

/// Different numbers give different ids.
pub proof fn lemma_vm_name_injective(a: nat, b: nat)
    requires
        vm_name(a) == vm_name(b),
    ensures
        a == b,
{
    let pa = text::zero_padded(text::decimal(a), 4);
    let pb = text::zero_padded(text::decimal(b), 4);
    let p = "vm-"@;
    assert(vm_name(a).subrange(p.len() as int, vm_name(a).len() as int) =~= pa);
    assert(vm_name(b).subrange(p.len() as int, vm_name(b).len() as int) =~= pb);
    text::lemma_zero_padded_injective(a, b, 4);
}

/// The id given out next is not the id of any guest.
pub proof fn lemma_next_id_is_fresh(s: ServerView)
    requires
        s.wf(),
    ensures
        !s.vms.dom().contains(vm_name(s.next_id as nat)),
        !s.given_out(vm_name(s.next_id as nat)),
{
    if s.given_out(vm_name(s.next_id as nat)) {
        let n = choose|n: nat| 1 <= n < s.next_id && vm_name(s.next_id as nat) == #[trigger] vm_name(n);
        lemma_vm_name_injective(n, s.next_id as nat);
    }
}

impl ServerState {
    /// A daemon without guests. The counters go on from where they were left,
    /// where they are known. Context ids below 3 are reserved.
    pub fn new(state_file: Option<String>, persisted: Option<PersistedState>) -> (s: Self)
        ensures
            s@.wf(),
            s@.vms == Map::<Seq<char>, VmRecord>::empty(),
            s@.metrics == Map::<Seq<char>, VmMetrics>::empty(),
            s@.state_file == state_file,
            s@.counters() == restored(persisted),
    {
        let (id, cid): (u64, u64) = match persisted {
            Some(p) => (
                if p.next_id > 1 {
                    p.next_id
                } else {
                    1
                },
                if p.next_cid > 3 {
                    p.next_cid
                } else {
                    3
                },
            ),
            None => (1, 3),
        };
        ServerState {
            vms: StrMap::new(),
            next_id: id,
            next_cid: cid,
            metrics: StrMap::new(),
            state_file,
        }
    }

    /// Where the counters are kept, and what is to be written there.
    pub fn persist(&self) -> (r: Option<(&String, PersistedState)>)
        ensures
            r is Some <==> self@.state_file is Some,
            r matches Some((path, counters)) ==> *path == self@.state_file->0 && counters
                == self@.counters(),
    {
        match &self.state_file {
            Some(path) => Some(
                (path, PersistedState { next_id: self.next_id, next_cid: self.next_cid }),
            ),
            None => None,
        }
    }

    /// Whether another guest can be numbered.
    pub fn can_allocate(&self) -> (b: bool)
        ensures
            b == self@.has_room(),
    {
        self.next_id < u64::MAX && self.next_cid < u64::MAX
    }

    /// Gives out the next id.
    pub fn alloc_id(&mut self) -> (id: String)
        requires
            old(self)@.wf(),
            old(self)@.next_id < u64::MAX,
        ensures
            id@ == vm_name(old(self)@.next_id as nat),
            final(self)@ == (ServerView { next_id: (old(self)@.next_id + 1) as u64, ..old(self)@ }),
            final(self)@.wf(),
            final(self)@.given_out(id@),
            !old(self)@.vms.dom().contains(id@),
    {
        proof {
            lemma_next_id_is_fresh(self@);
        }
        let number = padded_decimal(self.next_id, 4);
        let id = cat2("vm-", number.as_str());
        let ghost before = self@;
        self.next_id = self.next_id + 1;
        proof {
            assert forall|k: Seq<char>| before.given_out(k) implies self@.given_out(k) by {
                let n = choose|n: nat| 1 <= n < before.next_id && k == #[trigger] vm_name(n);
                assert(k == vm_name(n));
            }
            assert(id@ == vm_name(before.next_id as nat));
        }
        id
    }
}

/// The counters that a daemon wrote are the ones with which it goes on, so that
/// no id or context id is given out twice across restarts.
pub proof fn lemma_counters_survive(s: ServerView)
    requires
        s.wf(),
    ensures
        restored(Some(s.counters())) == s.counters(),
{
}

fn guest_address(cid: u64) -> (s: String)
    requires
        cid >= 3,
    ensures
        s@ == guest_ip(cid as nat),
{
    let host_part: u64 = cid - 1;
    let high = decimal_string(host_part / 256);
    let low = decimal_string(host_part % 256);
    cat4("172.30.", high.as_str(), ".", low.as_str())
}

/// The control socket of the guest that runs as process `pid`.
pub fn per_vm_socket(pid: u32) -> (s: String)
    ensures
        s@ == socket_of(pid),
{
    let number = decimal_string(pid as u64);
    cat3("/tmp/clone-", number.as_str(), ".sock")
}

/// Two guests never share an address, nor does one have the gateway's.
pub proof fn lemma_guest_ip_injective(a: nat, b: nat)
    requires
        a >= 1,
        b >= 1,
        guest_ip(a) == guest_ip(b),
    ensures
        a == b,
{
    reveal_strlit("172.30.");
    reveal_strlit(".");
    let (ha, la) = (((a - 1) / 256) as nat, ((a - 1) % 256) as nat);
    let (hb, lb) = (((b - 1) / 256) as nat, ((b - 1) % 256) as nat);
    let (da, db) = (text::decimal(ha), text::decimal(hb));
    text::lemma_decimal_digits(ha);
    text::lemma_decimal_digits(hb);
    let (x, y) = (guest_ip(a), guest_ip(b));
    assert(x[7 + da.len() as int] == '.');
    assert(y[7 + db.len() as int] == '.');
    if da.len() < db.len() {
        assert(y[7 + da.len() as int] == db[da.len() as int]);
    } else if db.len() < da.len() {
        assert(x[7 + db.len() as int] == da[db.len() as int]);
    }
    assert(x.subrange(7, 7 + da.len() as int) =~= da);
    assert(y.subrange(7, 7 + db.len() as int) =~= db);
    assert(x.subrange(8 + da.len() as int, x.len() as int) =~= text::decimal(la));
    assert(y.subrange(8 + db.len() as int, y.len() as int) =~= text::decimal(lb));
    text::lemma_decimal_injective(ha, hb);
    text::lemma_decimal_injective(la, lb);
}

/// The first 65534 guests have an address inside the bridge's network, and none
/// of them has the gateway's.
pub proof fn lemma_guest_ip_in_network(cid: nat)
    requires
        3 <= cid <= 65536,
    ensures
        (cid - 1) / 256 < 256,
        (cid - 1) % 256 < 256,
        guest_ip(cid) != "172.30.0.1"@,
{
    assert("172.30.0.1"@ == guest_ip(2)) by {
        reveal_strlit("172.30.0.1");
        reveal_strlit("172.30.");
        reveal_strlit(".");
        reveal_with_fuel(text::decimal, 2);
        assert("172.30.0.1"@ =~= guest_ip(2));
    }
    if guest_ip(cid) == "172.30.0.1"@ {
        lemma_guest_ip_injective(cid, 2);
    }
}

/// How a guest is to be started.
#[allow(inconsistent_fields)]
#[derive(Debug)]
pub enum LaunchSource {
    /// Booted from a kernel.
    Kernel {
        kernel: String,
        initrd: Option<String>,
        cmdline: String,
        mem_mb: u32,
        vcpus: u32,
        rootfs: Option<String>,
        overlay: Option<String>,
        shared_dir: Option<String>,
        block: Option<String>,
        net: bool,
        tap: Option<String>,
        seccomp: bool,
        jail: Option<String>,
    },
    /// Forked from a template.
    Template {
        template_path: String,
        net: bool,
        shared_dir: Option<String>,
        mem_mb: Option<u32>,
        vcpus: Option<u32>,
        overlay_size: Option<String>,
    },
    /// Restored from its own snapshot.
    Saved { snapshot_path: String, net: bool, shared_dir: Option<String>, block: Option<String> },
}

/// A guest that is to be started.
#[derive(Debug)]
pub struct Launch {
    pub vm_id: String,
    /// Context id, by which the host addresses the guest.
    pub cid: u64,
    pub source: LaunchSource,
    pub memory_limit_mb: Option<u32>,
}

/// What the daemon does next on a request.
#[derive(Debug)]
pub enum Step {
    /// Answer.
    Reply(Response),
    /// Write the counters to disk, start a guest, and report how that went.
    Launch(Launch),
    /// Shut a guest down that is no longer tracked, kill the process that is to
    /// be killed then, remove its cgroup, log the event, and give the reply.
    Destroy { vm_id: String, pid: u32, socket: String, event: VmEvent, reply: Response },
    /// Ask a guest for its state, and report what it said.
    QueryStatus { vm_id: String, socket: String },
    /// Have a guest write a snapshot, and report how that went.
    Snapshot { socket: String, output_path: String },
    /// Collect metrics of the host, and report them.
    HostMetrics,
}

/// The request asks for another guest, which has to be numbered.
pub open spec fn starts_guest(req: Request) -> bool {
    req is CreateVm || req is ForkVm || req is RestoreVm
}

/// The kinds of requests that are told apart when they are timed.
pub open spec fn kind_of(req: Request) -> Seq<char> {
    match req {
        Request::ForkVm { .. } => "fork"@,
        Request::RestoreVm { .. } => "restore"@,
        Request::Snapshot { .. } => "snapshot"@,
        Request::CreateVm { .. } => "create"@,
        Request::DestroyVm { .. } => "destroy"@,
        Request::VmStatus { .. } => "status"@,
        Request::ListVms => "list"@,
        Request::Metrics { .. } => "metrics"@,
        _ => "other"@,
    }
}

/// The kind of a request.
pub fn request_kind(req: &Request) -> (s: String)
    ensures
        s@ == kind_of(*req),
{
    match req {
        Request::ForkVm { .. } => "fork".to_owned(),
        Request::RestoreVm { .. } => "restore".to_owned(),
        Request::Snapshot { .. } => "snapshot".to_owned(),
        Request::CreateVm { .. } => "create".to_owned(),
        Request::DestroyVm { .. } => "destroy".to_owned(),
        Request::VmStatus { .. } => "status".to_owned(),
        Request::ListVms => "list".to_owned(),
        Request::Metrics { .. } => "metrics".to_owned(),
        _ => "other".to_owned(),
    }
}

/// Records how long a request of the given kind took: forks and restores in one
/// histogram, snapshots in another, and no others.
pub fn record_timing(prom: &mut Metrics, kind: &str, nanos: u64)
    ensures
        final(prom)@ == (if kind@ == "fork"@ || kind@ == "restore"@ {
            MetricsView {
                fork_durations: old(prom)@.fork_durations.push(nanos),
                fork_total: prom::next(old(prom)@.fork_total),
                ..old(prom)@
            }
        } else if kind@ == "snapshot"@ {
            MetricsView {
                snapshot_durations: old(prom)@.snapshot_durations.push(nanos),
                snapshot_total: prom::next(old(prom)@.snapshot_total),
                ..old(prom)@
            }
        } else {
            old(prom)@
        }),
{
    if str_eq(kind, "fork") || str_eq(kind, "restore") {
        observe_fork_duration(prom, nanos);
    } else if str_eq(kind, "snapshot") {
        observe_snapshot_duration(prom, nanos);
    }
}

/// The answer where a guest is not tracked.
pub open spec fn not_found(vm_id: Seq<char>) -> Seq<char> {
    "VM not found: "@ + vm_id
}

/// The answer to requests that a guest's own socket has to take.
pub const PER_VM_ONLY: &'static str =
    "Use the per-VM control socket for pause/resume/shutdown/incremental-snapshot/live-migrate/exec/set-balloon/branch";

/// How long a guest has been running.
pub open spec fn uptime(now: u64, boot_time: u64) -> u64 {
    if now >= boot_time {
        (now - boot_time) as u64
    } else {
        0
    }
}

/// The numbers that starting a guest takes are used up.
pub open spec fn numbered(before: ServerView, after: ServerView) -> bool {
    after == (ServerView {
        next_id: (before.next_id + 1) as u64,
        next_cid: (before.next_cid + 1) as u64,
        ..before
    })
}

/// `launch` starts the next guest from `source`.
pub open spec fn launches(before: ServerView, launch: Launch, memory_limit_mb: Option<u32>) -> bool {
    &&& launch.vm_id@ == vm_name(before.next_id as nat)
    &&& launch.cid == before.next_cid
    &&& launch.memory_limit_mb == memory_limit_mb
}

/// The summary says what the record says.
pub open spec fn summarises(sum: VmSummary, record: VmRecord, now: u64) -> bool {
    &&& sum.vm_id == record.vm_id
    &&& sum.state@ == record.state.word()
    &&& sum.uptime_nanos == uptime(now, record.boot_time)
}

/// Each guest is in the list once.
pub open spec fn lists(vms: Seq<VmSummary>, known: Map<Seq<char>, VmRecord>, now: u64) -> bool {
    &&& vms.len() == known.dom().len()
    &&& forall|i: int|
        0 <= i < vms.len() ==> known.dom().contains((#[trigger] vms[i]).vm_id@) && summarises(
            vms[i],
            known[vms[i].vm_id@],
            now,
        )
    &&& forall|i: int, j: int|
        0 <= i < j < vms.len() ==> (#[trigger] vms[i]).vm_id@ != (#[trigger] vms[j]).vm_id@
}

/// A guest's metrics as a JSON object.
pub open spec fn metrics_json(j: Json, m: VmMetrics) -> bool {
    &&& j matches Json::Object(fields)
    &&& fields@.len() == 2
    &&& fields@[0].0@ == "private_rss_bytes"@
    &&& fields@[0].1 == Json::Nat(m.private_rss_bytes)
    &&& fields@[1].0@ == "shared_rss_bytes"@
    &&& fields@[1].1 == Json::Nat(m.shared_rss_bytes)
}

/// What the daemon does first on a request: `before` and `after` are its state,
/// `p0` and `p1` its metrics.
pub open spec fn begun(
    req: Request,
    now: u64,
    before: ServerView,
    after: ServerView,
    p0: MetricsView,
    p1: MetricsView,
    step: Step,
) -> bool {
    match req {
        Request::CreateVm {
            kernel,
            initrd,
            cmdline,
            mem_mb,
            vcpus,
            rootfs,
            overlay,
            shared_dir,
            block,
            net,
            tap,
            seccomp,
            jail,
            memory_limit_mb,
        } => {
            &&& numbered(before, after)
            &&& p1 == p0
            &&& step matches Step::Launch(launch)
            &&& launches(before, launch, memory_limit_mb)
            &&& launch.source is Kernel
            &&& launch.source == (LaunchSource::Kernel {
                kernel,
                initrd,
                cmdline: launch.source->cmdline,
                mem_mb,
                vcpus,
                rootfs,
                overlay,
                shared_dir,
                block,
                net,
                tap,
                seccomp,
                jail,
            })
            &&& launch.source->cmdline@ == full_cmdline(cmdline@, net, before.next_cid as nat)
        },
        Request::ForkVm {
            template_path,
            net,
            shared_dir,
            mem_mb,
            vcpus,
            overlay_size,
            memory_limit_mb,
        } => {
            &&& numbered(before, after)
            &&& p1 == p0
            &&& step matches Step::Launch(launch)
            &&& launches(before, launch, memory_limit_mb)
            &&& launch.source == (LaunchSource::Template {
                template_path,
                net,
                shared_dir,
                mem_mb,
                vcpus,
                overlay_size,
            })
        },
        Request::RestoreVm { snapshot_path, net, shared_dir, block, memory_limit_mb } => {
            &&& numbered(before, after)
            &&& p1 == p0
            &&& step matches Step::Launch(launch)
            &&& launches(before, launch, memory_limit_mb)
            &&& launch.source == (LaunchSource::Saved { snapshot_path, net, shared_dir, block })
        },
        Request::DestroyVm { vm_id } => if before.vms.dom().contains(vm_id@) {
            &&& after == (ServerView {
                vms: before.vms.remove(vm_id@),
                metrics: before.metrics.remove(vm_id@),
                ..before
            })
            &&& p1 == (MetricsView {
                vm_memory: p0.vm_memory.remove(prom::label_slot(seq![vm_id@])),
                vm_count: as_gauge(after.vms.dom().len()),
                ..p0
            })
            &&& step matches Step::Destroy { vm_id: id, pid, socket, event, reply }
            &&& id == vm_id
            &&& pid == before.vms[vm_id@].pid
            &&& socket@ == socket_of(pid)
            &&& event matches VmEvent::Shutdown { vm_id: gone }
            &&& gone == vm_id
            &&& reply == (Response::Success { body: ResponseBody::Ack })
        } else {
            &&& after == before
            &&& p1 == p0
            &&& step matches Step::Reply(Response::Error { message })
            &&& message@ == not_found(vm_id@)
        },
        Request::VmStatus { vm_id } => {
            &&& after == before
            &&& p1 == p0
            &&& if before.vms.dom().contains(vm_id@) {
                &&& step matches Step::QueryStatus { vm_id: id, socket }
                &&& id == vm_id
                &&& socket@ == socket_of(before.vms[vm_id@].pid)
            } else {
                &&& step matches Step::Reply(Response::Error { message })
                &&& message@ == not_found(vm_id@)
            }
        },
        Request::ListVms => {
            &&& after == before
            &&& p1 == p0
            &&& step matches Step::Reply(Response::Success { body })
            &&& body matches ResponseBody::VmList { vms }
            &&& lists(vms@, before.vms, now)
        },
        Request::Snapshot { vm_id, output_path } => {
            &&& after == before
            &&& p1 == p0
            &&& if before.vms.dom().contains(vm_id@) {
                &&& step matches Step::Snapshot { socket, output_path: out }
                &&& out == output_path
                &&& socket@ == socket_of(before.vms[vm_id@].pid)
            } else {
                &&& step matches Step::Reply(Response::Error { message })
                &&& message@ == not_found(vm_id@)
            }
        },
        Request::Metrics { vm_id } => {
            &&& after == before
            &&& p1 == p0
            &&& if vm_id@ == "_host"@ {
                step is HostMetrics
            } else if before.metrics.dom().contains(vm_id@) {
                &&& step matches Step::Reply(Response::Success { body })
                &&& body matches ResponseBody::Metrics { metrics }
                &&& metrics_json(metrics, before.metrics[vm_id@])
            } else {
                &&& step matches Step::Reply(Response::Error { message })
                &&& message@ == "No metrics for VM: "@ + vm_id@
            }
        },
        _ => {
            &&& after == before
            &&& p1 == p0
            &&& step matches Step::Reply(Response::Error { message })
            &&& message@ == PER_VM_ONLY@
        },
    }
}

/// A number of guests as the value of a gauge, which has a greatest value.
pub open spec fn as_gauge(n: nat) -> i64 {
    if n <= i64::MAX {
        n as i64
    } else {
        i64::MAX
    }
}

fn gauge_value(n: usize) -> (v: i64)
    ensures
        v == as_gauge(n as nat),
{
    if n as u64 <= 0x7fff_ffff_ffff_ffff {
        n as i64
    } else {
        0x7fff_ffff_ffff_ffff
    }
}

fn error_reply(prefix: &str, what: &str) -> (s: Step)
    ensures
        s matches Step::Reply(Response::Error { message }) && message@ == prefix@ + what@,
{
    Step::Reply(Response::Error { message: cat2(prefix, what) })
}

fn metrics_object(m: &VmMetrics) -> (j: Json)
    ensures
        metrics_json(j, *m),
{
    let mut fields: Vec<(String, Json)> = Vec::new();
    fields.push(("private_rss_bytes".to_owned(), Json::Nat(m.private_rss_bytes)));
    fields.push(("shared_rss_bytes".to_owned(), Json::Nat(m.shared_rss_bytes)));
    Json::Object(fields)
}

impl ServerState {
    /// The context id given out next, which is then used up.
    fn alloc_cid(&mut self) -> (cid: u64)
        requires
            old(self)@.wf(),
            old(self)@.next_cid < u64::MAX,
        ensures
            cid == old(self)@.next_cid,
            final(self)@ == (ServerView {
                next_cid: (old(self)@.next_cid + 1) as u64,
                ..old(self)@
            }),
            final(self)@.wf(),
            forall|k: Seq<char>| #[trigger] old(self)@.given_out(k) ==> final(self)@.given_out(k),
    {
        let cid: u64 = self.next_cid;
        let ghost before = self@;
        self.next_cid = self.next_cid + 1;
        proof {
            assert forall|k: Seq<char>| before.given_out(k) implies self@.given_out(k) by {
                let n = choose|n: nat| 1 <= n < before.next_id && k == #[trigger] vm_name(n);
                assert(k == vm_name(n));
            }
        }
        cid
    }

    fn list(&self, now: u64) -> (vms: Vec<VmSummary>)
        requires
            self@.wf(),
        ensures
            lists(vms@, self@.vms, now),
    {
        let mut vms: Vec<VmSummary> = Vec::new();
        let n: usize = self.vms.len();
        let mut i: usize = 0;
        while i < n
            invariant
                i <= n == self.vms.keys().len(),
                self@.wf(),
                self.vms@ == self@.vms,
                vms@.len() == i,
                forall|j: int|
                    0 <= j < i ==> (#[trigger] vms@[j]).vm_id@ == self.vms.keys()[j]
                        && self@.vms.dom().contains(vms@[j].vm_id@) && summarises(
                        vms@[j],
                        self@.vms[vms@[j].vm_id@],
                        now,
                    ),
            decreases n - i,
        {
            let record = self.vms.value_at(i);
            assert(record.vm_id@ == self.vms.keys()[i as int]);
            vms.push(
                VmSummary {
                    vm_id: record.vm_id.clone(),
                    state: record.state.as_str().to_owned(),
                    uptime_nanos: if now >= record.boot_time {
                        now - record.boot_time
                    } else {
                        0
                    },
                },
            );
            i = i + 1;
        }
        vms
    }

    fn forget(&mut self, vm_id: String, prom: &mut Metrics) -> (step: Step)
        requires
            old(self)@.wf(),
        ensures
            final(self)@.wf(),
            begun(
                Request::DestroyVm { vm_id },
                0,
                old(self)@,
                final(self)@,
                old(prom)@,
                final(prom)@,
                step,
            ),
    {
        let ghost before = self@;
        match self.vms.remove(vm_id.as_str()) {
            Some(record) => {
                self.metrics.remove(vm_id.as_str());
                proof {
                    assert(self@.vms == before.vms.remove(vm_id@));
                    assert(self@.metrics == before.metrics.remove(vm_id@));
                    assert forall|k: Seq<char>| #[trigger] self@.vms.dom().contains(k) implies self@.given_out(
                        k,
                    ) by {
                        assert(before.vms.dom().contains(k));
                        let n = choose|n: nat| 1 <= n < before.next_id && k == #[trigger] vm_name(n);
                        assert(k == vm_name(n));
                    }
                }
                remove_vm_memory(prom, vm_id.as_str());
                set_vm_count(prom, gauge_value(self.vms.len()));
                let socket = per_vm_socket(record.pid);
                let event = VmEvent::Shutdown { vm_id: vm_id.clone() };
                let reply = Response::Success { body: ResponseBody::Ack };
                Step::Destroy { vm_id, pid: record.pid, socket, event, reply }
            },
            None => {
                assert(self@.vms == before.vms);
                error_reply("VM not found: ", vm_id.as_str())
            },
        }
    }

    /// Takes a request in. What it needs done outside comes back as a step;
    /// `now` is the time on the clock of the boot times.
    pub fn begin(&mut self, req: Request, now: u64, prom: &mut Metrics) -> (step: Step)
        requires
            old(self)@.wf(),
            starts_guest(req) ==> old(self)@.has_room(),
        ensures
            final(self)@.wf(),
            begun(req, now, old(self)@, final(self)@, old(prom)@, final(prom)@, step),
            step matches Step::Launch(launch) ==> final(self)@.given_out(launch.vm_id@),
    {
        match req {
            Request::CreateVm {
                kernel,
                initrd,
                cmdline,
                mem_mb,
                vcpus,
                rootfs,
                overlay,
                shared_dir,
                block,
                net,
                tap,
                seccomp,
                jail,
                memory_limit_mb,
            } => {
                let vm_id = self.alloc_id();
                let cid: u64 = self.alloc_cid();
                let mut full = cat2(cmdline.as_str(), " clone.agent_port=9999");
                if net {
                    let ip = guest_address(cid);
                    full.append(" clone.net_ip=");
                    full.append(ip.as_str());
                    full.append(" clone.net_gw=172.30.0.1 clone.net_mask=16");
                }
                Step::Launch(
                    Launch {
                        vm_id,
                        cid,
                        source: LaunchSource::Kernel {
                            kernel,
                            initrd,
                            cmdline: full,
                            mem_mb,
                            vcpus,
                            rootfs,
                            overlay,
                            shared_dir,
                            block,
                            net,
                            tap,
                            seccomp,
                            jail,
                        },
                        memory_limit_mb,
                    },
                )
            },
            Request::ForkVm {
                template_path,
                net,
                shared_dir,
                mem_mb,
                vcpus,
                overlay_size,
                memory_limit_mb,
            } => {
                let vm_id = self.alloc_id();
                let cid: u64 = self.alloc_cid();
                Step::Launch(
                    Launch {
                        vm_id,
                        cid,
                        source: LaunchSource::Template {
                            template_path,
                            net,
                            shared_dir,
                            mem_mb,
                            vcpus,
                            overlay_size,
                        },
                        memory_limit_mb,
                    },
                )
            },
            Request::RestoreVm { snapshot_path, net, shared_dir, block, memory_limit_mb } => {
                let vm_id = self.alloc_id();
                let cid: u64 = self.alloc_cid();
                Step::Launch(
                    Launch {
                        vm_id,
                        cid,
                        source: LaunchSource::Saved { snapshot_path, net, shared_dir, block },
                        memory_limit_mb,
                    },
                )
            },
            Request::DestroyVm { vm_id } => self.forget(vm_id, prom),
            Request::VmStatus { vm_id } => match self.vms.get(vm_id.as_str()) {
                Some(record) => {
                    let socket = per_vm_socket(record.pid);
                    Step::QueryStatus { vm_id, socket }
                },
                None => error_reply("VM not found: ", vm_id.as_str()),
            },
            Request::ListVms => {
                let vms = self.list(now);
                Step::Reply(Response::Success { body: ResponseBody::VmList { vms } })
            },
            Request::Snapshot { vm_id, output_path } => match self.vms.get(vm_id.as_str()) {
                Some(record) => {
                    let socket = per_vm_socket(record.pid);
                    Step::Snapshot { socket, output_path }
                },
                None => error_reply("VM not found: ", vm_id.as_str()),
            },
            Request::Metrics { vm_id } => {
                if str_eq(vm_id.as_str(), "_host") {
                    return Step::HostMetrics;
                }
                match self.metrics.get(vm_id.as_str()) {
                    Some(m) => Step::Reply(
                        Response::Success { body: ResponseBody::Metrics { metrics: metrics_object(m) } },
                    ),
                    None => error_reply("No metrics for VM: ", vm_id.as_str()),
                }
            },
            _ => Step::Reply(Response::Error { message: PER_VM_ONLY.to_owned() }),
        }
    }
}

/// The record of a guest that was just started.
pub open spec fn started_record(
    r: VmRecord,
    launch: Launch,
    pid: u32,
    cgroup_path: Option<String>,
    now: u64,
) -> bool {
    &&& r.vm_id == launch.vm_id
    &&& r.pid == pid
    &&& r.state == VmState::Running
    &&& r.boot_time == now
    &&& r.cgroup_path == cgroup_path
    &&& r.memory_limit_mb == launch.memory_limit_mb
    &&& match launch.source {
        LaunchSource::Kernel { kernel, initrd, cmdline, mem_mb, vcpus, .. } => r.config == (
        VmRecordConfig { kernel, initrd, cmdline, mem_mb, vcpus }),
        _ => {
            &&& r.config.kernel@.len() == 0
            &&& r.config.initrd is None
            &&& r.config.cmdline@.len() == 0
            &&& r.config.mem_mb == 0
            &&& r.config.vcpus == 0
        },
    }
}

/// What went wrong when a guest was to be started.
pub open spec fn launch_failure(source: LaunchSource) -> Seq<char> {
    match source {
        LaunchSource::Kernel { .. } => "Failed to spawn VM: "@,
        LaunchSource::Template { .. } => "Fork failed: "@,
        LaunchSource::Saved { .. } => "Restore failed: "@,
    }
}

/// The event of a guest's start: a template that was used, or a boot.
pub open spec fn start_event(e: VmEvent, launch: Launch) -> bool {
    match launch.source {
        LaunchSource::Template { template_path, .. } => e == (VmEvent::TemplateHit {
            vm_id: launch.vm_id,
            template: template_path,
        }),
        _ => e == (VmEvent::Boot { vm_id: launch.vm_id }),
    }
}

/// What becomes of a launch once the guest's process was started, or was not.
pub open spec fn launched(
    launch: Launch,
    spawned: Result<u32, String>,
    cgroup_path: Option<String>,
    now: u64,
    before: ServerView,
    after: ServerView,
    p0: MetricsView,
    p1: MetricsView,
    answer: (Response, Option<VmEvent>),
) -> bool {
    match spawned {
        Ok(pid) => {
            &&& after.vms.dom() == before.vms.dom().insert(launch.vm_id@)
            &&& after.vms == before.vms.insert(launch.vm_id@, after.vms[launch.vm_id@])
            &&& started_record(after.vms[launch.vm_id@], launch, pid, cgroup_path, now)
            &&& after == (ServerView {
                vms: after.vms,
                metrics: before.metrics.insert(
                    launch.vm_id@,
                    VmMetrics { private_rss_bytes: 0, shared_rss_bytes: 0 },
                ),
                ..before
            })
            &&& p1 == (MetricsView { vm_count: as_gauge(after.vms.dom().len()), ..p0 })
            &&& answer.0 == (Response::Success {
                body: ResponseBody::VmCreated { vm_id: launch.vm_id, pid },
            })
            &&& answer.1 is Some
            &&& start_event(answer.1->0, launch)
        },
        Err(e) => {
            &&& after == before
            &&& p1 == p0
            &&& answer.0 matches Response::Error { message }
            &&& message@ == launch_failure(launch.source) + e@
            &&& answer.1 is None
        },
    }
}

impl ServerState {
    /// Completes a launch. `spawned` is the guest's process or why there is
    /// none, and `cgroup_path` its cgroup, if one was made. The event, if any, is
    /// to be logged.
    pub fn finish_launch(
        &mut self,
        launch: Launch,
        spawned: Result<u32, String>,
        cgroup_path: Option<String>,
        now: u64,
        prom: &mut Metrics,
    ) -> (answer: (Response, Option<VmEvent>))
        requires
            old(self)@.wf(),
            old(self)@.given_out(launch.vm_id@),
        ensures
            final(self)@.wf(),
            launched(
                launch,
                spawned,
                cgroup_path,
                now,
                old(self)@,
                final(self)@,
                old(prom)@,
                final(prom)@,
                answer,
            ),
    {
        let ghost before = self@;
        let ghost id = launch.vm_id@;
        match spawned {
            Ok(pid) => {
                let vm_id = launch.vm_id.clone();
                let (config, event) = match launch.source {
                    LaunchSource::Kernel { kernel, initrd, cmdline, mem_mb, vcpus, .. } => (
                        VmRecordConfig { kernel, initrd, cmdline, mem_mb, vcpus },
                        VmEvent::Boot { vm_id: vm_id.clone() },
                    ),
                    LaunchSource::Template { template_path, .. } => (
                        no_config(),
                        VmEvent::TemplateHit { vm_id: vm_id.clone(), template: template_path },
                    ),
                    LaunchSource::Saved { .. } => (
                        no_config(),
                        VmEvent::Boot { vm_id: vm_id.clone() },
                    ),
                };
                let record = VmRecord {
                    vm_id: launch.vm_id,
                    pid,
                    state: VmState::Running,
                    boot_time: now,
                    config,
                    cgroup_path,
                    memory_limit_mb: launch.memory_limit_mb,
                };
                self.vms.insert(vm_id.clone(), record);
                self.metrics.insert(vm_id.clone(), VmMetrics::default());
                let n: usize = self.vms.len();
                set_vm_count(prom, gauge_value(n));
                proof {
                    assert(self@.metrics == before.metrics.insert(
                        id,
                        VmMetrics { private_rss_bytes: 0, shared_rss_bytes: 0 },
                    ));
                    assert forall|k: Seq<char>| before.given_out(k) implies self@.given_out(k) by {
                        let n = choose|n: nat| 1 <= n < before.next_id && k == #[trigger] vm_name(n);
                        assert(k == vm_name(n));
                    }
                }
                (Response::Success { body: ResponseBody::VmCreated { vm_id, pid } }, Some(event))
            },
            Err(e) => {
                let prefix = match launch.source {
                    LaunchSource::Kernel { .. } => "Failed to spawn VM: ",
                    LaunchSource::Template { .. } => "Fork failed: ",
                    LaunchSource::Saved { .. } => "Restore failed: ",
                };
                (Response::Error { message: cat2(prefix, e.as_str()) }, None)
            },
        }
    }

    /// Answers a request for a guest's status. `live` is what the guest said of
    /// itself, if it did; where it said no state, the last one known is given.
    pub fn finish_status(&self, vm_id: &str, live: Option<Response>, now: u64) -> (r: Response)
        requires
            self@.wf(),
        ensures
            if self@.vms.dom().contains(vm_id@) {
                let record = self@.vms[vm_id@];
                &&& r matches Response::Success { body }
                &&& body matches ResponseBody::VmStatus { state, uptime_nanos, memory_usage_bytes }
                &&& state@ == live_state(live, record)
                &&& uptime_nanos == uptime(now, record.boot_time)
                &&& memory_usage_bytes == (if self@.metrics.dom().contains(vm_id@) {
                    self@.metrics[vm_id@].private_rss_bytes
                        + self@.metrics[vm_id@].shared_rss_bytes
                } else {
                    0
                })
            } else {
                r matches Response::Error { message } && message@ == not_found(vm_id@)
            },
    {
        match self.vms.get(vm_id) {
            Some(record) => {
                let state = match live {
                    Some(
                        Response::Success { body: ResponseBody::VmStatus { state, .. } },
                    ) => state,
                    _ => record.state.as_str().to_owned(),
                };
                let memory_usage_bytes: u64 = match self.metrics.get(vm_id) {
                    Some(m) => {
                        assert(self@.metrics.dom().contains(vm_id@));
                        m.private_rss_bytes + m.shared_rss_bytes
                    },
                    None => 0,
                };
                let uptime_nanos: u64 = if now >= record.boot_time {
                    now - record.boot_time
                } else {
                    0
                };
                Response::Success {
                    body: ResponseBody::VmStatus { state, uptime_nanos, memory_usage_bytes },
                }
            },
            None => Response::Error { message: cat2("VM not found: ", vm_id) },
        }
    }

    /// The process of a guest.
    pub fn pid_of(&self, vm_id: &str) -> (r: Option<u32>)
        ensures
            r == (if self@.vms.dom().contains(vm_id@) {
                Some(self@.vms[vm_id@].pid)
            } else {
                None
            }),
    {
        match self.vms.get(vm_id) {
            Some(record) => Some(record.pid),
            None => None,
        }
    }
}

/// The state to report of a guest: the one it gave in its own status, or else
/// the one recorded.
pub open spec fn live_state(live: Option<Response>, record: VmRecord) -> Seq<char> {
    match live {
        Some(Response::Success { body: ResponseBody::VmStatus { state, .. } }) => state@,
        _ => record.state.word(),
    }
}

fn no_config() -> (c: VmRecordConfig)
    ensures
        c.kernel@.len() == 0,
        c.initrd is None,
        c.cmdline@.len() == 0,
        c.mem_mb == 0,
        c.vcpus == 0,
{
    VmRecordConfig {
        kernel: String::new(),
        initrd: None,
        cmdline: String::new(),
        mem_mb: 0,
        vcpus: 0,
    }
}

/// The process to be killed, given whether the guest could be asked to shut down:
/// its own process exactly where it could not.
pub fn after_shutdown(shutdown_ok: bool, pid: u32) -> (kill: Option<u32>)
    ensures
        kill == (if shutdown_ok {
            None
        } else {
            Some(pid)
        }),
{
    if shutdown_ok {
        None
    } else {
        Some(pid)
    }
}

/// What a guest's answer to a status request says, in the daemon's own terms. A
/// guest answers with the state it is in; how long it has run and what memory it
/// uses the daemon knows itself.
pub fn query_vm_status(answer: Response) -> (r: Response)
    ensures
        match answer {
            Response::Success { body: ResponseBody::Status { state, pid, vcpus } } => r == (
            Response::Success {
                body: ResponseBody::VmStatus { state, uptime_nanos: 0, memory_usage_bytes: 0 },
            }),
            _ => r == answer,
        },
{
    match answer {
        Response::Success { body: ResponseBody::Status { state, pid: _, vcpus: _ } } => {
            Response::Success {
                body: ResponseBody::VmStatus { state, uptime_nanos: 0, memory_usage_bytes: 0 },
            }
        },
        other => other,
    }
}

/// Answers a snapshot request with what the guest answered, or with why it could
/// not be asked.
pub fn finish_snapshot(result: Result<Response, String>) -> (r: Response)
    ensures
        match result {
            Ok(resp) => r == resp,
            Err(e) => r matches Response::Error { message } && message@ == "Snapshot failed: "@
                + e@,
        },
{
    match result {
        Ok(resp) => resp,
        Err(e) => Response::Error { message: cat2("Snapshot failed: ", e.as_str()) },
    }
}

/// Answers a request for metrics of the host.
pub fn finish_host_metrics(metrics: Json) -> (r: Response)
    ensures
        r == (Response::Success { body: ResponseBody::Metrics { metrics } }),
{
    Response::Success { body: ResponseBody::Metrics { metrics } }
}

/// After each step that changes which guests there are, the gauge shows how many
/// there are; steps that do not, leave both as they were.
pub proof fn lemma_gauge_follows_guests(
    req: Request,
    now: u64,
    before: ServerView,
    after: ServerView,
    p0: MetricsView,
    p1: MetricsView,
    step: Step,
)
    requires
        begun(req, now, before, after, p0, p1, step),
        p0.vm_count == as_gauge(before.vms.dom().len()),
    ensures
        p1.vm_count == as_gauge(after.vms.dom().len()),
{
}

/// The same holds when a launch is completed.
pub proof fn lemma_gauge_follows_launch(
    launch: Launch,
    spawned: Result<u32, String>,
    cgroup_path: Option<String>,
    now: u64,
    before: ServerView,
    after: ServerView,
    p0: MetricsView,
    p1: MetricsView,
    answer: (Response, Option<VmEvent>),
)
    requires
        launched(launch, spawned, cgroup_path, now, before, after, p0, p1, answer),
        p0.vm_count == as_gauge(before.vms.dom().len()),
    ensures
        p1.vm_count == as_gauge(after.vms.dom().len()),
{
}

/// A guest that is started has an id and a context id that no guest had before,
/// and what was given out stays given out, whatever the request.
pub proof fn lemma_launch_is_new(
    req: Request,
    now: u64,
    before: ServerView,
    after: ServerView,
    p0: MetricsView,
    p1: MetricsView,
    step: Step,
)
    requires
        before.wf(),
        starts_guest(req) ==> before.has_room(),
        begun(req, now, before, after, p0, p1, step),
    ensures
        before.next_id <= after.next_id,
        before.next_cid <= after.next_cid,
        forall|k: Seq<char>| #[trigger] before.given_out(k) ==> after.given_out(k),
        step matches Step::Launch(launch) ==> {
            &&& !before.given_out(launch.vm_id@)
            &&& after.given_out(launch.vm_id@)
            &&& before.next_cid <= launch.cid < after.next_cid
        },
{
    lemma_next_id_is_fresh(before);
    assert forall|k: Seq<char>| #[trigger] before.given_out(k) implies after.given_out(k) by {
        let n = choose|n: nat| 1 <= n < before.next_id && k == #[trigger] vm_name(n);
        assert(k == vm_name(n));
    }
    if starts_guest(req) {
        assert(vm_name(before.next_id as nat) == step->Launch_0.vm_id@);
    }
}

/// A guest that was created and then destroyed leaves the other guests as they
/// were, and its numbers are not given out again.
pub proof fn lemma_create_then_destroy(
    req: Request,
    now: u64,
    s0: ServerView,
    s1: ServerView,
    s2: ServerView,
    s3: ServerView,
    p0: MetricsView,
    p1: MetricsView,
    p2: MetricsView,
    p3: MetricsView,
    launch: Launch,
    pid: u32,
    cgroup_path: Option<String>,
    answer: (Response, Option<VmEvent>),
    vm_id: String,
    step: Step,
)
    requires
        s0.wf(),
        s0.has_room(),
        begun(req, now, s0, s1, p0, p1, Step::Launch(launch)),
        launched(launch, Ok(pid), cgroup_path, now, s1, s2, p1, p2, answer),
        vm_id@ == launch.vm_id@,
        begun(Request::DestroyVm { vm_id }, now, s2, s3, p2, p3, step),
    ensures
        s3.vms == s0.vms,
        s3.next_id == s0.next_id + 1,
        s3.next_cid == s0.next_cid + 1,
        step matches Step::Destroy { pid: gone, .. } && gone == pid,
{
    lemma_next_id_is_fresh(s0);
    assert(s3.vms =~= s0.vms);
}

/// Where a client reaches the daemon.
#[derive(Debug)]
pub struct ControlClient {
    socket_path: String,
}

impl ControlClient {
    /// The socket on which the daemon listens.
    pub closed spec fn socket(self) -> Seq<char> {
        self.socket_path@
    }

    /// A client of the daemon that listens on `socket_path`.
    pub fn new(socket_path: String) -> (c: Self)
        ensures
            c.socket() == socket_path@,
    {
        ControlClient { socket_path }
    }

    /// The socket on which the daemon listens.
    pub fn socket_path(&self) -> (s: &String)
        ensures
            s@ == self.socket(),
    {
        &self.socket_path
    }
}

} // verus!
