//! The daemon: starting guests, tracking them, and stopping them.
use vstd::prelude::*;

use crate::prometheus_metrics::Metrics;
use crate::prom;
use crate::protocol::{Json, Request, Response, ResponseBody, VmEvent, VmSummary};
use crate::server;
use crate::server::{
    after_shutdown, finish_host_metrics, finish_snapshot, query_vm_status, record_timing,
    request_kind, Launch, PersistedState, ServerState, Step, VmState,
};
use crate::sync_server::{dispatch, GuestInfo, PauseState, Turn};
use crate::text;

verus! {

/// A boot carries all that its request asked for. The kernel's command line begins
/// with the one of the request, and tells the guest where its agent listens and,
/// with a network, its address and gateway.
pub proof fn lemma_boot_carries_the_request(
    s: &mut ServerState,
    req: Request,
    now: u64,
    prom: &mut Metrics,
    step: Step,
)
    requires
        req is CreateVm,
        call_ensures(ServerState::begin, (s, req, now, prom), step),
    ensures
        step is Launch,
        ({
            let launch = step->Launch_0;
            let from = launch.source;
            &&& from is Kernel
            &&& from->Kernel_kernel == req->CreateVm_kernel
            &&& from->Kernel_initrd == req->CreateVm_initrd
            &&& from->Kernel_mem_mb == req->CreateVm_mem_mb
            &&& from->Kernel_vcpus == req->CreateVm_vcpus
            &&& from->Kernel_rootfs == req->CreateVm_rootfs
            &&& from->Kernel_overlay == req->CreateVm_overlay
            &&& from->Kernel_shared_dir == req->CreateVm_shared_dir
            &&& from->Kernel_block == req->CreateVm_block
            &&& from->Kernel_net == req->CreateVm_net
            &&& from->Kernel_tap == req->CreateVm_tap
            &&& from->Kernel_seccomp == req->CreateVm_seccomp
            &&& from->Kernel_jail == req->CreateVm_jail
            &&& launch.memory_limit_mb == req->CreateVm_memory_limit_mb
            &&& !req->CreateVm_net ==> from->Kernel_cmdline@ == req->CreateVm_cmdline@
                + " clone.agent_port=9999"@
            &&& req->CreateVm_net ==> exists|high: nat, low: nat|
                {
                    &&& low < 256
                    &&& high * 256 + low + 1 == launch.cid
                    &&& from->Kernel_cmdline@ == req->CreateVm_cmdline@
                        + " clone.agent_port=9999"@ + " clone.net_ip="@ + ("172.30."@
                        + #[trigger] text::decimal(high) + "."@ + #[trigger] text::decimal(low))
                        + " clone.net_gw=172.30.0.1 clone.net_mask=16"@
                }
        }),
        old(s)@.wf() ==> step->Launch_0.cid >= 3,
{
    if req->CreateVm_net {
        let cid = step->Launch_0.cid;
        if cid >= 1 {
            let high = ((cid - 1) / 256) as nat;
            let low = ((cid - 1) % 256) as nat;
            assert(high * 256 + low + 1 == cid);
            let (a, b) = (text::decimal(high), text::decimal(low));
        }
    }
}

/// A fork carries all that its request asked for: the template, the network, the
/// shared directory, and the sizes where they are given.
pub proof fn lemma_fork_carries_the_request(
    s: &mut ServerState,
    req: Request,
    now: u64,
    prom: &mut Metrics,
    step: Step,
)
    requires
        req is ForkVm,
        call_ensures(ServerState::begin, (s, req, now, prom), step),
    ensures
        step is Launch,
        ({
            let launch = step->Launch_0;
            let from = launch.source;
            &&& from is Template
            &&& from->Template_template_path == req->ForkVm_template_path
            &&& from->Template_net == req->ForkVm_net
            &&& from->Template_shared_dir == req->ForkVm_shared_dir
            &&& from->Template_mem_mb == req->ForkVm_mem_mb
            &&& from->Template_vcpus == req->ForkVm_vcpus
            &&& from->Template_overlay_size == req->ForkVm_overlay_size
            &&& launch.memory_limit_mb == req->ForkVm_memory_limit_mb
        }),
{
}

/// A restore carries all that its request asked for: the snapshot, the network, the
/// shared directory and the disk.
pub proof fn lemma_restore_carries_the_request(
    s: &mut ServerState,
    req: Request,
    now: u64,
    prom: &mut Metrics,
    step: Step,
)
    requires
        req is RestoreVm,
        call_ensures(ServerState::begin, (s, req, now, prom), step),
    ensures
        step is Launch,
        ({
            let launch = step->Launch_0;
            let from = launch.source;
            &&& from is Saved
            &&& from->Saved_snapshot_path == req->RestoreVm_snapshot_path
            &&& from->Saved_net == req->RestoreVm_net
            &&& from->Saved_shared_dir == req->RestoreVm_shared_dir
            &&& from->Saved_block == req->RestoreVm_block
            &&& launch.memory_limit_mb == req->RestoreVm_memory_limit_mb
        }),
{
}

/// Guests are numbered one after the other: each launch takes the next id and the
/// next context id, and nothing else of the daemon's state changes yet.
pub proof fn lemma_launches_are_numbered(
    s: &mut ServerState,
    req: Request,
    now: u64,
    prom: &mut Metrics,
    step: Step,
)
    requires
        old(s)@.wf(),
        old(s)@.has_room(),
        call_ensures(ServerState::begin, (s, req, now, prom), step),
        step is Launch,
    ensures
        step->Launch_0.cid == old(s)@.next_cid,
        step->Launch_0.vm_id@ == "vm-"@ + text::zero_padded(
            text::decimal(old(s)@.next_id as nat),
            4,
        ),
        !old(s)@.vms.dom().contains(step->Launch_0.vm_id@),
        final(s)@.next_id == old(s)@.next_id + 1,
        final(s)@.next_cid == old(s)@.next_cid + 1,
        final(s)@.vms == old(s)@.vms,
        final(s)@.metrics == old(s)@.metrics,
        final(s)@.state_file == old(s)@.state_file,
        final(prom)@ == old(prom)@,
{
    server::lemma_next_id_is_fresh(old(s)@);
}

/// Two launches, one after the other, never share an id or a context id.
pub proof fn lemma_two_launches_differ(
    s: &mut ServerState,
    t: &mut ServerState,
    r1: Request,
    r2: Request,
    now: u64,
    p1: &mut Metrics,
    p2: &mut Metrics,
    a: Launch,
    b: Launch,
)
    requires
        old(s)@.wf(),
        old(s)@.has_room(),
        call_ensures(ServerState::begin, (s, r1, now, p1), Step::Launch(a)),
        old(t)@.next_id >= final(s)@.next_id,
        old(t)@.next_cid >= final(s)@.next_cid,
        old(t)@.wf(),
        old(t)@.has_room(),
        call_ensures(ServerState::begin, (t, r2, now, p2), Step::Launch(b)),
    ensures
        a.vm_id@ != b.vm_id@,
        a.cid < b.cid,
{
    if a.vm_id@ == b.vm_id@ {
        server::lemma_vm_name_injective(old(s)@.next_id as nat, old(t)@.next_id as nat);
    }
}

/// The id of a guest is told apart from its process: `vm-` and at least four
/// digits, which are its number.
pub proof fn lemma_ids_are_padded(s: &mut ServerState, id: String)
    requires
        old(s)@.wf(),
        old(s)@.next_id < u64::MAX,
        call_ensures(ServerState::alloc_id, (s,), id),
    ensures
        old(s)@.next_id < 10 ==> id@ == "vm-"@ + seq!['0', '0', '0'] + text::decimal(
            old(s)@.next_id as nat,
        ),
        id@.len() >= 7,
        final(s)@.next_id == old(s)@.next_id + 1,
        final(s)@.next_cid == old(s)@.next_cid,
        final(s)@.vms == old(s)@.vms,
{
    reveal_strlit("vm-");
    let d = text::decimal(old(s)@.next_id as nat);
    if old(s)@.next_id < 10 {
        assert(d.len() == 1);
        assert(id@ =~= "vm-"@ + seq!['0', '0', '0'] + d);
    }
}

/// A guest that was started is tracked as it was launched: as running since then,
/// under its id, with its process, cgroup and memory limit and, where it was
/// booted, with what it was booted from. The answer gives its id and process. No
/// other guest is touched.
pub proof fn lemma_started_guest_is_tracked(
    s: &mut ServerState,
    launch: Launch,
    pid: u32,
    cgroup_path: Option<String>,
    now: u64,
    prom: &mut Metrics,
    answer: (Response, Option<VmEvent>),
    other: Seq<char>,
)
    requires
        call_ensures(
            ServerState::finish_launch,
            (s, launch, Ok::<u32, String>(pid), cgroup_path, now, prom),
            answer,
        ),
        other != launch.vm_id@,
    ensures
        answer.0 matches Response::Success { body: ResponseBody::VmCreated { vm_id, pid: p } }
            && vm_id == launch.vm_id && p == pid,
        final(s)@.vms.dom().contains(launch.vm_id@),
        ({
            let r = final(s)@.vms[launch.vm_id@];
            &&& r.vm_id == launch.vm_id
            &&& r.pid == pid
            &&& r.state == VmState::Running
            &&& r.boot_time == now
            &&& r.cgroup_path == cgroup_path
            &&& r.memory_limit_mb == launch.memory_limit_mb
            &&& launch.source is Kernel ==> {
                &&& r.config.kernel == launch.source->Kernel_kernel
                &&& r.config.initrd == launch.source->Kernel_initrd
                &&& r.config.cmdline == launch.source->Kernel_cmdline
                &&& r.config.mem_mb == launch.source->Kernel_mem_mb
                &&& r.config.vcpus == launch.source->Kernel_vcpus
            }
            &&& !(launch.source is Kernel) ==> {
                &&& r.config.kernel@.len() == 0 && r.config.cmdline@.len() == 0
                &&& r.config.initrd is None && r.config.mem_mb == 0 && r.config.vcpus == 0
            }
        }),
        final(s)@.metrics.dom().contains(launch.vm_id@),
        final(s)@.metrics[launch.vm_id@].private_rss_bytes == 0,
        final(s)@.metrics[launch.vm_id@].shared_rss_bytes == 0,
        final(s)@.vms.dom().contains(other) <==> old(s)@.vms.dom().contains(other),
        old(s)@.vms.dom().contains(other) ==> final(s)@.vms[other] == old(s)@.vms[other],
        final(s)@.metrics.dom().contains(other) <==> old(s)@.metrics.dom().contains(other),
        old(s)@.metrics.dom().contains(other) ==> final(s)@.metrics[other]
            == old(s)@.metrics[other],
        final(s)@.next_id == old(s)@.next_id,
        final(s)@.next_cid == old(s)@.next_cid,
        final(s)@.state_file == old(s)@.state_file,
        launch.source is Template ==> (answer.1 matches Some(
            VmEvent::TemplateHit { vm_id, template },
        ) && vm_id == launch.vm_id && template == launch.source->Template_template_path),
        !(launch.source is Template) ==> (answer.1 matches Some(VmEvent::Boot { vm_id }) && vm_id
            == launch.vm_id),
        final(s)@.vms.dom().len() <= i64::MAX ==> final(prom)@.vm_count
            == final(s)@.vms.dom().len(),
        final(prom)@.vm_memory == old(prom)@.vm_memory,
        final(prom)@.fork_durations == old(prom)@.fork_durations,
{
}

/// A guest that could not be started leaves no trace but its numbers, and the
/// answer says what was tried and why it failed.
pub proof fn lemma_failed_launch_leaves_no_trace(
    s: &mut ServerState,
    launch: Launch,
    e: String,
    cgroup_path: Option<String>,
    now: u64,
    prom: &mut Metrics,
    answer: (Response, Option<VmEvent>),
)
    requires
        call_ensures(
            ServerState::finish_launch,
            (s, launch, Err::<u32, String>(e), cgroup_path, now, prom),
            answer,
        ),
    ensures
        final(s)@ == old(s)@,
        final(prom)@ == old(prom)@,
        answer.1 is None,
        answer.0 is Error,
        launch.source is Kernel ==> answer.0->message@ == "Failed to spawn VM: "@ + e@,
        launch.source is Template ==> answer.0->message@ == "Fork failed: "@ + e@,
        launch.source is Saved ==> answer.0->message@ == "Restore failed: "@ + e@,
{
}

/// The requests about a guest go to the socket of the process that was started
/// for it: its status, its snapshots and its end.
pub proof fn lemma_requests_reach_the_process(
    s: &mut ServerState,
    launch: Launch,
    pid: u32,
    cgroup_path: Option<String>,
    now: u64,
    prom: &mut Metrics,
    answer: (Response, Option<VmEvent>),
    t: &mut ServerState,
    u: &mut ServerState,
    v: &mut ServerState,
    p1: &mut Metrics,
    p2: &mut Metrics,
    p3: &mut Metrics,
    output_path: String,
    status: Step,
    snapshot: Step,
    end: Step,
)
    requires
        call_ensures(
            ServerState::finish_launch,
            (s, launch, Ok::<u32, String>(pid), cgroup_path, now, prom),
            answer,
        ),
        *final(s) == *old(t),
        *final(s) == *old(u),
        *final(s) == *old(v),
        call_ensures(
            ServerState::begin,
            (t, Request::VmStatus { vm_id: launch.vm_id }, now, p1),
            status,
        ),
        call_ensures(
            ServerState::begin,
            (u, Request::Snapshot { vm_id: launch.vm_id, output_path }, now, p2),
            snapshot,
        ),
        call_ensures(
            ServerState::begin,
            (v, Request::DestroyVm { vm_id: launch.vm_id }, now, p3),
            end,
        ),
    ensures
        ({
            let socket_text = "/tmp/clone-"@ + text::decimal(pid as nat) + ".sock"@;
            &&& status matches Step::QueryStatus { vm_id, socket } && vm_id == launch.vm_id
                && socket@ == socket_text
            &&& snapshot matches Step::Snapshot { socket, output_path: out } && socket@
                == socket_text && out == output_path
            &&& end matches Step::Destroy { vm_id, pid: gone, socket, event, reply } && vm_id
                == launch.vm_id && gone == pid && socket@ == socket_text && (
            event matches VmEvent::Shutdown { vm_id: stopped } && stopped == launch.vm_id) && reply
                == (Response::Success { body: ResponseBody::Ack })
        }),
        final(t)@ == old(t)@,
        final(u)@ == old(u)@,
        final(p1)@ == old(p1)@,
        final(p2)@ == old(p2)@,
{
}

/// A guest that was destroyed is forgotten with its metrics, and asking for it
/// again is refused; every other guest stays as it is. The process is killed
/// exactly where the guest could not be asked to shut down.
pub proof fn lemma_destroyed_guest_is_gone(
    s: &mut ServerState,
    vm_id: String,
    now: u64,
    prom: &mut Metrics,
    step: Step,
    t: &mut ServerState,
    p1: &mut Metrics,
    again: Step,
    other: Seq<char>,
    asked: bool,
    killed: Option<u32>,
)
    requires
        old(s)@.vms.dom().contains(vm_id@),
        call_ensures(ServerState::begin, (s, Request::DestroyVm { vm_id }, now, prom), step),
        *final(s) == *old(t),
        call_ensures(ServerState::begin, (t, Request::DestroyVm { vm_id }, now, p1), again),
        other != vm_id@,
        step is Destroy ==> call_ensures(after_shutdown, (asked, step->Destroy_pid), killed),
    ensures
        step is Destroy,
        step->Destroy_pid == old(s)@.vms[vm_id@].pid,
        !final(s)@.vms.dom().contains(vm_id@),
        !final(s)@.metrics.dom().contains(vm_id@),
        !final(prom)@.vm_memory.dom().contains(prom::label_slot(seq![vm_id@])),
        final(s)@.vms.dom().contains(other) <==> old(s)@.vms.dom().contains(other),
        old(s)@.vms.dom().contains(other) ==> final(s)@.vms[other] == old(s)@.vms[other],
        final(s)@.metrics.dom().contains(other) <==> old(s)@.metrics.dom().contains(other),
        old(s)@.metrics.dom().contains(other) ==> final(s)@.metrics[other]
            == old(s)@.metrics[other],
        final(s)@.next_id == old(s)@.next_id,
        final(s)@.next_cid == old(s)@.next_cid,
        old(s)@.vms.dom().finite() && old(s)@.vms.dom().len() <= i64::MAX
            ==> final(prom)@.vm_count == old(s)@.vms.dom().len() - 1,
        again matches Step::Reply(Response::Error { message }) && message@ == "VM not found: "@
            + vm_id@,
        final(t)@ == old(t)@,
        final(p1)@ == old(p1)@,
        asked ==> killed is None,
        !asked ==> killed == Some(old(s)@.vms[vm_id@].pid),
{
}

/// A guest that is not tracked is not found, whatever is asked of it, and nothing
/// changes.
pub proof fn lemma_unknown_guest_is_not_found(
    s: &mut ServerState,
    vm_id: String,
    id: &str,
    output_path: String,
    req: Request,
    now: u64,
    prom: &mut Metrics,
    step: Step,
    live: Option<Response>,
    late: Response,
    known: Option<u32>,
)
    requires
        !old(s)@.vms.dom().contains(vm_id@),
        id@ == vm_id@,
        req == (Request::DestroyVm { vm_id }) || req == (Request::VmStatus { vm_id }) || req == (
        Request::Snapshot { vm_id, output_path }),
        call_ensures(ServerState::begin, (s, req, now, prom), step),
        call_ensures(ServerState::finish_status, (&*old(s), id, live, now), late),
        call_ensures(ServerState::pid_of, (&*old(s), id), known),
    ensures
        step matches Step::Reply(Response::Error { message }) && message@ == "VM not found: "@
            + vm_id@,
        final(s)@ == old(s)@,
        final(prom)@ == old(prom)@,
        late matches Response::Error { message } && message@ == "VM not found: "@ + vm_id@,
        known is None,
{
}

/// The list holds each guest that is tracked once, with its state and the time
/// since it was started, and no other.
pub proof fn lemma_list_holds_every_guest(
    s: &mut ServerState,
    now: u64,
    prom: &mut Metrics,
    step: Step,
    id: Seq<char>,
)
    requires
        old(s)@.wf(),
        call_ensures(ServerState::begin, (s, Request::ListVms, now, prom), step),
        old(s)@.vms.dom().contains(id),
    ensures
        step matches Step::Reply(Response::Success { body: ResponseBody::VmList { vms } }) && {
            &&& vms@.len() == old(s)@.vms.dom().len()
            &&& exists|i: int|
                0 <= i < vms@.len() && (#[trigger] vms@[i]).vm_id@ == id && (
                match old(s)@.vms[id].state {
                    VmState::Running => vms@[i].state@ == "running"@,
                    VmState::Stopped => vms@[i].state@ == "stopped"@,
                    VmState::Paused => vms@[i].state@ == "paused"@,
                }) && (now >= old(s)@.vms[id].boot_time ==> vms@[i].uptime_nanos == now - old(
                    s,
                )@.vms[id].boot_time) && (now < old(s)@.vms[id].boot_time
                    ==> vms@[i].uptime_nanos == 0)
            &&& forall|i: int|
                0 <= i < vms@.len() ==> old(s)@.vms.dom().contains((#[trigger] vms@[i]).vm_id@)
            &&& forall|i: int, j: int|
                0 <= i < j < vms@.len() ==> (#[trigger] vms@[i]).vm_id@ != (#[trigger] vms@[j]).vm_id@
        },
        final(s)@ == old(s)@,
        final(prom)@ == old(prom)@,
{
    let vms = step->Reply_0->body->vms@;
    let ids = vms.map_values(|v: VmSummary| v.vm_id@);
    let known = old(s)@.vms.dom();
    assert(ids.no_duplicates()) by {
        assert forall|i: int, j: int| 0 <= i < j < ids.len() implies ids[i] != ids[j] by {
            assert(vms[i].vm_id@ != vms[j].vm_id@);
        }
    }
    ids.unique_seq_to_set();
    assert(ids.to_set().subset_of(known)) by {
        assert forall|k: Seq<char>| ids.to_set().contains(k) implies known.contains(k) by {
            let i = ids.index_of(k);
            assert(vms[i].vm_id@ == k);
        }
    }
    vstd::set_lib::lemma_subset_equality(ids.to_set(), known);
    assert(ids.to_set().contains(id));
    let i = ids.index_of(id);
    assert(vms[i].vm_id@ == id);
}

/// A guest's status from the question to the answer: the guest says whether it is
/// paused, the daemon adds how long it has run and what memory it uses. Where the
/// guest says nothing of itself, the last state known is given.
pub proof fn lemma_status_end_to_end(
    s: &ServerState,
    id: &str,
    vm_id: String,
    guest: &GuestInfo,
    pause: &PauseState,
    at: u64,
    turn: Turn,
    translated: Response,
    now: u64,
    r: Response,
    silent: Response,
)
    requires
        s@.wf(),
        s@.vms.dom().contains(id@),
        call_ensures(dispatch, (Request::VmStatus { vm_id }, guest, pause, at), turn),
        turn is Reply ==> call_ensures(query_vm_status, (turn->Reply_0,), translated),
        call_ensures(ServerState::finish_status, (s, id, Some(translated), now), r),
        call_ensures(ServerState::finish_status, (s, id, None::<Response>, now), silent),
    ensures
        r matches Response::Success {
            body: ResponseBody::VmStatus { state, uptime_nanos, memory_usage_bytes },
        } && {
            &&& state@ == (if pause.pause_requested {
                "paused"@
            } else {
                "running"@
            })
            &&& now >= s@.vms[id@].boot_time ==> uptime_nanos == now - s@.vms[id@].boot_time
            &&& now < s@.vms[id@].boot_time ==> uptime_nanos == 0
            &&& s@.metrics.dom().contains(id@) ==> memory_usage_bytes
                == s@.metrics[id@].private_rss_bytes + s@.metrics[id@].shared_rss_bytes
            &&& !s@.metrics.dom().contains(id@) ==> memory_usage_bytes == 0
        },
        silent matches Response::Success {
            body: ResponseBody::VmStatus { state, uptime_nanos, memory_usage_bytes },
        } && {
            &&& s@.vms[id@].state == VmState::Running ==> state@ == "running"@
            &&& s@.vms[id@].state == VmState::Stopped ==> state@ == "stopped"@
            &&& s@.vms[id@].state == VmState::Paused ==> state@ == "paused"@
            &&& now >= s@.vms[id@].boot_time ==> uptime_nanos == now - s@.vms[id@].boot_time
        },
{
}

/// A guest's metrics are the ones last recorded of it; those of the host are
/// collected anew and handed through.
pub proof fn lemma_metrics_are_the_guests_own(
    s: &mut ServerState,
    vm_id: String,
    now: u64,
    prom: &mut Metrics,
    step: Step,
    collected: Json,
    host: Response,
)
    requires
        call_ensures(ServerState::begin, (s, Request::Metrics { vm_id }, now, prom), step),
        call_ensures(finish_host_metrics, (collected,), host),
    ensures
        vm_id@ == "_host"@ <==> step is HostMetrics,
        host == (Response::Success { body: ResponseBody::Metrics { metrics: collected } }),
        vm_id@ != "_host"@ && old(s)@.metrics.dom().contains(vm_id@) ==> (step matches Step::Reply(
            Response::Success { body: ResponseBody::Metrics { metrics: Json::Object(fields) } },
        ) && {
            let m = old(s)@.metrics[vm_id@];
            &&& fields@.len() == 2
            &&& fields@[0].0@ == "private_rss_bytes"@
            &&& fields@[0].1 == Json::Nat(m.private_rss_bytes)
            &&& fields@[1].0@ == "shared_rss_bytes"@
            &&& fields@[1].1 == Json::Nat(m.shared_rss_bytes)
        }),
        vm_id@ != "_host"@ && !old(s)@.metrics.dom().contains(vm_id@) ==> (step matches Step::Reply(
            Response::Error { message },
        ) && message@ == "No metrics for VM: "@ + vm_id@),
        final(s)@ == old(s)@,
        final(prom)@ == old(prom)@,
{
}

/// What a guest's own socket has to take is refused here, and changes nothing.
pub proof fn lemma_guest_requests_are_refused(
    s: &mut ServerState,
    req: Request,
    now: u64,
    prom: &mut Metrics,
    step: Step,
)
    requires
        call_ensures(ServerState::begin, (s, req, now, prom), step),
        req is Pause || req is Resume || req is Shutdown || req is IncrementalSnapshot
            || req is LiveMigrate || req is Exec || req is SetBalloon || req is Branch,
    ensures
        step matches Step::Reply(Response::Error { message }) && message@
            == "Use the per-VM control socket for pause/resume/shutdown/incremental-snapshot/live-migrate/exec/set-balloon/branch"@,
        final(s)@ == old(s)@,
        final(prom)@ == old(prom)@,
{
}

/// A snapshot is answered with what the guest answered, or with why it could not be
/// asked.
pub proof fn lemma_snapshot_answer_is_the_guests(
    said: Response,
    e: String,
    r: Response,
    failed: Response,
)
    requires
        call_ensures(finish_snapshot, (Ok::<Response, String>(said),), r),
        call_ensures(finish_snapshot, (Err::<Response, String>(e),), failed),
    ensures
        r == said,
        failed matches Response::Error { message } && message@ == "Snapshot failed: "@ + e@,
{
}

/// How long requests take is recorded by what they do: forks and restores
/// together, snapshots apart, each counted once, and no other request anywhere.
pub proof fn lemma_requests_are_timed(
    req: &Request,
    kind: String,
    k: &str,
    prom: &mut Metrics,
    nanos: u64,
)
    requires
        call_ensures(request_kind, (req,), kind),
        k@ == kind@,
        call_ensures(record_timing, (prom, k, nanos), ()),
    ensures
        *req is ForkVm || *req is RestoreVm ==> {
            &&& final(prom)@.fork_durations == old(prom)@.fork_durations.push(nanos)
            &&& old(prom)@.fork_total < u64::MAX ==> final(prom)@.fork_total == old(
                prom,
            )@.fork_total + 1
        },
        !(*req is ForkVm || *req is RestoreVm) ==> final(prom)@.fork_durations == old(
            prom,
        )@.fork_durations && final(prom)@.fork_total == old(prom)@.fork_total,
        *req is Snapshot ==> {
            &&& final(prom)@.snapshot_durations == old(prom)@.snapshot_durations.push(nanos)
            &&& old(prom)@.snapshot_total < u64::MAX ==> final(prom)@.snapshot_total == old(
                prom,
            )@.snapshot_total + 1
        },
        !(*req is Snapshot) ==> final(prom)@.snapshot_durations == old(prom)@.snapshot_durations
            && final(prom)@.snapshot_total == old(prom)@.snapshot_total,
        final(prom)@.branch_durations == old(prom)@.branch_durations,
        final(prom)@.vm_count == old(prom)@.vm_count,
        final(prom)@.vm_memory == old(prom)@.vm_memory,
        final(prom)@.http_requests == old(prom)@.http_requests,
        *req is ForkVm ==> kind@ == "fork"@,
        *req is RestoreVm ==> kind@ == "restore"@,
        *req is CreateVm ==> kind@ == "create"@,
        *req is DestroyVm ==> kind@ == "destroy"@,
        *req is VmStatus ==> kind@ == "status"@,
        *req is ListVms ==> kind@ == "list"@,
        *req is Metrics ==> kind@ == "metrics"@,
        *req is Snapshot ==> kind@ == "snapshot"@,
        *req is Pause || *req is Resume || *req is Shutdown || *req is IncrementalSnapshot
            || *req is LiveMigrate || *req is Exec || *req is SetBalloon || *req is Branch ==> kind@
            == "other"@,
{
    reveal_strlit("fork");
    reveal_strlit("restore");
    reveal_strlit("snapshot");
    reveal_strlit("create");
    reveal_strlit("destroy");
    reveal_strlit("status");
    reveal_strlit("list");
    reveal_strlit("metrics");
    reveal_strlit("other");
    assert("list"@[0] == 'l' && "fork"@[0] == 'f');
    assert("create"@[0] == 'c' && "restore"@[0] == 'r' && "snapshot"@[0] == 's');
    assert("destroy"@[0] == 'd' && "metrics"@[0] == 'm' && "other"@[0] == 'o');
    assert("status"@.len() == 6 && "snapshot"@.len() == 8);
}

/// A daemon that is started again goes on with the numbers that the one before it
/// wrote down, and tracks no guest. Without them it begins with the first id and
/// the first free context id.
pub proof fn lemma_numbers_survive_a_restart(
    before: &ServerState,
    file: Option<String>,
    written: Option<(&String, PersistedState)>,
    after: ServerState,
    fresh: ServerState,
)
    requires
        before@.wf(),
        call_ensures(ServerState::persist, (before,), written),
        written matches Some((_, counters)) ==> call_ensures(
            ServerState::new,
            (file, Some(counters)),
            after,
        ),
        call_ensures(ServerState::new, (file, None::<PersistedState>), fresh),
    ensures
        written is Some <==> before@.state_file is Some,
        written matches Some((path, counters)) ==> {
            &&& *path == before@.state_file->0
            &&& counters.next_id == before@.next_id
            &&& counters.next_cid == before@.next_cid
            &&& after@.next_id == before@.next_id
            &&& after@.next_cid == before@.next_cid
            &&& after@.vms.dom().is_empty()
            &&& after@.metrics.dom().is_empty()
            &&& after@.state_file == file
        },
        fresh@.next_id == 1,
        fresh@.next_cid == 3,
        fresh@.vms.dom().is_empty(),
        fresh@.state_file == file,
{
}

/// A guest can be started as long as there are numbers left.
pub proof fn lemma_room_is_told(s: &ServerState, b: bool)
    requires
        call_ensures(ServerState::can_allocate, (s,), b),
    ensures
        b <==> s@.next_id < u64::MAX && s@.next_cid < u64::MAX,
{
}

/// A guest that answers with an error, or with anything but its status, has said
/// nothing of its state: its answer is passed on as it is, and the last state known
/// is given.
pub proof fn lemma_other_answers_tell_no_state(
    s: &ServerState,
    id: &str,
    answer: Response,
    translated: Response,
    now: u64,
    r: Response,
)
    requires
        s@.wf(),
        s@.vms.dom().contains(id@),
        answer is Error || !(answer->body is Status || answer->body is VmStatus),
        call_ensures(query_vm_status, (answer,), translated),
        call_ensures(ServerState::finish_status, (s, id, Some(translated), now), r),
    ensures
        translated == answer,
        r matches Response::Success { body: ResponseBody::VmStatus { state, .. } } && (
        match s@.vms[id@].state {
            VmState::Running => state@ == "running"@,
            VmState::Stopped => state@ == "stopped"@,
            VmState::Paused => state@ == "paused"@,
        }),
{
}

} // verus!
