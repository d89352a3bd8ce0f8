//! The control socket of a single guest.
use vstd::prelude::*;

use crate::prometheus_metrics::Metrics;
use crate::protocol::{Request, Response, ResponseBody};
use crate::sync_server::{
    after_balloon, after_capture, after_exec, after_fork, after_migrate, after_pause, after_save,
    await_agent, dispatch, socket_path, AgentWait, Captured, Goal, GuestInfo, MigrationStats,
    PauseState, PauseWait, SnapshotJob, Turn,
};
use crate::text;

verus! {

/// The agent is asked to run the command of the request, with the same arguments
/// in the same order, and the answer is what the command gave. Without an agent
/// the request is refused.
pub proof fn lemma_exec_runs_what_was_asked(
    req: Request,
    guest: &GuestInfo,
    pause: &PauseState,
    now: u64,
    turn: Turn,
    ran: Result<(i32, String, String), String>,
    r: Response,
)
    requires
        call_ensures(dispatch, (req, guest, pause, now), turn),
        req is Exec,
        call_ensures(after_exec, (ran,), r),
    ensures
        guest.has_agent ==> turn is Exec && turn->Exec_command == req->Exec_command
            && turn->Exec_args == req->Exec_args,
        !guest.has_agent ==> (turn matches Turn::Reply(Response::Error { message }) && message@
            == "Guest agent not available"@),
        ran matches Ok((code, out, err)) ==> (r matches Response::Success {
            body: ResponseBody::ExecResult { exit_code, stdout, stderr },
        } && exit_code == code && stdout == out && stderr == err),
        ran matches Err(e) ==> (r matches Response::Error { message } && message == e),
{
}

/// A command is sent as soon as the agent is there. It is waited for for thirty
/// seconds, and no longer.
pub proof fn lemma_agent_is_waited_for(connected: bool, waited: u64, w: AgentWait)
    requires
        call_ensures(await_agent, (connected, waited), w),
    ensures
        w is Send <==> connected,
        w is Wait <==> !connected && waited <= 30 * 1_000_000_000,
        w is GiveUp ==> (w->GiveUp_0 matches Response::Error { message } && message@
            == "Timed out waiting for guest agent"@),
{
}

/// A guest that was asked to stop counts as paused until it is let go, and then as
/// running; its status says so, with its process and the number of its vCPUs.
pub proof fn lemma_status_tells_whether_paused(
    vm_id: String,
    guest: &GuestInfo,
    asked: &mut PauseState,
    resumed: &mut PauseState,
    now: u64,
    while_paused: Turn,
    after_resume: Turn,
)
    requires
        call_ensures(PauseState::request_pause, (asked,), ()),
        call_ensures(
            dispatch,
            (Request::VmStatus { vm_id }, guest, &*final(asked), now),
            while_paused,
        ),
        *final(asked) == *old(resumed),
        call_ensures(PauseState::resume_vcpus, (resumed,), ()),
        call_ensures(
            dispatch,
            (Request::VmStatus { vm_id }, guest, &*final(resumed), now),
            after_resume,
        ),
    ensures
        while_paused matches Turn::Reply(
            Response::Success { body: ResponseBody::Status { state, pid, vcpus } },
        ) && state@ == "paused"@ && pid == guest.pid && vcpus == guest.num_vcpus,
        after_resume matches Turn::Reply(
            Response::Success { body: ResponseBody::Status { state, pid, vcpus } },
        ) && state@ == "running"@ && pid == guest.pid && vcpus == guest.num_vcpus,
{
}

/// Asking the vCPUs to stop starts over: none counts as stopped, and no registers
/// are captured of any, so that nothing of an earlier pause gets into a snapshot.
pub proof fn lemma_pause_starts_over(asked: &mut PauseState, i: int)
    requires
        call_ensures(PauseState::request_pause, (asked,), ()),
        0 <= i < old(asked).captured@.len(),
    ensures
        final(asked).pause_requested,
        !final(asked).all_paused,
        final(asked).paused_count == 0,
        final(asked).total_vcpus == old(asked).total_vcpus,
        final(asked).resume == old(asked).resume,
        final(asked).captured@.len() == old(asked).captured@.len(),
        final(asked).captured@[i] is None,
{
}

/// Letting the vCPUs go takes the request to stop back, and keeps what was
/// captured.
pub proof fn lemma_resume_lets_go(s: &mut PauseState)
    requires
        call_ensures(PauseState::resume_vcpus, (s,), ()),
    ensures
        !final(s).pause_requested,
        final(s).resume,
        final(s).paused_count == 0,
        final(s).total_vcpus == old(s).total_vcpus,
        final(s).all_paused == old(s).all_paused,
        final(s).captured == old(s).captured,
{
}

/// vCPUs are given ten seconds to stop: before, what is left of them is waited
/// for; then the request is taken back, and the report says how many of how many
/// had stopped. Nothing else changes.
pub proof fn lemma_pause_has_ten_seconds(s: &mut PauseState, elapsed: u64, w: PauseWait)
    requires
        call_ensures(PauseState::wait_pause, (s, elapsed), w),
    ensures
        w is Done <==> old(s).all_paused,
        w is Wait <==> !old(s).all_paused && elapsed < 10 * 1_000_000_000,
        w is Wait ==> elapsed + w->Wait_0 == 10 * 1_000_000_000,
        w is TimedOut ==> w->TimedOut_0@ == "Timeout waiting for vCPUs to pause (got "@
            + text::decimal(old(s).paused_count as nat) + "/"@ + text::decimal(
            old(s).total_vcpus as nat,
        ) + ")"@,
        final(s).pause_requested == (if w is TimedOut {
            false
        } else {
            old(s).pause_requested
        }),
        final(s).paused_count == old(s).paused_count,
        final(s).total_vcpus == old(s).total_vcpus,
        final(s).all_paused == old(s).all_paused,
        final(s).resume == old(s).resume,
        final(s).captured == old(s).captured,
{
}

/// The state that goes into a snapshot is the state that was captured: for each
/// vCPU its registers, in order, for each device its transport, and the serial
/// port.
pub open spec fn holds_captured(job: SnapshotJob, c: Captured) -> bool {
    &&& job.vcpu_states@.len() == c.vcpus@.len()
    &&& forall|i: int|
        0 <= i < c.vcpus@.len() && (#[trigger] c.vcpus@[i]) is Some ==> job.vcpu_states@[i]@
            == c.vcpus@[i]->0@
    &&& job.device_states.transports == c.transports
    &&& job.device_states.serial == Some(c.serial)
}

/// Every snapshot, incremental or full, holds one register state for each captured
/// vCPU, in order and equal to the one captured, and the captured devices. A vCPU
/// whose registers could not be captured has empty ones.
pub proof fn lemma_snapshot_holds_what_was_captured(
    goal: Goal,
    c: Captured,
    guest: &GuestInfo,
    turn: Turn,
    i: int,
)
    requires
        call_ensures(after_capture, (goal, c, guest), turn),
        !(goal is Pause),
        0 <= i < c.vcpus@.len(),
    ensures
        turn is SaveIncremental <==> goal is Incremental,
        turn is SaveTemplate <==> goal is Snapshot || goal is Branch,
        ({
            let job = if goal is Incremental {
                turn->SaveIncremental_job
            } else {
                turn->SaveTemplate_job
            };
            &&& holds_captured(job, c)
            &&& c.vcpus@[i] is None ==> {
                let v = job.vcpu_states@[i];
                &&& v.regs@.len() == 0 && v.sregs@.len() == 0 && v.lapic@.len() == 0
                &&& v.fpu@.len() == 0 && v.xsave@.len() == 0 && v.xcrs@.len() == 0
                &&& v.mp_state@.len() == 0 && v.vcpu_events@.len() == 0
                &&& v.debug_regs@.len() == 0 && v.msrs@.len() == 0 && v.tsc_khz == 0
                &&& v.cpuid@.len() == 0
            }
            &&& c.vcpus@[i] matches Some(s) ==> {
                let v = job.vcpu_states@[i];
                &&& v.regs@ == s.regs@ && v.sregs@ == s.sregs@ && v.lapic@ == s.lapic@
                &&& v.fpu@ == s.fpu@ && v.xsave@ == s.xsave@ && v.xcrs@ == s.xcrs@
                &&& v.mp_state@ == s.mp_state@ && v.vcpu_events@ == s.vcpu_events@
                &&& v.debug_regs@ == s.debug_regs@ && v.msrs@ == s.msrs@
                &&& v.tsc_khz == s.tsc_khz && v.cpuid@ == s.cpuid@
            }
        }),
{
}

/// A full snapshot from its request to its answer. The guest is stopped, its
/// registers, devices, interrupt controllers and timer are read, and all of it is
/// written to the path of the request with the guest's disk, overlay, address and
/// clock. The answer names the path, and the guest stays stopped.
pub proof fn lemma_full_snapshot(
    req: Request,
    guest: &GuestInfo,
    pause: &PauseState,
    now: u64,
    first: Turn,
    stopped: Result<(), String>,
    second: Turn,
    c: Captured,
    third: Turn,
    written: Result<(), String>,
    last: Turn,
)
    requires
        req is Snapshot,
        call_ensures(dispatch, (req, guest, pause, now), first),
        first is Pause ==> call_ensures(after_pause, (first->Pause_0, stopped, now), second),
        second is Capture ==> call_ensures(after_capture, (second->Capture_goal, c, guest), third),
        third is SaveTemplate ==> call_ensures(
            after_save,
            (third->SaveTemplate_goal, written),
            last,
        ),
    ensures
        first is Pause,
        stopped matches Err(e) ==> (second matches Turn::Reply(Response::Error { message })
            && message == e),
        stopped is Ok ==> {
            &&& second is Capture && second->Capture_irqchip
            &&& third is SaveTemplate
            &&& holds_captured(third->SaveTemplate_job, c)
            &&& third->SaveTemplate_job.device_states.irqchip == c.irqchip
            &&& third->SaveTemplate_job.device_states.pit == c.pit
            &&& third->SaveTemplate_job.output_dir == req->Snapshot_output_path
            &&& third->SaveTemplate_runtime_type@ == "snapshot"@
            &&& third->SaveTemplate_block_device == guest.block_device
            &&& third->SaveTemplate_overlay_path == guest.overlay_path
            &&& third->SaveTemplate_guest_ip == guest.guest_ip
            &&& c.clock_ns is Some ==> third->SaveTemplate_clock_ns == c.clock_ns->0
            &&& c.clock_ns is None ==> third->SaveTemplate_clock_ns == 0
            &&& written is Ok ==> (last matches Turn::Reply(
                Response::Success { body: ResponseBody::SnapshotComplete { path } },
            ) && path == req->Snapshot_output_path)
            &&& written matches Err(e) ==> (last matches Turn::Reply(Response::Error { message })
                && message@ == "Snapshot failed: "@ + e@)
        },
{
}

/// An incremental snapshot from its request to its answer. The guest is stopped,
/// its registers and devices are read, and they are written to the path of the
/// request on top of the base of the request. The guest goes on whether that
/// succeeds or not. Where written pages cannot be tracked the request is refused.
pub proof fn lemma_incremental_snapshot(
    req: Request,
    guest: &GuestInfo,
    pause: &PauseState,
    now: u64,
    first: Turn,
    stopped: Result<(), String>,
    second: Turn,
    c: Captured,
    third: Turn,
    written: Result<(), String>,
    last: Turn,
)
    requires
        req is IncrementalSnapshot,
        call_ensures(dispatch, (req, guest, pause, now), first),
        first is Pause ==> call_ensures(after_pause, (first->Pause_0, stopped, now), second),
        second is Capture ==> call_ensures(after_capture, (second->Capture_goal, c, guest), third),
        third is SaveIncremental ==> call_ensures(
            after_save,
            (third->SaveIncremental_goal, written),
            last,
        ),
    ensures
        first is Pause <==> guest.tracks_pages,
        !guest.tracks_pages ==> (first matches Turn::Reply(Response::Error { message }) && message@
            == "VM fd not available for dirty page tracking"@),
        guest.tracks_pages && stopped is Err ==> (second matches Turn::Reply(
            Response::Error { message },
        ) && message == stopped->Err_0),
        guest.tracks_pages && stopped is Ok ==> {
            &&& second is Capture && !second->Capture_irqchip
            &&& third is SaveIncremental
            &&& holds_captured(third->SaveIncremental_job, c)
            &&& third->SaveIncremental_job.device_states.irqchip@.len() == 0
            &&& third->SaveIncremental_job.device_states.pit@.len() == 0
            &&& third->SaveIncremental_job.output_dir == req->IncrementalSnapshot_output_path
            &&& third->SaveIncremental_base_template == req->IncrementalSnapshot_base_template
            &&& last is ResumeAndReply
            &&& written is Ok ==> (last->ResumeAndReply_0 matches Response::Success {
                body: ResponseBody::SnapshotComplete { path },
            } && path == req->IncrementalSnapshot_output_path)
            &&& written matches Err(e) ==> (last->ResumeAndReply_0 matches Response::Error {
                message,
            } && message@ == "Incremental snapshot failed: "@ + e@)
        },
{
}

/// A branch from its request to its answer. The guest is stopped, written to the
/// directory of the request or one named after its process, and a copy is started
/// from there with the network and shared directory of the request. The guest then
/// goes on, and the answer gives the copy's process, and how long stopping and
/// everything together took.
pub proof fn lemma_branch(
    req: Request,
    guest: &GuestInfo,
    pause: &PauseState,
    started: u64,
    first: Turn,
    stopped_at: u64,
    second: Turn,
    third: Turn,
    c: Captured,
    fourth: Turn,
    fifth: Turn,
    pid: u32,
    done: u64,
    prom: &mut Metrics,
    last: Turn,
)
    requires
        req is Branch,
        started <= stopped_at <= done,
        call_ensures(dispatch, (req, guest, pause, started), first),
        first is Pause ==> call_ensures(
            after_pause,
            (first->Pause_0, Ok::<(), String>(()), stopped_at),
            second,
        ),
        second is Pause ==> call_ensures(
            after_pause,
            (second->Pause_0, Ok::<(), String>(()), done),
            third,
        ),
        third is Capture ==> call_ensures(after_capture, (third->Capture_goal, c, guest), fourth),
        fourth is SaveTemplate ==> call_ensures(
            after_save,
            (fourth->SaveTemplate_goal, Ok::<(), String>(())),
            fifth,
        ),
        fifth is SpawnFork ==> call_ensures(
            after_fork,
            (fifth->SpawnFork_goal, Ok::<u32, String>(pid), done, prom),
            last,
        ),
    ensures
        first is Pause && second is Pause && third is Capture && third->Capture_irqchip,
        fourth is SaveTemplate,
        holds_captured(fourth->SaveTemplate_job, c),
        fourth->SaveTemplate_job.device_states.irqchip == c.irqchip,
        fourth->SaveTemplate_job.device_states.pit == c.pit,
        fourth->SaveTemplate_block_device == guest.block_device,
        fourth->SaveTemplate_overlay_path == guest.overlay_path,
        fourth->SaveTemplate_guest_ip == guest.guest_ip,
        req->Branch_output_dir is Some ==> fourth->SaveTemplate_job.output_dir@
            == req->Branch_output_dir->0@,
        req->Branch_output_dir is None ==> fourth->SaveTemplate_job.output_dir@
            == "/tmp/clone-branch-"@ + text::decimal(guest.pid as nat),
        fifth is SpawnFork,
        fifth->SpawnFork_template_path == fourth->SaveTemplate_job.output_dir,
        fifth->SpawnFork_net == req->Branch_net,
        fifth->SpawnFork_shared_dir == req->Branch_shared_dir,
        last matches Turn::ResumeAndReply(
            Response::Success {
                body: ResponseBody::BranchComplete {
                    new_vm_id,
                    new_pid,
                    pause_duration_ms,
                    total_duration_ms,
                },
            },
        ) && new_vm_id@ == "branch-"@ + text::decimal(pid as nat) && new_pid == pid
            && pause_duration_ms == (stopped_at - started) / 1_000_000 && total_duration_ms == (done
            - started) / 1_000_000,
        final(prom)@.branch_durations == old(prom)@.branch_durations.push((done - started) as u64),
        final(prom)@.fork_durations == old(prom)@.fork_durations,
        final(prom)@.snapshot_durations == old(prom)@.snapshot_durations,
        final(prom)@.vm_count == old(prom)@.vm_count,
{
}

/// A branch that goes wrong is answered with what went wrong, and the guest that
/// was stopped for it goes on. A guest that could not be stopped in the first
/// place is left alone.
pub proof fn lemma_branch_goes_wrong(
    goal: Goal,
    e: String,
    now: u64,
    prom: &mut Metrics,
    unstopped: Turn,
    unwritten: Turn,
    unstarted: Turn,
)
    requires
        goal is Branch,
        call_ensures(after_pause, (goal, Err::<(), String>(e), now), unstopped),
        call_ensures(after_save, (goal, Err::<(), String>(e)), unwritten),
        call_ensures(after_fork, (goal, Err::<u32, String>(e), now, prom), unstarted),
    ensures
        goal->Branch_pause_nanos is None ==> (unstopped matches Turn::Reply(
            Response::Error { message },
        ) && message@ == "Branch: pause failed: "@ + e@),
        goal->Branch_pause_nanos is Some ==> (unstopped matches Turn::ResumeAndReply(
            Response::Error { message },
        ) && message@ == "Branch: snapshot failed: "@ + e@),
        unwritten matches Turn::ResumeAndReply(Response::Error { message }) && message@
            == "Branch: snapshot failed: "@ + ("Snapshot failed: "@ + e@),
        unstarted matches Turn::ResumeAndReply(Response::Error { message }) && message@
            == "Branch: fork spawn failed: "@ + e@,
        final(prom)@ == old(prom)@,
{
}

/// Pausing is answered once the vCPUs have stopped; resuming lets them go on
/// first. A guest that is shut down while it is paused is let go on, so that its
/// vCPUs can leave; one that runs is not.
pub proof fn lemma_pause_resume_shutdown(
    guest: &GuestInfo,
    pause: &PauseState,
    now: u64,
    paused: Turn,
    answered: Turn,
    resumed: Turn,
    down: Turn,
)
    requires
        call_ensures(dispatch, (Request::Pause, guest, pause, now), paused),
        paused is Pause ==> call_ensures(
            after_pause,
            (paused->Pause_0, Ok::<(), String>(()), now),
            answered,
        ),
        call_ensures(dispatch, (Request::Resume, guest, pause, now), resumed),
        call_ensures(dispatch, (Request::Shutdown, guest, pause, now), down),
    ensures
        paused is Pause,
        answered == Turn::Reply(Response::Success { body: ResponseBody::Ack }),
        resumed == Turn::ResumeAndReply(Response::Success { body: ResponseBody::Ack }),
        down is ShutdownAndReply,
        down->ShutdownAndReply_resume <==> pause.pause_requested,
        down->ShutdownAndReply_reply == (Response::Success { body: ResponseBody::Ack }),
{
}

/// A pause that does not come about is answered with the reason.
pub proof fn lemma_failed_pause_is_reported(
    guest: &GuestInfo,
    pause: &PauseState,
    now: u64,
    e: String,
    paused: Turn,
    answered: Turn,
)
    requires
        call_ensures(dispatch, (Request::Pause, guest, pause, now), paused),
        paused is Pause ==> call_ensures(
            after_pause,
            (paused->Pause_0, Err::<(), String>(e), now),
            answered,
        ),
    ensures
        answered == Turn::Reply(Response::Error { message: e }),
{
}

/// The balloon takes just what is too much: the guest keeps the megabytes of the
/// request, a page being four kilobytes, and one that has no more than that keeps
/// all of it.
pub proof fn lemma_balloon_leaves_the_target(
    target_mb: u32,
    guest: &GuestInfo,
    pause: &PauseState,
    now: u64,
    turn: Turn,
    found: bool,
    r: Response,
)
    requires
        call_ensures(dispatch, (Request::SetBalloon { target_mb }, guest, pause, now), turn),
        call_ensures(after_balloon, (found,), r),
    ensures
        turn is SetBalloon,
        guest.mem_size / 0x10_0000 > target_mb ==> turn->SetBalloon_reclaim_pages * 4096 + target_mb
            * 0x10_0000 == guest.mem_size / 0x10_0000 * 0x10_0000,
        guest.mem_size / 0x10_0000 <= target_mb ==> turn->SetBalloon_reclaim_pages == 0,
        found ==> r == (Response::Success { body: ResponseBody::Ack }),
        !found ==> (r matches Response::Error { message } && message@
            == "balloon device not found"@),
{
}

/// A guest is moved to the host and port of the request, and the answer says what
/// it took.
pub proof fn lemma_migration_goes_where_asked(
    req: Request,
    guest: &GuestInfo,
    pause: &PauseState,
    now: u64,
    turn: Turn,
    moved: Result<MigrationStats, String>,
    r: Response,
)
    requires
        req is LiveMigrate,
        call_ensures(dispatch, (req, guest, pause, now), turn),
        call_ensures(after_migrate, (moved,), r),
    ensures
        turn is Migrate,
        turn->Migrate_dest_host == req->LiveMigrate_dest_host,
        turn->Migrate_dest_port == req->LiveMigrate_dest_port,
        moved matches Ok(s) ==> (r matches Response::Success {
            body: ResponseBody::MigrationComplete {
                total_pages_sent,
                rounds,
                downtime_ms,
                total_time_ms,
            },
        } && total_pages_sent == s.total_pages_sent && rounds == s.rounds && downtime_ms
            == s.downtime_ms && total_time_ms == s.total_time_ms),
        moved matches Err(e) ==> (r matches Response::Error { message } && message@
            == "Live migration failed: "@ + e@),
{
}

/// What only the daemon can do is refused, and nothing comes of it.
pub proof fn lemma_daemon_requests_are_refused(
    req: Request,
    guest: &GuestInfo,
    pause: &PauseState,
    now: u64,
    turn: Turn,
)
    requires
        call_ensures(dispatch, (req, guest, pause, now), turn),
        req is CreateVm || req is DestroyVm || req is ListVms || req is ForkVm || req is Metrics
            || req is RestoreVm,
    ensures
        turn matches Turn::Reply(Response::Error { message }) && message@
            == "Unsupported command on per-VM control socket"@,
{
}

/// Each process has a socket of its own.
pub proof fn lemma_socket_of_its_own(a: u32, b: u32, x: String, y: String)
    requires
        call_ensures(socket_path, (a,), x),
        call_ensures(socket_path, (b,), y),
    ensures
        x@ == "/tmp/clone-"@ + text::decimal(a as nat) + ".sock"@,
        x@ == y@ ==> a == b,
{
    if x@ == y@ {
        let p = "/tmp/clone-"@;
        let (da, db) = (text::decimal(a as nat), text::decimal(b as nat));
        assert(x@.len() == p.len() + da.len() + ".sock"@.len());
        assert(y@.len() == p.len() + db.len() + ".sock"@.len());
        assert(x@.subrange(p.len() as int, (p.len() + da.len()) as int) =~= da);
        assert(y@.subrange(p.len() as int, (p.len() + db.len()) as int) =~= db);
        text::lemma_decimal_injective(a as nat, b as nat);
    }
}

/// A clock that went back counts as standing still: a branch then took no time.
pub proof fn lemma_branch_takes_no_negative_time(
    goal: Goal,
    pid: u32,
    now: u64,
    prom: &mut Metrics,
    turn: Turn,
    stopped: Turn,
)
    requires
        goal is Branch,
        now < goal->Branch_started,
        call_ensures(after_fork, (goal, Ok::<u32, String>(pid), now, prom), turn),
        goal->Branch_pause_nanos is None,
        call_ensures(after_pause, (goal, Ok::<(), String>(()), now), stopped),
    ensures
        turn matches Turn::ResumeAndReply(
            Response::Success {
                body: ResponseBody::BranchComplete { pause_duration_ms, total_duration_ms, .. },
            },
        ) && pause_duration_ms == 0 && total_duration_ms == 0,
        final(prom)@.branch_durations.last() == 0,
        stopped matches Turn::Pause(Goal::Branch { pause_nanos, .. }) && pause_nanos == Some(0u64),
{
}

} // verus!
