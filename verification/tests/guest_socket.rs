use clone_vmm::prometheus_metrics::{registry, render};
use clone_vmm::protocol::{Request, Response, ResponseBody};
use clone_vmm::snapshot::VcpuState;
use clone_vmm::sync_server::{
    after_balloon, after_capture, after_exec, after_fork, after_migrate, after_pause, after_save,
    await_agent, dispatch, socket_path, AgentWait, Captured, Goal, GuestInfo, MigrationStats,
    PauseState, PauseWait, Turn,
};

fn guest() -> GuestInfo {
    GuestInfo {
        pid: 77,
        mem_size: 1024 * 1024 * 1024,
        num_vcpus: 2,
        tracks_pages: true,
        has_agent: true,
        block_device: Some("rootfs.img".to_string()),
        overlay_path: Some("overlay.img".to_string()),
        guest_ip: Some("172.30.0.2".to_string()),
    }
}

fn pause_state() -> PauseState {
    PauseState {
        pause_requested: false,
        paused_count: 0,
        total_vcpus: 2,
        all_paused: false,
        resume: false,
        captured: vec![None, None],
    }
}

fn captured() -> Captured {
    Captured {
        vcpus: vec![Some(VcpuState { tsc_khz: 5, ..VcpuState::empty() }), None],
        transports: vec![vec![1]],
        irqchip: vec![vec![2]],
        pit: vec![3],
        serial: vec![4],
        clock_ns: Some(99),
    }
}

fn message(r: Response) -> String {
    match r {
        Response::Error { message } => message,
        other => panic!("{other:?}"),
    }
}

fn is_ack(r: &Response) -> bool {
    matches!(r, Response::Success { body: ResponseBody::Ack })
}

#[test]
fn pausing_and_resuming() {
    let mut p = pause_state();
    p.captured[0] = Some(VcpuState::empty());
    p.paused_count = 2;
    p.all_paused = true;
    p.request_pause();
    assert!(p.pause_requested && !p.all_paused);
    assert_eq!(p.paused_count, 0);
    assert!(p.captured.iter().all(|c| c.is_none()));
    assert!(matches!(p.wait_pause(4_000_000_000), PauseWait::Wait(6_000_000_000)));
    p.paused_count = 2;
    p.all_paused = true;
    assert!(matches!(p.wait_pause(99_000_000_000), PauseWait::Done));
    assert!(p.pause_requested);
    p.resume_vcpus();
    assert!(!p.pause_requested && p.resume);
    assert_eq!(p.paused_count, 0);
}

#[test]
fn vcpus_that_do_not_stop_are_let_go() {
    let mut p = pause_state();
    p.request_pause();
    p.paused_count = 1;
    match p.wait_pause(10_000_000_000) {
        PauseWait::TimedOut(m) => assert_eq!(m, "Timeout waiting for vCPUs to pause (got 1/2)"),
        other => panic!("{other:?}"),
    }
    assert!(!p.pause_requested);
}

#[test]
fn requests_on_a_guest_socket() {
    let g = guest();
    let p = pause_state();
    let go = |req: Request| dispatch(req, &g, &p, 5);
    assert!(matches!(go(Request::Pause), Turn::Pause(Goal::Pause)));
    assert!(matches!(go(Request::Resume), Turn::ResumeAndReply(r) if is_ack(&r)));
    assert!(matches!(go(Request::Shutdown), Turn::ShutdownAndReply { resume: false, reply } if is_ack(&reply)));
    assert!(matches!(
        go(Request::Snapshot { vm_id: String::new(), output_path: "/o".to_string() }),
        Turn::Pause(Goal::Snapshot { output_path }) if output_path == "/o"
    ));
    assert!(matches!(
        go(Request::IncrementalSnapshot { output_path: "/o".to_string(), base_template: "/b".to_string() }),
        Turn::Pause(Goal::Incremental { output_path, base_template }) if output_path == "/o" && base_template == "/b"
    ));
    assert!(matches!(
        go(Request::LiveMigrate { dest_host: "h".to_string(), dest_port: 9 }),
        Turn::Migrate { dest_host, dest_port: 9 } if dest_host == "h"
    ));
    assert!(matches!(go(Request::Exec { command: "ls".to_string(), args: vec![] }), Turn::Exec { .. }));
    match go(Request::VmStatus { vm_id: String::new() }) {
        Turn::Reply(Response::Success { body: ResponseBody::Status { state, pid, vcpus } }) => {
            assert_eq!((state.as_str(), pid, vcpus), ("running", 77, 2));
        }
        other => panic!("{other:?}"),
    }
    match go(Request::ListVms) {
        Turn::Reply(r) => assert_eq!(message(r), "Unsupported command on per-VM control socket"),
        other => panic!("{other:?}"),
    }
    let stopped = PauseState { pause_requested: true, ..pause_state() };
    assert!(matches!(
        dispatch(Request::Shutdown, &g, &stopped, 0),
        Turn::ShutdownAndReply { resume: true, .. }
    ));
    match dispatch(Request::VmStatus { vm_id: String::new() }, &g, &stopped, 0) {
        Turn::Reply(Response::Success { body: ResponseBody::Status { state, .. } }) => assert_eq!(state, "paused"),
        other => panic!("{other:?}"),
    }
    let bare = GuestInfo { tracks_pages: false, has_agent: false, ..guest() };
    match dispatch(Request::Exec { command: String::new(), args: vec![] }, &bare, &p, 0) {
        Turn::Reply(r) => assert_eq!(message(r), "Guest agent not available"),
        other => panic!("{other:?}"),
    }
    let inc = Request::IncrementalSnapshot { output_path: String::new(), base_template: String::new() };
    match dispatch(inc, &bare, &p, 0) {
        Turn::Reply(r) => assert_eq!(message(r), "VM fd not available for dirty page tracking"),
        other => panic!("{other:?}"),
    }
    assert_eq!(socket_path(77), "/tmp/clone-77.sock");
}

#[test]
fn the_balloon_takes_what_is_too_much() {
    let p = pause_state();
    for (target_mb, pages) in [(256u32, 768 * 256u32), (1023, 256), (1024, 0), (2048, 0), (0, 262144)] {
        match dispatch(Request::SetBalloon { target_mb }, &guest(), &p, 0) {
            Turn::SetBalloon { reclaim_pages } => assert_eq!(reclaim_pages, pages),
            other => panic!("{other:?}"),
        }
    }
    assert!(is_ack(&after_balloon(true)));
    assert_eq!(message(after_balloon(false)), "balloon device not found");
}

#[test]
fn a_pause_is_acknowledged() {
    assert!(matches!(after_pause(Goal::Pause, Ok(()), 0), Turn::Reply(r) if is_ack(&r)));
    match after_pause(Goal::Pause, Err("late".to_string()), 0) {
        Turn::Reply(r) => assert_eq!(message(r), "late"),
        other => panic!("{other:?}"),
    }
}

#[test]
fn a_full_snapshot_leaves_the_guest_stopped() {
    let goal = Goal::Snapshot { output_path: "/o".to_string() };
    let (goal, irqchip) = match after_pause(goal, Ok(()), 0) {
        Turn::Capture { goal, irqchip } => (goal, irqchip),
        other => panic!("{other:?}"),
    };
    assert!(irqchip);
    match after_capture(goal, captured(), &guest()) {
        Turn::SaveTemplate { goal, job, runtime_type, block_device, clock_ns, overlay_path, guest_ip } => {
            assert_eq!(job.output_dir, "/o");
            assert_eq!(job.vcpu_states.len(), 2);
            assert_eq!(job.vcpu_states[0].tsc_khz, 5);
            assert_eq!(job.vcpu_states[1].tsc_khz, 0);
            assert!(job.vcpu_states[1].regs.is_empty());
            assert_eq!(job.device_states.serial, Some(vec![4]));
            assert_eq!(job.device_states.transports, vec![vec![1]]);
            assert_eq!(job.device_states.irqchip, vec![vec![2]]);
            assert_eq!(job.device_states.pit, vec![3]);
            assert_eq!(job.device_states.virtio_configs.len(), 0);
            assert_eq!(runtime_type, "snapshot");
            assert_eq!(clock_ns, 99);
            assert_eq!(block_device.as_deref(), Some("rootfs.img"));
            assert_eq!(overlay_path.as_deref(), Some("overlay.img"));
            assert_eq!(guest_ip.as_deref(), Some("172.30.0.2"));
            match after_save(goal, Ok(())) {
                Turn::Reply(Response::Success { body: ResponseBody::SnapshotComplete { path } }) => {
                    assert_eq!(path, "/o")
                }
                other => panic!("{other:?}"),
            }
        }
        other => panic!("{other:?}"),
    }
    let goal = || Goal::Snapshot { output_path: "/o".to_string() };
    match after_save(goal(), Err("disk full".to_string())) {
        Turn::Reply(r) => assert_eq!(message(r), "Snapshot failed: disk full"),
        other => panic!("{other:?}"),
    }
    match after_pause(goal(), Err("late".to_string()), 0) {
        Turn::Reply(r) => assert_eq!(message(r), "late"),
        other => panic!("{other:?}"),
    }
}

#[test]
fn an_incremental_snapshot_lets_the_guest_go_on() {
    let goal = || Goal::Incremental { output_path: "/o".to_string(), base_template: "/b".to_string() };
    assert!(matches!(after_pause(goal(), Ok(()), 0), Turn::Capture { irqchip: false, .. }));
    assert!(matches!(after_pause(goal(), Err("late".to_string()), 0), Turn::Reply(_)));
    match after_capture(goal(), captured(), &guest()) {
        Turn::SaveIncremental { job, base_template, .. } => {
            assert_eq!(base_template, "/b");
            assert_eq!(job.output_dir, "/o");
            assert!(job.device_states.irqchip.is_empty());
            assert!(job.device_states.pit.is_empty());
        }
        other => panic!("{other:?}"),
    }
    assert!(matches!(
        after_save(goal(), Ok(())),
        Turn::ResumeAndReply(Response::Success { body: ResponseBody::SnapshotComplete { .. } })
    ));
    match after_save(goal(), Err("x".to_string())) {
        Turn::ResumeAndReply(r) => assert_eq!(message(r), "Incremental snapshot failed: x"),
        other => panic!("{other:?}"),
    }
}

fn branch(output_dir: Option<String>) -> Goal {
    let req = Request::Branch { output_dir, net: true, shared_dir: Some("s".to_string()) };
    match dispatch(req, &guest(), &pause_state(), 1_000_000) {
        Turn::Pause(goal) => goal,
        other => panic!("{other:?}"),
    }
}

#[test]
fn a_branch_copies_the_guest_and_lets_it_go_on() {
    match branch(Some("/mine".to_string())) {
        Goal::Branch { snap_dir, .. } => assert_eq!(snap_dir, "/mine"),
        other => panic!("{other:?}"),
    }
    let goal = match after_pause(branch(None), Ok(()), 6_000_000) {
        Turn::Pause(goal) => goal,
        other => panic!("{other:?}"),
    };
    let goal = match after_pause(goal, Ok(()), 7_000_000) {
        Turn::Capture { goal, irqchip: true } => goal,
        other => panic!("{other:?}"),
    };
    let goal = match after_capture(goal, captured(), &guest()) {
        Turn::SaveTemplate { goal, job, .. } => {
            assert_eq!(job.output_dir, "/tmp/clone-branch-77");
            goal
        }
        other => panic!("{other:?}"),
    };
    let goal = match after_save(goal, Ok(())) {
        Turn::SpawnFork { goal, template_path, net, shared_dir } => {
            assert_eq!(template_path, "/tmp/clone-branch-77");
            assert!(net);
            assert_eq!(shared_dir.as_deref(), Some("s"));
            goal
        }
        other => panic!("{other:?}"),
    };
    let mut m = registry();
    match after_fork(goal, Ok(88), 21_000_000, &mut m) {
        Turn::ResumeAndReply(Response::Success {
            body: ResponseBody::BranchComplete { new_vm_id, new_pid, pause_duration_ms, total_duration_ms },
        }) => {
            assert_eq!(new_vm_id, "branch-88");
            assert_eq!((new_pid, pause_duration_ms, total_duration_ms), (88, 5, 20));
        }
        other => panic!("{other:?}"),
    }
    assert!(render(&m).contains("clone_branch_duration_seconds_sum 0.02\n"));
}

#[test]
fn a_branch_that_fails_says_where() {
    match after_pause(branch(None), Err("late".to_string()), 0) {
        Turn::Reply(r) => assert_eq!(message(r), "Branch: pause failed: late"),
        other => panic!("{other:?}"),
    }
    let second = match after_pause(branch(None), Ok(()), 0) {
        Turn::Pause(goal) => goal,
        other => panic!("{other:?}"),
    };
    match after_pause(second, Err("late".to_string()), 0) {
        Turn::ResumeAndReply(r) => assert_eq!(message(r), "Branch: snapshot failed: late"),
        other => panic!("{other:?}"),
    }
    match after_save(branch(None), Err("disk full".to_string())) {
        Turn::ResumeAndReply(r) => {
            assert_eq!(message(r), "Branch: snapshot failed: Snapshot failed: disk full")
        }
        other => panic!("{other:?}"),
    }
    let mut m = registry();
    match after_fork(branch(None), Err("no kvm".to_string()), 0, &mut m) {
        Turn::ResumeAndReply(r) => assert_eq!(message(r), "Branch: fork spawn failed: no kvm"),
        other => panic!("{other:?}"),
    }
    assert!(render(&m).contains("clone_branch_duration_seconds_count 0\n"));
}

#[test]
fn migration_and_commands_are_answered() {
    let stats = MigrationStats { total_pages_sent: 1, rounds: 2, downtime_ms: 3, total_time_ms: 4 };
    assert!(matches!(
        after_migrate(Ok(stats)),
        Response::Success {
            body: ResponseBody::MigrationComplete { total_pages_sent: 1, rounds: 2, downtime_ms: 3, total_time_ms: 4 }
        }
    ));
    assert_eq!(message(after_migrate(Err("x".to_string()))), "Live migration failed: x");
    assert!(matches!(
        after_exec(Ok((3, "o".to_string(), "e".to_string()))),
        Response::Success { body: ResponseBody::ExecResult { exit_code: 3, .. } }
    ));
    assert_eq!(message(after_exec(Err("gone".to_string()))), "gone");
    assert!(matches!(await_agent(true, u64::MAX), AgentWait::Send));
    assert!(matches!(await_agent(false, 30_000_000_000), AgentWait::Wait));
    match await_agent(false, 30_000_000_001) {
        AgentWait::GiveUp(r) => assert_eq!(message(r), "Timed out waiting for guest agent"),
        other => panic!("{other:?}"),
    }
}
