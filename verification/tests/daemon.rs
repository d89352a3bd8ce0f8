use clone_vmm::cgroup::{
    add_process, create_vm_cgroup, ensure_parent, get_memory_peak, get_memory_usage, is_available,
    memory_peak_path, memory_usage_path, parent_writable,
    parse_memory, remove_cgroup, setup_cgroup, vm_cgroup_path, CgroupOp, MemoryError,
};
use clone_vmm::netns::{
    create_netns, created_netns, delete_netns, deleted_netns, exec_in_netns, executed,
    move_interface_to_netns, moved_interface, netns_exists, netns_path, renamed_interface,
    setup_isolated_network, setup_loopback, CommandLine, CommandResult,
};
use clone_vmm::prometheus_metrics::{
    inc_http_request, observe_branch_duration, observe_fork_duration, observe_snapshot_duration,
    registry, remove_vm_memory, render, set_vm_count, set_vm_memory, Metrics,
};
use clone_vmm::protocol::{protocol_error, read_frame, write_frame};
use clone_vmm::protocol::{Json, Request, Response, ResponseBody, VmEvent};
use clone_vmm::server::{
    after_shutdown, finish_host_metrics, finish_snapshot, per_vm_socket, query_vm_status, record_timing, request_kind, ControlClient, DEFAULT_SOCKET_PATH, Launch, LaunchSource, PER_VM_ONLY, PersistedState, ServerState, Step, VmState,
};

fn args(c: &CommandLine) -> Vec<&str> {
    c.args.iter().map(|a| a.as_str()).collect()
}

fn exited(success: bool) -> CommandResult {
    CommandResult::Exited {
        success,
        status: "exit status: 1".to_string(),
        stdout: "out".to_string(),
        stderr: "boom".to_string(),
    }
}

#[test]
fn vm_cgroup_path_is_namespaced() {
    let p = vm_cgroup_path("vm-0001");
    let p = std::path::Path::new(&p);
    assert!(p.starts_with("/sys/fs/cgroup/clone"));
    assert!(p.ends_with("vm-0001"));
}

#[test]
fn netns_path_resolution() {
    let look = |path: String| std::path::Path::new(&path).exists();
    assert!(!netns_exists("clone-nonexistent-test-netns", look));
}

#[test]
fn a_namespace_is_looked_for_at_its_path() {
    let mut asked = String::new();
    assert!(netns_exists("blue", |path| {
        asked = path;
        true
    }));
    assert_eq!(asked, "/var/run/netns/blue");
    assert_eq!(netns_path("blue"), "/var/run/netns/blue");
}

#[test]
fn a_cgroup_limits_memory_and_processes() {
    let ops = create_vm_cgroup("vm-0001", Some(512));
    assert_eq!(ops.len(), 3);
    assert!(matches!(&ops[0], CgroupOp::MakeDir { path } if path == "/sys/fs/cgroup/clone/vm-0001"));
    match &ops[1] {
        CgroupOp::Write { path, data, optional } => {
            assert_eq!(path, "/sys/fs/cgroup/clone/vm-0001/memory.max");
            assert_eq!(data, "536870912");
            assert!(!optional);
        }
        other => panic!("{other:?}"),
    }
    match &ops[2] {
        CgroupOp::Write { path, data, optional } => {
            assert_eq!(path, "/sys/fs/cgroup/clone/vm-0001/pids.max");
            assert_eq!(data, "4096");
            assert!(optional);
        }
        other => panic!("{other:?}"),
    }
    match &create_vm_cgroup("vm-0002", None)[1] {
        CgroupOp::Write { data, .. } => assert_eq!(data, "max"),
        other => panic!("{other:?}"),
    }
}

#[test]
fn the_parent_cgroup_is_made_once_and_has_its_controllers() {
    let ops = ensure_parent(false);
    assert_eq!(ops.len(), 2);
    assert!(matches!(&ops[0], CgroupOp::MakeDir { path } if path == "/sys/fs/cgroup/clone"));
    assert_eq!(ensure_parent(true).len(), 1);
    for op in [&ops[1], &ensure_parent(true)[0]] {
        match op {
            CgroupOp::Write { path, data, optional } => {
                assert_eq!(path, "/sys/fs/cgroup/cgroup.subtree_control");
                assert_eq!(data, "+memory +cpu +pids");
                assert!(optional);
            }
            other => panic!("{other:?}"),
        }
    }
}

#[test]
fn cgroup_files_are_read_and_written() {
    match add_process("vm-0001", 4711) {
        CgroupOp::Write { path, data, .. } => {
            assert_eq!(path, "/sys/fs/cgroup/clone/vm-0001/cgroup.procs");
            assert_eq!(data, "4711");
        }
        other => panic!("{other:?}"),
    }
    assert_eq!(memory_usage_path("vm-1"), "/sys/fs/cgroup/clone/vm-1/memory.current");
    assert_eq!(memory_peak_path("vm-1"), "/sys/fs/cgroup/clone/vm-1/memory.peak");
    assert_eq!(parse_memory(" 536870912\n"), Some(536870912));
    assert_eq!(parse_memory("+7"), Some(7));
    assert_eq!(parse_memory("18446744073709551615"), Some(u64::MAX));
    assert_eq!(parse_memory("18446744073709551616"), None);
    assert_eq!(parse_memory("max"), None);
    assert_eq!(parse_memory(""), None);
    assert_eq!(parse_memory("+"), None);
    assert_eq!(parse_memory("-1"), None);
    assert_eq!(parse_memory("1 2"), None);
    assert_eq!(remove_cgroup("vm-1", false), None);
    assert_eq!(remove_cgroup("vm-1", true).unwrap(), "/sys/fs/cgroup/clone/vm-1");
    assert_eq!(setup_cgroup("vm-1", true).unwrap(), "/sys/fs/cgroup/clone/vm-1");
    assert_eq!(setup_cgroup("vm-1", false), None);
    assert!(is_available(true, true));
    assert!(!is_available(true, false));
    assert!(!is_available(false, true));
    assert!(parent_writable(true, true, false));
    assert!(!parent_writable(true, false, true));
    assert!(parent_writable(false, false, true));
    assert!(!parent_writable(false, true, false));
}

#[test]
fn a_namespace_is_made_unless_it_is_there() {
    assert!(create_netns("blue", true).is_none());
    let c = create_netns("blue", false).unwrap();
    assert_eq!(c.program, "ip");
    assert_eq!(args(&c), vec!["netns", "add", "blue"]);
    assert!(created_netns("blue", &exited(true)).is_ok());
    assert_eq!(
        created_netns("blue", &exited(false)).unwrap_err(),
        "`ip netns add blue` exited exit status: 1"
    );
    assert_eq!(
        created_netns("blue", &CommandResult::NotRun).unwrap_err(),
        "Failed to run `ip netns add blue`"
    );
    assert_eq!(args(&delete_netns("blue")), vec!["netns", "del", "blue"]);
    assert!(deleted_netns("blue", &exited(false)).is_ok());
    assert_eq!(
        deleted_netns("blue", &CommandResult::NotRun).unwrap_err(),
        "Failed to run `ip netns del blue`"
    );
}

#[test]
fn an_interface_is_moved_and_then_renamed() {
    let c = move_interface_to_netns("tap0", "blue");
    assert_eq!(args(&c), vec!["link", "set", "tap0", "netns", "blue"]);
    let next = moved_interface("tap0", "blue", Some("eth0"), &exited(true)).unwrap().unwrap();
    assert_eq!(args(&next), vec!["-n", "blue", "link", "set", "tap0", "name", "eth0"]);
    assert!(moved_interface("tap0", "blue", None, &exited(true)).unwrap().is_none());
    assert_eq!(
        moved_interface("tap0", "blue", None, &exited(false)).unwrap_err(),
        "`ip link set tap0 netns blue` exited exit status: 1"
    );
    assert_eq!(
        moved_interface("tap0", "blue", None, &CommandResult::NotRun).unwrap_err(),
        "Failed to move tap0 to netns blue"
    );
    assert!(renamed_interface("tap0", "blue", &exited(true)).is_ok());
    assert_eq!(
        renamed_interface("tap0", "blue", &exited(false)).unwrap_err(),
        "rename failed: exit status: 1"
    );
    assert_eq!(
        renamed_interface("tap0", "blue", &CommandResult::NotRun).unwrap_err(),
        "rename tap0 in netns blue"
    );
}

#[test]
fn commands_run_inside_a_namespace() {
    let c = exec_in_netns("blue", "ls", &["-l", "/"]);
    assert_eq!(args(&c), vec!["netns", "exec", "blue", "ls", "-l", "/"]);
    assert_eq!(executed("blue", "ls", exited(true)).unwrap(), "out");
    assert_eq!(executed("blue", "ls", exited(false)).unwrap_err(), "`ls` in netns blue failed: boom");
    assert_eq!(
        executed("blue", "ls", CommandResult::NotRun).unwrap_err(),
        "Failed to exec ls in netns blue"
    );
    assert_eq!(
        args(&setup_loopback("blue")),
        vec!["netns", "exec", "blue", "ip", "link", "set", "lo", "up"]
    );
}

#[test]
fn an_isolated_network_takes_five_commands() {
    let cs = setup_isolated_network("blue", "10.0.0.1", 24);
    let lines: Vec<String> = cs.iter().map(|c| format!("{} {}", c.program, args(c).join(" "))).collect();
    assert_eq!(
        lines,
        vec![
            "ip netns exec blue ip link add br-inside type bridge",
            "ip netns exec blue ip addr add 10.0.0.1/24 dev br-inside",
            "ip netns exec blue ip link set br-inside up",
            "ip netns exec blue sysctl -w net.ipv4.ip_forward=1",
            "ip netns exec blue iptables -t nat -A POSTROUTING -s 10.0.0.1/24 -j MASQUERADE",
        ]
    );
}

#[test]
fn render_includes_all_metrics() {
    let mut m = registry();
    set_vm_count(&mut m, 3);
    set_vm_memory(&mut m, "vm-0001", 1024 * 1024 * 256);
    observe_fork_duration(&mut m, 123_000_000);
    observe_snapshot_duration(&mut m, 456_000_000);
    inc_http_request(&mut m, "GET", "/v1/vms", 200);

    let out = render(&m);
    assert!(out.contains("clone_vms_total"));
    assert!(out.contains("clone_vm_memory_bytes"));
    assert!(out.contains("clone_fork_duration_seconds"));
    assert!(out.contains("clone_snapshot_duration_seconds"));
    assert!(out.contains("clone_http_requests_total"));
}

#[test]
fn metrics_show_what_was_recorded() {
    let mut m = registry();
    set_vm_count(&mut m, 3);
    set_vm_memory(&mut m, "vm-0001", 1000);
    set_vm_memory(&mut m, "vm-0001", 268435456);
    set_vm_memory(&mut m, "vm-0002", 5);
    remove_vm_memory(&mut m, "vm-0002");
    remove_vm_memory(&mut m, "vm-0003");
    observe_fork_duration(&mut m, 123_000_000);
    observe_fork_duration(&mut m, 2_000_000_000);
    observe_branch_duration(&mut m, 500_000_000);
    observe_snapshot_duration(&mut m, 456_000_000);
    inc_http_request(&mut m, "GET", "/v1/vms", 200);
    inc_http_request(&mut m, "GET", "/v1/vms", 200);
    inc_http_request(&mut m, "POST", "/v1/vms", 500);
    let out = render(&m);
    for line in [
        "# HELP clone_vms_total Number of VMs currently tracked by the daemon",
        "# TYPE clone_vms_total gauge",
        "clone_vms_total 3",
        "clone_vm_memory_bytes{vm_id=\"vm-0001\"} 268435456",
        "clone_fork_duration_seconds_count 2",
        "clone_fork_duration_seconds_bucket{le=\"0.25\"} 1",
        "clone_fork_duration_seconds_sum 2.123",
        "clone_branch_duration_seconds_sum 0.5",
        "clone_branch_duration_seconds_count 1",
        "clone_snapshot_duration_seconds_sum 0.456",
        "clone_fork_total 2",
        "clone_snapshot_total 1",
        "clone_http_requests_total{method=\"GET\",path=\"/v1/vms\",status=\"200\"} 2",
        "clone_http_requests_total{method=\"POST\",path=\"/v1/vms\",status=\"500\"} 1",
    ] {
        assert!(out.lines().any(|l| l == line), "missing: {line}\n{out}");
    }
    assert!(!out.contains("vm-0002"));
    // Rendering changes nothing.
    assert_eq!(render(&m), out);
}

#[test]
fn metrics_of_an_idle_daemon_show_zeros() {
    let out = render(&registry());
    assert!(out.contains("clone_vms_total 0\n"));
    assert!(out.contains("clone_fork_total 0\n"));
    assert!(out.contains("clone_snapshot_total 0\n"));
    assert!(out.contains("clone_branch_duration_seconds_count 0\n"));
    assert!(!out.contains("clone_http_requests_total"));
}

fn create(net: bool) -> Request {
    Request::CreateVm {
        kernel: "vmlinuz".to_string(),
        initrd: None,
        cmdline: "quiet".to_string(),
        mem_mb: 512,
        vcpus: 2,
        rootfs: Some("rootfs.img".to_string()),
        overlay: None,
        shared_dir: None,
        block: None,
        net,
        tap: None,
        seccomp: false,
        jail: None,
        memory_limit_mb: Some(600),
    }
}

fn launch(s: &mut ServerState, m: &mut Metrics, req: Request) -> Launch {
    match s.begin(req, 0, m) {
        Step::Launch(l) => l,
        other => panic!("{other:?}"),
    }
}

fn reply(step: Step) -> Response {
    match step {
        Step::Reply(r) => r,
        other => panic!("{other:?}"),
    }
}

fn message(r: Response) -> String {
    match r {
        Response::Error { message } => message,
        other => panic!("{other:?}"),
    }
}

fn body(r: Response) -> ResponseBody {
    match r {
        Response::Success { body } => body,
        other => panic!("{other:?}"),
    }
}

fn count_line(m: &Metrics) -> String {
    render(m).lines().find(|l| l.starts_with("clone_vms_total ")).unwrap().to_string()
}

#[test]
fn a_created_guest_is_numbered_and_tracked() {
    let mut s = ServerState::new(None, None);
    let mut m = registry();
    let l = launch(&mut s, &mut m, create(true));
    assert_eq!(l.vm_id, "vm-0001");
    assert_eq!(l.cid, 3);
    assert_eq!(l.memory_limit_mb, Some(600));
    match &l.source {
        LaunchSource::Kernel { kernel, cmdline, mem_mb, vcpus, .. } => {
            assert_eq!(kernel, "vmlinuz");
            assert_eq!(
                cmdline,
                "quiet clone.agent_port=9999 clone.net_ip=172.30.0.2 clone.net_gw=172.30.0.1 clone.net_mask=16"
            );
            assert_eq!((*mem_mb, *vcpus), (512, 2));
        }
        other => panic!("{other:?}"),
    }
    let (r, e) = s.finish_launch(l, Ok(4711), Some("/cg".to_string()), 5_000, &mut m);
    assert!(matches!(body(r), ResponseBody::VmCreated { vm_id, pid: 4711 } if vm_id == "vm-0001"));
    assert!(matches!(e, Some(VmEvent::Boot { vm_id }) if vm_id == "vm-0001"));
    assert_eq!(s.pid_of("vm-0001"), Some(4711));
    assert_eq!(s.pid_of("vm-0002"), None);
    assert_eq!(count_line(&m), "clone_vms_total 1");

    let l = launch(&mut s, &mut m, create(false));
    assert_eq!((l.vm_id.as_str(), l.cid), ("vm-0002", 4));
    match &l.source {
        LaunchSource::Kernel { cmdline, .. } => assert_eq!(cmdline, "quiet clone.agent_port=9999"),
        other => panic!("{other:?}"),
    }
}

#[test]
fn a_guest_that_did_not_start_leaves_nothing_but_its_numbers() {
    let mut s = ServerState::new(None, None);
    let mut m = registry();
    let l = launch(&mut s, &mut m, create(false));
    let (r, e) = s.finish_launch(l, Err("no kvm".to_string()), None, 0, &mut m);
    assert_eq!(message(r), "Failed to spawn VM: no kvm");
    assert!(e.is_none());
    assert_eq!(count_line(&m), "clone_vms_total 0");
    let l = launch(&mut s, &mut m, create(false));
    assert_eq!(l.vm_id, "vm-0002");
}

#[test]
fn forked_and_restored_guests_are_tracked() {
    let mut s = ServerState::new(None, None);
    let mut m = registry();
    let fork = Request::ForkVm {
        template_path: "/tpl".to_string(),
        net: true,
        shared_dir: None,
        mem_mb: Some(256),
        vcpus: None,
        overlay_size: None,
        memory_limit_mb: None,
    };
    let l = launch(&mut s, &mut m, fork);
    assert!(matches!(&l.source, LaunchSource::Template { template_path, mem_mb: Some(256), .. } if template_path == "/tpl"));
    let (_, e) = s.finish_launch(l, Ok(1), None, 0, &mut m);
    assert!(matches!(e, Some(VmEvent::TemplateHit { vm_id, template }) if vm_id == "vm-0001" && template == "/tpl"));
    let restore = Request::RestoreVm {
        snapshot_path: "/save".to_string(),
        net: true,
        shared_dir: None,
        block: Some("b".to_string()),
        memory_limit_mb: Some(1),
    };
    let l = launch(&mut s, &mut m, restore);
    assert_eq!(l.cid, 4);
    assert!(matches!(&l.source, LaunchSource::Saved { snapshot_path, .. } if snapshot_path == "/save"));
    let (_, e) = s.finish_launch(l, Ok(2), None, 0, &mut m);
    assert!(matches!(e, Some(VmEvent::Boot { .. })));
    assert_eq!(count_line(&m), "clone_vms_total 2");

    let fork = Request::ForkVm {
        template_path: "/tpl".to_string(),
        net: false,
        shared_dir: None,
        mem_mb: None,
        vcpus: None,
        overlay_size: None,
        memory_limit_mb: None,
    };
    let l = launch(&mut s, &mut m, fork);
    let (r, _) = s.finish_launch(l, Err("x".to_string()), None, 0, &mut m);
    assert_eq!(message(r), "Fork failed: x");
    let restore = Request::RestoreVm {
        snapshot_path: "/save".to_string(),
        net: false,
        shared_dir: None,
        block: None,
        memory_limit_mb: None,
    };
    let l = launch(&mut s, &mut m, restore);
    let (r, _) = s.finish_launch(l, Err("x".to_string()), None, 0, &mut m);
    assert_eq!(message(r), "Restore failed: x");
}

#[test]
fn a_destroyed_guest_is_forgotten() {
    let mut s = ServerState::new(None, None);
    let mut m = registry();
    let l = launch(&mut s, &mut m, create(false));
    s.finish_launch(l, Ok(4711), None, 0, &mut m);
    set_vm_memory(&mut m, "vm-0001", 77);
    match s.begin(Request::DestroyVm { vm_id: "vm-0001".to_string() }, 0, &mut m) {
        Step::Destroy { vm_id, pid, socket, event, reply } => {
            assert_eq!(vm_id, "vm-0001");
            assert_eq!(pid, 4711);
            assert_eq!(socket, "/tmp/clone-4711.sock");
            assert!(matches!(event, VmEvent::Shutdown { vm_id } if vm_id == "vm-0001"));
            assert!(matches!(body(reply), ResponseBody::Ack));
        }
        other => panic!("{other:?}"),
    }
    assert_eq!(count_line(&m), "clone_vms_total 0");
    assert!(!render(&m).contains("vm-0001"));
    let r = reply(s.begin(Request::DestroyVm { vm_id: "vm-0001".to_string() }, 0, &mut m));
    assert_eq!(message(r), "VM not found: vm-0001");
    // The numbers are not given out again.
    assert_eq!(launch(&mut s, &mut m, create(false)).vm_id, "vm-0002");
}

#[test]
fn the_status_of_a_guest_is_its_own_or_the_last_known() {
    let mut s = ServerState::new(None, None);
    let mut m = registry();
    let l = launch(&mut s, &mut m, create(false));
    s.finish_launch(l, Ok(9), None, 1_000, &mut m);
    match s.begin(Request::VmStatus { vm_id: "vm-0001".to_string() }, 0, &mut m) {
        Step::QueryStatus { vm_id, socket } => {
            assert_eq!(vm_id, "vm-0001");
            assert_eq!(socket, per_vm_socket(9));
        }
        other => panic!("{other:?}"),
    }
    match body(s.finish_status("vm-0001", None, 4_000)) {
        ResponseBody::VmStatus { state, uptime_nanos, memory_usage_bytes } => {
            assert_eq!(state, "running");
            assert_eq!(uptime_nanos, 3_000);
            assert_eq!(memory_usage_bytes, 0);
        }
        other => panic!("{other:?}"),
    }
    let live = Response::Success {
        body: ResponseBody::VmStatus {
            state: "paused".to_string(),
            uptime_nanos: 1,
            memory_usage_bytes: 1,
        },
    };
    match body(s.finish_status("vm-0001", Some(live), 0)) {
        ResponseBody::VmStatus { state, uptime_nanos, .. } => {
            assert_eq!(state, "paused");
            assert_eq!(uptime_nanos, 0);
        }
        other => panic!("{other:?}"),
    }
    // What a guest's own socket answers.
    let own = Response::Success {
        body: ResponseBody::Status { state: "paused".to_string(), pid: 1, vcpus: 1 },
    };
    let live = query_vm_status(own);
    assert!(matches!(body(s.finish_status("vm-0001", Some(live), 0)), ResponseBody::VmStatus { state, .. } if state == "paused"));
    let failed = query_vm_status(Response::Error { message: "x".to_string() });
    assert!(matches!(body(s.finish_status("vm-0001", Some(failed), 0)), ResponseBody::VmStatus { state, .. } if state == "running"));
    assert_eq!(message(s.finish_status("vm-9", None, 0)), "VM not found: vm-9");
    let r = reply(s.begin(Request::VmStatus { vm_id: "vm-9".to_string() }, 0, &mut m));
    assert_eq!(message(r), "VM not found: vm-9");
    assert_eq!(VmState::Running.as_str(), "running");
    assert_eq!(VmState::Stopped.as_str(), "stopped");
    assert_eq!(VmState::Paused.as_str(), "paused");
}

#[test]
fn all_guests_are_listed() {
    let mut s = ServerState::new(None, None);
    let mut m = registry();
    for pid in 1..=3 {
        let l = launch(&mut s, &mut m, create(false));
        s.finish_launch(l, Ok(pid), None, 100, &mut m);
    }
    match body(reply(s.begin(Request::ListVms, 150, &mut m))) {
        ResponseBody::VmList { vms } => {
            let ids: Vec<&str> = vms.iter().map(|v| v.vm_id.as_str()).collect();
            assert_eq!(ids, vec!["vm-0001", "vm-0002", "vm-0003"]);
            assert!(vms.iter().all(|v| v.state == "running" && v.uptime_nanos == 50));
        }
        other => panic!("{other:?}"),
    }
}

#[test]
fn snapshots_are_forwarded() {
    let mut s = ServerState::new(None, None);
    let mut m = registry();
    let l = launch(&mut s, &mut m, create(false));
    s.finish_launch(l, Ok(9), None, 0, &mut m);
    let req = |id: &str| Request::Snapshot { vm_id: id.to_string(), output_path: "/out".to_string() };
    match s.begin(req("vm-0001"), 0, &mut m) {
        Step::Snapshot { socket, output_path } => {
            assert_eq!(socket, "/tmp/clone-9.sock");
            assert_eq!(output_path, "/out");
        }
        other => panic!("{other:?}"),
    }
    assert_eq!(message(reply(s.begin(req("vm-2"), 0, &mut m))), "VM not found: vm-2");
    assert_eq!(message(finish_snapshot(Err("refused".to_string()))), "Snapshot failed: refused");
    let done = Response::Success { body: ResponseBody::SnapshotComplete { path: "/out".to_string() } };
    assert!(matches!(body(finish_snapshot(Ok(done))), ResponseBody::SnapshotComplete { .. }));
}

#[test]
fn metrics_are_of_a_guest_or_of_the_host() {
    let mut s = ServerState::new(None, None);
    let mut m = registry();
    let l = launch(&mut s, &mut m, create(false));
    s.finish_launch(l, Ok(9), None, 0, &mut m);
    let req = |id: &str| Request::Metrics { vm_id: id.to_string() };
    assert!(matches!(s.begin(req("_host"), 0, &mut m), Step::HostMetrics));
    match body(reply(s.begin(req("vm-0001"), 0, &mut m))) {
        ResponseBody::Metrics { metrics: Json::Object(fields) } => {
            assert_eq!(fields[0].0, "private_rss_bytes");
            assert!(matches!(fields[0].1, Json::Nat(0)));
            assert_eq!(fields[1].0, "shared_rss_bytes");
        }
        other => panic!("{other:?}"),
    }
    assert_eq!(message(reply(s.begin(req("vm-2"), 0, &mut m))), "No metrics for VM: vm-2");
    assert!(matches!(body(finish_host_metrics(Json::Null)), ResponseBody::Metrics { metrics: Json::Null }));
}

#[test]
fn the_daemon_refers_to_the_sockets_of_guests() {
    let mut s = ServerState::new(None, None);
    let mut m = registry();
    for req in [
        Request::Pause,
        Request::Resume,
        Request::Shutdown,
        Request::SetBalloon { target_mb: 1 },
    ] {
        assert_eq!(message(reply(s.begin(req, 0, &mut m))), PER_VM_ONLY);
    }
    assert_eq!(
        PER_VM_ONLY,
        "Use the per-VM control socket for pause/resume/shutdown/incremental-snapshot/live-migrate/exec/set-balloon/branch"
    );
}

#[test]
fn counters_outlive_the_daemon() {
    let mut s = ServerState::new(Some("/var/lib/clone.json".to_string()), None);
    let mut m = registry();
    assert!(s.can_allocate());
    launch(&mut s, &mut m, create(false));
    launch(&mut s, &mut m, create(false));
    let (path, counters) = s.persist().unwrap();
    assert_eq!(path, "/var/lib/clone.json");
    assert_eq!(counters, PersistedState { next_id: 3, next_cid: 5 });
    let mut again = ServerState::new(None, Some(counters));
    assert!(again.persist().is_none());
    let l = launch(&mut again, &mut m, create(false));
    assert_eq!((l.vm_id.as_str(), l.cid), ("vm-0003", 5));
    // Context ids below three are reserved.
    let mut low = ServerState::new(None, Some(PersistedState { next_id: 0, next_cid: 1 }));
    let l = launch(&mut low, &mut m, create(false));
    assert_eq!((l.vm_id.as_str(), l.cid), ("vm-0001", 3));
}

#[test]
fn ids_grow_beyond_four_digits() {
    let mut s = ServerState::new(None, Some(PersistedState { next_id: 9999, next_cid: 258 }));
    assert_eq!(s.alloc_id(), "vm-9999");
    assert_eq!(s.alloc_id(), "vm-10000");
}

#[test]
fn addresses_follow_context_ids() {
    let mut m = registry();
    for (cid, ip) in [(256u64, "172.30.0.255"), (257, "172.30.1.0"), (65536, "172.30.255.255")] {
        let mut s = ServerState::new(None, Some(PersistedState { next_id: 1, next_cid: cid }));
        match launch(&mut s, &mut m, create(true)).source {
            LaunchSource::Kernel { cmdline, .. } => {
                assert!(cmdline.contains(&format!(" clone.net_ip={ip} ")), "{cmdline}")
            }
            other => panic!("{other:?}"),
        }
    }
}

#[test]
fn requests_are_timed_by_kind() {
    let mut m = registry();
    let kinds = [
        (Request::ListVms, "list"),
        (Request::Pause, "other"),
        (Request::VmStatus { vm_id: String::new() }, "status"),
        (Request::DestroyVm { vm_id: String::new() }, "destroy"),
        (Request::Metrics { vm_id: String::new() }, "metrics"),
        (Request::Snapshot { vm_id: String::new(), output_path: String::new() }, "snapshot"),
        (create(false), "create"),
    ];
    for (req, kind) in kinds {
        assert_eq!(request_kind(&req), kind);
    }
    record_timing(&mut m, "fork", 1_000_000_000);
    record_timing(&mut m, "restore", 1_000_000_000);
    record_timing(&mut m, "snapshot", 3_000_000_000);
    record_timing(&mut m, "create", 1);
    let out = render(&m);
    assert!(out.contains("clone_fork_total 2\n"));
    assert!(out.contains("clone_fork_duration_seconds_sum 2\n"));
    assert!(out.contains("clone_snapshot_duration_seconds_sum 3\n"));
}

#[test]
fn messages_are_framed_by_their_length() {
    let wire = write_frame(b"{}").unwrap();
    assert_eq!(wire, vec![2, 0, 0, 0, b'{', b'}']);
    let mut more = wire.clone();
    more.extend_from_slice(b"next");
    assert_eq!(read_frame(&more).unwrap(), b"{}");
    assert!(read_frame(&wire[..5]).is_none());
    assert!(read_frame(&wire[..3]).is_none());
    let long = write_frame(&vec![7u8; 70000]).unwrap();
    assert_eq!(&long[..4], &[0x70, 0x11, 1, 0]);
    assert_eq!(message(protocol_error("eof")), "Protocol error: eof");
    let client = ControlClient::new(DEFAULT_SOCKET_PATH.to_string());
    assert_eq!(client.socket_path(), "/run/clone/control.sock");
}

#[test]
fn the_memory_of_a_guest_is_read_from_its_group() {
    let read = |path: &String| match path.as_str() {
        "/sys/fs/cgroup/clone/vm-0001/memory.current" => Some("4096\n".to_string()),
        "/sys/fs/cgroup/clone/vm-0001/memory.peak" => Some("8192\n".to_string()),
        "/sys/fs/cgroup/clone/vm-0002/memory.current" => Some("max\n".to_string()),
        _ => None,
    };
    assert_eq!(get_memory_usage("vm-0001", read).unwrap(), 4096);
    assert_eq!(get_memory_peak("vm-0001", read).unwrap(), 8192);
    assert!(matches!(
        get_memory_usage("vm-0002", read),
        Err(MemoryError::Invalid { contents }) if contents == "max\n"
    ));
    assert!(matches!(
        get_memory_peak("vm-0003", read),
        Err(MemoryError::Unreadable { path }) if path == "/sys/fs/cgroup/clone/vm-0003/memory.peak"
    ));
}

#[test]
fn a_guest_that_does_not_shut_down_is_killed() {
    assert_eq!(after_shutdown(true, 77), None);
    assert_eq!(after_shutdown(false, 77), Some(77));
}
