use clone_vmm::clone_client::{
    ensure_ok, healthy, judge_address, port_is_open, AddressWait, CallBody, CloneClient, CreateVmReq,
    CreateVmResp, DaemonCall, ExecResp, Method, RestoreReq,
};
use clone_vmm::config::{Cli, ControllerConfig};
use clone_vmm::controller::{
    after_address, after_allocate, after_balloon, after_format, after_launch, after_overlay_check,
    after_port, build_cmdline, wait_for_port, AcquireTurn, ControllerState, Outcome, PortAttempt, PortWait,
};
use clone_vmm::controller_metrics::{new_metrics, render, ControllerMetrics};
use clone_vmm::failure::Failure;
use clone_vmm::netns::CommandLine;
use clone_vmm::reconciler::{probe_target, reclaim_calls, review, Decision, StatusCounts};
use clone_vmm::strmap::StrMap;
use clone_vmm::tenant::{load, TenantConfig, TenantState, VmStatus};
use clone_vmm::timestamp::{seconds_between, Timestamp};

fn at(secs: i64) -> Timestamp {
    Timestamp { secs, nanos: 0 }
}

fn cli() -> Cli {
    Cli {
        listen: "127.0.0.1:8092".to_string(),
        clone_daemon: "http://127.0.0.1:8091".to_string(),
        clone_auth_token: Some("t".to_string()),
        state_file: std::path::PathBuf::from("/tmp/clone-controller-state.json"),
        saves_root: "/saves".to_string(),
        reconcile_interval_secs: 60,
        soft_reclaim_after_secs: 120,
        hard_reclaim_after_secs: 300,
        balloon_target_mb: 256,
        health_probe_enabled: true,
        health_probe_fail_threshold: 3,
        skip_daemon_health_check: false,
    }
}

fn config() -> ControllerConfig {
    ControllerConfig::from(cli())
}

fn tenant_config(id: &str) -> TenantConfig {
    TenantConfig {
        tenant_id: id.to_string(),
        kernel: "vmlinuz-26".to_string(),
        rootfs: "ubuntu.img".to_string(),
        overlay_path: "/overlays/a.img".to_string(),
        shared_dir: Some("/h:t:/g".to_string()),
        mem_mb: 1024,
        memory_limit_mb: Some(1100),
        init_cmd: None,
        app_health_port: Some(8080),
    }
}

fn controller() -> (ControllerState, ControllerMetrics) {
    let mut c = ControllerState::new(config(), StrMap::new());
    let mut m = new_metrics();
    assert_eq!(c.create_tenant(tenant_config("a"), at(1000), &mut m).unwrap(), "a");
    (c, m)
}

fn args(c: &CommandLine) -> Vec<&str> {
    c.args.iter().map(|a| a.as_str()).collect()
}

#[test]
fn the_command_line_gives_the_configuration() {
    let c = config();
    assert_eq!(c.listen, "127.0.0.1:8092");
    assert_eq!(c.clone_daemon_url, "http://127.0.0.1:8091");
    assert_eq!(c.clone_auth_token.as_deref(), Some("t"));
    assert_eq!(c.state_file, std::path::PathBuf::from("/tmp/clone-controller-state.json"));
    assert_eq!(c.soft_reclaim_after_secs, 120);
    assert_eq!(c.hard_reclaim_after_secs, 300);
    assert!(!c.skip_daemon_health_check);
}

#[test]
fn tenants_are_registered_once() {
    let (mut c, mut m) = controller();
    assert_eq!(c.tenants.len(), 1);
    assert_eq!(c.get_tenant("a").unwrap().created_at, at(1000));
    assert_eq!(c.get_tenant("a").unwrap().status.as_str(), "not_found");
    let e = c.create_tenant(tenant_config("a"), at(0), &mut m).unwrap_err();
    assert_eq!((e.status, e.message.as_str()), (409, "tenant a already exists"));
    assert_eq!(c.list_tenants().len(), 1);
    assert!(render(&m).contains("clone_controller_tenants_total 1\n"));
    let cleanup = c.delete_tenant("a", &mut m).unwrap();
    assert!(cleanup.destroy.is_none() && cleanup.remove_dir.is_none());
    assert!(render(&m).contains("clone_controller_tenants_total 0\n"));
    let e = c.get_tenant("a").unwrap_err();
    assert_eq!((e.status, e.message.as_str()), (404, "tenant a not found"));
    assert_eq!(c.delete_tenant("a", &mut m).unwrap_err().status, 404);
    assert!(c.create_tenant(tenant_config("a"), at(0), &mut m).is_ok());
}

#[test]
fn tenants_have_to_say_what_they_need() {
    let (mut c, mut m) = controller();
    let mut t = tenant_config(" \t\n");
    let e = c.create_tenant(t.clone(), at(0), &mut m).unwrap_err();
    assert_eq!((e.status, e.message.as_str()), (400, "tenant_id is required"));
    t.tenant_id = "b".to_string();
    t.rootfs = "  ".to_string();
    let e = c.create_tenant(t.clone(), at(0), &mut m).unwrap_err();
    assert_eq!((e.status, e.message.as_str()), (400, "kernel and rootfs are required"));
    t.rootfs = "r".to_string();
    t.kernel = String::new();
    assert_eq!(c.create_tenant(t.clone(), at(0), &mut m).unwrap_err().status, 400);
    t.kernel = "k".to_string();
    t.overlay_path = "\u{a0}".to_string();
    let e = c.create_tenant(t.clone(), at(0), &mut m).unwrap_err();
    assert_eq!((e.status, e.message.as_str()), (400, "overlay_path is required"));
    t.overlay_path = "o".to_string();
    assert!(c.create_tenant(t, at(0), &mut m).is_ok());
}

fn set_status(c: &mut ControllerState, status: VmStatus) {
    c.tenants.get_mut("a").unwrap().status = status;
}

#[test]
fn the_status_decides_how_a_tenant_gets_its_guest() {
    let (mut c, _) = controller();
    let outcomes = [
        (VmStatus::NotFound, Outcome::ColdCreate, "cold_create"),
        (VmStatus::Saved, Outcome::Restore, "restore"),
        (VmStatus::SoftReclaimed, Outcome::Recover, "recover"),
        (VmStatus::Active, Outcome::FastPath, "fast_path"),
        (VmStatus::Failed("x".to_string()), Outcome::ColdCreate, "cold_create"),
    ];
    for (status, outcome, word) in outcomes {
        set_status(&mut c, status);
        assert_eq!(c.begin_acquire("a").unwrap(), outcome);
        assert_eq!(outcome.as_str(), word);
    }
    for status in [VmStatus::Starting, VmStatus::Saving] {
        let word = status.as_str();
        set_status(&mut c, status);
        let e = c.begin_acquire("a").unwrap_err();
        assert_eq!((e.status, e.message), (503, format!("tenant a is {word}, retry later")));
    }
    set_status(&mut c, VmStatus::Failed("x".to_string()));
    c.tenants.get_mut("a").unwrap().save_path = Some("/s".to_string());
    assert_eq!(c.begin_acquire("a").unwrap(), Outcome::Restore);
    assert_eq!(c.acquire("b").unwrap_err().message, "tenant b not found");
}

#[test]
fn a_tenant_without_a_guest_gets_a_new_one() {
    let (mut c, mut m) = controller();
    let (outcome, turn) = c.acquire("a").unwrap();
    assert_eq!(outcome, Outcome::ColdCreate);
    assert!(matches!(c.get_tenant("a").unwrap().status, VmStatus::Starting));
    let start = match turn {
        AcquireTurn::CheckOverlay(start) => start,
        other => panic!("{other:?}"),
    };
    assert_eq!(start.overlay_path, "/overlays/a.img");
    let (start, then) = match after_overlay_check(start, false) {
        AcquireTurn::Allocate { start, command, then } => {
            assert_eq!((command.program.as_str(), args(&command)), ("fallocate", vec!["-l", "4G", "/overlays/a.img"]));
            (start, then)
        }
        other => panic!("{other:?}"),
    };
    let start = match after_allocate(start, then, Ok(())) {
        AcquireTurn::Format { start, command } => {
            assert_eq!((command.program.as_str(), args(&command)), ("mkfs.ext4", vec!["-q", "-F", "/overlays/a.img"]));
            start
        }
        other => panic!("{other:?}"),
    };
    let health_port = match after_format(start, Ok(Some(0))) {
        AcquireTurn::Create { request, health_port } => {
            assert_eq!(request.kernel, "vmlinuz-26");
            assert_eq!(request.rootfs.as_deref(), Some("ubuntu.img"));
            assert_eq!(request.overlay.as_deref(), Some("/overlays/a.img"));
            assert_eq!(request.cmdline.as_deref(), Some("console=ttyS0 reboot=k panic=1 nokaslr quiet"));
            assert_eq!((request.mem_mb, request.vcpus, request.net), (Some(1024), Some(1), Some(true)));
            assert_eq!(request.memory_limit_mb, Some(1100));
            health_port
        }
        other => panic!("{other:?}"),
    };
    let resp = CreateVmResp { vm_id: "vm-0007".to_string(), pid: None };
    let (vm_id, outcome, health_port) = match after_launch(Ok(resp), outcome, health_port) {
        AcquireTurn::FindAddress { vm_id, outcome, health_port } => (vm_id, outcome, health_port),
        other => panic!("{other:?}"),
    };
    let wait = judge_address(
        Ok(ExecResp { exit_code: 0, stdout: "172.30.0.9\n".to_string(), stderr: String::new() }),
        0,
    );
    let (vm_id, ip, port) = match after_address(vm_id, outcome, health_port, wait) {
        AcquireTurn::AwaitPort { vm_id, ip, port } => (vm_id, ip, port),
        other => panic!("{other:?}"),
    };
    let (vm_id, ip) = match after_port(vm_id, ip, port, PortWait::Open) {
        AcquireTurn::Started { vm_id, ip } => (vm_id, ip),
        other => panic!("{other:?}"),
    };
    c.finish_start("a", vm_id, ip);
    let resp = c.finish_acquire("a", outcome, at(2000), 1_000_000_000, &mut m).unwrap();
    assert_eq!((resp.ip.as_str(), resp.vm_id.as_str()), ("172.30.0.9", "vm-0007"));
    assert_eq!((resp.status, resp.outcome), ("active", "cold_create"));
    let t = c.get_tenant("a").unwrap();
    assert!(matches!(t.status, VmStatus::Active));
    assert_eq!(t.last_request_at, Some(at(2000)));
    assert!(t.save_path.is_none());
    let out = render(&m);
    assert!(out.contains("clone_controller_acquire_duration_seconds_bucket{outcome=\"cold_create\",le=\"0.5\"} 0\n"), "{out}");
    assert!(out.contains("clone_controller_acquire_duration_seconds_bucket{outcome=\"cold_create\",le=\"1\"} 1\n"), "{out}");
    assert!(out.contains("clone_controller_acquire_duration_seconds_sum{outcome=\"cold_create\"} 1\n"), "{out}");
    // The next acquire finds the guest.
    assert!(matches!(c.acquire("a").unwrap(), (Outcome::FastPath, AcquireTurn::Ready)));
}

#[test]
fn an_acquire_can_fail_at_each_step() {
    let (mut c, mut m) = controller();
    let start = |c: &mut ControllerState| match c.acquire("a").unwrap() {
        (_, AcquireTurn::CheckOverlay(s)) => s,
        other => panic!("{other:?}"),
    };
    let fail = |turn: AcquireTurn| match turn {
        AcquireTurn::Fail(e) => e,
        other => panic!("{other:?}"),
    };
    let command = || CommandLine { program: String::new(), args: Vec::new() };
    let s = start(&mut c);
    let e = fail(after_allocate(s, command(), Err("not found".to_string())));
    assert_eq!(e.full(), "fallocate failed: not found");
    let r = c.fail_acquire("a", Outcome::ColdCreate, &e, 0, &mut m);
    assert_eq!((r.status, r.message.as_str()), (500, "fallocate failed: not found"));
    let t = c.get_tenant("a").unwrap();
    assert!(matches!(&t.status, VmStatus::Failed(e) if e == "fallocate failed: not found"));
    assert_eq!(t.last_error.as_deref(), Some("fallocate failed: not found"));
    let out = render(&m);
    assert!(out.contains("clone_controller_acquire_errors_total{reason=\"cold_create\"} 1\n"));
    assert!(out.contains("clone_controller_acquire_duration_seconds_count{outcome=\"error\"} 1\n"));
    assert!(!out.contains("outcome=\"cold_create\""));

    let s = start(&mut c);
    assert_eq!(fail(after_format(s, Ok(Some(1)))).full(), "mkfs.ext4 exit Some(1)");
    set_status(&mut c, VmStatus::NotFound);
    let s = start(&mut c);
    assert_eq!(fail(after_format(s, Ok(None))).full(), "mkfs.ext4 exit None");
    set_status(&mut c, VmStatus::NotFound);
    let s = start(&mut c);
    assert_eq!(fail(after_format(s, Err("gone".to_string()))).full(), "gone");
    set_status(&mut c, VmStatus::NotFound);
    let s = start(&mut c);
    assert!(matches!(after_overlay_check(s, true), AcquireTurn::Create { health_port: Some(8080), .. }));

    let e = || Failure::new("exec_vm failed: HTTP 500".to_string());
    assert_eq!(fail(after_launch(Err(e()), Outcome::Restore, None)).message(), "exec_vm failed: HTTP 500");
    let found = |restoring: Outcome| match after_address("vm-1".to_string(), restoring, None, AddressWait::GiveUp(e())) {
        AcquireTurn::Discard { vm_id, failure } => {
            assert_eq!(vm_id, "vm-1");
            failure
        }
        other => panic!("{other:?}"),
    };
    assert_eq!(found(Outcome::ColdCreate).full(), "fetch_guest_ip: exec_vm failed: HTTP 500");
    assert_eq!(found(Outcome::Restore).full(), "fetch_guest_ip after restore: exec_vm failed: HTTP 500");
    assert_eq!(found(Outcome::Restore).message(), "fetch_guest_ip after restore");
    // The tenant remembers the outermost circumstance, the answer tells all.
    let r = c.fail_acquire("a", Outcome::Restore, &found(Outcome::Restore), 0, &mut m);
    assert_eq!(r.message, "fetch_guest_ip after restore: exec_vm failed: HTTP 500");
    assert_eq!(c.get_tenant("a").unwrap().last_error.as_deref(), Some("fetch_guest_ip after restore"));

    match wait_for_port("172.30.0.9", 8080, PortAttempt::Refused, 15_000_000_000) {
        PortWait::GiveUp(e) => assert_eq!(e.full(), "app port 8080 on 172.30.0.9 not up within 15s"),
        other => panic!("{other:?}"),
    }
    match wait_for_port("x", 1, PortAttempt::BadAddress("invalid syntax".to_string()), 0) {
        PortWait::GiveUp(e) => assert_eq!(e.full(), "bad ip:port: invalid syntax"),
        other => panic!("{other:?}"),
    }
    assert!(matches!(wait_for_port("i", 1, PortAttempt::Refused, 14_999_999_999), PortWait::Retry));
    assert!(matches!(wait_for_port("i", 1, PortAttempt::Connected, u64::MAX), PortWait::Open));
    let port = |w: PortWait| after_port("vm-1".to_string(), "i".to_string(), 1, w);
    assert!(matches!(port(PortWait::Retry), AcquireTurn::AwaitPort { .. }));
    assert!(matches!(port(PortWait::GiveUp(e())), AcquireTurn::Fail(_)));
    assert!(matches!(after_balloon(Err(e())), AcquireTurn::Fail(_)));
    assert!(matches!(after_balloon(Ok(())), AcquireTurn::Recovered));
    let r = c.finish_acquire("b", Outcome::FastPath, at(0), 0, &mut m).unwrap_err();
    assert_eq!((r.status, r.message.as_str()), (500, "tenant vanished"));
    assert_eq!(c.start_cold_create("b").unwrap_err().full(), "tenant vanished");
    assert_eq!(c.start_restore("b").unwrap_err().full(), "tenant vanished");
    assert_eq!(c.start_restore("a").unwrap_err().full(), "no save_path; cannot restore");
}

#[test]
fn a_saved_tenant_is_restored() {
    let (mut c, _) = controller();
    {
        let t = c.tenants.get_mut("a").unwrap();
        t.status = VmStatus::Saved;
        t.save_path = Some("/saves/a".to_string());
    }
    match c.acquire("a").unwrap() {
        (Outcome::Restore, AcquireTurn::Restore { request }) => {
            assert_eq!(request.snapshot_path, "/saves/a");
            assert_eq!(request.net, Some(true));
            assert_eq!(request.shared_dir.as_deref(), Some("/h:t:/g"));
            assert_eq!(request.memory_limit_mb, Some(1100));
        }
        other => panic!("{other:?}"),
    }
    assert!(matches!(c.get_tenant("a").unwrap().status, VmStatus::Starting));
}

#[test]
fn an_idle_tenant_gets_its_memory_back() {
    let (mut c, _) = controller();
    set_status(&mut c, VmStatus::SoftReclaimed);
    match c.acquire("a").unwrap() {
        (Outcome::Recover, AcquireTurn::Fail(e)) => assert_eq!(e.full(), "no vm_id; cannot recover"),
        other => panic!("{other:?}"),
    }
    c.tenants.get_mut("a").unwrap().vm_id = Some("vm-0001".to_string());
    match c.acquire("a").unwrap() {
        (Outcome::Recover, AcquireTurn::Balloon { vm_id, target_mb }) => {
            assert_eq!((vm_id.as_str(), target_mb), ("vm-0001", 1024));
        }
        other => panic!("{other:?}"),
    }
    c.finish_recover("a");
    assert!(matches!(c.get_tenant("a").unwrap().status, VmStatus::Active));
}

#[test]
fn releasing_notes_the_time() {
    let (mut c, _) = controller();
    set_status(&mut c, VmStatus::SoftReclaimed);
    c.release("a", at(7)).unwrap();
    let t = c.get_tenant("a").unwrap();
    assert!(matches!(t.status, VmStatus::Active));
    assert_eq!(t.last_request_at, Some(at(7)));
    set_status(&mut c, VmStatus::Saved);
    c.release("a", at(8)).unwrap();
    assert!(matches!(c.get_tenant("a").unwrap().status, VmStatus::Saved));
    assert_eq!(c.release("b", at(0)).unwrap_err().message, "tenant b not found");
}

#[test]
fn deleting_cleans_up() {
    for (status, destroyed) in [
        (VmStatus::Active, true),
        (VmStatus::Failed("x".to_string()), true),
        (VmStatus::Saved, false),
        (VmStatus::NotFound, false),
    ] {
        let (mut c, mut m) = controller();
        {
            let t = c.tenants.get_mut("a").unwrap();
            t.status = status;
            t.vm_id = Some("vm-0001".to_string());
            t.save_path = Some("/saves/a".to_string());
        }
        let cleanup = c.delete_tenant("a", &mut m).unwrap();
        assert_eq!(cleanup.destroy.is_some(), destroyed);
        assert_eq!(cleanup.remove_dir.as_deref(), Some("/saves/a"));
    }
}

#[test]
fn the_init_command_goes_on_the_command_line() {
    let mut t = tenant_config("a");
    t.init_cmd = Some("/app".to_string());
    assert_eq!(build_cmdline(&t), "console=ttyS0 reboot=k panic=1 nokaslr quiet clone.init=/app");
}

fn active(last: Option<i64>) -> TenantState {
    let mut t = TenantState::new(tenant_config("a"), at(0));
    t.status = VmStatus::Active;
    t.vm_id = Some("vm-0001".to_string());
    t.guest_ip = Some("172.30.0.2".to_string());
    t.last_request_at = last.map(at);
    t
}

#[test]
fn idle_time_is_counted_in_whole_seconds() {
    assert_eq!(active(None).idle_secs(at(5)), None);
    assert_eq!(active(Some(3)).idle_secs(at(5)), Some(2));
    assert_eq!(active(Some(9)).idle_secs(at(5)), Some(0));
    let a = Timestamp { secs: 1, nanos: 600_000_000 };
    let b = Timestamp { secs: 3, nanos: 500_000_000 };
    assert_eq!(seconds_between(a, b), 1);
    assert_eq!(seconds_between(b, a), 0);
    assert_eq!(seconds_between(Timestamp { secs: i64::MIN, nanos: 0 }, at(i64::MAX)), i64::MAX);
    assert_eq!(TenantState::default_save_path("/saves", "a"), "/saves/a");
}

#[test]
fn guests_are_probed_where_they_can_be() {
    let mut c = config();
    let mut t = active(Some(0));
    assert_eq!(probe_target(&t, &c), Some(("172.30.0.2".to_string(), 8080)));
    t.guest_ip = None;
    assert_eq!(probe_target(&t, &c), None);
    let mut t = active(Some(0));
    t.config.app_health_port = None;
    assert_eq!(probe_target(&t, &c), None);
    c.health_probe_enabled = false;
    assert_eq!(probe_target(&active(Some(0)), &c), None);
}

#[test]
fn idle_guests_give_memory_back_and_are_then_saved() {
    let c = config();
    assert!(matches!(review(active(Some(1000)), "a", None, at(1119), &c).1, Decision::Nothing));
    assert!(matches!(
        review(active(Some(1000)), "a", None, at(1120), &c).1,
        Decision::Soft { vm_id, target_mb: 256 } if vm_id == "vm-0001"
    ));
    assert!(matches!(
        review(active(Some(1000)), "a", None, at(1300), &c).1,
        Decision::Hard { vm_id, save_path } if vm_id == "vm-0001" && save_path == "/saves/a"
    ));
    // A guest that was never used is idle without end.
    assert!(matches!(review(active(None), "a", None, at(0), &c).1, Decision::Hard { .. }));
    // A guest that gave memory back already does not do so again.
    let mut t = active(Some(1000));
    t.status = VmStatus::SoftReclaimed;
    assert!(matches!(review(t.clone(), "a", None, at(1299), &c).1, Decision::Nothing));
    t.save_path = Some("/elsewhere".to_string());
    assert!(matches!(
        review(t, "a", None, at(1300), &c).1,
        Decision::Hard { save_path, .. } if save_path == "/elsewhere"
    ));
    let mut t = active(Some(0));
    t.vm_id = None;
    assert!(matches!(review(t, "a", None, at(9999), &c).1, Decision::Nothing));
}

#[test]
fn probes_decide_whether_a_guest_is_used() {
    let c = config();
    // A guest that answers counts as used, however long ago it was asked for.
    let (t, d) = review(active(Some(0)), "a", Some(true), at(9999), &c);
    assert!(matches!(d, Decision::Record));
    assert_eq!(t.last_request_at, Some(at(9999)));
    assert_eq!(t.last_health_ok_at, Some(at(9999)));
    assert_eq!(t.health_fail_count, 0);
    let (t, d) = review(active(Some(0)), "a", Some(false), at(1), &c);
    assert!(matches!(d, Decision::Record));
    assert_eq!(t.health_fail_count, 1);
    let mut t = active(Some(0));
    t.health_fail_count = 2;
    assert!(matches!(review(t, "a", Some(false), at(1), &c).1, Decision::Hard { .. }));
}

#[test]
fn a_success_resets_the_failed_probes() {
    let (mut c, _) = controller();
    c.tenants.insert("a".to_string(), active(Some(100)));
    let (t, _) = review(c.get_tenant("a").unwrap().clone(), "a", Some(false), at(101), &config());
    c.record_probe("a", &t);
    assert_eq!(c.get_tenant("a").unwrap().health_fail_count, 1);
    let (t, _) = review(c.get_tenant("a").unwrap().clone(), "a", Some(true), at(102), &config());
    c.record_probe("a", &t);
    let t = c.get_tenant("a").unwrap();
    assert_eq!(t.health_fail_count, 0);
    assert_eq!(t.last_health_ok_at, Some(at(102)));
    assert_eq!(t.last_request_at, Some(at(102)));
}

#[test]
fn one_failed_probe_after_good_ones_does_no_harm() {
    let (mut c, mut m) = controller();
    c.tenants.insert("a".to_string(), active(Some(0)));
    // The guest answers long after it was last acquired, and then fails.
    for (now, probe) in [(1000, true), (1060, true), (1120, false), (1170, false)] {
        let (t, d) = review(c.get_tenant("a").unwrap().clone(), "a", Some(probe), at(now), &config());
        assert!(matches!(d, Decision::Record), "{now}");
        c.record_probe("a", &t);
    }
    assert_eq!(c.get_tenant("a").unwrap().last_request_at, Some(at(1060)));
    assert_eq!(c.get_tenant("a").unwrap().health_fail_count, 2);
    // The third failure in a row is one too many.
    let (t, d) = review(c.get_tenant("a").unwrap().clone(), "a", Some(false), at(1175), &config());
    assert!(matches!(d, Decision::Hard { .. }));
    // A save that fails needs no room in the counter of reclaims.
    let mut full = t;
    full.reclaim_count = u32::MAX;
    c.finish_hard("a", full, "/saves/a".to_string(), Err(Failure::new("x".to_string())), &mut m);
    assert!(matches!(c.get_tenant("a").unwrap().status, VmStatus::Failed(_)));
}

#[test]
fn a_threshold_beyond_all_times_is_never_reached() {
    let mut c = config();
    c.soft_reclaim_after_secs = u64::MAX;
    c.hard_reclaim_after_secs = u32::MAX;
    assert!(matches!(review(active(Some(0)), "a", Some(true), at(9999), &c).1, Decision::Record));
    assert!(matches!(review(active(Some(0)), "a", None, at(9999), &c).1, Decision::Nothing));
    c.soft_reclaim_after_secs = i64::MAX as u64 + 1;
    assert!(matches!(review(active(Some(0)), "a", None, at(9999), &c).1, Decision::Nothing));
}

#[test]
fn a_use_during_a_failed_probe_is_not_lost() {
    let (mut c, _) = controller();
    c.tenants.insert("a".to_string(), active(Some(100)));
    let (t, _) = review(c.get_tenant("a").unwrap().clone(), "a", Some(false), at(150), &config());
    c.release("a", at(151)).unwrap();
    c.record_probe("a", &t);
    let t = c.get_tenant("a").unwrap();
    assert_eq!(t.last_request_at, Some(at(151)));
    assert_eq!(t.health_fail_count, 1);
}

#[test]
fn a_failed_save_is_followed_by_a_cold_start() {
    let (mut c, mut m) = controller();
    let (outcome, _) = c.acquire("a").unwrap();
    c.finish_start("a", "vm-0001".to_string(), "172.30.0.2".to_string());
    c.finish_acquire("a", outcome, at(0), 0, &mut m).unwrap();
    let (t, d) = review(c.get_tenant("a").unwrap().clone(), "a", None, at(300), &config());
    assert!(matches!(d, Decision::Hard { .. }));
    c.mark_saving("a");
    c.finish_hard("a", t, "/saves/a".to_string(), Err(Failure::new("x".to_string())), &mut m);
    let (outcome, turn) = c.acquire("a").unwrap();
    assert_eq!(outcome.as_str(), "cold_create");
    assert!(matches!(turn, AcquireTurn::CheckOverlay(_)));
}

#[test]
fn a_saved_guest_is_restored_from_where_it_was_saved() {
    let (mut c, mut m) = controller();
    c.tenants.insert("a".to_string(), active(Some(0)));
    let (t, d) = review(c.get_tenant("a").unwrap().clone(), "a", None, at(300), &config());
    c.mark_saving("a");
    assert!(c.acquire("a").is_err());
    let path = match d {
        Decision::Hard { save_path, .. } => save_path,
        other => panic!("{other:?}"),
    };
    c.finish_hard("a", t, path, Ok(()), &mut m);
    let t = c.get_tenant("a").unwrap();
    assert!(matches!(t.status, VmStatus::Saved));
    assert!(t.vm_id.is_none() && t.guest_ip.is_none());
    assert_eq!(t.reclaim_count, 1);
    assert!(render(&m).contains("clone_controller_reclaim_total{type=\"hard\"} 1\n"));
    match c.acquire("a").unwrap() {
        (_, AcquireTurn::Restore { request }) => assert_eq!(request.snapshot_path, "/saves/a"),
        other => panic!("{other:?}"),
    }
}

#[test]
fn a_guest_that_could_not_be_saved_is_started_afresh() {
    let (mut c, mut m) = controller();
    c.tenants.insert("a".to_string(), active(Some(0)));
    let t = c.get_tenant("a").unwrap().clone();
    c.mark_saving("a");
    let e = Failure::new("save_vm failed".to_string()).context("outer");
    c.finish_hard("a", t, "/saves/a".to_string(), Err(e), &mut m);
    let t = c.get_tenant("a").unwrap();
    assert!(matches!(&t.status, VmStatus::Failed(e) if e == "save: outer"));
    assert_eq!(t.last_error.as_deref(), Some("outer"));
    assert!(t.vm_id.is_none());
    assert_eq!(c.begin_acquire("a").unwrap(), Outcome::ColdCreate);
    assert!(render(&m).contains("clone_controller_reclaim_total{type=\"hard_error\"} 1\n"));
}

#[test]
fn a_guest_that_gave_memory_back_is_kept() {
    let (mut c, mut m) = controller();
    c.tenants.insert("a".to_string(), active(Some(0)));
    let t = c.get_tenant("a").unwrap().clone();
    c.finish_soft("a", t, &mut m);
    let t = c.get_tenant("a").unwrap();
    assert!(matches!(t.status, VmStatus::SoftReclaimed));
    assert_eq!(t.vm_id.as_deref(), Some("vm-0001"));
    assert_eq!(c.begin_acquire("a").unwrap(), Outcome::Recover);
    // A tenant that was deleted meanwhile stays deleted.
    let t = c.get_tenant("a").unwrap().clone();
    c.delete_tenant("a", &mut m).unwrap();
    c.finish_soft("a", t, &mut m);
    assert!(c.get_tenant("a").is_err());
    assert!(render(&m).contains("clone_controller_reclaim_total{type=\"soft\"} 2\n"));
}

#[test]
fn reclaiming_takes_two_calls() {
    let client = CloneClient::new("http://d".to_string(), None);
    let hard = Decision::Hard { vm_id: "vm-1".to_string(), save_path: "/s".to_string() };
    let calls = reclaim_calls(&hard, &client);
    assert_eq!(calls[0].url, "http://d/v1/vms/vm-1/save");
    assert!(matches!(&calls[0].body, CallBody::Save(r) if r.output_path == "/s"));
    assert_eq!((calls[1].method, calls[1].url.as_str()), (Method::Delete, "http://d/v1/vms/vm-1"));
    let soft = Decision::Soft { vm_id: "vm-1".to_string(), target_mb: 256 };
    let calls = reclaim_calls(&soft, &client);
    assert!(matches!(&calls[0].body, CallBody::Exec(r) if r.args == ["-c", "echo 3 > /proc/sys/vm/drop_caches"]));
    assert!(matches!(&calls[1].body, CallBody::Balloon(r) if r.target_mb == 256));
    assert!(reclaim_calls(&Decision::Nothing, &client).is_empty());
    assert!(reclaim_calls(&Decision::Record, &client).is_empty());
}

#[test]
fn the_cycle_counts_tenants_and_picks_those_to_review() {
    let mut c = ControllerState::new(config(), StrMap::new());
    let mut m = new_metrics();
    let statuses = [
        VmStatus::Active,
        VmStatus::SoftReclaimed,
        VmStatus::Saved,
        VmStatus::Starting,
        VmStatus::Saving,
        VmStatus::Failed("x".to_string()),
        VmStatus::NotFound,
        VmStatus::Active,
    ];
    for (i, status) in statuses.into_iter().enumerate() {
        let mut t = TenantState::new(tenant_config("x"), at(0));
        t.status = status;
        c.tenants.insert(format!("t{i}"), t);
    }
    assert_eq!(c.reconcile_cycle(&mut m), vec!["t0", "t1", "t7"]);
    let out = render(&m);
    for line in [
        "clone_controller_tenants_total 8",
        "clone_controller_vms_by_status{status=\"active\"} 2",
        "clone_controller_vms_by_status{status=\"soft_reclaimed\"} 1",
        "clone_controller_vms_by_status{status=\"saved\"} 1",
        "clone_controller_vms_by_status{status=\"starting\"} 2",
        "clone_controller_vms_by_status{status=\"failed\"} 1",
        "clone_controller_vms_by_status{status=\"not_found\"} 1",
    ] {
        assert!(out.lines().any(|l| l == line), "missing: {line}\n{out}");
    }
    let mut counts = StatusCounts::default();
    counts.add(&VmStatus::Saving);
    counts.add(&VmStatus::Saved);
    assert_eq!((counts.starting, counts.saved, counts.total()), (1, 1, 2));
}

#[test]
fn a_restart_forgets_guests_but_not_snapshots() {
    let mut left = StrMap::new();
    let statuses = [
        (VmStatus::Active, "not_found"),
        (VmStatus::Starting, "not_found"),
        (VmStatus::Saving, "not_found"),
        (VmStatus::SoftReclaimed, "not_found"),
        (VmStatus::Saved, "saved"),
        (VmStatus::NotFound, "not_found"),
        (VmStatus::Failed("x".to_string()), "failed"),
    ];
    let mut expected = Vec::new();
    for (i, (status, after)) in statuses.into_iter().enumerate() {
        let mut t = active(Some(1));
        t.status = status;
        t.save_path = Some("/saves/x".to_string());
        t.health_fail_count = 2;
        t.last_error = Some("e".to_string());
        left.insert(format!("t{i}"), t);
        expected.push(after);
    }
    let tenants = load(left);
    assert_eq!(tenants.len(), 7);
    for (i, after) in expected.into_iter().enumerate() {
        let t = tenants.get(&format!("t{i}")).unwrap();
        assert_eq!(t.status.as_str(), after);
        assert_eq!(t.health_fail_count, 0);
        assert!(t.last_error.is_none());
        assert_eq!(t.save_path.is_some(), i >= 4);
        assert_eq!(t.vm_id.is_some(), i >= 4);
    }
}

#[test]
fn calls_to_the_daemon() {
    let client = CloneClient::new("http://127.0.0.1:8091//".to_string(), Some("tok".to_string()));
    let check = |c: &DaemonCall, method: Method, path: &str| {
        assert_eq!(c.method, method);
        assert_eq!(c.url, format!("http://127.0.0.1:8091{path}"));
        assert_eq!(c.bearer.as_deref(), Some("tok"));
    };
    check(&client.health(), Method::Get, "/health");
    check(&client.get_vm("vm-1"), Method::Get, "/v1/vms/vm-1");
    check(&client.destroy_vm("vm-1"), Method::Delete, "/v1/vms/vm-1");
    check(&client.balloon_vm("vm-1", 5), Method::Post, "/v1/vms/vm-1/balloon");
    check(&client.save_vm("vm-1", "/s"), Method::Post, "/v1/vms/vm-1/save");
    let req = CreateVmReq {
        kernel: "k".to_string(),
        rootfs: None,
        overlay: None,
        shared_dir: None,
        cmdline: None,
        mem_mb: None,
        vcpus: None,
        net: None,
        memory_limit_mb: None,
    };
    let c = client.create_vm(req);
    check(&c, Method::Post, "/v1/vms");
    assert!(matches!(c.body, CallBody::Create(r) if r.kernel == "k"));
    let req = RestoreReq { snapshot_path: "/s".to_string(), net: None, shared_dir: None, memory_limit_mb: None };
    let c = client.restore_vm(req);
    check(&c, Method::Post, "/v1/restore");
    assert!(matches!(c.body, CallBody::Restore(r) if r.snapshot_path == "/s"));
    let c = client.exec_vm("vm-1", "ls", &["-l", "-a"]);
    check(&c, Method::Post, "/v1/vms/vm-1/exec");
    assert!(matches!(c.body, CallBody::Exec(r) if r.command == "ls" && r.args == ["-l", "-a"]));
    let c = client.fetch_guest_ip("vm-1");
    assert!(matches!(c.body, CallBody::Exec(r) if r.args[1] == "ip -4 -o addr show eth0 | awk '{print $4}' | cut -d/ -f1"));
    let c = client.probe_port_in_guest("vm-1", 8080, 3);
    assert!(matches!(c.body, CallBody::Exec(r) if r.args[1] == "nc -z -w3 127.0.0.1 8080 2>/dev/null && echo OK || echo FAIL"));
}

#[test]
fn answers_of_the_daemon_are_judged() {
    assert!(ensure_ok(200, "200 OK", "", "x").is_ok());
    assert!(ensure_ok(299, "299", "", "x").is_ok());
    let e = ensure_ok(300, "300 Multiple Choices", "body", "create_vm").unwrap_err();
    assert_eq!(e.full(), "create_vm failed: HTTP 300 Multiple Choices: body");
    assert!(ensure_ok(199, "", "", "").is_err());
    assert!(healthy(204, "204 No Content").is_ok());
    assert_eq!(
        healthy(500, "500 Internal Server Error").unwrap_err().message(),
        "daemon /health returned 500 Internal Server Error"
    );
    let out = |s: &str| Ok(ExecResp { exit_code: 0, stdout: s.to_string(), stderr: String::new() });
    assert!(matches!(judge_address(out(" 10.0.0.1 \n"), 0), AddressWait::Found(ip) if ip == "10.0.0.1"));
    assert!(matches!(judge_address(out("\n"), 19_999_999_999), AddressWait::Retry));
    match judge_address(out("\n"), 20_000_000_000) {
        AddressWait::GiveUp(e) => assert_eq!(e.full(), "guest eth0 has no IPv4 yet"),
        other => panic!("{other:?}"),
    }
    let failed = || Err(Failure::new("refused".to_string()));
    assert!(matches!(judge_address(failed(), 0), AddressWait::Retry));
    match judge_address(failed(), 20_000_000_000) {
        AddressWait::GiveUp(e) => assert_eq!(e.full(), "refused"),
        other => panic!("{other:?}"),
    }
    assert!(port_is_open("OK\n"));
    assert!(port_is_open("xOK"));
    assert!(!port_is_open("FAIL"));
    assert!(!port_is_open("O K"));
    assert!(!port_is_open(""));
}

#[test]
fn failures_keep_their_circumstances() {
    let f = Failure::new("c".to_string()).context("b").context("a");
    assert_eq!(f.message(), "a");
    assert_eq!(f.full(), "a: b: c");
}
