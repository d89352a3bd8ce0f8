use clone_vmm::chain::{ChainInfo, ChainNode};
use clone_vmm::http::{
    after_snapshot, check_auth, chain_json, collected_json, compacted_json, default_mem_mb, default_vcpus,
    error_json, extract_bearer, forward_error, health_json, lookup_pid, require_auth,
    response_to_json, route, subtle_eq, success_status, Action, ApiError, BranchBody, Call, CreateVmBody, ForkBody,
    RestoreBody,
};
use clone_vmm::prometheus_metrics::registry;
use clone_vmm::protocol::{Json, Request, Response, ResponseBody, VmSummary};
use clone_vmm::server::{ServerState, Step};
use clone_vmm::snapshot::{DeviceStates, TemplateSnapshot};

fn fields(j: &Json) -> Vec<(&str, &Json)> {
    match j {
        Json::Object(f) => f.iter().map(|(k, v)| (k.as_str(), v)).collect(),
        other => panic!("{other:?}"),
    }
}

fn text(j: &Json) -> &str {
    match j {
        Json::Text(t) => t,
        other => panic!("{other:?}"),
    }
}

fn number(j: &Json) -> u64 {
    match j {
        Json::Nat(n) => *n,
        other => panic!("{other:?}"),
    }
}

fn keys(j: &Json) -> Vec<&str> {
    fields(j).iter().map(|(k, _)| *k).collect()
}

/// A daemon with one guest, vm-0001, that runs as process 77.
fn one_guest() -> ServerState {
    let mut s = ServerState::new(None, None);
    let mut m = registry();
    let req = Request::ForkVm {
        template_path: "/t".to_string(),
        net: false,
        shared_dir: None,
        mem_mb: None,
        vcpus: None,
        overlay_size: None,
        memory_limit_mb: None,
    };
    match s.begin(req, 0, &mut m) {
        Step::Launch(l) => {
            s.finish_launch(l, Ok(77), None, 0, &mut m);
        }
        other => panic!("{other:?}"),
    }
    s
}

#[test]
fn tokens_are_compared_exactly() {
    assert!(subtle_eq("mysecret", "mysecret"));
    assert!(subtle_eq("", ""));
    assert!(!subtle_eq("mysecret", "mysecreT"));
    assert!(!subtle_eq("mysecret", "mysecret "));
    assert!(!subtle_eq("é", "e"));
    assert!(subtle_eq("é", "é"));
}

#[test]
fn the_bearer_token_is_found() {
    assert_eq!(extract_bearer(Some("Bearer abc")), Some("abc"));
    assert_eq!(extract_bearer(Some("bearer abc")), Some("abc"));
    assert_eq!(extract_bearer(Some("Bearer ")), Some(""));
    assert_eq!(extract_bearer(Some("BEARER abc")), None);
    assert_eq!(extract_bearer(Some("Basic abc")), None);
    assert_eq!(extract_bearer(Some("Bear")), None);
    assert_eq!(extract_bearer(None), None);
}

#[test]
fn calls_need_the_token_that_is_set() {
    let set = Some("mysecret".to_string());
    assert!(check_auth(&set, Some("Bearer mysecret")).is_ok());
    let e = check_auth(&set, Some("Bearer wrong")).unwrap_err();
    assert_eq!((e.status, e.message.as_str()), (401, "missing or invalid bearer token"));
    assert!(check_auth(&set, None).is_err());
    assert!(check_auth(&None, None).is_ok());
    assert!(require_auth(Some("a"), "a").is_ok());
    assert!(require_auth(None, "").is_err());
}

#[test]
fn health_and_metrics_are_open_to_all() {
    let s = ServerState::new(None, None);
    let set = Some("mysecret".to_string());
    assert!(matches!(route(Call::Health, &set, None, &s), Ok(Action::Healthy)));
    assert!(matches!(route(Call::PrometheusMetrics, &set, None, &s), Ok(Action::RenderMetrics)));
    for call in [Call::ListVms, Call::HostMetrics, Call::Pause { id: "vm-0001".to_string() }] {
        assert_eq!(route(call, &set, None, &s).unwrap_err().status, 401);
    }
    assert!(matches!(
        route(Call::ListVms, &set, Some("Bearer mysecret"), &s),
        Ok(Action::Dispatch(Request::ListVms))
    ));
}

fn create_body(cmdline: Option<String>) -> CreateVmBody {
    CreateVmBody {
        kernel: "vmlinuz".to_string(),
        initrd: None,
        cmdline,
        mem_mb: default_mem_mb(),
        vcpus: default_vcpus(),
        rootfs: None,
        overlay: None,
        shared_dir: None,
        block: None,
        net: true,
        tap: None,
        seccomp: true,
        jail: None,
        memory_limit_mb: None,
    }
}

#[test]
fn a_guest_is_created_with_defaults() {
    let s = ServerState::new(None, None);
    match route(Call::CreateVm(create_body(None)), &None, None, &s).unwrap() {
        Action::Dispatch(Request::CreateVm { cmdline, mem_mb, vcpus, net, seccomp, .. }) => {
            assert_eq!(cmdline, "console=ttyS0 reboot=k panic=1 pci=off nokaslr quiet");
            assert_eq!((mem_mb, vcpus, net, seccomp), (512, 1, true, true));
        }
        other => panic!("{other:?}"),
    }
    match route(Call::CreateVm(create_body(Some("x".to_string()))), &None, None, &s).unwrap() {
        Action::Dispatch(Request::CreateVm { cmdline, .. }) => assert_eq!(cmdline, "x"),
        other => panic!("{other:?}"),
    }
}

#[test]
fn calls_become_requests() {
    let s = one_guest();
    let id = || "vm-0001".to_string();
    let go = |call: Call| route(call, &None, None, &s).unwrap();
    assert!(matches!(go(Call::VmStatus { id: id() }), Action::Dispatch(Request::VmStatus { vm_id }) if vm_id == "vm-0001"));
    assert!(matches!(go(Call::DestroyVm { id: id() }), Action::Dispatch(Request::DestroyVm { vm_id }) if vm_id == "vm-0001"));
    assert!(matches!(go(Call::HostMetrics), Action::Dispatch(Request::Metrics { vm_id }) if vm_id == "_host"));
    assert!(matches!(
        go(Call::Fork(ForkBody {
            template_path: "/t".to_string(),
            net: true,
            shared_dir: None,
            mem_mb: Some(1),
            vcpus: None,
            overlay_size: None,
            memory_limit_mb: Some(2),
        })),
        Action::Dispatch(Request::ForkVm { net: true, mem_mb: Some(1), memory_limit_mb: Some(2), .. })
    ));
    assert!(matches!(
        go(Call::Restore(RestoreBody {
            snapshot_path: "/s".to_string(),
            net: false,
            shared_dir: None,
            block: None,
            memory_limit_mb: Some(3),
        })),
        Action::Dispatch(Request::RestoreVm { net: false, memory_limit_mb: Some(3), .. })
    ));
    assert!(matches!(go(Call::ChainInfo { tag: "t".to_string() }), Action::ChainInfo { tag } if tag == "t"));
    assert!(matches!(
        go(Call::CompactChain { leaf_dir: "l".to_string(), output_dir: "o".to_string() }),
        Action::CompactChain { leaf_dir, output_dir } if leaf_dir == "l" && output_dir == "o"
    ));
    assert!(matches!(
        go(Call::CollectGarbage { base_dir: "b".to_string(), active_tags: vec!["t".to_string()] }),
        Action::CollectGarbage { base_dir, active_tags } if base_dir == "b" && active_tags.len() == 1
    ));
}

#[test]
fn calls_are_forwarded_to_the_guest() {
    let s = one_guest();
    let id = || "vm-0001".to_string();
    let forward = |call: Call| match route(call, &None, None, &s).unwrap() {
        Action::Forward { socket, request } => {
            assert_eq!(socket, "/tmp/clone-77.sock");
            request
        }
        other => panic!("{other:?}"),
    };
    assert!(matches!(forward(Call::Pause { id: id() }), Request::Pause));
    assert!(matches!(forward(Call::Resume { id: id() }), Request::Resume));
    assert!(matches!(forward(Call::Shutdown { id: id() }), Request::Shutdown));
    assert!(matches!(
        forward(Call::Snapshot { id: id(), output_path: "/o".to_string() }),
        Request::Snapshot { vm_id, output_path } if vm_id == "vm-0001" && output_path == "/o"
    ));
    assert!(matches!(
        forward(Call::IncrementalSnapshot { id: id(), output_path: "/o".to_string(), base_template: "/b".to_string() }),
        Request::IncrementalSnapshot { output_path, base_template } if output_path == "/o" && base_template == "/b"
    ));
    assert!(matches!(
        forward(Call::Exec { id: id(), command: "ls".to_string(), args: vec!["-l".to_string()] }),
        Request::Exec { command, args } if command == "ls" && args == ["-l"]
    ));
    assert!(matches!(forward(Call::SetBalloon { id: id(), target_mb: 9 }), Request::SetBalloon { target_mb: 9 }));
    assert!(matches!(
        forward(Call::LiveMigrate { id: id(), dest_host: "h".to_string(), dest_port: 1 }),
        Request::LiveMigrate { dest_host, dest_port: 1 } if dest_host == "h"
    ));
    assert!(matches!(
        forward(Call::Branch { id: id(), body: BranchBody { output_dir: None, net: true, shared_dir: None } }),
        Request::Branch { output_dir: None, net: true, shared_dir: None }
    ));
    match route(Call::Save { id: id(), output_path: "/o".to_string() }, &None, None, &s).unwrap() {
        Action::Save { socket, snapshot, shutdown } => {
            assert_eq!(socket, "/tmp/clone-77.sock");
            assert!(matches!(snapshot, Request::Snapshot { .. }));
            assert!(matches!(shutdown, Request::Shutdown));
        }
        other => panic!("{other:?}"),
    }
}

#[test]
fn calls_on_unknown_guests_are_not_found() {
    let s = one_guest();
    for call in [
        Call::Pause { id: "vm-9".to_string() },
        Call::Save { id: "vm-9".to_string(), output_path: String::new() },
    ] {
        let e = route(call, &None, None, &s).unwrap_err();
        assert_eq!((e.status, e.message.as_str()), (404, "VM not found: vm-9"));
    }
    assert_eq!(lookup_pid(&s, "vm-0001").unwrap(), 77);
    assert_eq!(lookup_pid(&s, "vm-9").unwrap_err().status, 404);
}

fn json(body: ResponseBody) -> Json {
    let reply = response_to_json(Response::Success { body }, 200).unwrap();
    assert_eq!(reply.status, 200);
    reply.body
}

#[test]
fn answers_are_written_as_json() {
    let j = json(ResponseBody::VmCreated { vm_id: "vm-0001".to_string(), pid: 5 });
    assert_eq!(keys(&j), vec!["vm_id", "pid"]);
    assert_eq!((text(fields(&j)[0].1), number(fields(&j)[1].1)), ("vm-0001", 5));

    let j = json(ResponseBody::ExecResult {
        exit_code: -1,
        stdout: "o".to_string(),
        stderr: "e".to_string(),
    });
    assert_eq!(keys(&j), vec!["exit_code", "stdout", "stderr"]);
    assert!(matches!(fields(&j)[0].1, Json::Int(-1)));

    let j = json(ResponseBody::VmStatus {
        state: "running".to_string(),
        uptime_nanos: 1_500_000_000,
        memory_usage_bytes: 7,
    });
    assert_eq!(keys(&j), vec!["state", "uptime_secs", "memory_usage_bytes"]);
    assert!(matches!(fields(&j)[1].1, Json::Seconds(1_500_000_000)));

    let j = json(ResponseBody::VmList {
        vms: vec![VmSummary { vm_id: "a".to_string(), state: "running".to_string(), uptime_nanos: 3 }],
    });
    match fields(&j)[0] {
        ("vms", Json::List(items)) => {
            assert_eq!(items.len(), 1);
            assert_eq!(keys(&items[0]), vec!["vm_id", "state", "uptime_secs"]);
            assert_eq!(text(fields(&items[0])[0].1), "a");
        }
        other => panic!("{other:?}"),
    }

    let j = json(ResponseBody::Metrics { metrics: Json::Nat(1) });
    assert_eq!((keys(&j), number(fields(&j)[0].1)), (vec!["metrics"], 1));
    let j = json(ResponseBody::SnapshotComplete { path: "/p".to_string() });
    assert_eq!((keys(&j), text(fields(&j)[0].1)), (vec!["path"], "/p"));
    let j = json(ResponseBody::Status { state: "paused".to_string(), pid: 1, vcpus: 2 });
    assert_eq!(keys(&j), vec!["state", "pid", "vcpus"]);
    assert_eq!(number(fields(&j)[2].1), 2);
    let j = json(ResponseBody::MigrationComplete {
        total_pages_sent: 1,
        rounds: 2,
        downtime_ms: 3,
        total_time_ms: 4,
    });
    assert_eq!(keys(&j), vec!["total_pages_sent", "rounds", "downtime_ms", "total_time_ms"]);
    assert_eq!(fields(&j).iter().map(|(_, v)| number(v)).collect::<Vec<_>>(), vec![1, 2, 3, 4]);
    let j = json(ResponseBody::BranchComplete {
        new_vm_id: "branch-9".to_string(),
        new_pid: 9,
        pause_duration_ms: 1,
        total_duration_ms: 2,
    });
    assert_eq!(keys(&j), vec!["new_vm_id", "new_pid", "pause_duration_ms", "total_duration_ms"]);
    let j = json(ResponseBody::Ack);
    assert!(matches!(fields(&j)[0], ("ok", Json::Bool(true))));

    let e = response_to_json(Response::Error { message: "boom".to_string() }, 201).unwrap_err();
    assert_eq!((e.status, e.message.as_str()), (500, "boom"));
    assert_eq!(text(fields(&error_json(&e))[0].1), "boom");
    assert_eq!(text(fields(&health_json())[0].1), "ok");
    let e = forward_error("connect /tmp/clone-1.sock", "refused");
    assert_eq!((e.status, e.message.as_str()), (500, "connect /tmp/clone-1.sock: refused"));
    assert_eq!(ApiError::bad_request("x".to_string()).status, 400);
}

#[test]
fn snapshot_answers_are_written_as_json() {
    let t = TemplateSnapshot {
        memory_file: String::new(),
        vcpu_states: Vec::new(),
        device_states: DeviceStates::default(),
        memory_size: 4096,
        runtime_type: "bare".to_string(),
        memory_hash: "abc".to_string(),
        block_device: None,
        clock_ns: 0,
        overlay_path: None,
        guest_ip: None,
        tag: None,
        parent_tag: None,
        chain_depth: 0,
        snapshot_type: "full".to_string(),
    };
    let j = compacted_json("/out".to_string(), &t);
    assert_eq!(keys(&j), vec!["output_dir", "memory_size_bytes", "memory_hash", "runtime_type"]);
    assert_eq!(number(fields(&j)[1].1), 4096);
    let j = collected_json(vec!["a".to_string(), "b".to_string()]);
    assert_eq!(number(fields(&j)[1].1), 2);
    match fields(&j)[0] {
        ("removed", Json::List(items)) => assert_eq!(text(&items[1]), "b"),
        other => panic!("{other:?}"),
    }
    let node = |tag: Option<&str>| ChainNode {
        tag: tag.map(|t| t.to_string()),
        snapshot_type: "full".to_string(),
        chain_depth: 0,
        dir: "/d".to_string(),
    };
    let j = chain_json(&ChainInfo { nodes: vec![node(Some("t")), node(None)], total_depth: 3 });
    assert_eq!(keys(&j), vec!["nodes", "total_depth"]);
    match fields(&j)[0].1 {
        Json::List(items) => {
            assert_eq!(keys(&items[0]), vec!["tag", "snapshot_type", "chain_depth", "dir"]);
            assert_eq!(text(fields(&items[0])[0].1), "t");
            assert!(matches!(fields(&items[1])[0].1, Json::Null));
        }
        other => panic!("{other:?}"),
    }
}

#[test]
fn a_saved_guest_is_shut_down() {
    let done = ResponseBody::SnapshotComplete { path: "/p".to_string() };
    let (shutdown, answer) = after_snapshot(Ok(Response::Success { body: done }), 200);
    assert!(shutdown);
    assert_eq!(text(fields(&answer.unwrap().body)[0].1), "/p");
    // A guest that could not write its snapshot is shut down all the same.
    let (shutdown, answer) = after_snapshot(Ok(Response::Error { message: "full".to_string() }), 200);
    assert!(shutdown);
    assert_eq!(answer.unwrap_err().status, 500);
    // One that could not be asked is left alone.
    let (shutdown, answer) = after_snapshot(Err(forward_error("connect s", "refused")), 200);
    assert!(!shutdown);
    assert_eq!(answer.unwrap_err().message, "connect s: refused");
}

#[test]
fn calls_that_start_a_guest_are_answered_as_created() {
    let id = || "vm-0001".to_string();
    let fork = ForkBody {
        template_path: "/t".to_string(),
        net: false,
        shared_dir: None,
        mem_mb: None,
        vcpus: None,
        overlay_size: None,
        memory_limit_mb: None,
    };
    let restore = RestoreBody {
        snapshot_path: "/s".to_string(),
        net: false,
        shared_dir: None,
        block: None,
        memory_limit_mb: None,
    };
    let calls = [Call::CreateVm(create_body(None)), Call::Fork(fork), Call::Restore(restore)];
    for call in &calls {
        assert_eq!(success_status(call), 201);
    }
    let body = BranchBody { output_dir: None, net: false, shared_dir: None };
    for call in [Call::Health, Call::ListVms, Call::DestroyVm { id: id() }, Call::Branch { id: id(), body }] {
        assert_eq!(success_status(&call), 200);
    }
    let created = ResponseBody::VmCreated { vm_id: id(), pid: 42 };
    let reply = response_to_json(Response::Success { body: created }, success_status(&calls[0])).unwrap();
    assert_eq!(reply.status, 201);
    assert_eq!(keys(&reply.body), vec!["vm_id", "pid"]);
    assert_eq!(number(fields(&reply.body)[1].1), 42);
}
