//! The HTTP interface of the daemon.
use vstd::prelude::*;

use crate::chain::ChainInfo;
use crate::http;
use crate::http::{
    after_snapshot, chain_json, check_auth, collected_json, compacted_json, default_mem_mb,
    default_vcpus, error_json, extract_bearer, forward_error, health_json, response_to_json, route,
    success_status, Action, ApiError, Call, JsonReply,
};
use crate::prometheus_metrics::Metrics;
use crate::protocol::{Json, Request, Response, ResponseBody};
use crate::server::{ServerState, Step};
use crate::snapshot::TemplateSnapshot;
use crate::text;

verus! {

/// A token is brought in a header that begins with `Bearer` or `bearer` and one
/// space; all that follows is the token.
pub proof fn lemma_bearer_is_what_follows(
    header: &str,
    token: Seq<char>,
    r: Option<&str>,
    none: Option<&str>,
)
    requires
        call_ensures(extract_bearer, (Some(header),), r),
        call_ensures(extract_bearer, (None::<&str>,), none),
    ensures
        r is Some && r->0@ == token <==> header@ == "Bearer "@ + token || header@ == "bearer "@
            + token,
        none is None,
{
    reveal_strlit("Bearer ");
    reveal_strlit("bearer ");
    let (a, b) = ("Bearer "@, "bearer "@);
    assert(a.len() == 7 && b.len() == 7);
    if header@ == a + token {
        assert(header@.take(7) =~= a);
        assert(header@.skip(7) =~= token);
    }
    if header@ == b + token {
        assert(header@.take(7) =~= b);
        assert(header@.skip(7) =~= token);
    }
    if r is Some && r->0@ == token {
        assert(header@ =~= header@.take(7) + header@.skip(7));
    }
}

/// Where a token is set, exactly the calls that bring it pass; where none is set,
/// all do. A call that does not pass is answered as unauthorised.
pub proof fn lemma_only_the_token_passes(
    auth_token: &Option<String>,
    header: &str,
    r: Result<(), ApiError>,
    without: Result<(), ApiError>,
)
    requires
        call_ensures(check_auth, (auth_token, Some(header)), r),
        call_ensures(check_auth, (auth_token, None::<&str>), without),
    ensures
        auth_token is None ==> r is Ok && without is Ok,
        auth_token matches Some(token) ==> (r is Ok <==> header@ == "Bearer "@ + token@ || header@
            == "bearer "@ + token@),
        auth_token is Some ==> without is Err,
        r matches Err(e) ==> e.status == 401 && e.message@ == "missing or invalid bearer token"@,
        without matches Err(e) ==> e.status == 401 && e.message@
            == "missing or invalid bearer token"@,
{
    reveal_strlit("Bearer ");
    reveal_strlit("bearer ");
    if let Some(token) = *auth_token {
        let (a, b) = ("Bearer "@, "bearer "@);
        assert(a.len() == 7 && b.len() == 7);
        if header@ == a + token@ {
            assert(header@.take(7) =~= a);
            assert(header@.skip(7) =~= token@);
        }
        if header@ == b + token@ {
            assert(header@.take(7) =~= b);
            assert(header@.skip(7) =~= token@);
        }
        if r is Ok {
            assert(header@ =~= header@.take(7) + header@.skip(7));
        }
    }
}

/// Without the token that is set nothing is done: every call but a health check and
/// a metrics scrape is refused, whatever it is about. These two always pass.
pub proof fn lemma_nothing_without_the_token(
    call: Call,
    auth_token: &Option<String>,
    header: &str,
    state: &ServerState,
    r: Result<Action, ApiError>,
    without: Result<Action, ApiError>,
)
    requires
        call_ensures(route, (call, auth_token, Some(header), state), r),
        call_ensures(route, (call, auth_token, None::<&str>, state), without),
        auth_token is Some,
        header@ != "Bearer "@ + auth_token->0@,
        header@ != "bearer "@ + auth_token->0@,
    ensures
        call is Health ==> r == Ok::<Action, ApiError>(Action::Healthy) && without == Ok::<
            Action,
            ApiError,
        >(Action::Healthy),
        call is PrometheusMetrics ==> r == Ok::<Action, ApiError>(Action::RenderMetrics) && without
            == Ok::<Action, ApiError>(Action::RenderMetrics),
        !(call is Health || call is PrometheusMetrics) ==> {
            &&& r is Err && r->Err_0.status == 401
            &&& without is Err && without->Err_0.status == 401
            &&& r->Err_0.message@ == "missing or invalid bearer token"@
        },
{
    reveal_strlit("Bearer ");
    reveal_strlit("bearer ");
    assert("Bearer "@.len() == 7 && "bearer "@.len() == 7);
    if header@.len() >= 7 {
        assert(header@ =~= header@.take(7) + header@.skip(7));
    }
}

/// A call to boot a guest boots it as the call says, with the default command line
/// where it names none.
pub proof fn lemma_create_call_boots_the_guest(
    call: Call,
    auth_token: &Option<String>,
    header: Option<&str>,
    state: &mut ServerState,
    r: Result<Action, ApiError>,
    now: u64,
    prom: &mut Metrics,
    step: Step,
)
    requires
        call is CreateVm,
        call_ensures(check_auth, (auth_token, header), Ok::<(), ApiError>(())),
        call_ensures(route, (call, auth_token, header, &*old(state)), r),
        r matches Ok(Action::Dispatch(req)) ==> call_ensures(
            ServerState::begin,
            (state, req, now, prom),
            step,
        ),
    ensures
        r is Ok && r->Ok_0 is Dispatch,
        step matches Step::Launch(launch) && launch.source is Kernel && {
            let body = call->CreateVm_0;
            let from = launch.source;
            let cmdline = if body.cmdline is Some {
                body.cmdline->0@
            } else {
                "console=ttyS0 reboot=k panic=1 pci=off nokaslr quiet"@
            };
            &&& from->Kernel_kernel == body.kernel
            &&& from->Kernel_initrd == body.initrd
            &&& from->Kernel_mem_mb == body.mem_mb
            &&& from->Kernel_vcpus == body.vcpus
            &&& from->Kernel_rootfs == body.rootfs
            &&& from->Kernel_overlay == body.overlay
            &&& from->Kernel_shared_dir == body.shared_dir
            &&& from->Kernel_block == body.block
            &&& from->Kernel_net == body.net
            &&& from->Kernel_tap == body.tap
            &&& from->Kernel_seccomp == body.seccomp
            &&& from->Kernel_jail == body.jail
            &&& launch.memory_limit_mb == body.memory_limit_mb
            &&& from->Kernel_cmdline@.len() >= cmdline.len()
            &&& from->Kernel_cmdline@.take(cmdline.len() as int) == cmdline
        },
{
    let body = call->CreateVm_0;
    let cmdline = if body.cmdline is Some {
        body.cmdline->0@
    } else {
        "console=ttyS0 reboot=k panic=1 pci=off nokaslr quiet"@
    };
    let full = step->Launch_0.source->Kernel_cmdline@;
    assert(full.take(cmdline.len() as int) =~= cmdline);
}

/// A call to fork a guest forks it as the call says.
pub proof fn lemma_fork_call_forks_the_guest(
    call: Call,
    auth_token: &Option<String>,
    header: Option<&str>,
    state: &mut ServerState,
    r: Result<Action, ApiError>,
    now: u64,
    prom: &mut Metrics,
    step: Step,
)
    requires
        call is Fork,
        call_ensures(check_auth, (auth_token, header), Ok::<(), ApiError>(())),
        call_ensures(route, (call, auth_token, header, &*old(state)), r),
        r matches Ok(Action::Dispatch(req)) ==> call_ensures(
            ServerState::begin,
            (state, req, now, prom),
            step,
        ),
    ensures
        r is Ok && r->Ok_0 is Dispatch,
        step matches Step::Launch(launch) && launch.source is Template && {
            let body = call->Fork_0;
            let from = launch.source;
            &&& from->Template_template_path == body.template_path
            &&& from->Template_net == body.net
            &&& from->Template_shared_dir == body.shared_dir
            &&& from->Template_mem_mb == body.mem_mb
            &&& from->Template_vcpus == body.vcpus
            &&& from->Template_overlay_size == body.overlay_size
            &&& launch.memory_limit_mb == body.memory_limit_mb
        },
{
}

/// A call to restore a guest restores it as the call says.
pub proof fn lemma_restore_call_restores_the_guest(
    call: Call,
    auth_token: &Option<String>,
    header: Option<&str>,
    state: &mut ServerState,
    r: Result<Action, ApiError>,
    now: u64,
    prom: &mut Metrics,
    step: Step,
)
    requires
        call is Restore,
        call_ensures(check_auth, (auth_token, header), Ok::<(), ApiError>(())),
        call_ensures(route, (call, auth_token, header, &*old(state)), r),
        r matches Ok(Action::Dispatch(req)) ==> call_ensures(
            ServerState::begin,
            (state, req, now, prom),
            step,
        ),
    ensures
        r is Ok && r->Ok_0 is Dispatch,
        step matches Step::Launch(launch) && launch.source is Saved && {
            let body = call->Restore_0;
            let from = launch.source;
            &&& from->Saved_snapshot_path == body.snapshot_path
            &&& from->Saved_net == body.net
            &&& from->Saved_shared_dir == body.shared_dir
            &&& from->Saved_block == body.block
            &&& launch.memory_limit_mb == body.memory_limit_mb
        },
{
}

/// The guest that a call names, if it is one that is handed on to a guest.
pub open spec fn guest_of(call: Call) -> Option<Seq<char>> {
    if call is Pause {
        Some(call->Pause_id@)
    } else if call is Resume {
        Some(call->Resume_id@)
    } else if call is Shutdown {
        Some(call->Shutdown_id@)
    } else if call is Snapshot {
        Some(call->Snapshot_id@)
    } else if call is IncrementalSnapshot {
        Some(call->IncrementalSnapshot_id@)
    } else if call is Exec {
        Some(call->Exec_id@)
    } else if call is SetBalloon {
        Some(call->SetBalloon_id@)
    } else if call is LiveMigrate {
        Some(call->LiveMigrate_id@)
    } else if call is Branch {
        Some(call->Branch_id@)
    } else if call is Save {
        Some(call->Save_id@)
    } else {
        None
    }
}

/// A call about a guest is handed on to the socket of the process that runs it, and
/// a guest that is not tracked is not found.
pub proof fn lemma_call_reaches_its_guest(
    call: Call,
    auth_token: &Option<String>,
    header: Option<&str>,
    state: &ServerState,
    r: Result<Action, ApiError>,
)
    requires
        call_ensures(check_auth, (auth_token, header), Ok::<(), ApiError>(())),
        call_ensures(route, (call, auth_token, header, state), r),
        guest_of(call) is Some,
    ensures
        ({
            let id = guest_of(call)->0;
            &&& r is Ok <==> state@.vms.dom().contains(id)
            &&& r matches Err(e) ==> e.status == 404 && e.message@ == "VM not found: "@ + id
            &&& r matches Ok(action) ==> {
                let socket_text = "/tmp/clone-"@ + text::decimal(state@.vms[id].pid as nat)
                    + ".sock"@;
                &&& call is Save ==> action is Save && action->Save_socket@ == socket_text
                &&& !(call is Save) ==> action is Forward && action->Forward_socket@ == socket_text
            }
        }),
{
}

/// What is handed on is what the call says: its command and arguments, its paths,
/// its sizes, its destination.
pub proof fn lemma_forwarded_request_is_the_call(
    call: Call,
    auth_token: &Option<String>,
    header: Option<&str>,
    state: &ServerState,
    r: Result<Action, ApiError>,
)
    requires
        call_ensures(check_auth, (auth_token, header), Ok::<(), ApiError>(())),
        call_ensures(route, (call, auth_token, header, state), r),
        guest_of(call) is Some,
        r is Ok,
    ensures
        ({
            let sent = r->Ok_0->request;
            &&& call is Pause ==> sent is Pause
            &&& call is Resume ==> sent is Resume
            &&& call is Shutdown ==> sent is Shutdown
            &&& call is Snapshot ==> sent is Snapshot && sent->Snapshot_vm_id@
                == call->Snapshot_id@ && sent->Snapshot_output_path == call->Snapshot_output_path
            &&& call is IncrementalSnapshot ==> sent is IncrementalSnapshot
                && sent->IncrementalSnapshot_output_path == call->IncrementalSnapshot_output_path
                && sent->IncrementalSnapshot_base_template
                == call->IncrementalSnapshot_base_template
            &&& call is Exec ==> sent is Exec && sent->Exec_command == call->Exec_command
                && sent->Exec_args == call->Exec_args
            &&& call is SetBalloon ==> sent is SetBalloon && sent->SetBalloon_target_mb
                == call->SetBalloon_target_mb
            &&& call is LiveMigrate ==> sent is LiveMigrate && sent->LiveMigrate_dest_host
                == call->LiveMigrate_dest_host && sent->LiveMigrate_dest_port
                == call->LiveMigrate_dest_port
            &&& call is Branch ==> sent is Branch && sent->Branch_output_dir
                == call->Branch_body.output_dir && sent->Branch_net == call->Branch_body.net
                && sent->Branch_shared_dir == call->Branch_body.shared_dir
        }),
        call is Save ==> {
            &&& r->Ok_0->snapshot is Snapshot
            &&& r->Ok_0->snapshot->Snapshot_vm_id@ == call->Save_id@
            &&& r->Ok_0->snapshot->Snapshot_output_path == call->Save_output_path
            &&& r->Ok_0->shutdown is Shutdown
        },
{
}

/// The other calls are about the daemon itself, and pass on what they say.
pub proof fn lemma_daemon_calls(
    call: Call,
    auth_token: &Option<String>,
    header: Option<&str>,
    state: &ServerState,
    r: Result<Action, ApiError>,
)
    requires
        call_ensures(check_auth, (auth_token, header), Ok::<(), ApiError>(())),
        call_ensures(route, (call, auth_token, header, state), r),
    ensures
        call is Health ==> r == Ok::<Action, ApiError>(Action::Healthy),
        call is PrometheusMetrics ==> r == Ok::<Action, ApiError>(Action::RenderMetrics),
        call is HostMetrics ==> (r matches Ok(Action::Dispatch(Request::Metrics { vm_id }))
            && vm_id@ == "_host"@),
        call is ListVms ==> r == Ok::<Action, ApiError>(Action::Dispatch(Request::ListVms)),
        call is VmStatus ==> (r matches Ok(Action::Dispatch(Request::VmStatus { vm_id })) && vm_id
            == call->VmStatus_id),
        call is DestroyVm ==> (r matches Ok(Action::Dispatch(Request::DestroyVm { vm_id }))
            && vm_id == call->DestroyVm_id),
        call is CompactChain ==> (r matches Ok(Action::CompactChain { leaf_dir, output_dir })
            && leaf_dir == call->CompactChain_leaf_dir && output_dir
            == call->CompactChain_output_dir),
        call is CollectGarbage ==> (r matches Ok(Action::CollectGarbage { base_dir, active_tags })
            && base_dir == call->CollectGarbage_base_dir && active_tags
            == call->CollectGarbage_active_tags),
        call is ChainInfo ==> (r matches Ok(Action::ChainInfo { tag }) && tag
            == call->ChainInfo_tag),
{
}

/// The value of the first field of that name in a JSON object.
pub open spec fn value_of(j: Json, key: Seq<char>) -> Option<Json> {
    if j is Object {
        first_value(j->Object_0@, key)
    } else {
        None
    }
}

/// The value of the first of the fields that has that name.
pub open spec fn first_value(fields: Seq<(String, Json)>, key: Seq<char>) -> Option<Json>
    decreases fields.len(),
{
    if fields.len() == 0 {
        None
    } else if fields[0].0@ == key {
        Some(fields[0].1)
    } else {
        first_value(fields.skip(1), key)
    }
}

proof fn lemma_first_value(fields: Seq<(String, Json)>, i: int, key: Seq<char>)
    requires
        0 <= i < fields.len(),
        fields[i].0@ == key,
        forall|k: int| 0 <= k < i ==> (#[trigger] fields[k]).0@ != key,
    ensures
        first_value(fields, key) == Some(fields[i].1),
    decreases i,
{
    if i > 0 {
        assert(fields[0].0@ != key);
        assert forall|k: int| 0 <= k < i - 1 implies (#[trigger] fields.skip(1)[k]).0@ != key by {
            assert(fields.skip(1)[k] == fields[k + 1]);
        }
        lemma_first_value(fields.skip(1), i - 1, key);
    }
}

/// An answer is written out with all that it says, each value under its name: what
/// was started, what a command gave, and the state of a guest.
pub proof fn lemma_answer_is_written_out(
    resp: Response,
    ok_status: u16,
    r: Result<JsonReply, ApiError>,
)
    requires
        call_ensures(response_to_json, (resp, ok_status), r),
    ensures
        resp matches Response::Error { message } ==> (r matches Err(e) && e.status == 500
            && e.message == message),
        resp is Success ==> r is Ok && r->Ok_0.status == ok_status,
        resp matches Response::Success { body: ResponseBody::VmCreated { vm_id, pid } } ==> {
            let j = r->Ok_0.body;
            &&& value_of(j, "vm_id"@) == Some(Json::Text(vm_id))
            &&& value_of(j, "pid"@) == Some(Json::Nat(pid as u64))
        },
        resp matches Response::Success {
            body: ResponseBody::ExecResult { exit_code, stdout, stderr },
        } ==> {
            let j = r->Ok_0.body;
            &&& value_of(j, "exit_code"@) == Some(Json::Int(exit_code as i64))
            &&& value_of(j, "stdout"@) == Some(Json::Text(stdout))
            &&& value_of(j, "stderr"@) == Some(Json::Text(stderr))
        },
        resp matches Response::Success {
            body: ResponseBody::VmStatus { state, uptime_nanos, memory_usage_bytes },
        } ==> {
            let j = r->Ok_0.body;
            &&& value_of(j, "state"@) == Some(Json::Text(state))
            &&& value_of(j, "uptime_secs"@) == Some(Json::Seconds(uptime_nanos))
            &&& value_of(j, "memory_usage_bytes"@) == Some(Json::Nat(memory_usage_bytes))
        },
        resp matches Response::Success { body: ResponseBody::Status { state, pid, vcpus } } ==> {
            let j = r->Ok_0.body;
            &&& value_of(j, "state"@) == Some(Json::Text(state))
            &&& value_of(j, "pid"@) == Some(Json::Nat(pid as u64))
            &&& value_of(j, "vcpus"@) == Some(Json::Nat(vcpus as u64))
        },
        resp matches Response::Success { body: ResponseBody::Ack } ==> value_of(
            r->Ok_0.body,
            "ok"@,
        ) == Some(Json::Bool(true)),
        resp matches Response::Success { body: ResponseBody::SnapshotComplete { path } }
            ==> value_of(r->Ok_0.body, "path"@) == Some(Json::Text(path)),
        resp matches Response::Success { body: ResponseBody::Metrics { metrics } } ==> value_of(
            r->Ok_0.body,
            "metrics"@,
        ) == Some(metrics),
{
    reveal_strlit("vm_id");
    reveal_strlit("pid");
    reveal_strlit("exit_code");
    reveal_strlit("stdout");
    reveal_strlit("stderr");
    reveal_strlit("state");
    reveal_strlit("uptime_secs");
    reveal_strlit("memory_usage_bytes");
    reveal_strlit("vcpus");
    assert("vm_id"@.len() == 5 && "pid"@.len() == 3 && "exit_code"@.len() == 9);
    assert("stdout"@.len() == 6 && "stderr"@.len() == 6 && "state"@.len() == 5);
    assert("uptime_secs"@.len() == 11 && "memory_usage_bytes"@.len() == 18 && "vcpus"@.len() == 5);
    assert("stdout"@[3] == 'o' && "stderr"@[3] == 'e');
    if resp is Success {
        let f = r->Ok_0.body->Object_0@;
        match resp->body {
            ResponseBody::VmCreated { .. } => {
                lemma_first_value(f, 0, "vm_id"@);
                lemma_first_value(f, 1, "pid"@);
            },
            ResponseBody::ExecResult { .. } => {
                lemma_first_value(f, 0, "exit_code"@);
                lemma_first_value(f, 1, "stdout"@);
                lemma_first_value(f, 2, "stderr"@);
            },
            ResponseBody::VmStatus { .. } => {
                lemma_first_value(f, 0, "state"@);
                lemma_first_value(f, 1, "uptime_secs"@);
                lemma_first_value(f, 2, "memory_usage_bytes"@);
            },
            ResponseBody::Status { .. } => {
                assert("state"@[0] == 's' && "vcpus"@[0] == 'v');
                lemma_first_value(f, 0, "state"@);
                lemma_first_value(f, 1, "pid"@);
                lemma_first_value(f, 2, "vcpus"@);
            },
            ResponseBody::Ack => {
                lemma_first_value(f, 0, "ok"@);
            },
            ResponseBody::SnapshotComplete { .. } => {
                lemma_first_value(f, 0, "path"@);
            },
            ResponseBody::Metrics { .. } => {
                lemma_first_value(f, 0, "metrics"@);
            },
            _ => {},
        }
    }
}

/// What moving or copying a guest took is written out under its names.
pub proof fn lemma_durations_are_written_out(
    resp: Response,
    ok_status: u16,
    r: Result<JsonReply, ApiError>,
)
    requires
        call_ensures(response_to_json, (resp, ok_status), r),
    ensures
        resp matches Response::Success {
            body: ResponseBody::MigrationComplete {
                total_pages_sent,
                rounds,
                downtime_ms,
                total_time_ms,
            },
        } ==> {
            let j = r->Ok_0.body;
            &&& value_of(j, "total_pages_sent"@) == Some(Json::Nat(total_pages_sent))
            &&& value_of(j, "rounds"@) == Some(Json::Nat(rounds as u64))
            &&& value_of(j, "downtime_ms"@) == Some(Json::Nat(downtime_ms))
            &&& value_of(j, "total_time_ms"@) == Some(Json::Nat(total_time_ms))
        },
        resp matches Response::Success {
            body: ResponseBody::BranchComplete {
                new_vm_id,
                new_pid,
                pause_duration_ms,
                total_duration_ms,
            },
        } ==> {
            let j = r->Ok_0.body;
            &&& value_of(j, "new_vm_id"@) == Some(Json::Text(new_vm_id))
            &&& value_of(j, "new_pid"@) == Some(Json::Nat(new_pid as u64))
            &&& value_of(j, "pause_duration_ms"@) == Some(Json::Nat(pause_duration_ms))
            &&& value_of(j, "total_duration_ms"@) == Some(Json::Nat(total_duration_ms))
        },
{
    reveal_strlit("total_pages_sent");
    reveal_strlit("rounds");
    reveal_strlit("downtime_ms");
    reveal_strlit("total_time_ms");
    reveal_strlit("new_vm_id");
    reveal_strlit("new_pid");
    reveal_strlit("pause_duration_ms");
    reveal_strlit("total_duration_ms");
    assert("total_pages_sent"@.len() == 16 && "rounds"@.len() == 6 && "downtime_ms"@.len() == 11);
    assert("total_time_ms"@.len() == 13 && "new_vm_id"@.len() == 9 && "new_pid"@.len() == 7);
    assert("pause_duration_ms"@.len() == 17 && "total_duration_ms"@.len() == 17);
    if resp is Success {
        let f = r->Ok_0.body->Object_0@;
        match resp->body {
            ResponseBody::MigrationComplete { .. } => {
                lemma_first_value(f, 0, "total_pages_sent"@);
                lemma_first_value(f, 1, "rounds"@);
                lemma_first_value(f, 2, "downtime_ms"@);
                lemma_first_value(f, 3, "total_time_ms"@);
            },
            ResponseBody::BranchComplete { .. } => {
                assert("pause_duration_ms"@[0] == 'p' && "total_duration_ms"@[0] == 't');
                lemma_first_value(f, 0, "new_vm_id"@);
                lemma_first_value(f, 1, "new_pid"@);
                lemma_first_value(f, 2, "pause_duration_ms"@);
                lemma_first_value(f, 3, "total_duration_ms"@);
            },
            _ => {},
        }
    }
}

/// A list of guests is written out in order, each with its id, state and uptime.
pub proof fn lemma_list_is_written_out(
    resp: Response,
    ok_status: u16,
    r: Result<JsonReply, ApiError>,
    i: int,
)
    requires
        call_ensures(response_to_json, (resp, ok_status), r),
        resp is Success,
        resp->body is VmList,
        0 <= i < resp->body->vms@.len(),
    ensures
        ({
            let v = resp->body->vms@[i];
            &&& value_of(r->Ok_0.body, "vms"@) matches Some(Json::List(items)) && items@.len()
                == resp->body->vms@.len() && value_of(items@[i], "vm_id"@) == Some(
                Json::Text(v.vm_id),
            ) && value_of(items@[i], "state"@) == Some(Json::Text(v.state)) && value_of(
                items@[i],
                "uptime_secs"@,
            ) == Some(Json::Seconds(v.uptime_nanos))
        }),
{
    reveal_strlit("vm_id");
    reveal_strlit("state");
    reveal_strlit("uptime_secs");
    assert("vm_id"@.len() == 5 && "state"@.len() == 5 && "uptime_secs"@.len() == 11);
    assert("vm_id"@[0] == 'v' && "state"@[0] == 's');
    let f = r->Ok_0.body->Object_0@;
    lemma_first_value(f, 0, "vms"@);
    let items = http::items_at(r->Ok_0.body, 0);
    assert(http::summary_json(items[i], resp->body->vms@[i]));
    let g = items[i]->Object_0@;
    lemma_first_value(g, 0, "vm_id"@);
    lemma_first_value(g, 1, "state"@);
    lemma_first_value(g, 2, "uptime_secs"@);
}

/// A call that starts a guest is answered with "created" where it succeeds, and any
/// other with "ok".
pub proof fn lemma_created_or_ok(call: &Call, status: u16)
    requires
        call_ensures(success_status, (call,), status),
    ensures
        *call is CreateVm || *call is Fork || *call is Restore ==> status == 201,
        !(*call is CreateVm || *call is Fork || *call is Restore) ==> status == 200,
{
}

/// A guest that is saved is shut down once it has answered the snapshot, whatever it
/// answered; one that could not be asked is not. The call is answered with what
/// came of the snapshot.
pub proof fn lemma_save_shuts_down_after_the_snapshot(
    resp: Response,
    e: ApiError,
    ok_status: u16,
    plain: Result<JsonReply, ApiError>,
    r: (bool, Result<JsonReply, ApiError>),
    failed: (bool, Result<JsonReply, ApiError>),
)
    requires
        call_ensures(response_to_json, (resp, ok_status), plain),
        call_ensures(after_snapshot, (Ok::<Response, ApiError>(resp), ok_status), r),
        call_ensures(after_snapshot, (Err::<Response, ApiError>(e), ok_status), failed),
    ensures
        r.0,
        r.1 is Ok <==> plain is Ok,
        plain is Ok ==> r.1->Ok_0.status == plain->Ok_0.status,
        plain is Err ==> r.1->Err_0 == plain->Err_0,
        resp matches Response::Success { body: ResponseBody::SnapshotComplete { path } }
            ==> value_of(r.1->Ok_0.body, "path"@) == Some(Json::Text(path)),
        !failed.0,
        failed.1 == Err::<JsonReply, ApiError>(e),
{
    if let Response::Success { body: ResponseBody::SnapshotComplete { path } } = resp {
        lemma_first_value(r.1->Ok_0.body->Object_0@, 0, "path"@);
    }
}

/// Errors and health checks are written out under their names, and what could not
/// be forwarded says where it failed.
pub proof fn lemma_errors_are_written_out(
    e: &ApiError,
    j: Json,
    h: Json,
    step: &str,
    reason: &str,
    f: ApiError,
)
    requires
        call_ensures(error_json, (e,), j),
        call_ensures(health_json, (), h),
        call_ensures(forward_error, (step, reason), f),
    ensures
        value_of(j, "error"@) == Some(Json::Text(e.message)),
        value_of(h, "status"@) matches Some(Json::Text(t)) && t@ == "ok"@,
        f.status == 500,
        f.message@ == step@ + ": "@ + reason@,
{
    lemma_first_value(j->Object_0@, 0, "error"@);
    lemma_first_value(h->Object_0@, 0, "status"@);
}

/// What garbage collection removed is written out name by name, with how many they
/// are.
pub proof fn lemma_removed_are_written_out(removed: Vec<String>, j: Json, i: int)
    requires
        call_ensures(collected_json, (removed,), j),
        0 <= i < removed@.len(),
        removed@.len() <= u64::MAX,
    ensures
        value_of(j, "removed"@) matches Some(Json::List(items)) && items@.len() == removed@.len()
            && items@[i] == Json::Text(removed@[i]),
        value_of(j, "count"@) == Some(Json::Nat(removed@.len() as u64)),
{
    reveal_strlit("removed");
    reveal_strlit("count");
    assert("removed"@.len() == 7 && "count"@.len() == 5);
    lemma_first_value(j->Object_0@, 0, "removed"@);
    lemma_first_value(j->Object_0@, 1, "count"@);
    assert(http::items_at(j, 0)[i] == Json::Text(removed@[i]));
}

/// A compacted chain is written out with where it is, and the size and digest of
/// its memory.
pub proof fn lemma_compacted_is_written_out(output_dir: String, s: &TemplateSnapshot, j: Json)
    requires
        call_ensures(compacted_json, (output_dir, s), j),
    ensures
        value_of(j, "output_dir"@) == Some(Json::Text(output_dir)),
        value_of(j, "memory_size_bytes"@) == Some(Json::Nat(s.memory_size)),
        value_of(j, "memory_hash"@) == Some(Json::Text(s.memory_hash)),
        value_of(j, "runtime_type"@) == Some(Json::Text(s.runtime_type)),
{
    reveal_strlit("output_dir");
    reveal_strlit("memory_size_bytes");
    reveal_strlit("memory_hash");
    reveal_strlit("runtime_type");
    assert("output_dir"@.len() == 10 && "memory_size_bytes"@.len() == 17 && "memory_hash"@.len() == 11);
    assert("runtime_type"@.len() == 12);
    let f = j->Object_0@;
    lemma_first_value(f, 0, "output_dir"@);
    lemma_first_value(f, 1, "memory_size_bytes"@);
    lemma_first_value(f, 2, "memory_hash"@);
    lemma_first_value(f, 3, "runtime_type"@);
}

/// A chain is written out from root to leaf, each snapshot with its tag, type, depth
/// and directory.
pub proof fn lemma_chain_is_written_out(info: &ChainInfo, j: Json, i: int)
    requires
        call_ensures(chain_json, (info,), j),
        0 <= i < info.nodes@.len(),
    ensures
        ({
            let n = info.nodes@[i];
            value_of(j, "nodes"@) matches Some(Json::List(items)) && items@.len()
                == info.nodes@.len() && value_of(items@[i], "dir"@) == Some(Json::Text(n.dir))
                && value_of(items@[i], "chain_depth"@) == Some(Json::Nat(n.chain_depth as u64))
                && value_of(items@[i], "snapshot_type"@) == Some(Json::Text(n.snapshot_type))
                && (n.tag is Some ==> value_of(items@[i], "tag"@) == Some(Json::Text(n.tag->0)))
                && (n.tag is None ==> value_of(items@[i], "tag"@) == Some(Json::Null))
        }),
        value_of(j, "total_depth"@) == Some(Json::Nat(info.total_depth as u64)),
{
    reveal_strlit("nodes");
    reveal_strlit("total_depth");
    reveal_strlit("tag");
    reveal_strlit("snapshot_type");
    reveal_strlit("chain_depth");
    reveal_strlit("dir");
    assert("nodes"@.len() == 5 && "total_depth"@.len() == 11 && "tag"@.len() == 3);
    assert("snapshot_type"@.len() == 13 && "chain_depth"@.len() == 11 && "dir"@.len() == 3);
    assert("tag"@[0] == 't' && "dir"@[0] == 'd');
    lemma_first_value(j->Object_0@, 0, "nodes"@);
    lemma_first_value(j->Object_0@, 1, "total_depth"@);
    let items = http::items_at(j, 0);
    assert(http::node_json(items[i], info.nodes@[i]));
    let g = items[i]->Object_0@;
    lemma_first_value(g, 0, "tag"@);
    lemma_first_value(g, 1, "snapshot_type"@);
    lemma_first_value(g, 2, "chain_depth"@);
    lemma_first_value(g, 3, "dir"@);
}

/// Where a call names no memory or vCPUs, a guest has 512 megabytes and one vCPU.
pub proof fn lemma_default_guest(mem_mb: u32, vcpus: u32)
    requires
        call_ensures(default_mem_mb, (), mem_mb),
        call_ensures(default_vcpus, (), vcpus),
    ensures
        mem_mb == 512,
        vcpus == 1,
{
}

} // verus!
