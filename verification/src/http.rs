//! The HTTP interface of the daemon: who may call what, which request a call
//! becomes, and how an answer is written as JSON.
use vstd::prelude::*;

use crate::chain::{ChainInfo, ChainNode};
use crate::protocol::{Json, Request, Response, ResponseBody, VmSummary};
use crate::server;
use crate::server::{per_vm_socket, ServerState};
use crate::snapshot::TemplateSnapshot;
use crate::text::{cat2, cat3, str_eq};

verus! {

/// A call that is answered with an error.
#[derive(Debug)]
pub struct ApiError {
    /// HTTP status code.
    pub status: u16,
    pub message: String,
}

impl ApiError {
    /// The error has this status and this message.
    pub open spec fn says(self, status: u16, message: Seq<char>) -> bool {
        self.status == status && self.message@ == message
    }

    /// The call makes no sense.
    pub fn bad_request(message: String) -> (e: Self)
        ensures
            e == (ApiError { status: 400, message }),
    {
        ApiError { status: 400, message }
    }

    /// What the call is about is not there.
    pub fn not_found(message: String) -> (e: Self)
        ensures
            e == (ApiError { status: 404, message }),
    {
        ApiError { status: 404, message }
    }

    /// The call failed.
    pub fn internal(message: String) -> (e: Self)
        ensures
            e == (ApiError { status: 500, message }),
    {
        ApiError { status: 500, message }
    }
}

/// Compares two pieces of text in a time that depends on their lengths only.
pub fn subtle_eq(a: &str, b: &str) -> (r: bool)
    ensures
        r == (a@ == b@),
{
    let ab = a.as_bytes();
    let bb = b.as_bytes();
    proof {
        vstd::utf8::encode_utf8_decode_utf8(a@);
        vstd::utf8::encode_utf8_decode_utf8(b@);
    }
    if ab.len() != bb.len() {
        return false;
    }
    let mut diff: u8 = 0;
    let mut i: usize = 0;
    while i < ab.len()
        invariant
            i <= ab@.len(),
            ab@.len() == bb@.len(),
            diff == 0 <==> forall|j: int| 0 <= j < i ==> #[trigger] ab@[j] == bb@[j],
        decreases ab@.len() - i,
    {
        let x: u8 = ab[i];
        let y: u8 = bb[i];
        let d: u8 = diff;
        assert((d | (x ^ y)) == 0 <==> (d == 0 && x == y)) by (bit_vector);
        diff = diff | (x ^ y);
        i = i + 1;
    }
    assert(diff == 0 ==> ab@ =~= bb@);
    diff == 0
}

/// `s` begins with `prefix`.
pub open spec fn begins_with(s: Seq<char>, prefix: Seq<char>) -> bool {
    s.len() >= prefix.len() && s.take(prefix.len() as int) == prefix
}

/// The token in the value of an `Authorization` header.
pub open spec fn bearer(header: Option<&str>) -> Option<Seq<char>> {
    match header {
        Some(h) => if begins_with(h@, "Bearer "@) || begins_with(h@, "bearer "@) {
            Some(h@.skip(7))
        } else {
            None
        },
        None => None,
    }
}

fn strip_prefix<'a>(s: &'a str, prefix: &str) -> (r: Option<&'a str>)
    ensures
        r is Some <==> begins_with(s@, prefix@),
        r is Some ==> r->0@ == s@.skip(prefix@.len() as int),
{
    let n: usize = s.unicode_len();
    let k: usize = prefix.unicode_len();
    if n < k {
        return None;
    }
    let head = s.substring_char(0, k);
    assert(head@ == s@.take(k as int));
    if str_eq(head, prefix) {
        Some(s.substring_char(k, n))
    } else {
        None
    }
}

/// The bearer token in the value of an `Authorization` header.
pub fn extract_bearer<'a>(header: Option<&'a str>) -> (r: Option<&'a str>)
    ensures
        r is Some <==> bearer(header) is Some,
        r is Some ==> r->0@ == bearer(header)->0,
{
    proof {
        reveal_strlit("Bearer ");
        reveal_strlit("bearer ");
    }
    match header {
        Some(h) => match strip_prefix(h, "Bearer ") {
            Some(t) => Some(t),
            None => strip_prefix(h, "bearer "),
        },
        None => None,
    }
}

/// The answer to a call without the right token.
pub open spec fn refused(e: ApiError) -> bool {
    e.says(401, "missing or invalid bearer token"@)
}

/// Lets a call pass that brings exactly the expected token.
pub fn require_auth(token: Option<&str>, expected: &str) -> (r: Result<(), ApiError>)
    ensures
        r is Ok <==> token is Some && token->0@ == expected@,
        r is Err ==> refused(r->Err_0),
{
    if let Some(t) = token {
        if subtle_eq(t, expected) {
            return Ok(());
        }
    }
    Err(ApiError { status: 401, message: "missing or invalid bearer token".to_owned() })
}

/// The call may pass: no token is set, or the call brings exactly that token.
pub open spec fn authorized(auth_token: Option<String>, header: Option<&str>) -> bool {
    match auth_token {
        Some(expected) => bearer(header) == Some(expected@),
        None => true,
    }
}

/// Lets a call pass where no token is set or where it brings that token in its
/// `Authorization` header.
pub fn check_auth(auth_token: &Option<String>, header: Option<&str>) -> (r: Result<(), ApiError>)
    ensures
        r is Ok <==> authorized(*auth_token, header),
        r is Err ==> refused(r->Err_0),
{
    match auth_token {
        Some(expected) => require_auth(extract_bearer(header), expected.as_str()),
        None => Ok(()),
    }
}

/// Memory of a guest in megabytes where a call names none.
pub fn default_mem_mb() -> (n: u32)
    ensures
        n == 512,
{
    512
}

/// vCPUs of a guest where a call names none.
pub fn default_vcpus() -> (n: u32)
    ensures
        n == 1,
{
    1
}

/// Kernel command line where a call names none.
pub const DEFAULT_CMDLINE: &'static str = "console=ttyS0 reboot=k panic=1 pci=off nokaslr quiet";

/// A guest to be booted.
#[derive(Debug)]
pub struct CreateVmBody {
    pub kernel: String,
    pub initrd: Option<String>,
    pub cmdline: Option<String>,
    pub mem_mb: u32,
    pub vcpus: u32,
    pub rootfs: Option<String>,
    pub overlay: Option<String>,
    pub shared_dir: Option<String>,
    pub block: Option<String>,
    pub net: bool,
    pub tap: Option<String>,
    pub seccomp: bool,
    pub jail: Option<String>,
    pub memory_limit_mb: Option<u32>,
}

/// A guest to be forked from a template.
#[derive(Debug)]
pub struct ForkBody {
    pub template_path: String,
    pub net: bool,
    pub shared_dir: Option<String>,
    pub mem_mb: Option<u32>,
    pub vcpus: Option<u32>,
    pub overlay_size: Option<String>,
    pub memory_limit_mb: Option<u32>,
}

/// A guest to be restored from its snapshot.
#[derive(Debug)]
pub struct RestoreBody {
    pub snapshot_path: String,
    pub net: bool,
    pub shared_dir: Option<String>,
    pub block: Option<String>,
    pub memory_limit_mb: Option<u32>,
}

/// A running guest to be copied.
#[derive(Debug)]
pub struct BranchBody {
    pub output_dir: Option<String>,
    pub net: bool,
    pub shared_dir: Option<String>,
}

/// A call of the HTTP interface.
#[derive(Debug)]
pub enum Call {
    Health,
    PrometheusMetrics,
    HostMetrics,
    CreateVm(CreateVmBody),
    ListVms,
    VmStatus { id: String },
    DestroyVm { id: String },
    Pause { id: String },
    Resume { id: String },
    Shutdown { id: String },
    Snapshot { id: String, output_path: String },
    IncrementalSnapshot { id: String, output_path: String, base_template: String },
    Exec { id: String, command: String, args: Vec<String> },
    SetBalloon { id: String, target_mb: u32 },
    LiveMigrate { id: String, dest_host: String, dest_port: u16 },
    Branch { id: String, body: BranchBody },
    Save { id: String, output_path: String },
    Fork(ForkBody),
    Restore(RestoreBody),
    CompactChain { leaf_dir: String, output_dir: String },
    CollectGarbage { base_dir: String, active_tags: Vec<String> },
    ChainInfo { tag: String },
}

/// What a call that may pass has the daemon do.
#[derive(Debug)]
pub enum Action {
    /// Say that the daemon is there.
    Healthy,
    /// Render the metrics.
    RenderMetrics,
    /// Dispatch a request in the daemon, and answer with its response.
    Dispatch(Request),
    /// Forward a request to a guest's own socket, and answer with its response.
    Forward { socket: String, request: Request },
    /// Forward a snapshot request, and then, if it could be forwarded, a
    /// shutdown request.
    Save { socket: String, snapshot: Request, shutdown: Request },
    /// Replace a chain by one snapshot.
    CompactChain { leaf_dir: String, output_dir: String },
    /// Remove unreachable snapshots.
    CollectGarbage { base_dir: String, active_tags: Vec<String> },
    /// Describe a chain.
    ChainInfo { tag: String },
}

/// The call is open to everyone: health checks and metrics scrapes.
pub open spec fn open_to_all(call: Call) -> bool {
    call is Health || call is PrometheusMetrics
}

/// The call starts a guest.
pub open spec fn creates_guest(call: Call) -> bool {
    call is CreateVm || call is Fork || call is Restore
}

/// The HTTP status of a call that succeeds: "created" where it starts a guest,
/// "ok" otherwise.
pub fn success_status(call: &Call) -> (status: u16)
    ensures
        status == (if creates_guest(*call) {
            201u16
        } else {
            200u16
        }),
{
    match call {
        Call::CreateVm(_) | Call::Fork(_) | Call::Restore(_) => 201,
        _ => 200,
    }
}

/// A call that is answered with a value.
#[derive(Debug)]
pub struct JsonReply {
    /// HTTP status code.
    pub status: u16,
    pub body: Json,
}

/// The guest that a call is forwarded to, if it is.
pub open spec fn target(call: Call) -> Option<Seq<char>> {
    match call {
        Call::Pause { id } => Some(id@),
        Call::Resume { id } => Some(id@),
        Call::Shutdown { id } => Some(id@),
        Call::Snapshot { id, .. } => Some(id@),
        Call::IncrementalSnapshot { id, .. } => Some(id@),
        Call::Exec { id, .. } => Some(id@),
        Call::SetBalloon { id, .. } => Some(id@),
        Call::LiveMigrate { id, .. } => Some(id@),
        Call::Branch { id, .. } => Some(id@),
        Call::Save { id, .. } => Some(id@),
        _ => None,
    }
}

/// `action` forwards `request` to the guest with process `pid`.
pub open spec fn forwards(action: Action, pid: u32, request: Request) -> bool {
    &&& action matches Action::Forward { socket, request: sent }
    &&& socket@ == server::socket_of(pid)
    &&& sent == request
}

/// The request that boots the guest of `body`.
pub open spec fn creates(req: Request, body: CreateVmBody) -> bool {
    &&& req is CreateVm
    &&& req == (Request::CreateVm {
        kernel: body.kernel,
        initrd: body.initrd,
        cmdline: req->cmdline,
        mem_mb: body.mem_mb,
        vcpus: body.vcpus,
        rootfs: body.rootfs,
        overlay: body.overlay,
        shared_dir: body.shared_dir,
        block: body.block,
        net: body.net,
        tap: body.tap,
        seccomp: body.seccomp,
        jail: body.jail,
        memory_limit_mb: body.memory_limit_mb,
    })
    &&& req->cmdline@ == (match body.cmdline {
        Some(c) => c@,
        None => DEFAULT_CMDLINE@,
    })
}

/// What a call that may pass, and whose guest, if any, runs as `pid`, has the
/// daemon do.
pub open spec fn acts(call: Call, pid: u32, action: Action) -> bool {
    match call {
        Call::Health => action is Healthy,
        Call::PrometheusMetrics => action is RenderMetrics,
        Call::HostMetrics => {
            &&& action matches Action::Dispatch(Request::Metrics { vm_id })
            &&& vm_id@ == "_host"@
        },
        Call::CreateVm(body) => action matches Action::Dispatch(req) && creates(req, body),
        Call::ListVms => action == Action::Dispatch(Request::ListVms),
        Call::VmStatus { id } => action == Action::Dispatch(Request::VmStatus { vm_id: id }),
        Call::DestroyVm { id } => action == Action::Dispatch(Request::DestroyVm { vm_id: id }),
        Call::Pause { id } => forwards(action, pid, Request::Pause),
        Call::Resume { id } => forwards(action, pid, Request::Resume),
        Call::Shutdown { id } => forwards(action, pid, Request::Shutdown),
        Call::Snapshot { id, output_path } => forwards(
            action,
            pid,
            Request::Snapshot { vm_id: id, output_path },
        ),
        Call::IncrementalSnapshot { id, output_path, base_template } => forwards(
            action,
            pid,
            Request::IncrementalSnapshot { output_path, base_template },
        ),
        Call::Exec { id, command, args } => forwards(action, pid, Request::Exec { command, args }),
        Call::SetBalloon { id, target_mb } => forwards(
            action,
            pid,
            Request::SetBalloon { target_mb },
        ),
        Call::LiveMigrate { id, dest_host, dest_port } => forwards(
            action,
            pid,
            Request::LiveMigrate { dest_host, dest_port },
        ),
        Call::Branch { id, body } => forwards(
            action,
            pid,
            Request::Branch {
                output_dir: body.output_dir,
                net: body.net,
                shared_dir: body.shared_dir,
            },
        ),
        Call::Save { id, output_path } => {
            &&& action matches Action::Save { socket, snapshot, shutdown }
            &&& socket@ == server::socket_of(pid)
            &&& snapshot == (Request::Snapshot { vm_id: id, output_path })
            &&& shutdown == Request::Shutdown
        },
        Call::Fork(body) => action == Action::Dispatch(
            Request::ForkVm {
                template_path: body.template_path,
                net: body.net,
                shared_dir: body.shared_dir,
                mem_mb: body.mem_mb,
                vcpus: body.vcpus,
                overlay_size: body.overlay_size,
                memory_limit_mb: body.memory_limit_mb,
            },
        ),
        Call::Restore(body) => action == Action::Dispatch(
            Request::RestoreVm {
                snapshot_path: body.snapshot_path,
                net: body.net,
                shared_dir: body.shared_dir,
                block: body.block,
                memory_limit_mb: body.memory_limit_mb,
            },
        ),
        Call::CompactChain { leaf_dir, output_dir } => action == (Action::CompactChain {
            leaf_dir,
            output_dir,
        }),
        Call::CollectGarbage { base_dir, active_tags } => action == (Action::CollectGarbage {
            base_dir,
            active_tags,
        }),
        Call::ChainInfo { tag } => action == (Action::ChainInfo { tag }),
    }
}

/// The process of a guest, or the error that says that there is no such guest.
pub fn lookup_pid(state: &ServerState, vm_id: &str) -> (r: Result<u32, ApiError>)
    ensures
        match r {
            Ok(pid) => state@.vms.dom().contains(vm_id@) && pid == state@.vms[vm_id@].pid,
            Err(e) => !state@.vms.dom().contains(vm_id@) && e.says(404, server::not_found(vm_id@)),
        },
{
    match state.pid_of(vm_id) {
        Some(pid) => Ok(pid),
        None => Err(ApiError::not_found(cat2("VM not found: ", vm_id))),
    }
}

fn forward(state: &ServerState, id: &str, request: Request) -> (r: Result<Action, ApiError>)
    ensures
        match r {
            Ok(action) => state@.vms.dom().contains(id@) && forwards(
                action,
                state@.vms[id@].pid,
                request,
            ),
            Err(e) => !state@.vms.dom().contains(id@) && e.says(404, server::not_found(id@)),
        },
{
    let pid: u32 = lookup_pid(state, id)?;
    Ok(Action::Forward { socket: per_vm_socket(pid), request })
}

/// Routes a call: checks its token, unless it is open to all, then finds the
/// guest it is about, and says what the daemon has to do.
pub fn route(
    call: Call,
    auth_token: &Option<String>,
    header: Option<&str>,
    state: &ServerState,
) -> (r: Result<Action, ApiError>)
    ensures
        !open_to_all(call) && !authorized(*auth_token, header) ==> r is Err && refused(r->Err_0),
        open_to_all(call) || authorized(*auth_token, header) ==> (match target(call) {
            Some(id) => if state@.vms.dom().contains(id) {
                r is Ok && acts(call, state@.vms[id].pid, r->Ok_0)
            } else {
                r is Err && r->Err_0.says(404, server::not_found(id))
            },
            None => r is Ok && acts(call, 0, r->Ok_0),
        }),
{
    match call {
        Call::Health => {
            return Ok(Action::Healthy);
        },
        Call::PrometheusMetrics => {
            return Ok(Action::RenderMetrics);
        },
        _ => {},
    }
    check_auth(auth_token, header)?;
    match call {
        Call::Health => Ok(Action::Healthy),
        Call::PrometheusMetrics => Ok(Action::RenderMetrics),
        Call::HostMetrics => Ok(Action::Dispatch(Request::Metrics { vm_id: "_host".to_owned() })),
        Call::CreateVm(body) => {
            let cmdline = match body.cmdline {
                Some(c) => c,
                None => DEFAULT_CMDLINE.to_owned(),
            };
            Ok(
                Action::Dispatch(
                    Request::CreateVm {
                        kernel: body.kernel,
                        initrd: body.initrd,
                        cmdline,
                        mem_mb: body.mem_mb,
                        vcpus: body.vcpus,
                        rootfs: body.rootfs,
                        overlay: body.overlay,
                        shared_dir: body.shared_dir,
                        block: body.block,
                        net: body.net,
                        tap: body.tap,
                        seccomp: body.seccomp,
                        jail: body.jail,
                        memory_limit_mb: body.memory_limit_mb,
                    },
                ),
            )
        },
        Call::ListVms => Ok(Action::Dispatch(Request::ListVms)),
        Call::VmStatus { id } => Ok(Action::Dispatch(Request::VmStatus { vm_id: id })),
        Call::DestroyVm { id } => Ok(Action::Dispatch(Request::DestroyVm { vm_id: id })),
        Call::Pause { id } => forward(state, id.as_str(), Request::Pause),
        Call::Resume { id } => forward(state, id.as_str(), Request::Resume),
        Call::Shutdown { id } => forward(state, id.as_str(), Request::Shutdown),
        Call::Snapshot { id, output_path } => {
            let vm_id = id.clone();
            forward(state, id.as_str(), Request::Snapshot { vm_id, output_path })
        },
        Call::IncrementalSnapshot { id, output_path, base_template } => forward(
            state,
            id.as_str(),
            Request::IncrementalSnapshot { output_path, base_template },
        ),
        Call::Exec { id, command, args } => forward(
            state,
            id.as_str(),
            Request::Exec { command, args },
        ),
        Call::SetBalloon { id, target_mb } => forward(
            state,
            id.as_str(),
            Request::SetBalloon { target_mb },
        ),
        Call::LiveMigrate { id, dest_host, dest_port } => forward(
            state,
            id.as_str(),
            Request::LiveMigrate { dest_host, dest_port },
        ),
        Call::Branch { id, body } => forward(
            state,
            id.as_str(),
            Request::Branch {
                output_dir: body.output_dir,
                net: body.net,
                shared_dir: body.shared_dir,
            },
        ),
        Call::Save { id, output_path } => {
            let pid: u32 = lookup_pid(state, id.as_str())?;
            Ok(
                Action::Save {
                    socket: per_vm_socket(pid),
                    snapshot: Request::Snapshot { vm_id: id, output_path },
                    shutdown: Request::Shutdown,
                },
            )
        },
        Call::Fork(body) => Ok(
            Action::Dispatch(
                Request::ForkVm {
                    template_path: body.template_path,
                    net: body.net,
                    shared_dir: body.shared_dir,
                    mem_mb: body.mem_mb,
                    vcpus: body.vcpus,
                    overlay_size: body.overlay_size,
                    memory_limit_mb: body.memory_limit_mb,
                },
            ),
        ),
        Call::Restore(body) => Ok(
            Action::Dispatch(
                Request::RestoreVm {
                    snapshot_path: body.snapshot_path,
                    net: body.net,
                    shared_dir: body.shared_dir,
                    block: body.block,
                    memory_limit_mb: body.memory_limit_mb,
                },
            ),
        ),
        Call::CompactChain { leaf_dir, output_dir } => Ok(
            Action::CompactChain { leaf_dir, output_dir },
        ),
        Call::CollectGarbage { base_dir, active_tags } => Ok(
            Action::CollectGarbage { base_dir, active_tags },
        ),
        Call::ChainInfo { tag } => Ok(Action::ChainInfo { tag }),
    }
}

/// `j` is an object with `n` fields.
pub open spec fn object_of(j: Json, n: nat) -> bool {
    j matches Json::Object(fields) && fields@.len() == n
}

/// The `i`-th field of the object `j` is named `key` and has this value.
pub open spec fn field(j: Json, i: int, key: Seq<char>, value: Json) -> bool {
    &&& j matches Json::Object(fields)
    &&& 0 <= i < fields@.len()
    &&& fields@[i].0@ == key
    &&& fields@[i].1 == value
}

/// The `i`-th field of the object `j` is named `key` and holds this text.
pub open spec fn text_field(j: Json, i: int, key: Seq<char>, value: Seq<char>) -> bool {
    &&& j matches Json::Object(fields)
    &&& 0 <= i < fields@.len()
    &&& fields@[i].0@ == key
    &&& fields@[i].1 matches Json::Text(t)
    &&& t@ == value
}

/// The items of the `i`-th field of the object `j`, which is a list.
pub open spec fn items_at(j: Json, i: int) -> Seq<Json> {
    j->Object_0@[i].1->List_0@
}

/// The `i`-th field of the object `j` is named `key` and is a list.
pub open spec fn list_field(j: Json, i: int, key: Seq<char>) -> bool {
    &&& j matches Json::Object(fields)
    &&& 0 <= i < fields@.len()
    &&& fields@[i].0@ == key
    &&& fields@[i].1 is List
}

/// A guest in a list as JSON.
pub open spec fn summary_json(j: Json, v: VmSummary) -> bool {
    &&& object_of(j, 3)
    &&& field(j, 0, "vm_id"@, Json::Text(v.vm_id))
    &&& field(j, 1, "state"@, Json::Text(v.state))
    &&& field(j, 2, "uptime_secs"@, Json::Seconds(v.uptime_nanos))
}

/// The payload of an answer as JSON.
pub open spec fn body_json(j: Json, body: ResponseBody) -> bool {
    match body {
        ResponseBody::VmCreated { vm_id, pid } => {
            &&& object_of(j, 2)
            &&& field(j, 0, "vm_id"@, Json::Text(vm_id))
            &&& field(j, 1, "pid"@, Json::Nat(pid as u64))
        },
        ResponseBody::ExecResult { exit_code, stdout, stderr } => {
            &&& object_of(j, 3)
            &&& field(j, 0, "exit_code"@, Json::Int(exit_code as i64))
            &&& field(j, 1, "stdout"@, Json::Text(stdout))
            &&& field(j, 2, "stderr"@, Json::Text(stderr))
        },
        ResponseBody::VmStatus { state, uptime_nanos, memory_usage_bytes } => {
            &&& object_of(j, 3)
            &&& field(j, 0, "state"@, Json::Text(state))
            &&& field(j, 1, "uptime_secs"@, Json::Seconds(uptime_nanos))
            &&& field(j, 2, "memory_usage_bytes"@, Json::Nat(memory_usage_bytes))
        },
        ResponseBody::VmList { vms } => {
            &&& object_of(j, 1)
            &&& list_field(j, 0, "vms"@)
            &&& items_at(j, 0).len() == vms@.len()
            &&& forall|i: int|
                0 <= i < vms@.len() ==> summary_json(#[trigger] items_at(j, 0)[i], vms@[i])
        },
        ResponseBody::Metrics { metrics } => {
            &&& object_of(j, 1)
            &&& field(j, 0, "metrics"@, metrics)
        },
        ResponseBody::SnapshotComplete { path } => {
            &&& object_of(j, 1)
            &&& field(j, 0, "path"@, Json::Text(path))
        },
        ResponseBody::Status { state, pid, vcpus } => {
            &&& object_of(j, 3)
            &&& field(j, 0, "state"@, Json::Text(state))
            &&& field(j, 1, "pid"@, Json::Nat(pid as u64))
            &&& field(j, 2, "vcpus"@, Json::Nat(vcpus as u64))
        },
        ResponseBody::MigrationComplete { total_pages_sent, rounds, downtime_ms, total_time_ms } => {
            &&& object_of(j, 4)
            &&& field(j, 0, "total_pages_sent"@, Json::Nat(total_pages_sent))
            &&& field(j, 1, "rounds"@, Json::Nat(rounds as u64))
            &&& field(j, 2, "downtime_ms"@, Json::Nat(downtime_ms))
            &&& field(j, 3, "total_time_ms"@, Json::Nat(total_time_ms))
        },
        ResponseBody::BranchComplete {
            new_vm_id,
            new_pid,
            pause_duration_ms,
            total_duration_ms,
        } => {
            &&& object_of(j, 4)
            &&& field(j, 0, "new_vm_id"@, Json::Text(new_vm_id))
            &&& field(j, 1, "new_pid"@, Json::Nat(new_pid as u64))
            &&& field(j, 2, "pause_duration_ms"@, Json::Nat(pause_duration_ms))
            &&& field(j, 3, "total_duration_ms"@, Json::Nat(total_duration_ms))
        },
        ResponseBody::Ack => {
            &&& object_of(j, 1)
            &&& field(j, 0, "ok"@, Json::Bool(true))
        },
    }
}

fn object1(k0: &str, v0: Json) -> (j: Json)
    ensures
        object_of(j, 1),
        field(j, 0, k0@, v0),
{
    let mut fields: Vec<(String, Json)> = Vec::new();
    fields.push((k0.to_owned(), v0));
    Json::Object(fields)
}

fn object2(k0: &str, v0: Json, k1: &str, v1: Json) -> (j: Json)
    ensures
        object_of(j, 2),
        field(j, 0, k0@, v0),
        field(j, 1, k1@, v1),
{
    let mut fields: Vec<(String, Json)> = Vec::new();
    fields.push((k0.to_owned(), v0));
    fields.push((k1.to_owned(), v1));
    Json::Object(fields)
}

fn object3(k0: &str, v0: Json, k1: &str, v1: Json, k2: &str, v2: Json) -> (j: Json)
    ensures
        object_of(j, 3),
        field(j, 0, k0@, v0),
        field(j, 1, k1@, v1),
        field(j, 2, k2@, v2),
{
    let mut fields: Vec<(String, Json)> = Vec::new();
    fields.push((k0.to_owned(), v0));
    fields.push((k1.to_owned(), v1));
    fields.push((k2.to_owned(), v2));
    Json::Object(fields)
}

fn object4(
    k0: &str,
    v0: Json,
    k1: &str,
    v1: Json,
    k2: &str,
    v2: Json,
    k3: &str,
    v3: Json,
) -> (j: Json)
    ensures
        object_of(j, 4),
        field(j, 0, k0@, v0),
        field(j, 1, k1@, v1),
        field(j, 2, k2@, v2),
        field(j, 3, k3@, v3),
{
    let mut fields: Vec<(String, Json)> = Vec::new();
    fields.push((k0.to_owned(), v0));
    fields.push((k1.to_owned(), v1));
    fields.push((k2.to_owned(), v2));
    fields.push((k3.to_owned(), v3));
    Json::Object(fields)
}

fn summaries_to_json(vms: &Vec<VmSummary>) -> (items: Vec<Json>)
    ensures
        items@.len() == vms@.len(),
        forall|i: int| 0 <= i < vms@.len() ==> summary_json(#[trigger] items@[i], vms@[i]),
{
    let mut items: Vec<Json> = Vec::new();
    let mut i: usize = 0;
    while i < vms.len()
        invariant
            i <= vms@.len(),
            items@.len() == i,
            forall|j: int| 0 <= j < i ==> summary_json(#[trigger] items@[j], vms@[j]),
        decreases vms@.len() - i,
    {
        let v = &vms[i];
        items.push(
            object3(
                "vm_id",
                Json::Text(v.vm_id.clone()),
                "state",
                Json::Text(v.state.clone()),
                "uptime_secs",
                Json::Seconds(v.uptime_nanos),
            ),
        );
        i = i + 1;
    }
    items
}

/// The reply made of an answer: its payload with the status of success, or an
/// internal error.
pub open spec fn replies(resp: Response, ok_status: u16, r: Result<JsonReply, ApiError>) -> bool {
    match resp {
        Response::Success { body } => r is Ok && r->Ok_0.status == ok_status && body_json(
            r->Ok_0.body,
            body,
        ),
        Response::Error { message } => r == Err::<JsonReply, ApiError>(
            ApiError { status: 500, message },
        ),
    }
}

/// Writes an answer as JSON, with `ok_status` where it is a success. An error
/// becomes an internal error.
pub fn response_to_json(resp: Response, ok_status: u16) -> (r: Result<JsonReply, ApiError>)
    ensures
        replies(resp, ok_status, r),
{
    let body = match resp {
        Response::Success { body } => body,
        Response::Error { message } => {
            return Err(ApiError::internal(message));
        },
    };
    let payload = match body {
        ResponseBody::VmCreated { vm_id, pid } => object2(
            "vm_id",
            Json::Text(vm_id),
            "pid",
            Json::Nat(pid as u64),
        ),
        ResponseBody::ExecResult { exit_code, stdout, stderr } => object3(
            "exit_code",
            Json::Int(exit_code as i64),
            "stdout",
            Json::Text(stdout),
            "stderr",
            Json::Text(stderr),
        ),
        ResponseBody::VmStatus { state, uptime_nanos, memory_usage_bytes } => object3(
            "state",
            Json::Text(state),
            "uptime_secs",
            Json::Seconds(uptime_nanos),
            "memory_usage_bytes",
            Json::Nat(memory_usage_bytes),
        ),
        ResponseBody::VmList { vms } => object1("vms", Json::List(summaries_to_json(&vms))),
        ResponseBody::Metrics { metrics } => object1("metrics", metrics),
        ResponseBody::SnapshotComplete { path } => object1("path", Json::Text(path)),
        ResponseBody::Status { state, pid, vcpus } => object3(
            "state",
            Json::Text(state),
            "pid",
            Json::Nat(pid as u64),
            "vcpus",
            Json::Nat(vcpus as u64),
        ),
        ResponseBody::MigrationComplete { total_pages_sent, rounds, downtime_ms, total_time_ms } =>
        object4(
            "total_pages_sent",
            Json::Nat(total_pages_sent),
            "rounds",
            Json::Nat(rounds as u64),
            "downtime_ms",
            Json::Nat(downtime_ms),
            "total_time_ms",
            Json::Nat(total_time_ms),
        ),
        ResponseBody::BranchComplete {
            new_vm_id,
            new_pid,
            pause_duration_ms,
            total_duration_ms,
        } => object4(
            "new_vm_id",
            Json::Text(new_vm_id),
            "new_pid",
            Json::Nat(new_pid as u64),
            "pause_duration_ms",
            Json::Nat(pause_duration_ms),
            "total_duration_ms",
            Json::Nat(total_duration_ms),
        ),
        ResponseBody::Ack => object1("ok", Json::Bool(true)),
    };
    Ok(JsonReply { status: ok_status, body: payload })
}

/// Completes a save, given the guest's response to the snapshot request or why
/// it could not be had. The first part of the result says whether the guest is to
/// be shut down now. What comes of that does not matter: the second part is the
/// answer to the call.
pub fn after_snapshot(forwarded: Result<Response, ApiError>, ok_status: u16) -> (r: (
    bool,
    Result<JsonReply, ApiError>,
))
    ensures
        r.0 == forwarded is Ok,
        match forwarded {
            Ok(resp) => replies(resp, ok_status, r.1),
            Err(e) => r.1 == Err::<JsonReply, ApiError>(e),
        },
{
    match forwarded {
        Ok(resp) => (true, response_to_json(resp, ok_status)),
        Err(e) => (false, Err(e)),
    }
}

/// The answer to a health check.
pub fn health_json() -> (j: Json)
    ensures
        object_of(j, 1),
        text_field(j, 0, "status"@, "ok"@),
{
    object1("status", Json::Text("ok".to_owned()))
}

/// An error as JSON.
pub fn error_json(e: &ApiError) -> (j: Json)
    ensures
        object_of(j, 1),
        field(j, 0, "error"@, Json::Text(e.message)),
{
    object1("error", Json::Text(e.message.clone()))
}

/// The answer to a call that compacted a chain.
pub fn compacted_json(output_dir: String, snapshot: &TemplateSnapshot) -> (j: Json)
    ensures
        object_of(j, 4),
        field(j, 0, "output_dir"@, Json::Text(output_dir)),
        field(j, 1, "memory_size_bytes"@, Json::Nat(snapshot.memory_size)),
        field(j, 2, "memory_hash"@, Json::Text(snapshot.memory_hash)),
        field(j, 3, "runtime_type"@, Json::Text(snapshot.runtime_type)),
{
    object4(
        "output_dir",
        Json::Text(output_dir),
        "memory_size_bytes",
        Json::Nat(snapshot.memory_size),
        "memory_hash",
        Json::Text(snapshot.memory_hash.clone()),
        "runtime_type",
        Json::Text(snapshot.runtime_type.clone()),
    )
}

/// The answer to a call that removed snapshots: their names, and how many.
pub fn collected_json(removed: Vec<String>) -> (j: Json)
    ensures
        object_of(j, 2),
        list_field(j, 0, "removed"@),
        items_at(j, 0).len() == removed@.len(),
        forall|i: int|
            0 <= i < removed@.len() ==> #[trigger] items_at(j, 0)[i] == Json::Text(removed@[i]),
        field(j, 1, "count"@, Json::Nat(removed@.len() as u64)),
{
    let n: usize = removed.len();
    let mut items: Vec<Json> = Vec::new();
    let mut i: usize = 0;
    while i < n
        invariant
            i <= n == removed@.len(),
            items@.len() == i,
            forall|k: int| 0 <= k < i ==> #[trigger] items@[k] == Json::Text(removed@[k]),
        decreases n - i,
    {
        items.push(Json::Text(removed[i].clone()));
        i = i + 1;
    }
    object2("removed", Json::List(items), "count", Json::Nat(n as u64))
}

/// A snapshot of a chain as JSON.
pub open spec fn node_json(j: Json, n: ChainNode) -> bool {
    &&& object_of(j, 4)
    &&& field(j, 0, "tag"@, match n.tag {
        Some(t) => Json::Text(t),
        None => Json::Null,
    })
    &&& field(j, 1, "snapshot_type"@, Json::Text(n.snapshot_type))
    &&& field(j, 2, "chain_depth"@, Json::Nat(n.chain_depth as u64))
    &&& field(j, 3, "dir"@, Json::Text(n.dir))
}

/// A chain as JSON, from root to leaf.
pub fn chain_json(info: &ChainInfo) -> (j: Json)
    ensures
        object_of(j, 2),
        list_field(j, 0, "nodes"@),
        items_at(j, 0).len() == info.nodes@.len(),
        forall|i: int|
            0 <= i < info.nodes@.len() ==> node_json(#[trigger] items_at(j, 0)[i], info.nodes@[i]),
        field(j, 1, "total_depth"@, Json::Nat(info.total_depth as u64)),
{
    let mut items: Vec<Json> = Vec::new();
    let mut i: usize = 0;
    while i < info.nodes.len()
        invariant
            i <= info.nodes@.len(),
            items@.len() == i,
            forall|k: int| 0 <= k < i ==> node_json(#[trigger] items@[k], info.nodes@[k]),
        decreases info.nodes@.len() - i,
    {
        let n = &info.nodes[i];
        let tag = match &n.tag {
            Some(t) => Json::Text(t.clone()),
            None => Json::Null,
        };
        items.push(
            object4(
                "tag",
                tag,
                "snapshot_type",
                Json::Text(n.snapshot_type.clone()),
                "chain_depth",
                Json::Nat(n.chain_depth as u64),
                "dir",
                Json::Text(n.dir.clone()),
            ),
        );
        i = i + 1;
    }
    object2("nodes", Json::List(items), "total_depth", Json::Nat(info.total_depth as u64))
}

/// A call to forward that could not be carried out: `step` names what failed.
pub fn forward_error(step: &str, reason: &str) -> (e: ApiError)
    ensures
        e.says(500, step@ + ": "@ + reason@),
{
    ApiError::internal(cat3(step, ": ", reason))
}

} // verus!
