//! Calls that the controller makes to the daemon, and what becomes of the
//! answers.
use vstd::prelude::*;

use crate::failure::Failure;
use crate::text;
use crate::text::{cat2, cat3, cat5, clone_option, decimal_string, str_eq, trim};

verus! {

/// A guest to be booted. What is None is left to the daemon.
#[derive(Debug)]
pub struct CreateVmReq {
    pub kernel: String,
    pub rootfs: Option<String>,
    pub overlay: Option<String>,
    pub shared_dir: Option<String>,
    pub cmdline: Option<String>,
    pub mem_mb: Option<u32>,
    pub vcpus: Option<u32>,
    pub net: Option<bool>,
    pub memory_limit_mb: Option<u32>,
}

/// A guest that was started.
#[derive(Debug)]
pub struct CreateVmResp {
    pub vm_id: String,
    pub pid: Option<i64>,
}

/// A guest to be restored.
#[derive(Debug)]
pub struct RestoreReq {
    pub snapshot_path: String,
    pub net: Option<bool>,
    pub shared_dir: Option<String>,
    pub memory_limit_mb: Option<u32>,
}

/// Where a guest is to be saved.
#[derive(Debug)]
pub struct SaveReq {
    pub output_path: String,
}

/// The memory that a guest is to have.
#[derive(Debug)]
pub struct BalloonReq {
    pub target_mb: u32,
}

/// A command to be run in a guest.
#[derive(Debug)]
pub struct ExecReq {
    pub command: String,
    pub args: Vec<String>,
}

/// What a command in a guest gave.
#[derive(Debug)]
pub struct ExecResp {
    pub exit_code: i32,
    pub stdout: String,
    pub stderr: String,
}

/// What the daemon says of a guest. The uptime is in nanoseconds.
#[derive(Debug)]
pub struct VmStatusResp {
    pub state: String,
    pub uptime_nanos: Option<u64>,
    pub memory_usage_bytes: Option<u64>,
    pub guest_ip: Option<String>,
}

/// The method of an HTTP call.
#[derive(Debug, Clone, Copy, PartialEq, Eq, Structural)]
pub enum Method {
    Get,
    Post,
    Delete,
}

/// What a call sends along.
#[derive(Debug)]
pub enum CallBody {
    Nothing,
    Create(CreateVmReq),
    Restore(RestoreReq),
    Save(SaveReq),
    Balloon(BalloonReq),
    Exec(ExecReq),
}

/// An HTTP call to the daemon.
#[derive(Debug)]
pub struct DaemonCall {
    pub method: Method,
    pub url: String,
    /// Token to be sent along.
    pub bearer: Option<String>,
    pub body: CallBody,
}

/// Where the daemon is, and the token with which it is called.
#[derive(Debug)]
pub struct CloneClient {
    base_url: String,
    auth_token: Option<String>,
}

/// `s` without the slashes at its end.
pub open spec fn without_slashes(s: Seq<char>) -> Seq<char>
    decreases s.len(),
{
    if s.len() > 0 && s.last() == '/' {
        without_slashes(s.drop_last())
    } else {
        s
    }
}

/// The path of a guest, or of something of it.
pub open spec fn vm_path(vm_id: Seq<char>, what: Seq<char>) -> Seq<char> {
    "/v1/vms/"@ + vm_id + what
}

/// The command that prints the address of a guest.
pub const ADDRESS_COMMAND: &'static str =
    "ip -4 -o addr show eth0 | awk '{print $4}' | cut -d/ -f1";

/// The command that drops the caches of a guest.
pub const DROP_CACHES_COMMAND: &'static str = "echo 3 > /proc/sys/vm/drop_caches";

/// How long a guest is given to have an address, in nanoseconds.
pub const ADDRESS_TIMEOUT_NANOS: u64 = 20_000_000_000;

/// The command that probes a port from inside a guest.
pub open spec fn port_command(port: u16, timeout_secs: u32) -> Seq<char> {
    "nc -z -w"@ + text::decimal(timeout_secs as nat) + " 127.0.0.1 "@ + text::decimal(port as nat)
        + " 2>/dev/null && echo OK || echo FAIL"@
}

/// `s` holds `part` somewhere.
pub open spec fn contains_text(s: Seq<char>, part: Seq<char>) -> bool {
    exists|i: int|
        0 <= i && i + part.len() <= s.len() && #[trigger] s.subrange(i, i + part.len()) == part
}

impl CloneClient {
    /// The URL under which the daemon is called.
    pub closed spec fn base(self) -> Seq<char> {
        self.base_url@
    }

    /// The token with which the daemon is called.
    pub closed spec fn token(self) -> Option<String> {
        self.auth_token
    }

    /// `call` is a call of this client.
    pub open spec fn calls(self, call: DaemonCall, method: Method, path: Seq<char>) -> bool {
        &&& call.method == method
        &&& call.url@ == self.base() + path
        &&& call.bearer == self.token()
    }

    /// A client of the daemon at `base_url`. Slashes at its end do not matter.
    pub fn new(base_url: String, auth_token: Option<String>) -> (c: Self)
        ensures
            c.base() == without_slashes(base_url@),
            c.token() == auth_token,
    {
        let s = base_url.as_str();
        let total: usize = s.unicode_len();
        let mut n: usize = total;
        assert(s@.take(n as int) =~= s@);
        while n > 0 && s.get_char(n - 1) == '/'
            invariant
                n <= total == s@.len(),
                without_slashes(s@.take(n as int)) == without_slashes(s@),
            decreases n,
        {
            assert(s@.take(n as int).drop_last() =~= s@.take(n as int - 1));
            n = n - 1;
        }
        let base = s.substring_char(0, n);
        assert(base@ =~= s@.take(n as int));
        CloneClient { base_url: base.to_owned(), auth_token }
    }

    fn url(&self, path: &str) -> (s: String)
        ensures
            s@ == self.base() + path@,
    {
        cat2(self.base_url.as_str(), path)
    }

    fn call(&self, method: Method, path: &str, body: CallBody) -> (c: DaemonCall)
        ensures
            self.calls(c, method, path@),
            c.body == body,
    {
        DaemonCall { method, url: self.url(path), bearer: clone_option(&self.auth_token), body }
    }

    /// The call that asks whether the daemon is there.
    pub fn health(&self) -> (c: DaemonCall)
        ensures
            self.calls(c, Method::Get, "/health"@),
            c.body is Nothing,
    {
        self.call(Method::Get, "/health", CallBody::Nothing)
    }

    /// The call that boots a guest.
    pub fn create_vm(&self, req: CreateVmReq) -> (c: DaemonCall)
        ensures
            self.calls(c, Method::Post, "/v1/vms"@),
            c.body == CallBody::Create(req),
    {
        self.call(Method::Post, "/v1/vms", CallBody::Create(req))
    }

    /// The call that restores a guest.
    pub fn restore_vm(&self, req: RestoreReq) -> (c: DaemonCall)
        ensures
            self.calls(c, Method::Post, "/v1/restore"@),
            c.body == CallBody::Restore(req),
    {
        self.call(Method::Post, "/v1/restore", CallBody::Restore(req))
    }

    /// The call that saves a guest.
    pub fn save_vm(&self, vm_id: &str, output_path: &str) -> (c: DaemonCall)
        ensures
            self.calls(c, Method::Post, vm_path(vm_id@, "/save"@)),
            c.body matches CallBody::Save(req) && req.output_path@ == output_path@,
    {
        let path = cat3("/v1/vms/", vm_id, "/save");
        let body = CallBody::Save(SaveReq { output_path: output_path.to_owned() });
        self.call(Method::Post, path.as_str(), body)
    }

    /// The call that sets the memory of a guest.
    pub fn balloon_vm(&self, vm_id: &str, target_mb: u32) -> (c: DaemonCall)
        ensures
            self.calls(c, Method::Post, vm_path(vm_id@, "/balloon"@)),
            c.body == CallBody::Balloon(BalloonReq { target_mb }),
    {
        let path = cat3("/v1/vms/", vm_id, "/balloon");
        self.call(Method::Post, path.as_str(), CallBody::Balloon(BalloonReq { target_mb }))
    }

    /// The call that runs a command in a guest.
    pub fn exec_vm(&self, vm_id: &str, command: &str, args: &[&str]) -> (c: DaemonCall)
        ensures
            self.calls(c, Method::Post, vm_path(vm_id@, "/exec"@)),
            c.body matches CallBody::Exec(req) && req.command@ == command@
                && req.args@.map_values(|a: String| a@) == args@.map_values(|a: &str| a@),
    {
        let mut owned: Vec<String> = Vec::new();
        let mut i: usize = 0;
        while i < args.len()
            invariant
                i <= args@.len(),
                owned@.len() == i,
                forall|j: int| 0 <= j < i ==> (#[trigger] owned@[j])@ == args@[j]@,
            decreases args@.len() - i,
        {
            owned.push(args[i].to_owned());
            i = i + 1;
        }
        assert(owned@.map_values(|a: String| a@) =~= args@.map_values(|a: &str| a@));
        let path = cat3("/v1/vms/", vm_id, "/exec");
        let body = CallBody::Exec(ExecReq { command: command.to_owned(), args: owned });
        self.call(Method::Post, path.as_str(), body)
    }

    /// The call that destroys a guest.
    pub fn destroy_vm(&self, vm_id: &str) -> (c: DaemonCall)
        ensures
            self.calls(c, Method::Delete, vm_path(vm_id@, ""@)),
            c.body is Nothing,
    {
        let path = cat3("/v1/vms/", vm_id, "");
        self.call(Method::Delete, path.as_str(), CallBody::Nothing)
    }

    /// The call that asks for a guest's status.
    pub fn get_vm(&self, vm_id: &str) -> (c: DaemonCall)
        ensures
            self.calls(c, Method::Get, vm_path(vm_id@, ""@)),
            c.body is Nothing,
    {
        let path = cat3("/v1/vms/", vm_id, "");
        self.call(Method::Get, path.as_str(), CallBody::Nothing)
    }

    /// The call that has a guest print its address.
    pub fn fetch_guest_ip(&self, vm_id: &str) -> (c: DaemonCall)
        ensures
            self.calls(c, Method::Post, vm_path(vm_id@, "/exec"@)),
            c.body matches CallBody::Exec(req) && req.command@ == "sh"@ && req.args@.map_values(
                |a: String| a@,
            ) == seq!["-c"@, ADDRESS_COMMAND@],
    {
        let args: [&str; 2] = ["-c", ADDRESS_COMMAND];
        assert(args@.map_values(|a: &str| a@) =~= seq!["-c"@, ADDRESS_COMMAND@]);
        self.exec_vm(vm_id, "sh", &args)
    }

    /// The call that has a guest drop its caches.
    pub fn drop_caches(&self, vm_id: &str) -> (c: DaemonCall)
        ensures
            self.calls(c, Method::Post, vm_path(vm_id@, "/exec"@)),
            c.body matches CallBody::Exec(req) && req.command@ == "sh"@ && req.args@.map_values(
                |a: String| a@,
            ) == seq!["-c"@, DROP_CACHES_COMMAND@],
    {
        let args: [&str; 2] = ["-c", DROP_CACHES_COMMAND];
        assert(args@.map_values(|a: &str| a@) =~= seq!["-c"@, DROP_CACHES_COMMAND@]);
        self.exec_vm(vm_id, "sh", &args)
    }

    /// The call that has a guest probe one of its own ports.
    pub fn probe_port_in_guest(&self, vm_id: &str, port: u16, timeout_secs: u32) -> (c: DaemonCall)
        ensures
            self.calls(c, Method::Post, vm_path(vm_id@, "/exec"@)),
            c.body matches CallBody::Exec(req) && req.command@ == "sh"@ && req.args@.map_values(
                |a: String| a@,
            ) == seq!["-c"@, port_command(port, timeout_secs)],
    {
        let secs = decimal_string(timeout_secs as u64);
        let number = decimal_string(port as u64);
        let command = cat5(
            "nc -z -w",
            secs.as_str(),
            " 127.0.0.1 ",
            number.as_str(),
            " 2>/dev/null && echo OK || echo FAIL",
        );
        let args: [&str; 2] = ["-c", command.as_str()];
        assert(args@.map_values(|a: &str| a@) =~= seq!["-c"@, port_command(port, timeout_secs)]);
        self.exec_vm(vm_id, "sh", &args)
    }
}

/// Status codes that stand for success.
pub open spec fn is_success(status: u16) -> bool {
    200 <= status < 300
}

/// Judges the answer to a call. `status_line` is the status in words, and
/// `context` names the call.
pub fn ensure_ok(status: u16, status_line: &str, body: &str, context: &str) -> (r: Result<
    (),
    Failure,
>)
    ensures
        r is Ok <==> is_success(status),
        r is Err ==> r->Err_0@ == seq![
            context@ + " failed: HTTP "@ + status_line@ + ": "@ + body@,
        ],
{
    if 200 <= status && status < 300 {
        Ok(())
    } else {
        Err(Failure::new(cat5(context, " failed: HTTP ", status_line, ": ", body)))
    }
}

/// Judges the answer of the daemon to the question whether it is there.
pub fn healthy(status: u16, status_line: &str) -> (r: Result<(), Failure>)
    ensures
        r is Ok <==> is_success(status),
        r is Err ==> r->Err_0@ == seq!["daemon /health returned "@ + status_line@],
{
    if 200 <= status && status < 300 {
        Ok(())
    } else {
        Err(Failure::new(cat2("daemon /health returned ", status_line)))
    }
}

/// What to do about a guest that was asked for its address.
#[derive(Debug)]
pub enum AddressWait {
    /// It has this address.
    Found(String),
    /// Ask again in a moment.
    Retry,
    /// It took too long, for this reason.
    GiveUp(Failure),
}

/// Judges what a guest printed when it was asked for its address, or why it
/// could not be asked, `waited` nanoseconds after it was first asked.
pub fn judge_address(answer: Result<ExecResp, Failure>, waited: u64) -> (w: AddressWait)
    ensures
        match answer {
            Ok(out) => if text::trimmed(out.stdout@).len() > 0 {
                w matches AddressWait::Found(ip) && ip@ == text::trimmed(out.stdout@)
            } else if waited >= ADDRESS_TIMEOUT_NANOS {
                w matches AddressWait::GiveUp(f) && f@ == seq!["guest eth0 has no IPv4 yet"@]
            } else {
                w is Retry
            },
            Err(e) => if waited >= ADDRESS_TIMEOUT_NANOS {
                w == AddressWait::GiveUp(e)
            } else {
                w is Retry
            },
        },
{
    match answer {
        Ok(out) => {
            let ip = trim(out.stdout.as_str());
            if ip.unicode_len() > 0 {
                AddressWait::Found(ip.to_owned())
            } else if waited >= ADDRESS_TIMEOUT_NANOS {
                AddressWait::GiveUp(Failure::new("guest eth0 has no IPv4 yet".to_owned()))
            } else {
                AddressWait::Retry
            }
        },
        Err(e) => {
            if waited >= ADDRESS_TIMEOUT_NANOS {
                AddressWait::GiveUp(e)
            } else {
                AddressWait::Retry
            }
        },
    }
}

/// Judges what a guest printed when it probed a port.
pub fn port_is_open(stdout: &str) -> (b: bool)
    ensures
        b == contains_text(stdout@, "OK"@),
{
    proof {
        reveal_strlit("OK");
    }
    let n: usize = stdout.unicode_len();
    let mut i: usize = 0;
    while i < n
        invariant
            i <= n == stdout@.len(),
            "OK"@.len() == 2,
            forall|j: int| 0 <= j < i && j + 2 <= n ==> #[trigger] stdout@.subrange(j, j + 2) != "OK"@,
        decreases n - i,
    {
        if n - i >= 2 && str_eq(stdout.substring_char(i, i + 2), "OK") {
            assert(stdout@.subrange(i as int, i + "OK"@.len()) == "OK"@);
            return true;
        }
        i = i + 1;
    }
    false
}

} // verus!
