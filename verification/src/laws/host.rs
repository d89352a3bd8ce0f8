//! What the host is asked to do, and how calls and answers travel.
use vstd::prelude::*;

use crate::cgroup;
use crate::cgroup::{
    add_process, create_vm_cgroup, ensure_parent, get_memory_peak, get_memory_usage, is_available,
    parent_writable, parse_memory, remove_cgroup, setup_cgroup, CgroupOp, MemoryError,
};
use crate::clone_client;
use crate::clone_client::{
    ensure_ok, healthy, judge_address, port_is_open, AddressWait, CallBody, CloneClient,
    CreateVmReq, DaemonCall, ExecResp, Method, RestoreReq,
};
use crate::config::{Cli, ControllerConfig};
use crate::failure;
use crate::failure::Failure;
use crate::netns::{
    create_netns, created_netns, delete_netns, deleted_netns, exec_in_netns, executed,
    move_interface_to_netns, moved_interface, renamed_interface, setup_isolated_network,
    setup_loopback, CommandLine, CommandResult,
};
use crate::protocol;
use crate::protocol::{protocol_error, read_frame, write_frame, Response};
use crate::text;
use crate::timestamp::{seconds_between, Timestamp};

verus! {

/// A guest's group lies below the group of all guests, under the guest's id.
pub open spec fn group_dir(vm_id: Seq<char>) -> Seq<char> {
    "/sys/fs/cgroup/clone/"@ + vm_id
}

proof fn lemma_group_dir(vm_id: Seq<char>, file: Seq<char>)
    requires
        vm_id.len() > 0,
        vm_id[0] != '/',
        vm_id.last() != '/',
        file.len() > 0,
        file[0] != '/',
    ensures
        cgroup::vm_dir(vm_id) == group_dir(vm_id),
        text::joined(cgroup::vm_dir(vm_id), file) == group_dir(vm_id) + seq!['/'] + file,
{
    cgroup::lemma_vm_dir_is_namespaced(vm_id);
    assert(group_dir(vm_id).last() == vm_id.last());
}

/// A guest's group is made with the memory limit that was asked for, in bytes, or
/// with none, and with room for 4096 processes. Making the directory and the limit
/// matters; the number of processes does not have to be taken.
pub proof fn lemma_group_has_the_limit(vm_id: &str, memory_limit_mb: Option<u32>, ops: Vec<CgroupOp>)
    requires
        call_ensures(create_vm_cgroup, (vm_id, memory_limit_mb), ops),
        vm_id@.len() > 0,
        vm_id@[0] != '/',
        vm_id@.last() != '/',
    ensures
        ops@.len() == 3,
        ops@[0] matches CgroupOp::MakeDir { path } && path@ == group_dir(vm_id@),
        ops@[1] matches CgroupOp::Write { path, data, optional } && path@ == group_dir(vm_id@)
            + seq!['/'] + "memory.max"@ && !optional && (memory_limit_mb is None ==> data@
            == "max"@) && (memory_limit_mb is Some ==> data@ == text::decimal(
            (memory_limit_mb->0 * 1048576) as nat,
        )),
        ops@[2] matches CgroupOp::Write { path, data, optional } && path@ == group_dir(vm_id@)
            + seq!['/'] + "pids.max"@ && optional && data@ == "4096"@,
{
    reveal_strlit("memory.max");
    reveal_strlit("pids.max");
    lemma_group_dir(vm_id@, "memory.max"@);
    lemma_group_dir(vm_id@, "pids.max"@);
}

/// A guest's process is put into the guest's group, and the guest has a group
/// exactly where one could be made; that group is what is removed in the end.
pub proof fn lemma_guest_is_put_into_its_group(
    vm_id: &str,
    pid: u32,
    op: CgroupOp,
    created: bool,
    path: Option<String>,
    present: bool,
    gone: Option<String>,
)
    requires
        call_ensures(add_process, (vm_id, pid), op),
        call_ensures(setup_cgroup, (vm_id, created), path),
        call_ensures(remove_cgroup, (vm_id, present), gone),
        vm_id@.len() > 0,
        vm_id@[0] != '/',
        vm_id@.last() != '/',
    ensures
        op matches CgroupOp::Write { path: file, data, optional } && file@ == group_dir(vm_id@)
            + seq!['/'] + "cgroup.procs"@ && data@ == text::decimal(pid as nat) && !optional,
        path is Some <==> created,
        path is Some ==> path->0@ == group_dir(vm_id@),
        gone is Some <==> present,
        gone is Some ==> gone->0@ == group_dir(vm_id@),
{
    reveal_strlit("cgroup.procs");
    lemma_group_dir(vm_id@, "cgroup.procs"@);
}

/// The group of all guests is made where it is missing, and in either case its
/// controllers are enabled last. Groups are used where they are mounted and that
/// group can be written, or made.
pub proof fn lemma_parent_group_is_ensured(
    present: bool,
    ops: Vec<CgroupOp>,
    writable: bool,
    root_writable: bool,
    b: bool,
    root_present: bool,
    available: bool,
)
    requires
        call_ensures(ensure_parent, (present,), ops),
        call_ensures(parent_writable, (present, writable, root_writable), b),
        call_ensures(is_available, (root_present, b), available),
    ensures
        !present ==> ops@.len() == 2 && (ops@[0] matches CgroupOp::MakeDir { path } && path@
            == "/sys/fs/cgroup/clone"@),
        present ==> ops@.len() == 1,
        ops@.last() matches CgroupOp::Write { path, data, optional } && path@
            == "/sys/fs/cgroup/cgroup.subtree_control"@ && data@ == "+memory +cpu +pids"@
            && optional,
        available <==> root_present && (present && writable || !present && root_writable),
{
    reveal_strlit("/sys/fs/cgroup");
    reveal_strlit("clone");
    reveal_strlit("/sys/fs/cgroup/clone");
    reveal_strlit("cgroup.subtree_control");
    reveal_strlit("/sys/fs/cgroup/cgroup.subtree_control");
    assert(cgroup::parent_dir() =~= "/sys/fs/cgroup/clone"@);
    assert(text::joined("/sys/fs/cgroup"@, "cgroup.subtree_control"@)
        =~= "/sys/fs/cgroup/cgroup.subtree_control"@);
}

/// The memory that a guest uses is read from its own group: the number in the file,
/// as it is written in decimal. A file that cannot be read gives an error that
/// names it.
pub proof fn lemma_memory_is_read_from_the_group<F: FnOnce(&String) -> Option<String>>(
    vm_id: &str,
    read: F,
    now: Result<u64, MemoryError>,
    peak: Result<u64, MemoryError>,
    n: u64,
)
    requires
        call_ensures(get_memory_usage::<F>, (vm_id, read), now),
        call_ensures(get_memory_peak::<F>, (vm_id, read), peak),
        vm_id@.len() > 0,
        vm_id@[0] != '/',
        vm_id@.last() != '/',
        forall|path: &String, found: Option<String>| #[trigger]
            read.ensures((path,), found) && path@ == group_dir(vm_id@) + seq!['/']
                + "memory.current"@ ==> found is Some && found->0@ == text::decimal(n as nat),
        forall|path: &String, found: Option<String>| #[trigger]
            read.ensures((path,), found) && path@ == group_dir(vm_id@) + seq!['/']
                + "memory.peak"@ ==> found is None,
    ensures
        now == Ok::<u64, MemoryError>(n),
        peak matches Err(MemoryError::Unreadable { path }) && path@ == group_dir(vm_id@)
            + seq!['/'] + "memory.peak"@,
{
    reveal_strlit("memory.current");
    reveal_strlit("memory.peak");
    lemma_group_dir(vm_id@, "memory.current"@);
    lemma_group_dir(vm_id@, "memory.peak"@);
    text::lemma_parse_decimal(n);
    lemma_decimal_is_trimmed(n as nat);
}

proof fn lemma_decimal_is_trimmed(n: nat)
    ensures
        text::trimmed(text::decimal(n)) == text::decimal(n),
{
    text::lemma_decimal_digits(n);
    let d = text::decimal(n);
    assert('0' <= d[0] <= '9');
    assert('0' <= d[d.len() - 1] <= '9');
}

/// A number that is written in decimal, with a line feed behind it as the kernel
/// does, is read as that number.
pub proof fn lemma_kernel_number_is_read(contents: &str, n: u64, r: Option<u64>)
    requires
        call_ensures(parse_memory, (contents,), r),
        contents@ == text::decimal(n as nat) + seq!['\n'],
    ensures
        r == Some(n),
{
    let d = text::decimal(n as nat);
    text::lemma_decimal_digits(n as nat);
    assert('0' <= d[0] <= '9');
    assert(contents@[0] == d[0]);
    assert(contents@.last() == '\n');
    assert(contents@.drop_last() =~= d);
    lemma_decimal_is_trimmed(n as nat);
    text::lemma_parse_decimal(n);
}

/// The words of a command: the program, and its arguments in order.
pub open spec fn words(c: CommandLine) -> Seq<Seq<char>> {
    seq![c.program@] + c.args@.map_values(|a: String| a@)
}

/// A namespace is made unless it is there, and deleted again, under its own name.
pub proof fn lemma_namespace_commands(
    name: &str,
    already: bool,
    make: Option<CommandLine>,
    delete: CommandLine,
    iface: &str,
    into: CommandLine,
    lo: CommandLine,
)
    requires
        call_ensures(create_netns, (name, already), make),
        call_ensures(delete_netns, (name,), delete),
        call_ensures(move_interface_to_netns, (iface, name), into),
        call_ensures(setup_loopback, (name,), lo),
    ensures
        make is None <==> already,
        make matches Some(c) ==> words(c) == seq!["ip"@, "netns"@, "add"@, name@],
        words(delete) == seq!["ip"@, "netns"@, "del"@, name@],
        words(into) == seq!["ip"@, "link"@, "set"@, iface@, "netns"@, name@],
        words(lo) == seq![
            "ip"@,
            "netns"@,
            "exec"@,
            name@,
            "ip"@,
            "link"@,
            "set"@,
            "lo"@,
            "up"@,
        ],
{
    if make is Some {
        assert(words(make->0) =~= seq!["ip"@, "netns"@, "add"@, name@]);
    }
    assert(words(delete) =~= seq!["ip"@, "netns"@, "del"@, name@]);
    assert(words(into) =~= seq!["ip"@, "link"@, "set"@, iface@, "netns"@, name@]);
    assert(words(lo) =~= seq![
        "ip"@,
        "netns"@,
        "exec"@,
        name@,
        "ip"@,
        "link"@,
        "set"@,
        "lo"@,
        "up"@,
    ]);
}

/// A command that is run inside a namespace is the command with its arguments, in
/// that namespace; what it prints is what comes back where it succeeds.
pub proof fn lemma_command_inside_is_the_command(
    netns: &str,
    cmd: &str,
    args: &[&str],
    c: CommandLine,
    result: CommandResult,
    r: Result<String, String>,
)
    requires
        call_ensures(exec_in_netns, (netns, cmd, args), c),
        call_ensures(executed, (netns, cmd, result), r),
    ensures
        words(c) == seq!["ip"@, "netns"@, "exec"@, netns@, cmd@] + args@.map_values(
            |a: &str| a@,
        ),
        r is Ok <==> (result matches CommandResult::Exited { success, .. } && success),
        r is Ok ==> r->Ok_0 == result->stdout,
{
    assert(words(c) =~= seq!["ip"@, "netns"@, "exec"@, netns@, cmd@] + args@.map_values(
        |a: &str| a@,
    ));
}

/// The network of a namespace is its own: each of the commands runs inside the
/// namespace, the bridge gets the gateway's address, and what leaves the network of
/// that address is masked.
pub proof fn lemma_network_is_isolated(
    netns: &str,
    gateway_ip: &str,
    prefix_len: u8,
    cs: Vec<CommandLine>,
)
    requires
        call_ensures(setup_isolated_network, (netns, gateway_ip, prefix_len), cs),
    ensures
        cs@.len() == 5,
        ({
            let net = gateway_ip@ + "/"@ + text::decimal(prefix_len as nat);
            let inside = seq!["ip"@, "netns"@, "exec"@, netns@];
            &&& words(cs@[0]) == inside + seq![
                "ip"@,
                "link"@,
                "add"@,
                "br-inside"@,
                "type"@,
                "bridge"@,
            ]
            &&& words(cs@[1]) == inside + seq!["ip"@, "addr"@, "add"@, net, "dev"@, "br-inside"@]
            &&& words(cs@[2]) == inside + seq!["ip"@, "link"@, "set"@, "br-inside"@, "up"@]
            &&& words(cs@[3]) == inside + seq!["sysctl"@, "-w"@, "net.ipv4.ip_forward=1"@]
            &&& words(cs@[4]) == inside + seq![
                "iptables"@,
                "-t"@,
                "nat"@,
                "-A"@,
                "POSTROUTING"@,
                "-s"@,
                net,
                "-j"@,
                "MASQUERADE"@,
            ]
        }),
{
    let net = gateway_ip@ + "/"@ + text::decimal(prefix_len as nat);
    let inside = seq!["ip"@, "netns"@, "exec"@, netns@];
    assert(words(cs@[0]) =~= inside + seq![
        "ip"@,
        "link"@,
        "add"@,
        "br-inside"@,
        "type"@,
        "bridge"@,
    ]);
    assert(words(cs@[1]) =~= inside + seq!["ip"@, "addr"@, "add"@, net, "dev"@, "br-inside"@]);
    assert(words(cs@[2]) =~= inside + seq!["ip"@, "link"@, "set"@, "br-inside"@, "up"@]);
    assert(words(cs@[3]) =~= inside + seq!["sysctl"@, "-w"@, "net.ipv4.ip_forward=1"@]);
    assert(words(cs@[4]) =~= inside + seq![
        "iptables"@,
        "-t"@,
        "nat"@,
        "-A"@,
        "POSTROUTING"@,
        "-s"@,
        net,
        "-j"@,
        "MASQUERADE"@,
    ]);
}

/// A command on a namespace that fails is reported; only deleting one that is not
/// there does no harm. An interface is renamed in its new namespace once it is
/// there.
pub proof fn lemma_namespace_results(
    name: &str,
    iface: &str,
    new_name: &str,
    result: &CommandResult,
    made: Result<(), String>,
    deleted: Result<(), String>,
    moved: Result<Option<CommandLine>, String>,
    kept: Result<Option<CommandLine>, String>,
    renamed: Result<(), String>,
)
    requires
        call_ensures(created_netns, (name, result), made),
        call_ensures(deleted_netns, (name, result), deleted),
        call_ensures(moved_interface, (iface, name, Some(new_name), result), moved),
        call_ensures(moved_interface, (iface, name, None::<&str>, result), kept),
        call_ensures(renamed_interface, (iface, name, result), renamed),
    ensures
        ({
            let good = *result matches CommandResult::Exited { success, .. } && success;
            &&& made is Ok <==> good
            &&& moved is Ok <==> good
            &&& kept is Ok <==> good
            &&& renamed is Ok <==> good
            &&& deleted is Ok <==> *result is Exited
            &&& good ==> kept->Ok_0 is None && moved->Ok_0 is Some && words(moved->Ok_0->0) == seq![
                "ip"@,
                "-n"@,
                name@,
                "link"@,
                "set"@,
                iface@,
                "name"@,
                new_name@,
            ]
        }),
{
    if moved is Ok {
        assert(words(moved->Ok_0->0) =~= seq![
            "ip"@,
            "-n"@,
            name@,
            "link"@,
            "set"@,
            iface@,
            "name"@,
            new_name@,
        ]);
    }
}

proof fn lemma_slash_dropped(s: Seq<char>)
    ensures
        clone_client::without_slashes(s.push('/')) == clone_client::without_slashes(s),
        s.len() > 0 && s.last() != '/' ==> clone_client::without_slashes(s) == s,
{
    assert(s.push('/').drop_last() =~= s);
}

/// It does not matter whether the daemon's URL is given with a slash at its end,
/// and one without is used as it is given. The token goes along as it is.
pub proof fn lemma_trailing_slash_does_not_matter(
    url: String,
    slashed: String,
    token: Option<String>,
    a: CloneClient,
    b: CloneClient,
)
    requires
        slashed@ == url@.push('/'),
        url@.len() > 0,
        url@.last() != '/',
        call_ensures(CloneClient::new, (url, token), a),
        call_ensures(CloneClient::new, (slashed, token), b),
    ensures
        a.base() == url@,
        b.base() == url@,
        a.token() == token,
        b.token() == token,
{
    lemma_slash_dropped(url@);
}

/// Each call goes to its own path, with the client's token, and carries what it is
/// given.
pub proof fn lemma_calls_carry_what_they_are_given(
    client: &CloneClient,
    create: CreateVmReq,
    c: DaemonCall,
    restore: RestoreReq,
    r: DaemonCall,
    vm_id: &str,
    output_path: &str,
    save: DaemonCall,
    target_mb: u32,
    balloon: DaemonCall,
    destroy: DaemonCall,
    get: DaemonCall,
    health: DaemonCall,
)
    requires
        call_ensures(CloneClient::create_vm, (client, create), c),
        call_ensures(CloneClient::restore_vm, (client, restore), r),
        call_ensures(CloneClient::save_vm, (client, vm_id, output_path), save),
        call_ensures(CloneClient::balloon_vm, (client, vm_id, target_mb), balloon),
        call_ensures(CloneClient::destroy_vm, (client, vm_id), destroy),
        call_ensures(CloneClient::get_vm, (client, vm_id), get),
        call_ensures(CloneClient::health, (client,), health),
    ensures
        c.method == Method::Post && c.url@ == client.base() + "/v1/vms"@ && c.body
            == CallBody::Create(create),
        r.method == Method::Post && r.url@ == client.base() + "/v1/restore"@ && r.body
            == CallBody::Restore(restore),
        save.method == Method::Post && save.url@ == client.base() + ("/v1/vms/"@ + vm_id@
            + "/save"@) && (save.body matches CallBody::Save(q) && q.output_path@ == output_path@),
        balloon.method == Method::Post && balloon.url@ == client.base() + ("/v1/vms/"@ + vm_id@
            + "/balloon"@) && (balloon.body matches CallBody::Balloon(q) && q.target_mb
            == target_mb),
        destroy.method == Method::Delete && destroy.url@ == client.base() + ("/v1/vms/"@ + vm_id@),
        destroy.body is Nothing,
        get.method == Method::Get && get.url@ == client.base() + ("/v1/vms/"@ + vm_id@),
        get.body is Nothing,
        health.method == Method::Get && health.url@ == client.base() + "/health"@,
        health.body is Nothing,
        c.bearer == client.token() && r.bearer == client.token() && save.bearer == client.token(),
        balloon.bearer == client.token() && destroy.bearer == client.token(),
        get.bearer == client.token() && health.bearer == client.token(),
{
    reveal_strlit("");
    assert("/v1/vms/"@ + vm_id@ + ""@ =~= "/v1/vms/"@ + vm_id@);
}

/// A command goes to the guest with its arguments in order. A guest is asked for its
/// address, told to drop its caches, and has a port of its own probed by a shell
/// command each.
pub proof fn lemma_commands_go_to_the_guest(
    client: &CloneClient,
    vm_id: &str,
    command: &str,
    args: &[&str],
    c: DaemonCall,
    i: int,
    address: DaemonCall,
    caches: DaemonCall,
    port: u16,
    secs: u32,
    probe: DaemonCall,
)
    requires
        call_ensures(CloneClient::exec_vm, (client, vm_id, command, args), c),
        0 <= i < args@.len(),
        call_ensures(CloneClient::fetch_guest_ip, (client, vm_id), address),
        call_ensures(CloneClient::drop_caches, (client, vm_id), caches),
        call_ensures(CloneClient::probe_port_in_guest, (client, vm_id, port, secs), probe),
    ensures
        c.method == Method::Post,
        c.url@ == client.base() + ("/v1/vms/"@ + vm_id@ + "/exec"@),
        c.bearer == client.token(),
        c.body matches CallBody::Exec(q) && q.command@ == command@ && q.args@.len() == args@.len()
            && q.args@[i]@ == args@[i]@,
        shell(address, client, vm_id@,
            "ip -4 -o addr show eth0 | awk '{print $4}' | cut -d/ -f1"@),
        shell(caches, client, vm_id@, "echo 3 > /proc/sys/vm/drop_caches"@),
        shell(
            probe,
            client,
            vm_id@,
            "nc -z -w"@ + text::decimal(secs as nat) + " 127.0.0.1 "@ + text::decimal(port as nat)
                + " 2>/dev/null && echo OK || echo FAIL"@,
        ),
{
    let q = c.body->Exec_0.args@;
    assert(q.map_values(|a: String| a@).len() == args@.map_values(|a: &str| a@).len());
    assert(q.map_values(|a: String| a@)[i] == args@.map_values(|a: &str| a@)[i]);
    lemma_two_words(address.body->Exec_0.args@);
    lemma_two_words(caches.body->Exec_0.args@);
    lemma_two_words(probe.body->Exec_0.args@);
}

proof fn lemma_two_words(args: Seq<String>)
    ensures
        args.map_values(|a: String| a@).len() == args.len(),
        args.len() == 2 ==> args.map_values(|a: String| a@)[0] == args[0]@ && args.map_values(
            |a: String| a@,
        )[1] == args[1]@,
{
}

/// The call has the guest run this line in a shell.
pub open spec fn shell(
    c: DaemonCall,
    client: &CloneClient,
    vm_id: Seq<char>,
    line: Seq<char>,
) -> bool {
    &&& c.method == Method::Post
    &&& c.url@ == client.base() + ("/v1/vms/"@ + vm_id + "/exec"@)
    &&& c.bearer == client.token()
    &&& c.body matches CallBody::Exec(q) && q.command@ == "sh"@ && q.args@.len() == 2
        && q.args@[0]@ == "-c"@ && q.args@[1]@ == line
}

/// An answer is a success exactly where its status begins with a two. A failure
/// says which call failed, and how.
pub proof fn lemma_status_decides(
    status: u16,
    line: &str,
    body: &str,
    context: &str,
    r: Result<(), Failure>,
    h: Result<(), Failure>,
)
    requires
        call_ensures(ensure_ok, (status, line, body, context), r),
        call_ensures(healthy, (status, line), h),
    ensures
        r is Ok <==> status / 100 == 2,
        h is Ok <==> status / 100 == 2,
        r matches Err(e) ==> e@ == seq![context@ + " failed: HTTP "@ + line@ + ": "@ + body@],
        h matches Err(e) ==> e@ == seq!["daemon /health returned "@ + line@],
{
}

/// A guest's address is what it prints, without the line's end. It is asked again
/// for twenty seconds where it prints none or cannot be asked.
pub proof fn lemma_address_is_what_is_printed(
    out: ExecResp,
    ip: Seq<char>,
    e: Failure,
    waited: u64,
    w: AddressWait,
    x: AddressWait,
)
    requires
        call_ensures(judge_address, (Ok::<ExecResp, Failure>(out), waited), w),
        call_ensures(judge_address, (Err::<ExecResp, Failure>(e), waited), x),
        ip.len() > 0,
        forall|i: int| 0 <= i < ip.len() ==> '!' <= #[trigger] ip[i] <= '~',
    ensures
        out.stdout@ == ip + seq!['\n'] ==> (w matches AddressWait::Found(a) && a@ == ip),
        out.stdout@ == ip ==> (w matches AddressWait::Found(a) && a@ == ip),
        out.stdout@ == seq!['\n'] && waited < 20 * 1_000_000_000 ==> w is Retry,
        out.stdout@.len() == 0 && waited < 20 * 1_000_000_000 ==> w is Retry,
        out.stdout@.len() == 0 && waited >= 20 * 1_000_000_000 ==> (w matches AddressWait::GiveUp(f)
            && f@ == seq!["guest eth0 has no IPv4 yet"@]),
        waited < 20 * 1_000_000_000 ==> x is Retry,
        waited >= 20 * 1_000_000_000 ==> x == AddressWait::GiveUp(e),
{
    assert('!' <= ip[0] <= '~');
    assert('!' <= ip[ip.len() - 1] <= '~');
    assert(text::trimmed(ip) == ip);
    if out.stdout@ == seq!['\n'] {
        assert(out.stdout@.skip(1) =~= Seq::<char>::empty());
        assert(text::trimmed(out.stdout@.skip(1)).len() == 0);
    }
    if out.stdout@ == ip + seq!['\n'] {
        assert(out.stdout@[0] == ip[0]);
        assert(out.stdout@.last() == '\n');
        assert(out.stdout@.drop_last() =~= ip);
    }
}

/// A port is open where the probe printed `OK`, and only there.
pub proof fn lemma_probe_prints_ok(stdout: &str, b: bool, before: Seq<char>, after: Seq<char>)
    requires
        call_ensures(port_is_open, (stdout,), b),
    ensures
        stdout@ == before + "OK"@ + after ==> b,
        b ==> exists|i: int|
            0 <= i < stdout@.len() - 1 && #[trigger] stdout@[i] == 'O' && stdout@[i + 1] == 'K',
{
    reveal_strlit("OK");
    assert("OK"@.len() == 2);
    if stdout@ == before + "OK"@ + after {
        let i = before.len() as int;
        assert(stdout@.subrange(i, i + "OK"@.len()) =~= "OK"@);
    }
    if b {
        let i = choose|i: int|
            0 <= i && i + "OK"@.len() <= stdout@.len() && #[trigger] stdout@.subrange(
                i,
                i + "OK"@.len(),
            ) == "OK"@;
        let part = stdout@.subrange(i, i + "OK"@.len());
        assert(part[0] == stdout@[i] && part[1] == stdout@[i + 1]);
    }
}

/// A message that is put on the wire is read off it again, whatever follows, and not
/// before all of it is there.
pub proof fn lemma_message_arrives(
    body: &[u8],
    sent: Option<Vec<u8>>,
    wire: &[u8],
    rest: Seq<u8>,
    got: Option<Vec<u8>>,
    part: &[u8],
    early: Option<Vec<u8>>,
)
    requires
        body@.len() < 0x1_0000_0000,
        call_ensures(write_frame, (body,), sent),
        sent is Some ==> wire@ == sent->0@ + rest,
        call_ensures(read_frame, (wire,), got),
        sent is Some ==> part@.len() < sent->0@.len() && part@ == sent->0@.take(
            part@.len() as int,
        ),
        call_ensures(read_frame, (part,), early),
    ensures
        sent is Some,
        sent->0@.len() == body@.len() + 4,
        got is Some,
        got->0@ == body@,
        early is None,
        sent->0@[0] == body@.len() % 256,
        sent->0@[3] == body@.len() / 0x100_0000,
{
    protocol::lemma_frame_reads_back(body@, rest);
    let whole = sent->0@;
    protocol::lemma_frame_reads_back(body@, seq![]);
    if part@.len() >= 4 {
        assert(part@[0] == whole[0] && part@[1] == whole[1] && part@[2] == whole[2] && part@[3]
            == whole[3]);
        assert(protocol::length_of(part@) == body@.len()) by {
            let n = body@.len();
            assert(whole[0] == (n % 256) as u8);
            assert(whole[1] == (n / 256 % 256) as u8);
            assert(whole[2] == (n / 65536 % 256) as u8);
            assert(whole[3] == (n / 16777216 % 256) as u8);
        }
    }
}

/// Bytes that are no request are answered with the reason.
pub proof fn lemma_bad_request_is_answered(reason: &str, r: Response)
    requires
        call_ensures(protocol_error, (reason,), r),
    ensures
        r matches Response::Error { message } && message@ == "Protocol error: "@ + reason@,
{
}

/// Whole seconds are counted, as the clock runs forward; a clock that went back
/// counts as standing still.
pub proof fn lemma_seconds_are_counted(from: Timestamp, to: Timestamp, s: i64)
    requires
        call_ensures(seconds_between, (from, to), s),
    ensures
        ({
            let d = (to.secs * 1_000_000_000 + to.nanos) - (from.secs * 1_000_000_000 + from.nanos);
            &&& d < 0 ==> s == 0
            &&& 0 <= d && s < i64::MAX ==> s * 1_000_000_000 <= d < (s + 1) * 1_000_000_000
            &&& s >= 0
        }),
{
}

proof fn lemma_joined_from_the_front(first: Seq<char>, rest: Seq<Seq<char>>)
    requires
        rest.len() > 0,
    ensures
        failure::joined_messages(seq![first] + rest) == first + ": "@ + failure::joined_messages(
            rest,
        ),
    decreases rest.len(),
{
    let all = seq![first] + rest;
    assert(all.drop_last() =~= seq![first] + rest.drop_last());
    assert(all.last() == rest.last());
    if rest.len() == 1 {
        assert(all.drop_last() =~= seq![first]);
        assert(failure::joined_messages(all.drop_last()) == first);
    } else {
        lemma_joined_from_the_front(first, rest.drop_last());
        let most = failure::joined_messages(rest.drop_last());
        assert(first + ": "@ + most + ": "@ + rest.last() =~= first + ": "@ + (most + ": "@
            + rest.last()));
    }
}

/// A failure is told from the outside in: its outermost circumstance first, then a
/// colon and what was told before.
pub proof fn lemma_context_comes_first(
    cause: String,
    plain: Failure,
    told: String,
    f: Failure,
    before: String,
    outer: &str,
    g: Failure,
    m: String,
    all: String,
)
    requires
        call_ensures(Failure::new, (cause,), plain),
        call_ensures(Failure::full, (&plain,), told),
        f@.len() > 0,
        call_ensures(Failure::full, (&f,), before),
        call_ensures(Failure::context, (f, outer), g),
        call_ensures(Failure::message, (&g,), m),
        call_ensures(Failure::full, (&g,), all),
    ensures
        told@ == cause@,
        m@ == outer@,
        all@ == outer@ + ": "@ + before@,
{
    lemma_joined_from_the_front(outer@, f@);
}

/// What the command line says is what the controller works with.
pub proof fn lemma_command_line_is_obeyed(c: Cli, r: ControllerConfig)
    requires
        call_ensures(<ControllerConfig as From<Cli>>::from, (c,), r),
    ensures
        r.listen == c.listen,
        r.clone_daemon_url == c.clone_daemon,
        r.clone_auth_token == c.clone_auth_token,
        r.state_file == c.state_file,
        r.saves_root == c.saves_root,
        r.reconcile_interval_secs == c.reconcile_interval_secs,
        r.soft_reclaim_after_secs == c.soft_reclaim_after_secs,
        r.hard_reclaim_after_secs == c.hard_reclaim_after_secs,
        r.balloon_target_mb == c.balloon_target_mb,
        r.health_probe_enabled == c.health_probe_enabled,
        r.health_probe_fail_threshold == c.health_probe_fail_threshold,
        r.skip_daemon_health_check == c.skip_daemon_health_check,
{
}

/// What went wrong with a namespace is said in words that name it.
pub proof fn lemma_namespace_failures_are_named(
    name: &str,
    iface: &str,
    cmd: &str,
    result: CommandResult,
    made: Result<(), String>,
    deleted: Result<(), String>,
    moved: Result<Option<CommandLine>, String>,
    renamed: Result<(), String>,
    ran: Result<String, String>,
)
    requires
        call_ensures(created_netns, (name, &result), made),
        call_ensures(deleted_netns, (name, &result), deleted),
        call_ensures(moved_interface, (iface, name, None::<&str>, &result), moved),
        call_ensures(renamed_interface, (iface, name, &result), renamed),
        call_ensures(executed, (name, cmd, result), ran),
    ensures
        result is NotRun ==> {
            &&& made is Err && made->Err_0@ == "Failed to run `ip netns add "@ + name@ + "`"@
            &&& deleted is Err && deleted->Err_0@ == "Failed to run `ip netns del "@ + name@ + "`"@
            &&& moved is Err && moved->Err_0@ == "Failed to move "@ + iface@ + " to netns "@ + name@
            &&& renamed is Err && renamed->Err_0@ == "rename "@ + iface@ + " in netns "@ + name@
            &&& ran is Err && ran->Err_0@ == "Failed to exec "@ + cmd@ + " in netns "@ + name@
        },
        result matches CommandResult::Exited { success, status, stdout, stderr } ==> success || {
            &&& made->Err_0@ == "`ip netns add "@ + name@ + "` exited "@ + status@
            &&& moved->Err_0@ == "`ip link set "@ + iface@ + " netns "@ + name@ + ("` exited "@
                + status@)
            &&& renamed->Err_0@ == "rename failed: "@ + status@
            &&& ran->Err_0@ == "`"@ + cmd@ + "` in netns "@ + name@ + (" failed: "@ + stderr@)
        },
{
}

} // verus!
