//! Network namespaces: which commands set one up for a guest, and what becomes
//! of their results.
use vstd::prelude::*;

use crate::text;
use crate::text::{cat2, cat3, cat4, cat5, decimal_string, path_join};

verus! {

/// Where named network namespaces are.
pub const NETNS_DIR: &'static str = "/var/run/netns";

/// A program to run with its arguments.
#[derive(Debug)]
pub struct CommandLine {
    pub program: String,
    pub args: Vec<String>,
}

/// What came of a command.
#[derive(Debug)]
pub enum CommandResult {
    /// It could not be run.
    NotRun,
    /// It ran. `status` is its exit status in words.
    Exited { success: bool, status: String, stdout: String, stderr: String },
}

impl CommandLine {
    /// The command runs this program with these arguments.
    pub open spec fn runs(self, program: Seq<char>, args: Seq<Seq<char>>) -> bool {
        &&& self.program@ == program
        &&& self.args@.map_values(|a: String| a@) == args
    }
}

fn command(program: &str, args: &[&str]) -> (c: CommandLine)
    ensures
        c.runs(program@, args@.map_values(|a: &str| a@)),
{
    let mut owned: Vec<String> = Vec::new();
    let mut i: usize = 0;
    while i < args.len()
        invariant
            i <= args@.len(),
            owned@.len() == i,
            forall|j: int| 0 <= j < i ==> (#[trigger] owned@[j])@ == args@[j]@,
        decreases args@.len() - i,
    {
        owned.push(args[i].to_owned());
        i = i + 1;
    }
    assert(owned@.map_values(|a: String| a@) =~= args@.map_values(|a: &str| a@));
    CommandLine { program: program.to_owned(), args: owned }
}

/// What makes a namespace. Nothing, if there is one of that name already.
pub fn create_netns(name: &str, already: bool) -> (c: Option<CommandLine>)
    ensures
        c is None <==> already,
        c is Some ==> c->0.runs("ip"@, seq!["netns"@, "add"@, name@]),
{
    if already {
        return None;
    }
    let c = command("ip", &["netns", "add", name]);
    assert(c.args@.map_values(|a: String| a@) =~= seq!["netns"@, "add"@, name@]);
    Some(c)
}

/// Judges the command that makes a namespace.
pub fn created_netns(name: &str, result: &CommandResult) -> (r: Result<(), String>)
    ensures
        match *result {
            CommandResult::NotRun => r is Err && r->Err_0@ == "Failed to run `ip netns add "@ + name@
                + "`"@,
            CommandResult::Exited { success, status, .. } => {
                &&& r is Ok <==> success
                &&& r is Err ==> r->Err_0@ == "`ip netns add "@ + name@ + "` exited "@ + status@
            },
        },
{
    match result {
        CommandResult::NotRun => Err(cat3("Failed to run `ip netns add ", name, "`")),
        CommandResult::Exited { success, status, .. } => {
            if *success {
                Ok(())
            } else {
                Err(cat4("`ip netns add ", name, "` exited ", status.as_str()))
            }
        },
    }
}

/// What deletes a namespace.
pub fn delete_netns(name: &str) -> (c: CommandLine)
    ensures
        c.runs("ip"@, seq!["netns"@, "del"@, name@]),
{
    let c = command("ip", &["netns", "del", name]);
    assert(c.args@.map_values(|a: String| a@) =~= seq!["netns"@, "del"@, name@]);
    c
}

/// Judges the command that deletes a namespace. That there was none does not
/// matter.
pub fn deleted_netns(name: &str, result: &CommandResult) -> (r: Result<(), String>)
    ensures
        r is Ok <==> !(*result is NotRun),
        r is Err ==> r->Err_0@ == "Failed to run `ip netns del "@ + name@ + "`"@,
{
    match result {
        CommandResult::NotRun => Err(cat3("Failed to run `ip netns del ", name, "`")),
        CommandResult::Exited { .. } => Ok(()),
    }
}

/// What moves a network interface into a namespace.
pub fn move_interface_to_netns(iface: &str, netns: &str) -> (c: CommandLine)
    ensures
        c.runs("ip"@, seq!["link"@, "set"@, iface@, "netns"@, netns@]),
{
    let c = command("ip", &["link", "set", iface, "netns", netns]);
    assert(c.args@.map_values(|a: String| a@) =~= seq![
        "link"@,
        "set"@,
        iface@,
        "netns"@,
        netns@,
    ]);
    c
}

/// Judges the command that moves an interface. If it is to have a new name, the
/// command that renames it follows.
pub fn moved_interface(
    iface: &str,
    netns: &str,
    new_name: Option<&str>,
    result: &CommandResult,
) -> (r: Result<Option<CommandLine>, String>)
    ensures
        match *result {
            CommandResult::NotRun => r is Err && r->Err_0@ == "Failed to move "@ + iface@
                + " to netns "@ + netns@,
            CommandResult::Exited { success, status, .. } => {
                &&& r is Ok <==> success
                &&& r is Err ==> r->Err_0@ == "`ip link set "@ + iface@ + " netns "@ + netns@
                    + ("` exited "@ + status@)
                &&& r is Ok ==> (match new_name {
                    None => r->Ok_0 is None,
                    Some(new) => r->Ok_0 is Some && r->Ok_0->0.runs(
                        "ip"@,
                        seq!["-n"@, netns@, "link"@, "set"@, iface@, "name"@, new@],
                    ),
                })
            },
        },
{
    match result {
        CommandResult::NotRun => Err(cat4("Failed to move ", iface, " to netns ", netns)),
        CommandResult::Exited { success, status, .. } => {
            if !*success {
                let tail = cat2("` exited ", status.as_str());
                return Err(cat5("`ip link set ", iface, " netns ", netns, tail.as_str()));
            }
            match new_name {
                None => Ok(None),
                Some(new) => {
                    let c = command("ip", &["-n", netns, "link", "set", iface, "name", new]);
                    assert(c.args@.map_values(|a: String| a@) =~= seq![
                        "-n"@,
                        netns@,
                        "link"@,
                        "set"@,
                        iface@,
                        "name"@,
                        new@,
                    ]);
                    Ok(Some(c))
                },
            }
        },
    }
}

/// Judges the command that renames an interface.
pub fn renamed_interface(iface: &str, netns: &str, result: &CommandResult) -> (r: Result<
    (),
    String,
>)
    ensures
        match *result {
            CommandResult::NotRun => r is Err && r->Err_0@ == "rename "@ + iface@ + " in netns "@
                + netns@,
            CommandResult::Exited { success, status, .. } => {
                &&& r is Ok <==> success
                &&& r is Err ==> r->Err_0@ == "rename failed: "@ + status@
            },
        },
{
    match result {
        CommandResult::NotRun => Err(cat4("rename ", iface, " in netns ", netns)),
        CommandResult::Exited { success, status, .. } => {
            if *success {
                Ok(())
            } else {
                Err(cat2("rename failed: ", status.as_str()))
            }
        },
    }
}

/// What runs a command inside a namespace.
pub fn exec_in_netns(netns: &str, cmd: &str, args: &[&str]) -> (c: CommandLine)
    ensures
        c.runs("ip"@, seq!["netns"@, "exec"@, netns@, cmd@] + args@.map_values(|a: &str| a@)),
{
    let mut c = command("ip", &["netns", "exec", netns, cmd]);
    let tail = command("", args);
    assert(c.args@.map_values(|a: String| a@) =~= seq!["netns"@, "exec"@, netns@, cmd@]);
    let mut more = tail.args;
    let ghost first = c.args@;
    let ghost second = more@;
    c.args.append(&mut more);
    assert(c.args@.map_values(|a: String| a@) =~= first.map_values(|a: String| a@)
        + second.map_values(|a: String| a@));
    c
}

/// Judges a command that was run inside a namespace: what it printed, or why it
/// failed.
pub fn executed(netns: &str, cmd: &str, result: CommandResult) -> (r: Result<String, String>)
    ensures
        match result {
            CommandResult::NotRun => r is Err && r->Err_0@ == "Failed to exec "@ + cmd@
                + " in netns "@ + netns@,
            CommandResult::Exited { success, stdout, stderr, .. } => {
                &&& r is Ok <==> success
                &&& r is Ok ==> r->Ok_0 == stdout
                &&& r is Err ==> r->Err_0@ == "`"@ + cmd@ + "` in netns "@ + netns@ + (" failed: "@
                    + stderr@)
            },
        },
{
    match result {
        CommandResult::NotRun => Err(cat4("Failed to exec ", cmd, " in netns ", netns)),
        CommandResult::Exited { success, status: _, stdout, stderr } => {
            if success {
                Ok(stdout)
            } else {
                let tail = cat2(" failed: ", stderr.as_str());
                Err(cat5("`", cmd, "` in netns ", netns, tail.as_str()))
            }
        },
    }
}

/// What brings the loopback interface of a namespace up.
pub fn setup_loopback(netns: &str) -> (c: CommandLine)
    ensures
        c.runs(
            "ip"@,
            seq!["netns"@, "exec"@, netns@, "ip"@, "link"@, "set"@, "lo"@, "up"@],
        ),
{
    let c = exec_in_netns(netns, "ip", &["link", "set", "lo", "up"]);
    assert(c.args@.map_values(|a: String| a@) =~= seq![
        "netns"@,
        "exec"@,
        netns@,
        "ip"@,
        "link"@,
        "set"@,
        "lo"@,
        "up"@,
    ]);
    c
}

/// The gateway with the length of the network's prefix.
pub open spec fn cidr(gateway_ip: Seq<char>, prefix_len: u8) -> Seq<char> {
    gateway_ip + "/"@ + text::decimal(prefix_len as nat)
}

/// The arguments of `ip` that run a command inside a namespace.
pub open spec fn inside(netns: Seq<char>, command: Seq<Seq<char>>) -> Seq<Seq<char>> {
    seq!["netns"@, "exec"@, netns] + command
}

/// The commands that give a namespace an isolated network, in order: a bridge,
/// its address, the bridge up, forwarding on, and traffic masked on its way out.
pub fn setup_isolated_network(netns: &str, gateway_ip: &str, prefix_len: u8) -> (cs: Vec<
    CommandLine,
>)
    ensures
        cs@.len() == 5,
        cs@[0].runs(
            "ip"@,
            inside(netns@, seq!["ip"@, "link"@, "add"@, "br-inside"@, "type"@, "bridge"@]),
        ),
        cs@[1].runs(
            "ip"@,
            inside(
                netns@,
                seq!["ip"@, "addr"@, "add"@, cidr(gateway_ip@, prefix_len), "dev"@, "br-inside"@],
            ),
        ),
        cs@[2].runs("ip"@, inside(netns@, seq!["ip"@, "link"@, "set"@, "br-inside"@, "up"@])),
        cs@[3].runs("ip"@, inside(netns@, seq!["sysctl"@, "-w"@, "net.ipv4.ip_forward=1"@])),
        cs@[4].runs(
            "ip"@,
            inside(
                netns@,
                seq![
                    "iptables"@,
                    "-t"@,
                    "nat"@,
                    "-A"@,
                    "POSTROUTING"@,
                    "-s"@,
                    cidr(gateway_ip@, prefix_len),
                    "-j"@,
                    "MASQUERADE"@,
                ],
            ),
        ),
{
    let number = decimal_string(prefix_len as u64);
    let net = cat3(gateway_ip, "/", number.as_str());
    let c0 = exec_in_netns(netns, "ip", &["link", "add", "br-inside", "type", "bridge"]);
    let c1 = exec_in_netns(netns, "ip", &["addr", "add", net.as_str(), "dev", "br-inside"]);
    let c2 = exec_in_netns(netns, "ip", &["link", "set", "br-inside", "up"]);
    let c3 = exec_in_netns(netns, "sysctl", &["-w", "net.ipv4.ip_forward=1"]);
    let c4 = exec_in_netns(
        netns,
        "iptables",
        &["-t", "nat", "-A", "POSTROUTING", "-s", net.as_str(), "-j", "MASQUERADE"],
    );
    proof {
        assert(c0.args@.map_values(|a: String| a@) =~= inside(
            netns@,
            seq!["ip"@, "link"@, "add"@, "br-inside"@, "type"@, "bridge"@],
        ));
        assert(c1.args@.map_values(|a: String| a@) =~= inside(
            netns@,
            seq!["ip"@, "addr"@, "add"@, net@, "dev"@, "br-inside"@],
        ));
        assert(c2.args@.map_values(|a: String| a@) =~= inside(
            netns@,
            seq!["ip"@, "link"@, "set"@, "br-inside"@, "up"@],
        ));
        assert(c3.args@.map_values(|a: String| a@) =~= inside(
            netns@,
            seq!["sysctl"@, "-w"@, "net.ipv4.ip_forward=1"@],
        ));
        assert(c4.args@.map_values(|a: String| a@) =~= inside(
            netns@,
            seq![
                "iptables"@,
                "-t"@,
                "nat"@,
                "-A"@,
                "POSTROUTING"@,
                "-s"@,
                net@,
                "-j"@,
                "MASQUERADE"@,
            ],
        ));
    }
    let mut cs: Vec<CommandLine> = Vec::new();
    cs.push(c0);
    cs.push(c1);
    cs.push(c2);
    cs.push(c3);
    cs.push(c4);
    cs
}

/// Where the namespace `name` would be.
pub fn netns_path(name: &str) -> (p: String)
    ensures
        p@ == text::joined(NETNS_DIR@, name@),
{
    path_join(NETNS_DIR, name)
}

/// Whether there is a namespace of that name. `look` tells whether there is
/// anything at a path, and is asked for the namespace's path.
pub fn netns_exists<F: FnOnce(String) -> bool>(name: &str, look: F) -> (found: bool)
    requires
        forall|path: String|
            path@ == text::joined(NETNS_DIR@, name@) ==> #[trigger] look.requires((path,)),
    ensures
        exists|path: String|
            path@ == text::joined(NETNS_DIR@, name@) && #[trigger] look.ensures((path,), found),
{
    look(netns_path(name))
}

} // verus!
