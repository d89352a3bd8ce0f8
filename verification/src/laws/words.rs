//! Words, paths and numbers, and the map that everything is kept in.
use vstd::prelude::*;

use crate::chain::ChainError;
use crate::controller::{
    allocated, ensure_overlay, formatted, AcquireTurn, ColdStart, ControllerState, Outcome,
};
use crate::clone_client::RestoreReq;
use crate::failure::Failure;
use crate::http::{lookup_pid, require_auth, subtle_eq, ApiError};
use crate::netns::{netns_exists, CommandLine};
use crate::server::{ControlClient, ServerState, VmState};
use crate::snapshot;
use crate::snapshot::{
    default_snapshot_type_full, default_snapshot_type_inc, memory_digest, IncrementalSnapshot,
    LoadError, TemplateSnapshot,
};
use crate::strmap::StrMap;
use crate::tenant::{TenantState, VmStatus};
use crate::text;
use crate::text::{
    decimal_string, hex_string, padded_decimal, parse_u64, path_join, str_eq, trim,
};
use crate::timestamp::Timestamp;

verus! {

/// A path below a directory is the directory, one slash and the path; a path that
/// begins with a slash stands for itself.
pub proof fn lemma_paths_are_joined(base: &str, child: &str, s: String)
    requires
        call_ensures(path_join, (base, child), s),
    ensures
        child@.len() > 0 && child@[0] == '/' ==> s@ == child@,
        !(child@.len() > 0 && child@[0] == '/') && base@.len() > 0 && base@.last() != '/' ==> s@
            == base@ + seq!['/'] + child@,
        !(child@.len() > 0 && child@[0] == '/') && (base@.len() == 0 || base@.last() == '/') ==> s@
            == base@ + child@,
{
}

/// The metadata of a snapshot is kept in its directory, a full one's in
/// `template.json` and an incremental one's in `incremental.json`; these are their
/// types too.
pub proof fn lemma_metadata_is_in_the_directory(
    dir: &str,
    full: String,
    inc: String,
    full_type: String,
    inc_type: String,
)
    requires
        call_ensures(TemplateSnapshot::metadata_path, (dir,), full),
        call_ensures(IncrementalSnapshot::metadata_path, (dir,), inc),
        call_ensures(default_snapshot_type_full, (), full_type),
        call_ensures(default_snapshot_type_inc, (), inc_type),
        dir@.len() > 0,
        dir@.last() != '/',
    ensures
        full@ == dir@ + seq!['/'] + "template.json"@,
        inc@ == dir@ + seq!['/'] + "incremental.json"@,
        full_type@ == "full"@,
        inc_type@ == "incremental"@,
{
    reveal_strlit("template.json");
    reveal_strlit("incremental.json");
}

/// A number is written in decimal so that it is read back as itself.
pub proof fn lemma_numbers_are_read_back(n: u64, s: String, t: &str, r: Option<u64>)
    requires
        call_ensures(decimal_string, (n,), s),
        t@ == s@,
        call_ensures(parse_u64, (t,), r),
    ensures
        r == Some(n),
        n < 10 ==> s@ == seq![('0' as u32 + n as u32) as char],
        s@.len() > 0,
        forall|i: int| 0 <= i < s@.len() ==> '0' <= #[trigger] s@[i] <= '9',
        n > 0 ==> s@[0] != '0',
{
    text::lemma_parse_decimal(n);
    text::lemma_decimal_digits(n as nat);
    lemma_no_leading_zero(n as nat);
}

proof fn lemma_no_leading_zero(n: nat)
    ensures
        n > 0 ==> text::decimal(n)[0] != '0',
        text::decimal(n).len() > 0,
    decreases n,
{
    if n >= 10 {
        lemma_no_leading_zero(n / 10);
    }
}

/// Text that holds anything but digits is no number, nor is empty text.
pub proof fn lemma_no_number(t: &str, r: Option<u64>, i: int)
    requires
        call_ensures(parse_u64, (t,), r),
        t@.len() == 0 || (1 <= i < t@.len() && !('0' <= t@[i] <= '9')),
    ensures
        r is None,
{
    if t@.len() > 0 {
        let u = text::unsigned_part(t@);
        if t@[0] == '+' {
            assert(u[i - 1] == t@[i]);
        } else {
            assert(u[i] == t@[i]);
        }
    }
}

/// Padding puts zeros in front, and no more than it takes.
pub proof fn lemma_padding_is_zeros(n: u64, width: usize, s: String, d: String)
    requires
        call_ensures(padded_decimal, (n, width), s),
        call_ensures(decimal_string, (n,), d),
    ensures
        d@.len() >= width ==> s@ == d@,
        d@.len() < width ==> s@.len() == width && s@.skip(width - d@.len()) == d@ && forall|i: int|
            0 <= i < width - d@.len() ==> #[trigger] s@[i] == '0',
{
    if d@.len() < width {
        assert(s@.skip(width - d@.len()) =~= d@);
    }
}

/// A digest is written as two digits for each byte, the greater half first.
pub proof fn lemma_bytes_are_written_in_hexadecimal(bytes: &[u8], s: String, i: int)
    requires
        call_ensures(hex_string, (bytes,), s),
        0 <= i < bytes@.len(),
    ensures
        s@.len() == 2 * bytes@.len(),
        bytes@[i] / 16 < 10 ==> s@[2 * i] as u32 == '0' as u32 + bytes@[i] / 16,
        bytes@[i] / 16 >= 10 ==> s@[2 * i] as u32 == 'a' as u32 + bytes@[i] / 16 - 10,
        bytes@[i] % 16 < 10 ==> s@[2 * i + 1] as u32 == '0' as u32 + bytes@[i] % 16,
        bytes@[i] % 16 >= 10 ==> s@[2 * i + 1] as u32 == 'a' as u32 + bytes@[i] % 16 - 10,
{
    assert(s@[2 * i] == text::digit_char((bytes@[i] / 16) as nat));
    assert(s@[2 * i + 1] == text::digit_char((bytes@[i] % 16) as nat));
}

/// The digest of a memory image is its SHA-256 in hexadecimal, 64 digits.
pub proof fn lemma_digest_is_sha256(data: &[u8], s: String, bytes: &[u8], h: String)
    requires
        call_ensures(memory_digest, (data,), s),
        bytes@ == snapshot::sha256(data@),
        call_ensures(hex_string, (bytes,), h),
    ensures
        s@ == h@,
        s@.len() == 64,
{
}

/// White space is taken off at both ends, and nothing else is.
pub proof fn lemma_trim_takes_spaces_off(s: &str, r: &str, core: Seq<char>)
    requires
        call_ensures(trim, (s,), r),
        core.len() > 0,
        '!' <= core[0] <= '~',
        '!' <= core.last() <= '~',
    ensures
        s@ == core ==> r@ == core,
        s@ == seq![' '] + core ==> r@ == core,
        s@ == core + seq!['\n'] ==> r@ == core,
        s@ == core + seq!['\t'] ==> r@ == core,
        s@.len() == 0 ==> r@.len() == 0,
{
    assert(text::trimmed(core) == core);
    if s@ == seq![' '] + core {
        assert(s@.skip(1) =~= core);
        assert(s@[0] == ' ');
    }
    if s@ == core + seq!['\n'] || s@ == core + seq!['\t'] {
        assert(s@[0] == core[0]);
        assert(s@.drop_last() =~= core);
    }
}

/// The states of a tenant's guest have a word each.
pub proof fn lemma_status_words(v: &VmStatus, s: &'static str)
    requires
        call_ensures(VmStatus::as_str, (v,), s),
    ensures
        *v is NotFound ==> s@ == "not_found"@,
        *v is Starting ==> s@ == "starting"@,
        *v is Active ==> s@ == "active"@,
        *v is SoftReclaimed ==> s@ == "soft_reclaimed"@,
        *v is Saving ==> s@ == "saving"@,
        *v is Saved ==> s@ == "saved"@,
        *v is Failed ==> s@ == "failed"@,
{
}

/// The states of a guest in the daemon have a word each, and so have the outcomes of
/// an acquire.
pub proof fn lemma_state_and_outcome_words(
    v: &VmState,
    s: &'static str,
    o: &Outcome,
    w: &'static str,
)
    requires
        call_ensures(VmState::as_str, (v,), s),
        call_ensures(Outcome::as_str, (o,), w),
    ensures
        *v is Running ==> s@ == "running"@,
        *v is Stopped ==> s@ == "stopped"@,
        *v is Paused ==> s@ == "paused"@,
        *o is ColdCreate ==> w@ == "cold_create"@,
        *o is Restore ==> w@ == "restore"@,
        *o is Recover ==> w@ == "recover"@,
        *o is FastPath ==> w@ == "fast_path"@,
{
}

/// What is wrong with a chain is said in words that name the place.
pub proof fn lemma_chain_error_words(e: &ChainError, s: String)
    requires
        call_ensures(ChainError::message, (e,), s),
    ensures
        *e matches ChainError::NotProbed { dir } ==> s@ == "Snapshot directory not read yet: "@
            + dir@,
        *e matches ChainError::Unloadable { dir } ==> s@ == "Cannot load snapshot at "@ + dir@
            + ": not a valid template or incremental"@,
        *e matches ChainError::TooDeep { dir } ==> s@ == "Chain too deep (>256), possible cycle at "@
            + dir@,
        *e matches ChainError::NoRootMemory { file } ==> s@ == "Failed to read root memory: "@
            + file@,
        *e matches ChainError::NoDirtyPages { file } ==> s@ == "Failed to read dirty pages: "@
            + file@,
        *e matches ChainError::NotIncremental { dir } ==> s@
            == "Failed to read incremental metadata: "@ + text::joined(dir@, "incremental.json"@),
{
}

/// Why a snapshot is not loaded is said in words that name the file or the digests.
pub proof fn lemma_load_error_words(e: &LoadError, s: String)
    requires
        call_ensures(LoadError::message, (e,), s),
    ensures
        *e matches LoadError::MemoryNotFound { file } ==> s@ == "Template memory file not found: "@
            + file@,
        *e matches LoadError::MemoryUnreadable { file } ==> s@
            == "Failed to read template memory for verification: "@ + file@,
        *e matches LoadError::IntegrityMismatch { expected, actual } ==> s@
            == "Template integrity check failed: expected "@ + expected@ + ", got "@ + actual@,
        *e matches LoadError::Metadata { reason } ==> s@ == reason@,
{
}

/// Two tokens are the same exactly where their characters are.
pub proof fn lemma_tokens_are_compared(
    a: &str,
    b: &str,
    same: bool,
    plain: bool,
    r: Result<(), ApiError>,
    none: Result<(), ApiError>,
)
    requires
        call_ensures(subtle_eq, (a, b), same),
        call_ensures(str_eq, (a, b), plain),
        call_ensures(require_auth, (Some(a), b), r),
        call_ensures(require_auth, (None::<&str>, b), none),
    ensures
        same <==> a@ == b@,
        plain == same,
        r is Ok <==> a@ == b@,
        none is Err,
        r matches Err(e) ==> e.status == 401,
        none->Err_0.status == 401,
{
}

/// The process of a guest is the one that is tracked, and a guest that is not
/// tracked has none.
pub proof fn lemma_pid_is_looked_up(
    state: &ServerState,
    vm_id: &str,
    r: Result<u32, ApiError>,
    p: Option<u32>,
)
    requires
        call_ensures(lookup_pid, (state, vm_id), r),
        call_ensures(ServerState::pid_of, (state, vm_id), p),
    ensures
        state@.vms.dom().contains(vm_id@) ==> p == Some(state@.vms[vm_id@].pid) && r == Ok::<
            u32,
            ApiError,
        >(state@.vms[vm_id@].pid),
        !state@.vms.dom().contains(vm_id@) ==> p is None && r is Err && r->Err_0.status == 404
            && r->Err_0.message@ == "VM not found: "@ + vm_id@,
{
}

/// The errors of the interface have the statuses that HTTP gives them.
pub proof fn lemma_error_statuses(
    m: String,
    bad: ApiError,
    missing: ApiError,
    broken: ApiError,
)
    requires
        call_ensures(ApiError::bad_request, (m,), bad),
        call_ensures(ApiError::not_found, (m,), missing),
        call_ensures(ApiError::internal, (m,), broken),
    ensures
        bad.status == 400 && bad.message == m,
        missing.status == 404 && missing.message == m,
        broken.status == 500 && broken.message == m,
{
}

/// A namespace is there where something is at its path.
pub proof fn lemma_namespace_is_looked_for<F: FnOnce(String) -> bool>(
    name: &str,
    look: F,
    found: bool,
    there: bool,
)
    requires
        call_ensures(netns_exists::<F>, (name, look), found),
        name@.len() > 0,
        name@[0] != '/',
        forall|path: String, b: bool| #[trigger]
            look.ensures((path,), b) && path@ == "/var/run/netns"@ + seq!['/'] + name@ ==> b
                == there,
    ensures
        found == there,
{
    reveal_strlit("/var/run/netns");
    assert("/var/run/netns"@.last() == 's');
}

/// An acquire does what its parts do: it takes the outcome that the tenant's status
/// gives, and begins with the turn of that outcome.
pub proof fn lemma_acquire_is_made_of_its_parts(
    s: &mut ControllerState,
    id: &str,
    r: Result<(Outcome, AcquireTurn), ApiError>,
    o: Result<Outcome, ApiError>,
    c: &mut ControllerState,
    cold: Result<ColdStart, Failure>,
    v: &mut ControllerState,
    restore: Result<RestoreReq, Failure>,
    recover: Result<(String, u32), Failure>,
)
    requires
        call_ensures(ControllerState::acquire, (s, id), r),
        call_ensures(ControllerState::begin_acquire, (&*old(s), id), o),
        *old(c) == *old(s),
        call_ensures(ControllerState::start_cold_create, (c, id), cold),
        *old(v) == *old(s),
        call_ensures(ControllerState::start_restore, (v, id), restore),
        call_ensures(ControllerState::start_recover, (&*old(s), id), recover),
    ensures
        r is Ok <==> o is Ok,
        r is Err ==> r->Err_0.status == o->Err_0.status && r->Err_0.message@ == o->Err_0.message@,
        r matches Ok((outcome, turn)) ==> {
            &&& o == Ok::<Outcome, ApiError>(outcome)
            &&& outcome == Outcome::ColdCreate ==> cold is Ok && turn is CheckOverlay
                && final(s).tenants@ == final(c).tenants@ && turn->CheckOverlay_0.request.kernel
                == cold->Ok_0.request.kernel && turn->CheckOverlay_0.request.rootfs
                == cold->Ok_0.request.rootfs && turn->CheckOverlay_0.overlay_path
                == cold->Ok_0.overlay_path && turn->CheckOverlay_0.health_port
                == cold->Ok_0.health_port
            &&& outcome == Outcome::Restore && restore is Ok ==> (turn matches AcquireTurn::Restore {
                request,
            } && request == restore->Ok_0 && final(s).tenants@ == final(v).tenants@)
            &&& outcome == Outcome::Restore && restore is Err ==> turn is Fail
            &&& outcome == Outcome::Recover && recover is Ok ==> (turn matches AcquireTurn::Balloon {
                vm_id,
                target_mb,
            } && vm_id == recover->Ok_0.0 && target_mb == recover->Ok_0.1)
            &&& outcome == Outcome::Recover && recover is Err ==> turn is Fail
        },
{
}

/// An overlay that is there is left alone. One that is missing is allocated, which
/// fails only where the command cannot be run, and formatted, which has to end with
/// the exit code zero.
pub proof fn lemma_overlay_commands(
    path: &str,
    there: Option<(CommandLine, CommandLine)>,
    missing: Option<(CommandLine, CommandLine)>,
    run: Result<(), String>,
    a: Result<(), Failure>,
    exit: Result<Option<u8>, String>,
    f: Result<(), Failure>,
)
    requires
        call_ensures(ensure_overlay, (path, true), there),
        call_ensures(ensure_overlay, (path, false), missing),
        call_ensures(allocated, (run,), a),
        call_ensures(formatted, (exit,), f),
    ensures
        there is None,
        missing matches Some((first, second)) && first.program@ == "fallocate"@
            && first.args@.map_values(|a: String| a@) == seq!["-l"@, "4G"@, path@]
            && second.program@ == "mkfs.ext4"@ && second.args@.map_values(|a: String| a@) == seq![
            "-q"@,
            "-F"@,
            path@,
        ],
        a is Ok <==> run is Ok,
        f is Ok <==> exit == Ok::<Option<u8>, String>(Some(0)),
        f is Err && exit is Err ==> f->Err_0@ == seq![exit->Err_0@],
        f is Err && exit == Ok::<Option<u8>, String>(None) ==> f->Err_0@ == seq![
            "mkfs.ext4 exit "@ + "None"@,
        ],
        exit matches Ok(Some(n)) ==> n == 0 || f->Err_0@ == seq![
            "mkfs.ext4 exit "@ + ("Some("@ + text::decimal(n as nat) + ")"@),
        ],
{
}

/// A tenant's snapshot is kept in a directory of its own, and a tenant that was
/// never used has no time of its last use.
pub proof fn lemma_tenant_has_its_own_directory(
    root: &str,
    a: &str,
    b: &str,
    x: String,
    y: String,
    t: &TenantState,
    now: Timestamp,
    idle: Option<i64>,
)
    requires
        call_ensures(TenantState::default_save_path, (root, a), x),
        call_ensures(TenantState::default_save_path, (root, b), y),
        call_ensures(TenantState::idle_secs, (t, now), idle),
    ensures
        x@ == root@ + "/"@ + a@,
        x@ == y@ ==> a@ == b@,
        idle is None <==> t.last_request_at is None,
{
    if x@ == y@ {
        let p = root@ + "/"@;
        assert(x@.skip(p.len() as int) =~= a@);
        assert(y@.skip(p.len() as int) =~= b@);
    }
}

/// A client talks to the socket that it was made for.
pub proof fn lemma_client_talks_to_its_socket(path: String, c: ControlClient, s: &String)
    requires
        call_ensures(ControlClient::new, (path,), c),
        call_ensures(ControlClient::socket_path, (&c,), s),
    ensures
        s@ == path@,
{
}

/// What is put into a map is found in it until it is replaced or taken out, and no
/// other entry is touched.
pub proof fn lemma_map_keeps_its_entries<V>(
    m: &mut StrMap<V>,
    key: String,
    value: V,
    replaced: Option<V>,
    n: &mut StrMap<V>,
    k: &str,
    taken: Option<V>,
    other: &str,
    found: Option<&V>,
    gone: Option<&V>,
    other_before: Option<&V>,
    other_after: Option<&V>,
)
    requires
        call_ensures(StrMap::<V>::insert, (m, key, value), replaced),
        *final(m) == *old(n),
        k@ == key@,
        call_ensures(StrMap::<V>::get, (&*final(m), k), found),
        call_ensures(StrMap::<V>::remove, (n, k), taken),
        call_ensures(StrMap::<V>::get, (&*final(n), k), gone),
        other@ != key@,
        call_ensures(StrMap::<V>::get, (&*old(m), other), other_before),
        call_ensures(StrMap::<V>::get, (&*final(n), other), other_after),
    ensures
        found is Some && *found->0 == value,
        taken == Some(value),
        gone is None,
        replaced is Some <==> old(m)@.dom().contains(key@),
        other_before is Some <==> other_after is Some,
        other_before is Some ==> *other_before->0 == *other_after->0,
{
}

} // verus!
