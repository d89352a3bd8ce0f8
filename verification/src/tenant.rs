//! Tenants of the controller and the states that a tenant's guest goes through.
use vstd::prelude::*;

use crate::strmap::StrMap;
use crate::text::{cat3, clone_option};
use crate::timestamp;
use crate::timestamp::{seconds_between, Timestamp};

verus! {

/// What a tenant registers with.
#[derive(Debug)]
pub struct TenantConfig {
    pub tenant_id: String,
    /// Kernel image.
    pub kernel: String,
    /// Root file system image.
    pub rootfs: String,
    /// Persistent overlay, made where it is missing.
    pub overlay_path: String,
    /// Shared directory as host path, tag and mount point, joined by colons.
    pub shared_dir: Option<String>,
    /// Guest memory in megabytes.
    pub mem_mb: u32,
    /// Memory limit in megabytes. None is unlimited.
    pub memory_limit_mb: Option<u32>,
    /// Command that the guest runs in place of its init system.
    pub init_cmd: Option<String>,
    /// Port on which the guest is probed. None disables probing.
    pub app_health_port: Option<u16>,
}

/// The states of a tenant's guest.
#[derive(Debug)]
pub enum VmStatus {
    /// There is no guest and no snapshot.
    NotFound,
    /// A guest is being started.
    Starting,
    /// The guest serves.
    Active,
    /// The guest is idle and has given memory back.
    SoftReclaimed,
    /// The guest is being saved.
    Saving,
    /// The guest is saved and stopped.
    Saved,
    /// The last operation failed, for this reason.
    Failed(String),
}

impl VmStatus {
    /// The status in words.
    pub open spec fn word(self) -> Seq<char> {
        match self {
            VmStatus::NotFound => "not_found"@,
            VmStatus::Starting => "starting"@,
            VmStatus::Active => "active"@,
            VmStatus::SoftReclaimed => "soft_reclaimed"@,
            VmStatus::Saving => "saving"@,
            VmStatus::Saved => "saved"@,
            VmStatus::Failed(_) => "failed"@,
        }
    }

    /// The status in words.
    pub fn as_str(&self) -> (s: &'static str)
        ensures
            s@ == self.word(),
    {
        match self {
            VmStatus::NotFound => "not_found",
            VmStatus::Starting => "starting",
            VmStatus::Active => "active",
            VmStatus::SoftReclaimed => "soft_reclaimed",
            VmStatus::Saving => "saving",
            VmStatus::Saved => "saved",
            VmStatus::Failed(_) => "failed",
        }
    }
}

impl Clone for VmStatus {
    fn clone(&self) -> (r: Self)
        ensures
            r == *self,
    {
        match self {
            VmStatus::NotFound => VmStatus::NotFound,
            VmStatus::Starting => VmStatus::Starting,
            VmStatus::Active => VmStatus::Active,
            VmStatus::SoftReclaimed => VmStatus::SoftReclaimed,
            VmStatus::Saving => VmStatus::Saving,
            VmStatus::Saved => VmStatus::Saved,
            VmStatus::Failed(e) => VmStatus::Failed(e.clone()),
        }
    }
}

impl Clone for TenantConfig {
    fn clone(&self) -> (r: Self)
        ensures
            r == *self,
    {
        TenantConfig {
            tenant_id: self.tenant_id.clone(),
            kernel: self.kernel.clone(),
            rootfs: self.rootfs.clone(),
            overlay_path: self.overlay_path.clone(),
            shared_dir: clone_option(&self.shared_dir),
            mem_mb: self.mem_mb,
            memory_limit_mb: self.memory_limit_mb,
            init_cmd: clone_option(&self.init_cmd),
            app_health_port: self.app_health_port,
        }
    }
}

/// All that the controller knows of a tenant.
#[derive(Debug)]
pub struct TenantState {
    pub config: TenantConfig,
    pub status: VmStatus,
    /// The daemon's id of the guest, while there is one.
    pub vm_id: Option<String>,
    /// Address of the guest.
    pub guest_ip: Option<String>,
    /// Where the guest's snapshot is, once it was saved.
    pub save_path: Option<String>,
    /// When the tenant was last used: acquired, released, or found answering.
    pub last_request_at: Option<Timestamp>,
    /// When a probe last succeeded.
    pub last_health_ok_at: Option<Timestamp>,
    /// Probes that failed in a row.
    pub health_fail_count: u32,
    pub created_at: Timestamp,
    /// How often memory was reclaimed.
    pub reclaim_count: u32,
    pub last_error: Option<String>,
}

impl Clone for TenantState {
    fn clone(&self) -> (r: Self)
        ensures
            r == *self,
    {
        TenantState {
            config: self.config.clone(),
            status: self.status.clone(),
            vm_id: clone_option(&self.vm_id),
            guest_ip: clone_option(&self.guest_ip),
            save_path: clone_option(&self.save_path),
            last_request_at: self.last_request_at,
            last_health_ok_at: self.last_health_ok_at,
            health_fail_count: self.health_fail_count,
            created_at: self.created_at,
            reclaim_count: self.reclaim_count,
            last_error: clone_option(&self.last_error),
        }
    }
}

impl TenantState {
    /// A tenant that was just registered.
    pub open spec fn fresh(config: TenantConfig, now: Timestamp) -> TenantState {
        TenantState {
            config,
            status: VmStatus::NotFound,
            vm_id: None,
            guest_ip: None,
            save_path: None,
            last_request_at: None,
            last_health_ok_at: None,
            health_fail_count: 0,
            created_at: now,
            reclaim_count: 0,
            last_error: None,
        }
    }

    /// A tenant that was just registered.
    pub fn new(config: TenantConfig, now: Timestamp) -> (t: Self)
        ensures
            t == TenantState::fresh(config, now),
    {
        TenantState {
            config,
            status: VmStatus::NotFound,
            vm_id: None,
            guest_ip: None,
            save_path: None,
            last_request_at: None,
            last_health_ok_at: None,
            health_fail_count: 0,
            created_at: now,
            reclaim_count: 0,
            last_error: None,
        }
    }

    /// For how many seconds the tenant has been idle. None if it was never used.
    pub fn idle_secs(&self, now: Timestamp) -> (s: Option<i64>)
        ensures
            s is Some <==> self.last_request_at is Some,
            s is Some ==> s->0 == timestamp::whole_seconds(self.last_request_at->0, now),
    {
        match self.last_request_at {
            Some(t) => Some(seconds_between(t, now)),
            None => None,
        }
    }

    /// Where the snapshot of a tenant is kept.
    pub open spec fn save_dir(saves_root: Seq<char>, tenant_id: Seq<char>) -> Seq<char> {
        saves_root + "/"@ + tenant_id
    }

    /// Where the snapshot of a tenant is kept.
    pub fn default_save_path(saves_root: &str, tenant_id: &str) -> (s: String)
        ensures
            s@ == TenantState::save_dir(saves_root@, tenant_id@),
    {
        cat3(saves_root, "/", tenant_id)
    }

    /// The tenant's guest was in the middle of something.
    pub open spec fn mid_lifecycle(self) -> bool {
        self.status is Active || self.status is Starting || self.status is Saving
            || self.status is SoftReclaimed
    }

    /// The tenant after the controller was restarted. A guest that was in the
    /// middle of something is gone.
    pub open spec fn restarted(self) -> TenantState {
        if self.mid_lifecycle() {
            TenantState {
                status: VmStatus::NotFound,
                vm_id: None,
                guest_ip: None,
                save_path: None,
                health_fail_count: 0,
                last_error: None,
                ..self
            }
        } else {
            TenantState { health_fail_count: 0, last_error: None, ..self }
        }
    }
}

/// The tenants with which a controller starts, given those it left behind. A
/// guest that was in the middle of something cannot be taken up again, so that
/// its tenant starts afresh; one that was saved can still be restored.
pub fn load(left: StrMap<TenantState>) -> (tenants: StrMap<TenantState>)
    ensures
        tenants.keys() == left.keys(),
        tenants@.dom() == left@.dom(),
        forall|id: Seq<char>| #[trigger]
            left@.dom().contains(id) ==> tenants@[id] == left@[id].restarted(),
{
    let ghost before = left@;
    let ghost keys = left.keys();
    let mut tenants = left;
    let n: usize = tenants.len();
    let mut i: usize = 0;
    proof {
        crate::strmap::lemma_keys(tenants);
    }
    while i < n
        invariant
            i <= n == keys.len(),
            tenants.keys() == keys,
            keys.no_duplicates(),
            tenants@.dom() == before.dom(),
            forall|j: int| 0 <= j < keys.len() ==> before.dom().contains(#[trigger] keys[j]),
            forall|j: int| 0 <= j < i ==> tenants@[#[trigger] keys[j]] == before[keys[j]].restarted(),
            forall|j: int| i <= j < keys.len() ==> tenants@[#[trigger] keys[j]] == before[keys[j]],
        decreases n - i,
    {
        let id = tenants.key_at(i).clone();
        let ghost here = keys[i as int];
        let ghost prev = tenants@;
        if let Some(t) = tenants.get_mut(id.as_str()) {
            match t.status {
                VmStatus::Active | VmStatus::Starting | VmStatus::Saving | VmStatus::SoftReclaimed => {
                    t.status = VmStatus::NotFound;
                    t.vm_id = None;
                    t.guest_ip = None;
                    t.save_path = None;
                },
                _ => {},
            }
            t.health_fail_count = 0;
            t.last_error = None;
        }
        assert(tenants@ == prev.insert(here, before[here].restarted()));
        assert(tenants@.dom() =~= before.dom());
        i = i + 1;
    }
    proof {
        crate::strmap::lemma_keys(tenants);
        assert forall|id: Seq<char>| #[trigger] before.dom().contains(id) implies tenants@[id]
            == before[id].restarted() by {
            assert(tenants@.dom().contains(id));
            let j = keys.index_of(id);
            assert(keys[j] == id);
        }
    }
    tenants
}

/// After a restart no tenant's guest is in the middle of something, and a
/// snapshot is kept exactly where there was one that is complete.
pub proof fn lemma_restart_downgrades(t: TenantState)
    ensures
        !t.restarted().mid_lifecycle(),
        t.status is Saved ==> t.restarted().status is Saved && t.restarted().save_path
            == t.save_path,
        t.mid_lifecycle() ==> t.restarted().status is NotFound && t.restarted().vm_id is None
            && t.restarted().save_path is None,
        t.restarted().config == t.config,
{
}

} // verus!
