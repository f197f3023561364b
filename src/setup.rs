//! Device provisioning profiles: all attributes required to initialize a
//! device, and the ordered plan of steps that carries a profile out.

use vstd::prelude::*;
use crate::object::{self, Label};
use crate::wrap;

verus! {

/// Temporary account key to use for device provisioning
pub const DEFAULT_SETUP_KEY_ID: object::Id = 0xFFFF;

/// Object ID to write reports into after provisioning is complete
pub const DEFAULT_REPORT_OBJECT_ID: object::Id = 0xFFFF;

/// Seconds to wait for the device to reset, by default
pub const DEFAULT_RESET_TIMEOUT_SECS: u64 = 10;

/// Force-audit settings of the device
#[derive(Copy, Clone, Debug, PartialEq, Eq, Structural)]
pub enum AuditOption {
    /// Audit logging must be consumed
    On,
    /// Audit logging is not enforced
    Off,
    /// Audit logging is enforced and cannot be turned off
    Fix,
}

/// An account to create on the device: an authentication key with its
/// label, domains and capabilities, derived from a password.
pub struct Role {
    pub authentication_key_id: object::Id,
    pub authentication_key_label: Label,
    pub domains: u16,
    pub capabilities: u64,
    pub delegated_capabilities: u64,
    pub password: Vec<u8>,
}

/// One step of provisioning, in the order in which they are carried out.
#[derive(Copy, Clone, Debug, PartialEq, Eq, Structural)]
pub enum ProvisionStep {
    /// Create the role at this index of the profile's roles
    CreateRole(usize),
    /// Import the wrap key at this index of the profile's wrap keys
    PutWrapKey(usize),
    /// Set the device's force-audit option
    SetForceAudit(AuditOption),
    /// Store the provisioning report in this opaque object slot
    StoreReport(object::Id),
}

/// YubiHSM2 provisioning profile: a declarative profile specifying how a
/// device should be (re)provisioned.
pub struct Profile {
    /// Key ID to use for provisioning the device
    pub setup_auth_key_id: Option<object::Id>,
    /// Should the setup auth key be deleted when provisioning is complete?
    pub delete_setup_auth_key: bool,
    /// Auditing mode to configure the device with.
    pub audit_option: AuditOption,
    /// Set of roles to create on the new device.
    pub roles: Vec<Role>,
    /// Set of wrap keys to provision the device with.
    pub wrap_keys: Vec<wrap::Key>,
    /// Store a copy of the provisioning report in the given opaque object slot
    pub report_object_id: Option<object::Id>,
    /// How long to wait for the device to reset before giving up, in seconds
    pub reset_device_timeout_secs: u64,
}

impl Default for Profile {
    fn default() -> (r: Profile)
        ensures
            r.setup_auth_key_id == Some(DEFAULT_SETUP_KEY_ID),
            r.delete_setup_auth_key,
            r.audit_option == AuditOption::Off,
            r.roles@.len() == 0,
            r.wrap_keys@.len() == 0,
            r.report_object_id == Some(DEFAULT_REPORT_OBJECT_ID),
            r.reset_device_timeout_secs == DEFAULT_RESET_TIMEOUT_SECS,
    {
        Profile {
            setup_auth_key_id: Some(DEFAULT_SETUP_KEY_ID),
            delete_setup_auth_key: true,
            audit_option: AuditOption::Off,
            roles: Vec::new(),
            wrap_keys: Vec::new(),
            report_object_id: Some(DEFAULT_REPORT_OBJECT_ID),
            reset_device_timeout_secs: DEFAULT_RESET_TIMEOUT_SECS,
        }
    }
}

/// The steps that provision a device with `n_roles` roles, `n_keys` wrap
/// keys, an audit option and an optional report slot: every role in order,
/// then every wrap key in order, then the audit option unless it is `Off`,
/// then the report.
pub open spec fn provision_plan(
    n_roles: nat,
    n_keys: nat,
    audit: AuditOption,
    report: Option<object::Id>,
) -> Seq<ProvisionStep> {
    Seq::new(n_roles, |i: int| ProvisionStep::CreateRole(i as usize)) + Seq::new(
        n_keys,
        |i: int| ProvisionStep::PutWrapKey(i as usize),
    ) + (if audit != AuditOption::Off {
        seq![ProvisionStep::SetForceAudit(audit)]
    } else {
        Seq::empty()
    }) + match report {
        Some(id) => seq![ProvisionStep::StoreReport(id)],
        None => Seq::empty(),
    }
}

impl Profile {
    /// Configure the auth key ID to use when performing device setup
    pub fn setup_auth_key_id(self, key_id: Option<object::Id>) -> (r: Profile)
        ensures
            r.setup_auth_key_id == key_id,
            r.delete_setup_auth_key == self.delete_setup_auth_key,
            r.audit_option == self.audit_option,
            r.roles@ == self.roles@,
            r.wrap_keys@ == self.wrap_keys@,
            r.report_object_id == self.report_object_id,
            r.reset_device_timeout_secs == self.reset_device_timeout_secs,
    {
        Profile { setup_auth_key_id: key_id, ..self }
    }

    /// Enable mandatory consumption of the audit log
    pub fn audit_option(self, value: AuditOption) -> (r: Profile)
        ensures
            r.setup_auth_key_id == self.setup_auth_key_id,
            r.delete_setup_auth_key == self.delete_setup_auth_key,
            r.audit_option == value,
            r.roles@ == self.roles@,
            r.wrap_keys@ == self.wrap_keys@,
            r.report_object_id == self.report_object_id,
            r.reset_device_timeout_secs == self.reset_device_timeout_secs,
    {
        Profile { audit_option: value, ..self }
    }

    /// Set the initial roles to provision
    pub fn roles(self, roles: Vec<Role>) -> (r: Profile)
        ensures
            r.setup_auth_key_id == self.setup_auth_key_id,
            r.delete_setup_auth_key == self.delete_setup_auth_key,
            r.audit_option == self.audit_option,
            r.roles@ == roles@,
            r.wrap_keys@ == self.wrap_keys@,
            r.report_object_id == self.report_object_id,
            r.reset_device_timeout_secs == self.reset_device_timeout_secs,
    {
        Profile { roles, ..self }
    }

    /// Set the wrap keys to initially provision
    pub fn wrap_keys(self, keys: Vec<wrap::Key>) -> (r: Profile)
        ensures
            r.setup_auth_key_id == self.setup_auth_key_id,
            r.delete_setup_auth_key == self.delete_setup_auth_key,
            r.audit_option == self.audit_option,
            r.roles@ == self.roles@,
            r.wrap_keys@ == keys@,
            r.report_object_id == self.report_object_id,
            r.reset_device_timeout_secs == self.reset_device_timeout_secs,
    {
        Profile { wrap_keys: keys, ..self }
    }

    /// The steps that provision a device with this profile, in order.
    pub fn provision(&self) -> (r: Vec<ProvisionStep>)
        ensures
            r@ == provision_plan(
                self.roles@.len(),
                self.wrap_keys@.len(),
                self.audit_option,
                self.report_object_id,
            ),
    {
        let mut steps: Vec<ProvisionStep> = Vec::new();
        let mut i: usize = 0;
        while i < self.roles.len()
            invariant
                i <= self.roles@.len(),
                steps@ == Seq::new(i as nat, |j: int| ProvisionStep::CreateRole(j as usize)),
            decreases self.roles@.len() - i,
        {
            steps.push(ProvisionStep::CreateRole(i));
            i = i + 1;
            assert(steps@ =~= Seq::new(i as nat, |j: int| ProvisionStep::CreateRole(j as usize)));
        }
        let ghost roles_part = steps@;
        let mut k: usize = 0;
        while k < self.wrap_keys.len()
            invariant
                k <= self.wrap_keys@.len(),
                roles_part == Seq::new(
                    self.roles@.len(),
                    |j: int| ProvisionStep::CreateRole(j as usize),
                ),
                steps@ == roles_part + Seq::new(
                    k as nat,
                    |j: int| ProvisionStep::PutWrapKey(j as usize),
                ),
            decreases self.wrap_keys@.len() - k,
        {
            steps.push(ProvisionStep::PutWrapKey(k));
            k = k + 1;
            assert(steps@ =~= roles_part + Seq::new(
                k as nat,
                |j: int| ProvisionStep::PutWrapKey(j as usize),
            ));
        }
        let ghost keys_part = steps@;
        if self.audit_option != AuditOption::Off {
            steps.push(ProvisionStep::SetForceAudit(self.audit_option));
        }
        let ghost audit_part = steps@;
        if let Some(id) = self.report_object_id {
            steps.push(ProvisionStep::StoreReport(id));
        }
        assert(steps@ =~= provision_plan(
            self.roles@.len(),
            self.wrap_keys@.len(),
            self.audit_option,
            self.report_object_id,
        ));
        steps
    }
}

} // verus!
