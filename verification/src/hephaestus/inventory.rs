//! Derived dashboard inventory rows.
use vstd::prelude::*;

use crate::hephaestus::dns::HephaestusDnsRecord;
use crate::hephaestus::health::{HephaestusDomainError, ProvisioningEventSnapshot};
use crate::hephaestus::node::{
    HephaestusInfrastructureClassId, HephaestusNodeActualState, HephaestusNodeActualStateStatus,
    HephaestusOrchestratorNodeState, HephaestusPrivateIpAddress, HephaestusProviderServerId,
    HephaestusPublicIpAddress, HephaestusServerApp, HephaestusServerCatalog,
    HephaestusServerCatalogView, HephaestusServerId, HephaestusServerIdentity,
};
use crate::hephaestus::region::HephaestusRegionId;
use crate::hephaestus::report::HephaestusAgentReport;
use crate::text::{duplicate_option, duplicate_vec, Duplicate, Replicate};

verus! {

/// Broad environment safety tag for server management UI and action review.
#[derive(Debug, Clone, Copy, PartialEq, Eq, Structural)]
pub enum HephaestusServerEnvironmentTag {
    /// Environment is not known yet.
    Unspecified,
    /// Development-like, lab, smoke, staging, or otherwise non-production.
    Dev,
    /// Production server.
    Prod,
}

impl Default for HephaestusServerEnvironmentTag {
    fn default() -> (r: Self)
        ensures
            r == HephaestusServerEnvironmentTag::Unspecified,
    {
        HephaestusServerEnvironmentTag::Unspecified
    }
}

/// Whether the liveness timestamps of a row are acceptable: neither is zero,
/// and when both are known the boot time is not after the last contact.
pub open spec fn inventory_timestamps_valid(boot_time_unix_secs: Option<u64>, last_seen_unix_secs: Option<u64>) -> bool {
    &&& boot_time_unix_secs != Some(0u64)
    &&& last_seen_unix_secs != Some(0u64)
    &&& match (boot_time_unix_secs, last_seen_unix_secs) {
        (Some(b), Some(l)) => b <= l,
        _ => true,
    }
}

/// The node value of an optional copy of an address, preferring the first.
pub open spec fn prefer_first<T>(first: Option<T>, fallback: Option<T>) -> Option<T> {
    match first {
        Some(v) => Some(v),
        None => fallback,
    }
}

/// Derived dashboard inventory row for one Hephaestus-managed server. Its
/// liveness timestamps are always acceptable.
#[derive(Debug, PartialEq, Eq)]
pub struct HephaestusServerInventoryRow {
    identity: HephaestusServerIdentity,
    assigned_region_id: Option<HephaestusRegionId>,
    environment_tag: HephaestusServerEnvironmentTag,
    catalog: HephaestusServerCatalog,
    infrastructure_class_id: HephaestusInfrastructureClassId,
    actual_apps: Vec<HephaestusServerApp>,
    planned_private_ip: Option<HephaestusPrivateIpAddress>,
    public_ip: Option<HephaestusPublicIpAddress>,
    private_ip: Option<HephaestusPrivateIpAddress>,
    boot_time_unix_secs: Option<u64>,
    last_seen_unix_secs: Option<u64>,
    actual_status: Option<HephaestusNodeActualStateStatus>,
    latest_provisioning_event: Option<ProvisioningEventSnapshot>,
    dns_records: Vec<HephaestusDnsRecord>,
    latest_agent_report: Option<HephaestusAgentReport>,
}

impl HephaestusServerInventoryRow {
    /// The identity.
    pub closed spec fn spec_identity(&self) -> HephaestusServerIdentity {
        self.identity
    }

    /// The assigned region id.
    pub closed spec fn spec_assigned_region_id(&self) -> Option<HephaestusRegionId> {
        self.assigned_region_id
    }

    /// The environment tag.
    pub closed spec fn spec_environment_tag(&self) -> HephaestusServerEnvironmentTag {
        self.environment_tag
    }

    /// The catalog.
    pub closed spec fn spec_catalog(&self) -> HephaestusServerCatalogView {
        self.catalog@
    }

    /// The infrastructure class id.
    pub closed spec fn spec_infrastructure_class_id(&self) -> HephaestusInfrastructureClassId {
        self.infrastructure_class_id
    }

    /// The actual apps.
    pub closed spec fn spec_actual_apps(&self) -> Seq<HephaestusServerApp> {
        self.actual_apps@
    }

    /// The planned private ip.
    pub closed spec fn spec_planned_private_ip(&self) -> Option<HephaestusPrivateIpAddress> {
        self.planned_private_ip
    }

    /// The public ip.
    pub closed spec fn spec_public_ip(&self) -> Option<HephaestusPublicIpAddress> {
        self.public_ip
    }

    /// The private ip.
    pub closed spec fn spec_private_ip(&self) -> Option<HephaestusPrivateIpAddress> {
        self.private_ip
    }

    /// The boot time unix secs.
    pub closed spec fn spec_boot_time_unix_secs(&self) -> Option<u64> {
        self.boot_time_unix_secs
    }

    /// The last seen unix secs.
    pub closed spec fn spec_last_seen_unix_secs(&self) -> Option<u64> {
        self.last_seen_unix_secs
    }

    /// The actual status.
    pub closed spec fn spec_actual_status(&self) -> Option<HephaestusNodeActualStateStatus> {
        self.actual_status
    }

    /// The latest provisioning event.
    pub closed spec fn spec_latest_provisioning_event(&self) -> Option<ProvisioningEventSnapshot> {
        self.latest_provisioning_event
    }

    /// The dns records.
    pub closed spec fn spec_dns_records(&self) -> Seq<HephaestusDnsRecord> {
        self.dns_records@
    }

    /// The latest agent report.
    pub closed spec fn spec_latest_agent_report(&self) -> Option<HephaestusAgentReport> {
        self.latest_agent_report
    }

    /// Whether the row's timestamps are acceptable.
    pub open spec fn timestamps_valid(&self) -> bool {
        inventory_timestamps_valid(self.spec_boot_time_unix_secs(), self.spec_last_seen_unix_secs())
    }

    /// Every row holds acceptable timestamps.
    #[verifier::type_invariant]
    closed spec fn well_formed(&self) -> bool {
        inventory_timestamps_valid(self.boot_time_unix_secs, self.last_seen_unix_secs)
    }

    /// Constructs a validated inventory row from joined control-plane state;
    /// the environment tag starts unspecified.
    pub fn new(
        identity: HephaestusServerIdentity,
        assigned_region_id: Option<HephaestusRegionId>,
        catalog: HephaestusServerCatalog,
        infrastructure_class_id: HephaestusInfrastructureClassId,
        actual_apps: Vec<HephaestusServerApp>,
        planned_private_ip: Option<HephaestusPrivateIpAddress>,
        public_ip: Option<HephaestusPublicIpAddress>,
        private_ip: Option<HephaestusPrivateIpAddress>,
        boot_time_unix_secs: Option<u64>,
        last_seen_unix_secs: Option<u64>,
        actual_status: Option<HephaestusNodeActualStateStatus>,
        latest_provisioning_event: Option<ProvisioningEventSnapshot>,
        dns_records: Vec<HephaestusDnsRecord>,
        latest_agent_report: Option<HephaestusAgentReport>,
    ) -> (r: Result<Self, HephaestusDomainError>)
        ensures
            !inventory_timestamps_valid(boot_time_unix_secs, last_seen_unix_secs) ==> r == Err::<
                Self,
                HephaestusDomainError,
            >(HephaestusDomainError::InvalidNumber),
            inventory_timestamps_valid(boot_time_unix_secs, last_seen_unix_secs) ==> {
                &&& r is Ok
                &&& r->Ok_0.spec_environment_tag() == HephaestusServerEnvironmentTag::Unspecified
                &&& r->Ok_0.spec_identity() == identity
                &&& r->Ok_0.spec_assigned_region_id() == assigned_region_id
                &&& r->Ok_0.spec_catalog() == catalog@
                &&& r->Ok_0.spec_infrastructure_class_id() == infrastructure_class_id
                &&& r->Ok_0.spec_actual_apps() == actual_apps@
                &&& r->Ok_0.spec_planned_private_ip() == planned_private_ip
                &&& r->Ok_0.spec_public_ip() == public_ip
                &&& r->Ok_0.spec_private_ip() == private_ip
                &&& r->Ok_0.spec_boot_time_unix_secs() == boot_time_unix_secs
                &&& r->Ok_0.spec_last_seen_unix_secs() == last_seen_unix_secs
                &&& r->Ok_0.spec_actual_status() == actual_status
                &&& r->Ok_0.spec_latest_provisioning_event() == latest_provisioning_event
                &&& r->Ok_0.spec_dns_records() == dns_records@
                &&& r->Ok_0.spec_latest_agent_report() == latest_agent_report
            },
            r is Ok ==> r->Ok_0.timestamps_valid(),
    {
        let bad = match (boot_time_unix_secs, last_seen_unix_secs) {
            (Some(boot_time), Some(last_seen)) => boot_time == 0 || last_seen == 0 || boot_time
                > last_seen,
            (Some(boot_time), None) => boot_time == 0,
            (None, Some(last_seen)) => last_seen == 0,
            (None, None) => false,
        };
        if bad {
            return Err(HephaestusDomainError::InvalidNumber);
        }
        Ok(HephaestusServerInventoryRow {
            identity,
            assigned_region_id,
            environment_tag: HephaestusServerEnvironmentTag::Unspecified,
            catalog,
            infrastructure_class_id,
            actual_apps,
            planned_private_ip,
            public_ip,
            private_ip,
            boot_time_unix_secs,
            last_seen_unix_secs,
            actual_status,
            latest_provisioning_event,
            dns_records,
            latest_agent_report,
        })
    }

    /// Constructs an inventory row from expected orchestrator state: its
    /// identity, catalog, class and planned private address, and nothing
    /// observed yet.
    pub fn from_orchestrator_state(value: &HephaestusOrchestratorNodeState) -> (r: Result<
        Self,
        HephaestusDomainError,
    >)
        ensures
            r is Ok,
            r->Ok_0.spec_identity() == value.spec_identity(),
            r->Ok_0.spec_assigned_region_id() is None,
            r->Ok_0.spec_environment_tag() == HephaestusServerEnvironmentTag::Unspecified,
            r->Ok_0.spec_catalog() == value.spec_catalog(),
            r->Ok_0.spec_infrastructure_class_id() == value.spec_infrastructure_class_id(),
            r->Ok_0.spec_actual_apps().len() == 0,
            r->Ok_0.spec_planned_private_ip() == value.spec_expected_private_ip(),
            r->Ok_0.spec_public_ip() is None,
            r->Ok_0.spec_private_ip() is None,
            r->Ok_0.spec_boot_time_unix_secs() is None,
            r->Ok_0.spec_last_seen_unix_secs() is None,
            r->Ok_0.spec_actual_status() is None,
            r->Ok_0.spec_latest_provisioning_event() is None,
            r->Ok_0.spec_dns_records().len() == 0,
            r->Ok_0.spec_latest_agent_report() is None,
            r->Ok_0.timestamps_valid(),
    {
        let planned = match value.expected_private_ip() {
            Some(ip) => Some(ip.duplicate()),
            None => None,
        };
        Self::new(
            value.identity().duplicate(),
            None,
            value.catalog().duplicate(),
            value.infrastructure_class_id().duplicate(),
            Vec::new(),
            planned,
            None,
            None,
            None,
            None,
            None,
            None,
            Vec::new(),
            None,
        )
    }

    /// Overlays actual-state data onto the inventory row: identity, catalog,
    /// class, both addresses, both timestamps and the status come from the
    /// actual state.
    pub fn with_actual_state(self, value: &HephaestusNodeActualState) -> (r: Result<
        Self,
        HephaestusDomainError,
    >)
        ensures
            r is Ok,
            r->Ok_0.spec_identity() == value.spec_identity(),
            r->Ok_0.spec_catalog() == value.spec_catalog(),
            r->Ok_0.spec_infrastructure_class_id() == value.spec_infrastructure_class_id(),
            r->Ok_0.spec_public_ip() == value.spec_network().spec_public_ip(),
            r->Ok_0.spec_private_ip() == value.spec_network().spec_private_ip(),
            r->Ok_0.spec_boot_time_unix_secs() == Some(value.spec_boot_time_unix_secs()),
            r->Ok_0.spec_last_seen_unix_secs() == Some(value.spec_last_seen_unix_secs()),
            r->Ok_0.spec_actual_status() == Some(value.spec_status()),
            r->Ok_0.spec_assigned_region_id() == self.spec_assigned_region_id(),
            r->Ok_0.spec_environment_tag() == self.spec_environment_tag(),
            r->Ok_0.spec_actual_apps() == self.spec_actual_apps(),
            r->Ok_0.spec_planned_private_ip() == self.spec_planned_private_ip(),
            r->Ok_0.spec_latest_provisioning_event() == self.spec_latest_provisioning_event(),
            r->Ok_0.spec_dns_records() == self.spec_dns_records(),
            r->Ok_0.spec_latest_agent_report() == self.spec_latest_agent_report(),
            r->Ok_0.timestamps_valid(),
    {
        let boot = value.boot_time_unix_secs();
        let last = value.last_seen_unix_secs();
        let public_ip = match value.public_ip() {
            Some(ip) => Some(ip.duplicate()),
            None => None,
        };
        let private_ip = match value.private_ip() {
            Some(ip) => Some(ip.duplicate()),
            None => None,
        };
        Ok(HephaestusServerInventoryRow {
            identity: value.identity().duplicate(),
            catalog: value.catalog().duplicate(),
            infrastructure_class_id: value.infrastructure_class_id().duplicate(),
            public_ip,
            private_ip,
            boot_time_unix_secs: Some(boot),
            last_seen_unix_secs: Some(last),
            actual_status: Some(value.status()),
            ..self
        })
    }

    /// Overlays node-local liveness onto an existing desired/provider row.
    ///
    /// Provisioning and provider inventory remain the authority for durable
    /// identity, planned role, public address, and instance class. Agent actual
    /// state is the authority for liveness timestamps and the node-local
    /// private address that should be used for operational health. A private
    /// address the actual state does not know keeps the row's.
    pub fn with_actual_observation(self, value: &HephaestusNodeActualState) -> (r: Result<
        Self,
        HephaestusDomainError,
    >)
        ensures
            r is Ok,
            r->Ok_0.spec_private_ip() == prefer_first(
                value.spec_network().spec_private_ip(),
                self.spec_private_ip(),
            ),
            r->Ok_0.spec_public_ip() == self.spec_public_ip(),
            r->Ok_0.spec_boot_time_unix_secs() == Some(value.spec_boot_time_unix_secs()),
            r->Ok_0.spec_last_seen_unix_secs() == Some(value.spec_last_seen_unix_secs()),
            r->Ok_0.spec_actual_status() == Some(value.spec_status()),
            r->Ok_0.spec_identity() == self.spec_identity(),
            r->Ok_0.spec_assigned_region_id() == self.spec_assigned_region_id(),
            r->Ok_0.spec_environment_tag() == self.spec_environment_tag(),
            r->Ok_0.spec_catalog() == self.spec_catalog(),
            r->Ok_0.spec_infrastructure_class_id() == self.spec_infrastructure_class_id(),
            r->Ok_0.spec_actual_apps() == self.spec_actual_apps(),
            r->Ok_0.spec_planned_private_ip() == self.spec_planned_private_ip(),
            r->Ok_0.spec_latest_provisioning_event() == self.spec_latest_provisioning_event(),
            r->Ok_0.spec_dns_records() == self.spec_dns_records(),
            r->Ok_0.spec_latest_agent_report() == self.spec_latest_agent_report(),
            r->Ok_0.timestamps_valid(),
    {
        let boot = value.boot_time_unix_secs();
        let last = value.last_seen_unix_secs();
        let private_ip = match value.private_ip() {
            Some(ip) => Some(ip.duplicate()),
            None => duplicate_option(&self.private_ip),
        };
        Ok(HephaestusServerInventoryRow {
            private_ip,
            boot_time_unix_secs: Some(boot),
            last_seen_unix_secs: Some(last),
            actual_status: Some(value.status()),
            ..self
        })
    }

    /// Overlays the latest provisioning event onto the inventory row.
    pub fn with_latest_provisioning_event(self, value: ProvisioningEventSnapshot) -> (r: Self)
        ensures
            r.spec_latest_provisioning_event() == Some(value),
            r.spec_identity() == self.spec_identity(),
            r.spec_assigned_region_id() == self.spec_assigned_region_id(),
            r.spec_environment_tag() == self.spec_environment_tag(),
            r.spec_catalog() == self.spec_catalog(),
            r.spec_infrastructure_class_id() == self.spec_infrastructure_class_id(),
            r.spec_actual_apps() == self.spec_actual_apps(),
            r.spec_planned_private_ip() == self.spec_planned_private_ip(),
            r.spec_public_ip() == self.spec_public_ip(),
            r.spec_private_ip() == self.spec_private_ip(),
            r.spec_boot_time_unix_secs() == self.spec_boot_time_unix_secs(),
            r.spec_last_seen_unix_secs() == self.spec_last_seen_unix_secs(),
            r.spec_actual_status() == self.spec_actual_status(),
            r.spec_dns_records() == self.spec_dns_records(),
            r.spec_latest_agent_report() == self.spec_latest_agent_report(),
    {
        proof {
            use_type_invariant(&self);
        }
        HephaestusServerInventoryRow { latest_provisioning_event: Some(value), ..self }
    }

    /// Overlays the latest agent report onto the inventory row; the row's
    /// apps become the apps the report found.
    pub fn with_latest_agent_report(self, value: HephaestusAgentReport) -> (r: Self)
        ensures
            r.spec_actual_apps() == value.spec_observed_services().spec_actual_apps(),
            r.spec_latest_agent_report() == Some(value),
            r.spec_identity() == self.spec_identity(),
            r.spec_assigned_region_id() == self.spec_assigned_region_id(),
            r.spec_environment_tag() == self.spec_environment_tag(),
            r.spec_catalog() == self.spec_catalog(),
            r.spec_infrastructure_class_id() == self.spec_infrastructure_class_id(),
            r.spec_planned_private_ip() == self.spec_planned_private_ip(),
            r.spec_public_ip() == self.spec_public_ip(),
            r.spec_private_ip() == self.spec_private_ip(),
            r.spec_boot_time_unix_secs() == self.spec_boot_time_unix_secs(),
            r.spec_last_seen_unix_secs() == self.spec_last_seen_unix_secs(),
            r.spec_actual_status() == self.spec_actual_status(),
            r.spec_latest_provisioning_event() == self.spec_latest_provisioning_event(),
            r.spec_dns_records() == self.spec_dns_records(),
    {
        let apps = value.actual_apps();
        let mut copied: Vec<HephaestusServerApp> = Vec::new();
        let mut i: usize = 0;
        while i < apps.len()
            invariant
                i <= apps@.len(),
                copied@ == apps@.subrange(0, i as int),
            decreases apps@.len() - i,
        {
            copied.push(apps[i].duplicate());
            i = i + 1;
            assert(copied@ =~= apps@.subrange(0, i as int));
        }
        assert(apps@.subrange(0, apps@.len() as int) =~= apps@);
        proof {
            use_type_invariant(&self);
        }
        HephaestusServerInventoryRow { actual_apps: copied, latest_agent_report: Some(value), ..self }
    }

    /// Replaces DNS records associated with this server.
    pub fn with_dns_records(self, value: Vec<HephaestusDnsRecord>) -> (r: Self)
        ensures
            r.spec_dns_records() == value@,
            r.spec_identity() == self.spec_identity(),
            r.spec_assigned_region_id() == self.spec_assigned_region_id(),
            r.spec_environment_tag() == self.spec_environment_tag(),
            r.spec_catalog() == self.spec_catalog(),
            r.spec_infrastructure_class_id() == self.spec_infrastructure_class_id(),
            r.spec_actual_apps() == self.spec_actual_apps(),
            r.spec_planned_private_ip() == self.spec_planned_private_ip(),
            r.spec_public_ip() == self.spec_public_ip(),
            r.spec_private_ip() == self.spec_private_ip(),
            r.spec_boot_time_unix_secs() == self.spec_boot_time_unix_secs(),
            r.spec_last_seen_unix_secs() == self.spec_last_seen_unix_secs(),
            r.spec_actual_status() == self.spec_actual_status(),
            r.spec_latest_provisioning_event() == self.spec_latest_provisioning_event(),
            r.spec_latest_agent_report() == self.spec_latest_agent_report(),
    {
        proof {
            use_type_invariant(&self);
        }
        HephaestusServerInventoryRow { dns_records: value, ..self }
    }

    /// Returns the joined identity.
    pub fn identity(&self) -> (r: &HephaestusServerIdentity)
        ensures
            *r == self.spec_identity(),
    {
        &self.identity
    }

    /// Returns the assigned operational Region when known.
    pub fn assigned_region_id(&self) -> (r: Option<&HephaestusRegionId>)
        ensures
            r == match self.spec_assigned_region_id() {
                Some(v) => Some(&v),
                None => None::<&HephaestusRegionId>,
            },
    {
        self.assigned_region_id.as_ref()
    }

    /// Returns the broad environment safety tag.
    pub fn environment_tag(&self) -> (r: HephaestusServerEnvironmentTag)
        ensures
            r == self.spec_environment_tag(),
    {
        self.environment_tag
    }

    /// Returns the joined catalog.
    pub fn catalog(&self) -> (r: &HephaestusServerCatalog)
        ensures
            r@ == self.spec_catalog(),
    {
        &self.catalog
    }

    /// Returns the infrastructure class identifier recorded for this server.
    pub fn infrastructure_class_id(&self) -> (r: &HephaestusInfrastructureClassId)
        ensures
            *r == self.spec_infrastructure_class_id(),
    {
        &self.infrastructure_class_id
    }

    /// Returns actual ReallyMe apps discovered on this server.
    pub fn actual_apps(&self) -> (r: &[HephaestusServerApp])
        ensures
            r@ == self.spec_actual_apps(),
    {
        self.actual_apps.as_slice()
    }

    /// Returns the planned private IP when known.
    pub fn planned_private_ip(&self) -> (r: Option<&HephaestusPrivateIpAddress>)
        ensures
            r == match self.spec_planned_private_ip() {
                Some(v) => Some(&v),
                None => None::<&HephaestusPrivateIpAddress>,
            },
    {
        self.planned_private_ip.as_ref()
    }

    /// Returns the observed public IP when known.
    pub fn public_ip(&self) -> (r: Option<&HephaestusPublicIpAddress>)
        ensures
            r == match self.spec_public_ip() {
                Some(v) => Some(&v),
                None => None::<&HephaestusPublicIpAddress>,
            },
    {
        self.public_ip.as_ref()
    }

    /// Returns the observed private IP when known.
    pub fn private_ip(&self) -> (r: Option<&HephaestusPrivateIpAddress>)
        ensures
            r == match self.spec_private_ip() {
                Some(v) => Some(&v),
                None => None::<&HephaestusPrivateIpAddress>,
            },
    {
        self.private_ip.as_ref()
    }

    /// Returns the observed boot time when known. Both timestamps are acceptable together.
    pub fn boot_time_unix_secs(&self) -> (r: Option<u64>)
        ensures
            r == self.spec_boot_time_unix_secs(),
            self.timestamps_valid(),
    {
        proof {
            use_type_invariant(self);
        }
        self.boot_time_unix_secs
    }

    /// Returns the last-seen timestamp when known. Both timestamps are acceptable together.
    pub fn last_seen_unix_secs(&self) -> (r: Option<u64>)
        ensures
            r == self.spec_last_seen_unix_secs(),
            self.timestamps_valid(),
    {
        proof {
            use_type_invariant(self);
        }
        self.last_seen_unix_secs
    }

    /// Returns the actual readiness status when known.
    pub fn actual_status(&self) -> (r: Option<HephaestusNodeActualStateStatus>)
        ensures
            r == self.spec_actual_status(),
    {
        self.actual_status
    }

    /// Returns the latest provisioning event when known.
    pub fn latest_provisioning_event(&self) -> (r: Option<&ProvisioningEventSnapshot>)
        ensures
            r == match self.spec_latest_provisioning_event() {
                Some(v) => Some(&v),
                None => None::<&ProvisioningEventSnapshot>,
            },
    {
        self.latest_provisioning_event.as_ref()
    }

    /// Returns DNS records associated with this server.
    pub fn dns_records(&self) -> (r: &[HephaestusDnsRecord])
        ensures
            r@ == self.spec_dns_records(),
    {
        self.dns_records.as_slice()
    }

    /// Returns the latest agent report when known.
    pub fn latest_agent_report(&self) -> (r: Option<&HephaestusAgentReport>)
        ensures
            r == match self.spec_latest_agent_report() {
                Some(v) => Some(&v),
                None => None::<&HephaestusAgentReport>,
            },
    {
        self.latest_agent_report.as_ref()
    }

    /// Returns the internal server id.
    pub fn server_id(&self) -> (r: &HephaestusServerId)
        ensures
            *r == self.spec_identity().spec_server_id(),
    {
        self.identity.server_id()
    }

    /// Returns the provider-backed server identifier.
    pub fn provider_server_id(&self) -> (r: &HephaestusProviderServerId)
        ensures
            *r == self.spec_identity().spec_provider_server_id(),
    {
        self.identity.provider_server_id()
    }

    /// Returns a copy with an assigned operational Region.
    pub fn with_assigned_region_id(self, value: Option<HephaestusRegionId>) -> (r: Self)
        ensures
            r.spec_assigned_region_id() == value,
            r.spec_identity() == self.spec_identity(),
            r.spec_environment_tag() == self.spec_environment_tag(),
            r.spec_catalog() == self.spec_catalog(),
            r.spec_infrastructure_class_id() == self.spec_infrastructure_class_id(),
            r.spec_actual_apps() == self.spec_actual_apps(),
            r.spec_planned_private_ip() == self.spec_planned_private_ip(),
            r.spec_public_ip() == self.spec_public_ip(),
            r.spec_private_ip() == self.spec_private_ip(),
            r.spec_boot_time_unix_secs() == self.spec_boot_time_unix_secs(),
            r.spec_last_seen_unix_secs() == self.spec_last_seen_unix_secs(),
            r.spec_actual_status() == self.spec_actual_status(),
            r.spec_latest_provisioning_event() == self.spec_latest_provisioning_event(),
            r.spec_dns_records() == self.spec_dns_records(),
            r.spec_latest_agent_report() == self.spec_latest_agent_report(),
    {
        proof {
            use_type_invariant(&self);
        }
        HephaestusServerInventoryRow { assigned_region_id: value, ..self }
    }

    /// Returns a copy with a broad environment safety tag.
    pub fn with_environment_tag(self, value: HephaestusServerEnvironmentTag) -> (r: Self)
        ensures
            r.spec_environment_tag() == value,
            r.spec_identity() == self.spec_identity(),
            r.spec_assigned_region_id() == self.spec_assigned_region_id(),
            r.spec_catalog() == self.spec_catalog(),
            r.spec_infrastructure_class_id() == self.spec_infrastructure_class_id(),
            r.spec_actual_apps() == self.spec_actual_apps(),
            r.spec_planned_private_ip() == self.spec_planned_private_ip(),
            r.spec_public_ip() == self.spec_public_ip(),
            r.spec_private_ip() == self.spec_private_ip(),
            r.spec_boot_time_unix_secs() == self.spec_boot_time_unix_secs(),
            r.spec_last_seen_unix_secs() == self.spec_last_seen_unix_secs(),
            r.spec_actual_status() == self.spec_actual_status(),
            r.spec_latest_provisioning_event() == self.spec_latest_provisioning_event(),
            r.spec_dns_records() == self.spec_dns_records(),
            r.spec_latest_agent_report() == self.spec_latest_agent_report(),
    {
        proof {
            use_type_invariant(&self);
        }
        HephaestusServerInventoryRow { environment_tag: value, ..self }
    }
}


impl Clone for HephaestusServerInventoryRow {
    fn clone(&self) -> (r: Self)
        ensures
            r.spec_identity() == self.spec_identity(),
            r.spec_assigned_region_id() == self.spec_assigned_region_id(),
            r.spec_environment_tag() == self.spec_environment_tag(),
            r.spec_catalog() == self.spec_catalog(),
            r.spec_infrastructure_class_id() == self.spec_infrastructure_class_id(),
            r.spec_actual_apps() == self.spec_actual_apps(),
            r.spec_planned_private_ip() == self.spec_planned_private_ip(),
            r.spec_public_ip() == self.spec_public_ip(),
            r.spec_private_ip() == self.spec_private_ip(),
            r.spec_boot_time_unix_secs() == self.spec_boot_time_unix_secs(),
            r.spec_last_seen_unix_secs() == self.spec_last_seen_unix_secs(),
            r.spec_actual_status() == self.spec_actual_status(),
            r.spec_latest_provisioning_event() == self.spec_latest_provisioning_event(),
            r.spec_dns_records() == self.spec_dns_records(),
            match (r.spec_latest_agent_report(), self.spec_latest_agent_report()) {
                (Some(a), Some(b)) => a.agrees_with(&b),
                (None, None) => true,
                _ => false,
            },
    {
        proof {
            use_type_invariant(self);
        }
        let latest_agent_report = match &self.latest_agent_report {
            Some(report) => Some(report.clone()),
            None => None,
        };
        HephaestusServerInventoryRow {
            identity: self.identity.duplicate(),
            assigned_region_id: duplicate_option(&self.assigned_region_id),
            environment_tag: self.environment_tag,
            catalog: self.catalog.duplicate(),
            infrastructure_class_id: self.infrastructure_class_id.duplicate(),
            actual_apps: duplicate_vec(&self.actual_apps),
            planned_private_ip: duplicate_option(&self.planned_private_ip),
            public_ip: duplicate_option(&self.public_ip),
            private_ip: duplicate_option(&self.private_ip),
            boot_time_unix_secs: self.boot_time_unix_secs,
            last_seen_unix_secs: self.last_seen_unix_secs,
            actual_status: self.actual_status,
            latest_provisioning_event: duplicate_option(&self.latest_provisioning_event),
            dns_records: duplicate_vec(&self.dns_records),
            latest_agent_report,
        }
    }
}

/// The snake-case name of a environment tag, as the serialized form writes it.
pub open spec fn environment_tag_name(v: HephaestusServerEnvironmentTag) -> Seq<char> {
    match v {
        HephaestusServerEnvironmentTag::Unspecified => "unspecified"@,
        HephaestusServerEnvironmentTag::Dev => "dev"@,
        HephaestusServerEnvironmentTag::Prod => "prod"@,
    }
}

} // verus!
