//! Host-neutral request, response and catalog types of the Hephaestus
//! control-plane contract.
use std::collections::BTreeMap;
use vstd::prelude::*;

use crate::hephaestus::inventory::HephaestusServerInventoryRow;
use crate::hephaestus::node::{HephaestusNodeActualState, HephaestusServerId};
use crate::hephaestus::report::HephaestusAgentReport;
use crate::text::{catalog_code, optional_text, same_text};

verus! {

#[derive(Debug, Clone, Copy, Default, PartialEq, Eq)]
pub struct HephaestusTimestamp {
    pub seconds: i64,
    pub nanos: i32,
}

/// The timestamp of a count of UNIX seconds, saturating at `i64::MAX`.
pub open spec fn timestamp_from_unix_secs(seconds: u64) -> HephaestusTimestamp {
    HephaestusTimestamp {
        seconds: if seconds <= i64::MAX as u64 {
            seconds as i64
        } else {
            i64::MAX
        },
        nanos: 0,
    }
}

/// The UNIX seconds of a timestamp, zero before the epoch.
pub open spec fn timestamp_unix_secs(t: HephaestusTimestamp) -> u64 {
    if t.seconds < 0 {
        0
    } else {
        t.seconds as u64
    }
}

impl HephaestusTimestamp {
    /// Constructs a timestamp from its parts.
    pub fn new(seconds: i64, nanos: i32) -> (r: Self)
        ensures
            r.seconds == seconds,
            r.nanos == nanos,
    {
        HephaestusTimestamp { seconds, nanos }
    }

    /// Converts UNIX seconds, saturating at `i64::MAX`.
    pub fn from_unix_secs(seconds: u64) -> (r: Self)
        ensures
            r == timestamp_from_unix_secs(seconds),
    {
        if seconds > 9_223_372_036_854_775_807u64 {
            return HephaestusTimestamp { seconds: i64::MAX, nanos: 0 };
        }
        HephaestusTimestamp { seconds: seconds as i64, nanos: 0 }
    }

    /// Returns the UNIX seconds, or zero for a time before the epoch.
    pub fn unix_secs(self) -> (r: u64)
        ensures
            r == timestamp_unix_secs(self),
    {
        if self.seconds < 0 {
            return 0;
        }
        self.seconds as u64
    }
}

/// UNIX seconds survive a round trip through a timestamp, up to `i64::MAX`;
/// larger counts come back as `i64::MAX`. A whole-second timestamp at or
/// after the epoch survives the opposite round trip.
pub proof fn lemma_timestamp_unix_secs_round_trip(seconds: u64, t: HephaestusTimestamp)
    ensures
        seconds <= i64::MAX ==> timestamp_unix_secs(timestamp_from_unix_secs(seconds)) == seconds,
        seconds > i64::MAX ==> timestamp_unix_secs(timestamp_from_unix_secs(seconds)) == i64::MAX,
        t.seconds >= 0 && t.nanos == 0 ==> timestamp_from_unix_secs(timestamp_unix_secs(t)) == t,
{
}

/// Host-neutral status request.
#[derive(Debug, Clone, Copy, Default, PartialEq, Eq)]
pub struct HephaestusStatusRequest;

/// Host-neutral status response.
#[derive(Debug, Clone, Copy, PartialEq, Eq)]
pub struct HephaestusStatusResponse {
    body: &'static str,
}

impl HephaestusStatusResponse {
    /// Constructs a status response.
    pub fn new(body: &'static str) -> (r: Self)
        ensures
            r.spec_body() == body,
    {
        HephaestusStatusResponse { body }
    }

    /// The response body.
    pub closed spec fn spec_body(&self) -> &'static str {
        self.body
    }

    /// Returns the response body.
    pub fn body(self) -> (r: &'static str)
        ensures
            r == self.spec_body(),
    {
        self.body
    }
}

#[derive(Debug, Clone, Copy, Default, PartialEq, Eq)]
pub struct GetDesiredTopologyRequest;

#[derive(Debug, Clone, PartialEq, Eq)]
pub struct GetDesiredTopologyResponse {
    pub snapshot: DesiredTopologySnapshot,
}

#[derive(Debug, Clone, PartialEq, Eq)]
pub struct UpdateDesiredTopologyRequest {
    pub base_git_commit: Option<String>,
    pub documents: Vec<DesiredTopologyDocument>,
    pub changed_by: WorkflowActor,
}

#[derive(Debug, Clone, PartialEq, Eq)]
pub struct UpdateDesiredTopologyResponse {
    pub snapshot: DesiredTopologySnapshot,
    pub git_diff: Option<String>,
}

#[derive(Debug, Clone, Copy, Default, PartialEq, Eq)]
pub struct ListDeployableServicesRequest {
    pub category: Option<DeployableServiceCategory>,
}

#[derive(Debug, Clone, PartialEq, Eq)]
pub struct ListDeployableServicesResponse {
    pub services: Vec<DeployableServiceSummary>,
}

#[derive(Debug, Clone, PartialEq, Eq)]
pub struct GetDeployableServiceRequest {
    pub service_id: String,
}

#[derive(Debug, Clone, PartialEq, Eq)]
pub struct GetDeployableServiceResponse {
    pub service: DeployableService,
}

#[derive(Debug, Clone, PartialEq, Eq)]
pub struct ListDeployableServiceImagesRequest {
    pub service_id: String,
}

#[derive(Debug, Clone, PartialEq, Eq)]
pub struct ListDeployableServiceImagesResponse {
    pub service_id: String,
    pub images: Vec<DeployableServiceImage>,
}

#[derive(Debug, Clone, PartialEq, Eq)]
pub struct GetDeployableServiceImageRequest {
    pub service_id: String,
    pub image_id: String,
}

#[derive(Debug, Clone, PartialEq, Eq)]
pub struct GetDeployableServiceImageResponse {
    pub service_id: String,
    pub image: DeployableServiceImage,
}

#[derive(Debug, Clone, PartialEq, Eq)]
pub struct DeployableServiceSummary {
    pub service_id: String,
    pub display_name: String,
    pub category: DeployableServiceCategory,
    pub workload_kind: DeployableWorkloadKind,
    pub short_description: String,
    pub supports_ipv6_only: bool,
    pub requires_ipv4: bool,
    pub default_image_ref: String,
    pub default_ports: Vec<String>,
}

#[derive(Debug, Clone, PartialEq, Eq)]
pub struct DeployableService {
    pub summary: DeployableServiceSummary,
    pub description: String,
    pub images: Vec<DeployableServiceImage>,
    pub required_secrets: Vec<DeployableServiceSecret>,
    pub supported_actions: Vec<DeployableServiceAction>,
    pub health_signals: Vec<String>,
    pub deployment_notes: Vec<String>,
}

#[derive(Debug, Clone, PartialEq, Eq)]
pub struct DeployableServiceImage {
    pub image_id: String,
    pub registry: String,
    pub repository: String,
    pub tag: String,
    pub digest: Option<String>,
    pub default_image: bool,
    pub image_ref: String,
    pub published_at_unix_seconds: Option<u64>,
    pub source_revision: Option<String>,
}

#[derive(Debug, Clone, PartialEq, Eq)]
pub struct DeployableServiceSecret {
    pub secret_ref: String,
    pub display_name: String,
    pub required: bool,
    pub description: String,
}

#[derive(Debug, Clone, Copy, PartialEq, Eq, Structural)]
pub enum DeployableServiceCategory {
    Messaging,
    Search,
    Database,
    Observability,
    Edge,
    ControlPlane,
}

#[derive(Debug, Clone, Copy, PartialEq, Eq, Structural)]
pub enum DeployableWorkloadKind {
    Docker,
    FoundationDb,
    ControlPlane,
}

#[derive(Debug, Clone, Copy, PartialEq, Eq, Structural)]
pub enum DeployableServiceAction {
    Deploy,
    UpgradeImage,
    RestartContainer,
    RestartService,
    RebootHost,
    ResizeNode,
    DeleteNode,
    ReconfigureCluster,
}

#[derive(Debug, Clone, PartialEq, Eq)]
pub struct DesiredTopologySnapshot {
    pub git_commit: Option<String>,
    pub git_branch: Option<String>,
    pub documents: Vec<DesiredTopologyDocument>,
    pub environments: Vec<InfrastructureEnvironment>,
    pub runbook_catalog: Option<RunbookCatalog>,
    pub docker_image_catalog: Option<DockerImageCatalog>,
    pub provider_catalogs: Vec<ProviderCatalog>,
    pub health_signal_catalog: Option<HealthSignalCatalog>,
    pub rbac_policy: Option<RbacPolicyCatalog>,
    pub docker_service_definitions: Vec<DockerServiceDefinition>,
    pub action_request_examples: Vec<InfrastructureActionRequest>,
    pub json_schemas: Vec<InfrastructureJsonSchemaDocument>,
    pub operational_documents: Vec<InfrastructureOperationalDocument>,
    pub service_mesh: Option<ServiceMeshProjection>,
    pub internal_dns: Option<InternalDnsProjection>,
    pub observability: Option<ObservabilityProjection>,
    pub node_topology: Option<NodeTopologyProjection>,
    pub dashboard_control_surface: Option<DashboardControlSurfaceProjection>,
    pub control_plane_surfaces: Option<ControlPlaneSurfaceCatalog>,
    pub git_diff: Option<String>,
}

#[derive(Debug, Clone, PartialEq, Eq)]
pub struct DesiredTopologyDocument {
    pub path: String,
    pub body: DesiredTopologyDocumentBody,
}

#[derive(Debug, Clone, PartialEq, Eq)]
pub enum DesiredTopologyDocumentBody {
    Global(GlobalTopologyDocument),
    Environment(EnvironmentTopologyDocument),
    Region(RegionTopologyDocument),
    Services(ServicesTopologyDocument),
}

#[derive(Debug, Clone, PartialEq, Eq)]
pub struct GlobalTopologyDocument {
    pub tenants: Vec<TenantDefinition>,
    pub failover_policies: Vec<FailoverPolicy>,
    pub rollout_policies: Vec<RolloutPolicy>,
    pub service_dependencies: Vec<ServiceDependency>,
    pub networking: Option<GlobalNetworkingTopology>,
}

#[derive(Debug, Clone, PartialEq, Eq)]
pub struct EnvironmentTopologyDocument {
    pub environment_id: String,
    pub deployment_tier: String,
    pub region_ids: Vec<String>,
    pub topology_document_paths: Vec<String>,
}

#[derive(Debug, Clone, PartialEq, Eq)]
pub struct RegionTopologyDocument {
    pub region: RegionDefinition,
}

#[derive(Debug, Clone, PartialEq, Eq)]
pub struct ServicesTopologyDocument {
    pub service_groups: Vec<ServiceGroupDefinition>,
    pub services: Vec<ServiceDefinition>,
    pub tenant_region_rules: Vec<TenantRegionRule>,
}

#[derive(Debug, Clone, PartialEq, Eq)]
pub struct RegionDefinition {
    pub region_id: String,
    pub jurisdiction: String,
    pub transport_policy: Option<NetworkTransportPolicy>,
    pub internal_dns: Option<InternalDnsPolicy>,
    pub service_subnet_plan: Vec<ServiceSubnetPlanEntry>,
    pub sites: Vec<SiteDefinition>,
}

#[derive(Debug, Clone, PartialEq, Eq)]
pub struct SiteDefinition {
    pub site_id: String,
    pub jurisdiction: String,
    pub datacenter_id: String,
    pub provider: InfrastructureProvider,
    pub provider_location_id: String,
    pub planned_vpc_cidr: Option<String>,
    pub labels: Vec<String>,
}

#[derive(Debug, Clone, PartialEq, Eq)]
pub struct GlobalNetworkingTopology {
    pub same_site_service_transport: String,
    pub cross_site_service_transport: String,
    pub notes: Vec<String>,
}

#[derive(Debug, Clone, PartialEq, Eq)]
pub struct NetworkTransportPolicy {
    pub same_site_service_transport: String,
    pub cross_site_service_transport: String,
    pub notes: Vec<String>,
}

#[derive(Debug, Clone, PartialEq, Eq)]
pub struct InternalDnsPolicy {
    pub zone: String,
    pub service_naming_policy: String,
    pub node_naming_policy: String,
    pub service_record_strategy: String,
    pub site_token_source: String,
    pub services: BTreeMap<String, String>,
    pub tailscale_suffix_source: Option<String>,
}

#[derive(Debug, Clone, PartialEq, Eq)]
pub struct InternalDnsProjection {
    pub schema_version: u32,
    pub topology_contract: InternalDnsTopologyContract,
    pub naming_policy: InternalDnsNamingPolicy,
    pub provider_site_token_policy: ProviderSiteTokenPolicy,
    pub generated_output_contract: InternalDnsGeneratedOutputContract,
    pub service_labels: BTreeMap<String, String>,
    pub node_name_templates: BTreeMap<String, String>,
    pub node_dns_templates: BTreeMap<String, String>,
}

#[derive(Debug, Clone, PartialEq, Eq)]
pub struct InternalDnsTopologyContract {
    pub source_file: String,
    pub section: String,
    pub required_fields: Vec<String>,
}

#[derive(Debug, Clone, PartialEq, Eq)]
pub struct InternalDnsNamingPolicy {
    pub service_record: String,
    pub node_record: String,
    pub round_robin_supported: bool,
}

#[derive(Debug, Clone, PartialEq, Eq)]
pub struct ProviderSiteTokenPolicy {
    pub site_token_source: String,
    pub site_token_format: String,
    pub normalization: String,
    pub intended_uses: Vec<String>,
    pub operator_note: String,
}

#[derive(Debug, Clone, PartialEq, Eq)]
pub struct InternalDnsGeneratedOutputContract {
    pub output_name: String,
    pub sections: Vec<String>,
    pub policy_fields: Vec<String>,
    pub node_record_fields: Vec<String>,
    pub service_record_fields: Vec<String>,
}

#[derive(Debug, Clone, PartialEq, Eq)]
pub struct ObservabilityProjection {
    pub schema_version: u32,
    pub host_agents: ObservabilityHostAgents,
    pub scrape_target_generator: PrometheusScrapeTargetGenerator,
    pub enforcement_layers: ObservabilityEnforcementLayers,
    pub source_catalogs: ObservabilitySourceCatalogs,
}

#[derive(Debug, Clone, PartialEq, Eq)]
pub struct ObservabilityHostAgents {
    pub node_exporter: ObservabilityAgentContract,
    pub cadvisor: ObservabilityAgentContract,
}

#[derive(Debug, Clone, PartialEq, Eq)]
pub struct ObservabilityAgentContract {
    pub install_scope: String,
    pub deployment_boundary: String,
    pub private_only: bool,
    pub default_port: u32,
    pub source_action_id: String,
    pub required_fields: Vec<String>,
    pub field_contract: BTreeMap<String, ObservabilityFieldContract>,
    pub health_signal_id: Option<String>,
}

#[derive(Debug, Clone, PartialEq, Eq)]
pub struct ObservabilityFieldContract {
    pub value_type: String,
    pub format: Option<String>,
    pub unit: Option<String>,
    pub description: Option<String>,
    pub values: Vec<String>,
    pub healthy_value: Option<String>,
}

#[derive(Debug, Clone, PartialEq, Eq)]
pub struct PrometheusScrapeTargetGenerator {
    pub executable: String,
    pub output_format: String,
    pub jobs: Vec<PrometheusScrapeJob>,
}

#[derive(Debug, Clone, PartialEq, Eq)]
pub struct PrometheusScrapeJob {
    pub job_name: String,
    pub metrics_path: String,
}

#[derive(Debug, Clone, PartialEq, Eq)]
pub struct ObservabilityEnforcementLayers {
    pub nftables: ObservabilityEnforcementLayer,
    pub tailscale_grants: ObservabilityEnforcementLayer,
}

#[derive(Debug, Clone, PartialEq, Eq)]
pub struct ObservabilityEnforcementLayer {
    pub source_of_truth: String,
    pub policy: String,
}

#[derive(Debug, Clone, PartialEq, Eq)]
pub struct ObservabilitySourceCatalogs {
    pub health_signal_catalog_id: Option<String>,
    pub topology_path: String,
}

#[derive(Debug, Clone, PartialEq, Eq)]
pub struct ServiceSubnetPlanEntry {
    pub service_name: String,
    pub cidr_suffix: String,
}

#[derive(Debug, Clone, PartialEq, Eq)]
pub struct TenantDefinition {
    pub tenant_id: String,
    pub jurisdiction_ids: Vec<String>,
    pub home_region_id: Option<String>,
}

#[derive(Debug, Clone, PartialEq, Eq)]
pub struct ServiceGroupDefinition {
    pub group_id: String,
    pub kind: ServiceKind,
    pub member_service_ids: Vec<String>,
    pub region_policy: RegionPolicy,
    pub rollout_policy: RolloutPolicy,
}

#[derive(Debug, Clone, PartialEq, Eq)]
pub struct ServiceDefinition {
    pub service_id: String,
    pub kind: ServiceKind,
    pub group_id: Option<String>,
    pub depends_on_service_ids: Vec<String>,
    pub region_policy: RegionPolicy,
    pub replication_policy: ReplicationPolicy,
    pub rollout_policy: RolloutPolicy,
    pub spec: ServiceSpec,
}

#[derive(Debug, Clone, PartialEq, Eq)]
pub enum ServiceSpec {
    Foundationdb(FoundationDbServiceSpec),
    Nats(NatsSuperclusterServiceSpec),
    Typesense(TypesenseServiceSpec),
    Application(ApplicationServiceSpec),
}

#[derive(Debug, Clone, Copy, PartialEq, Eq, Structural)]
pub enum ServiceKind {
    Foundationdb,
    Nats,
    Typesense,
    NuxtSsr,
    RustApi,
    Graphql,
    AppRuntime,
    LoadBalancer,
}

#[derive(Debug, Clone, PartialEq, Eq)]
pub struct RegionPolicy {
    pub preferred_data_regions: Vec<ProvisioningDataRegion>,
    pub preferred_sites: Vec<ProvisioningSite>,
    pub minimum_instance_count: u32,
    pub tenant_affinity: TenantAffinityKind,
}

#[derive(Debug, Clone, Copy, PartialEq, Eq, Structural)]
pub enum TenantAffinityKind {
    NoAffinity,
    Preferred,
    Required,
}

#[derive(Debug, Clone, PartialEq, Eq)]
pub struct ReplicationPolicy {
    pub mode: ReplicationMode,
    pub replica_count: u32,
    pub replica_data_regions: Vec<ProvisioningDataRegion>,
    pub witness_sites: Vec<ProvisioningSite>,
}

#[derive(Debug, Clone, Copy, PartialEq, Eq, Structural)]
pub enum ReplicationMode {
    SingleRegion,
    MultiRegionActivePassive,
    MultiRegionActiveActive,
    ServiceDefined,
}

#[derive(Debug, Clone, PartialEq, Eq)]
pub struct RolloutPolicy {
    pub policy_id: String,
    pub phases: Vec<RolloutPhase>,
    pub require_manual_approval: bool,
}

#[derive(Debug, Clone, PartialEq, Eq)]
pub struct RolloutPhase {
    pub order: u32,
    pub service_ids: Vec<String>,
}

#[derive(Debug, Clone, PartialEq, Eq)]
pub struct ServiceDependency {
    pub upstream_service_id: String,
    pub downstream_service_id: String,
    pub kind: DependencyKind,
}

#[derive(Debug, Clone, Copy, PartialEq, Eq, Structural)]
pub enum DependencyKind {
    StartsBefore,
    HealthyBefore,
    FailoverCoordinated,
}

#[derive(Debug, Clone, PartialEq, Eq)]
pub struct TenantRegionRule {
    pub tenant_id: String,
    pub region_targets: Vec<TenantRegionTarget>,
}

#[derive(Debug, Clone, PartialEq, Eq)]
pub struct TenantRegionTarget {
    pub service_id: String,
    pub data_region: Option<ProvisioningDataRegion>,
    pub site: Option<ProvisioningSite>,
    pub failover_policy_id: Option<String>,
}

#[derive(Debug, Clone, PartialEq, Eq)]
pub struct FailoverPolicy {
    pub policy_id: String,
    pub mode: FailoverMode,
    pub primary_data_regions: Vec<ProvisioningDataRegion>,
    pub secondary_data_regions: Vec<ProvisioningDataRegion>,
    pub service_ids: Vec<String>,
}

#[derive(Debug, Clone, Copy, PartialEq, Eq, Structural)]
pub enum FailoverMode {
    Manual,
    Automated,
    Assisted,
}

#[derive(Debug, Clone, PartialEq, Eq)]
pub struct FoundationDbServiceSpec {
    pub cluster_name: String,
    pub version: String,
    pub storage_engine: FoundationDbStorageEngine,
    pub redundancy_mode: FoundationDbRedundancyMode,
    pub usable_regions: u32,
    pub disk_encryption_mode: FoundationDbDiskEncryptionMode,
    pub primary_site: ProvisioningSite,
    pub secondary_site: ProvisioningSite,
    pub witness_site: ProvisioningSite,
    pub sites: Vec<FoundationDbSiteBinding>,
    pub tenant_ids: Vec<String>,
}

#[derive(Debug, Clone, PartialEq, Eq)]
pub struct FoundationDbSiteBinding {
    pub site: ProvisioningSite,
    pub role: FoundationDbSiteRole,
    pub node_count: u32,
    pub instance_plan: ProvisioningInstancePlan,
    pub provider: InfrastructureProvider,
    pub provider_location_id: Option<String>,
}

#[derive(Debug, Clone, Copy, PartialEq, Eq, Structural)]
pub enum FoundationDbStorageEngine {
    Ssd2,
}

#[derive(Debug, Clone, Copy, PartialEq, Eq, Structural)]
pub enum FoundationDbRedundancyMode {
    Single,
    Double,
    Triple,
}

#[derive(Debug, Clone, Copy, PartialEq, Eq, Structural)]
pub enum FoundationDbDiskEncryptionMode {
    Provider,
    LuksManualUnlock,
    LuksKeyfile,
    Unencrypted,
}

#[derive(Debug, Clone, Copy, PartialEq, Eq, Structural)]
pub enum FoundationDbSiteRole {
    Primary,
    Secondary,
    Coordinator,
}

#[derive(Debug, Clone, Copy, PartialEq, Eq, Structural)]
pub enum ProvisioningFoundationDbRole {
    Primary,
    Secondary,
    Witness,
    Coordinator,
}

/// The catalog string of each [`ProvisioningFoundationDbRole`] value.
pub open spec fn provisioning_foundation_db_role_catalog_str(v: ProvisioningFoundationDbRole) -> Seq<char> {
    match v {
        ProvisioningFoundationDbRole::Primary => "primary"@,
        ProvisioningFoundationDbRole::Secondary => "secondary"@,
        ProvisioningFoundationDbRole::Witness => "witness"@,
        ProvisioningFoundationDbRole::Coordinator => "coordinator"@,
    }
}

impl ProvisioningFoundationDbRole {
    /// Returns the stable catalog string of this value.
    pub fn as_catalog_str(self) -> (r: &'static str)
        ensures
            r@ == provisioning_foundation_db_role_catalog_str(self),
    {
        match self {
            ProvisioningFoundationDbRole::Primary => "primary",
            ProvisioningFoundationDbRole::Secondary => "secondary",
            ProvisioningFoundationDbRole::Witness => "witness",
            ProvisioningFoundationDbRole::Coordinator => "coordinator",
        }
    }
}

#[derive(Debug, Clone, PartialEq, Eq)]
pub struct PlanFoundationDbDeploymentRequest {
    pub operation: FoundationDbLifecycleOperation,
    pub intent: FoundationDbClusterIntent,
}

#[derive(Debug, Clone, Copy, PartialEq, Eq, Structural)]
pub enum FoundationDbLifecycleOperation {
    CreateCluster,
    AddNode,
    ReconfigureCluster,
    Status,
    Destroy,
}

#[derive(Debug, Clone, PartialEq, Eq)]
pub struct PlanFoundationDbDeploymentResponse {
    pub plan: Option<FoundationDbDeploymentPlan>,
    pub errors: Vec<FoundationDbValidationError>,
}

#[derive(Debug, Clone, PartialEq, Eq)]
pub struct FoundationDbClusterIntent {
    pub environment: ProvisioningEnvironment,
    pub data_region: ProvisioningDataRegion,
    pub cluster_id: String,
    pub cluster_description: String,
    pub version: String,
    pub storage_engine: FoundationDbStorageEngine,
    pub redundancy_mode: FoundationDbRedundancyMode,
    pub usable_regions: u32,
    pub disk_encryption_mode: FoundationDbDiskEncryptionMode,
    pub listen_port: u32,
    pub data_mount_point: String,
    pub data_dir: String,
    pub log_dir: String,
    pub cluster_file_path: String,
    pub config_path: String,
    pub primary_site: ProvisioningSite,
    pub secondary_site: ProvisioningSite,
    pub witness_site: ProvisioningSite,
    pub sites: Vec<FoundationDbSiteIntent>,
    pub tenant_ids: Vec<String>,
    pub backup: Option<FoundationDbBackupIntent>,
    pub restore: Option<FoundationDbRestoreIntent>,
    pub private_peer_cidr_count: u32,
    pub admin_peer_cidr_count: u32,
    pub existing_coordinators: Vec<FoundationDbCoordinator>,
}

#[derive(Debug, Clone, PartialEq, Eq)]
pub struct FoundationDbSiteIntent {
    pub site: ProvisioningSite,
    pub role: ProvisioningFoundationDbRole,
    pub provider: InfrastructureProvider,
    pub instance_plan: ProvisioningInstancePlan,
    pub node_count: u32,
    pub provider_location_id: String,
    pub hostname_prefix: String,
}

#[derive(Debug, Clone, PartialEq, Eq)]
pub struct FoundationDbBackupIntent {
    pub enabled: bool,
    pub tag: String,
    pub destination_name: String,
    pub bucket_config_ref: String,
    pub access_key_secret_ref: ProvisioningSecretRef,
    pub secret_key_secret_ref: ProvisioningSecretRef,
    pub snapshot_interval_seconds: u32,
    pub initial_snapshot_interval_seconds: u32,
    pub server_side_encryption_enabled: bool,
}

#[derive(Debug, Clone, PartialEq, Eq)]
pub struct FoundationDbRestoreIntent {
    pub mode: FoundationDbRestoreMode,
    pub selector: Option<FoundationDbPlannerRestoreSelector>,
    pub source_config_ref: String,
    pub target_empty_confirmed: bool,
    pub force_live_restore: bool,
}

#[derive(Debug, Clone, Copy, PartialEq, Eq, Structural)]
pub enum FoundationDbRestoreMode {
    Disabled,
    DryRun,
    Execute,
}

#[derive(Debug, Clone, PartialEq, Eq)]
pub enum FoundationDbPlannerRestoreSelector {
    Timestamp(String),
    Version(u64),
}

#[derive(Debug, Clone, PartialEq, Eq)]
pub struct FoundationDbDeploymentPlan {
    pub runtime_config: FoundationDbRuntimeConfig,
    pub nodes: Vec<FoundationDbNodePlan>,
    pub private_tcp_ports: Vec<u32>,
    pub coordinator_plan: Vec<FoundationDbCoordinator>,
    pub backup_plan: Option<FoundationDbBackupPlan>,
    pub restore_plan: Option<FoundationDbRestorePlan>,
}

#[derive(Debug, Clone, PartialEq, Eq)]
pub struct FoundationDbRuntimeConfig {
    pub operation: FoundationDbLifecycleOperation,
    pub environment: ProvisioningEnvironment,
    pub data_region: ProvisioningDataRegion,
    pub cluster_id: String,
    pub cluster_description: String,
    pub version: String,
    pub storage_engine: FoundationDbStorageEngine,
    pub redundancy_mode: FoundationDbRedundancyMode,
    pub usable_regions: u32,
    pub disk_encryption_mode: FoundationDbDiskEncryptionMode,
    pub listen_port: u32,
    pub data_mount_point: String,
    pub data_dir: String,
    pub log_dir: String,
    pub cluster_file_path: String,
    pub config_path: String,
    pub primary_site: ProvisioningSite,
    pub secondary_site: ProvisioningSite,
    pub witness_site: ProvisioningSite,
    pub tenant_ids: Vec<String>,
    pub existing_coordinators: Vec<FoundationDbCoordinator>,
}

#[derive(Debug, Clone, PartialEq, Eq)]
pub struct FoundationDbNodePlan {
    pub hostname: String,
    pub site: ProvisioningSite,
    pub role: ProvisioningFoundationDbRole,
    pub provider: InfrastructureProvider,
    pub instance_plan: ProvisioningInstancePlan,
    pub bootstrap: bool,
    pub coordinator: bool,
    pub data_bearing: bool,
    pub process_class: FoundationDbProcessClass,
    pub datacenter_id: String,
    pub zone_id: String,
    pub machine_id: String,
}

#[derive(Debug, Clone, Copy, PartialEq, Eq, Structural)]
pub enum FoundationDbProcessClass {
    Storage,
    Coordinator,
    Stateless,
}

#[derive(Debug, Clone, PartialEq, Eq)]
pub struct FoundationDbCoordinator {
    pub hostname: String,
    pub site: ProvisioningSite,
    pub address_ref: String,
}

#[derive(Debug, Clone, PartialEq, Eq)]
pub struct FoundationDbBackupPlan {
    pub enabled: bool,
    pub tag: String,
    pub destination_name: String,
    pub bucket_config_ref: String,
    pub access_key_secret_ref: ProvisioningSecretRef,
    pub secret_key_secret_ref: ProvisioningSecretRef,
    pub snapshot_interval_seconds: u32,
    pub initial_snapshot_interval_seconds: u32,
    pub server_side_encryption_enabled: bool,
}

#[derive(Debug, Clone, PartialEq, Eq)]
pub struct FoundationDbRestorePlan {
    pub mode: FoundationDbRestoreMode,
    pub selector: Option<FoundationDbPlannerRestoreSelector>,
    pub source_config_ref: String,
    pub target_empty_confirmed: bool,
    pub force_live_restore: bool,
}

#[derive(Debug, Clone, Copy, PartialEq, Eq)]
pub struct FoundationDbValidationError {
    pub reason: FoundationDbValidationErrorReason,
}

#[derive(Debug, Clone, Copy, PartialEq, Eq, Structural)]
pub enum FoundationDbValidationErrorReason {
    InvalidAction,
    InvalidRole,
    InvalidIdentifier,
    InvalidPort,
    InvalidPath,
    MissingSiteBinding,
    MissingRequiredRole,
    MissingPeerCidrs,
    MissingSecretRef,
    MissingBackupConfig,
    InvalidBackupConfig,
    InvalidRestoreIntent,
    InvalidTopology,
    MissingExistingCluster,
    InvalidCoordinatorSet,
}

#[derive(Debug, Clone, PartialEq, Eq)]
pub struct NatsSuperclusterServiceSpec {
    pub clusters: Vec<NatsClusterDefinition>,
    pub jetstream_domains: Vec<JetstreamDomainDefinition>,
}

#[derive(Debug, Clone, PartialEq, Eq)]
pub struct NatsClusterDefinition {
    pub cluster_id: String,
    pub data_region: ProvisioningDataRegion,
    pub sites: Vec<ProvisioningSite>,
    pub node_count: u32,
}

#[derive(Debug, Clone, PartialEq, Eq)]
pub struct JetstreamDomainDefinition {
    pub domain_id: String,
    pub data_region: ProvisioningDataRegion,
    pub cluster_ids: Vec<String>,
}

#[derive(Debug, Clone, PartialEq, Eq)]
pub struct NatsNodeDeploymentIntent {
    pub role: ProvisioningNatsRole,
    pub server_name: String,
    pub cluster_name: Option<String>,
    pub cluster_routes: Vec<NatsRouteTarget>,
    pub cluster_peer_count: u32,
    pub gateway_name: Option<String>,
    pub gateway_remotes: Vec<NatsGatewayRemote>,
    pub leafnode_listen_enabled: bool,
    pub leafnode_remotes: Vec<NatsRouteTarget>,
    pub jetstream_enabled: bool,
    pub jetstream_domain: Option<String>,
    pub store_dir: String,
    pub tls_enabled: bool,
    pub exporter_enabled: bool,
    pub private_peer_cidr_count: u32,
    pub admin_peer_cidr_count: u32,
    pub ports: NatsPortSet,
}

#[derive(Debug, Clone, PartialEq, Eq)]
pub struct NatsGatewayRemote {
    pub name: String,
    pub urls: Vec<NatsRouteTarget>,
}

#[derive(Debug, Clone, PartialEq, Eq)]
pub struct NatsRouteTarget {
    pub scheme: NatsRouteScheme,
    pub host: String,
    pub port: u32,
}

#[derive(Debug, Clone, Copy, PartialEq, Eq, Structural)]
pub enum NatsRouteScheme {
    Nats,
    Tls,
}

#[derive(Debug, Clone, Copy, PartialEq, Eq)]
pub struct NatsPortSet {
    pub client: u32,
    pub cluster: u32,
    pub gateway: u32,
    pub leafnode: u32,
    pub monitor: u32,
    pub exporter: u32,
}

#[derive(Debug, Clone, PartialEq, Eq)]
pub struct NatsDeploymentPlan {
    pub runtime_config: NatsRuntimeConfig,
    pub private_tcp_ports: Vec<u32>,
    pub health_probe: NatsHttpProbe,
    pub exporter_probe: Option<NatsHttpProbe>,
}

#[derive(Debug, Clone, PartialEq, Eq)]
pub struct NatsRuntimeConfig {
    pub role: ProvisioningNatsRole,
    pub server_name: String,
    pub cluster_name: Option<String>,
    pub cluster_routes: Vec<NatsRouteTarget>,
    pub gateway_name: Option<String>,
    pub gateway_remotes: Vec<NatsGatewayRemote>,
    pub leafnode_listen_enabled: bool,
    pub leafnode_remotes: Vec<NatsRouteTarget>,
    pub jetstream_enabled: bool,
    pub jetstream_domain: Option<String>,
    pub store_dir: String,
    pub ports: NatsPortSet,
}

#[derive(Debug, Clone, PartialEq, Eq)]
pub struct NatsHttpProbe {
    pub port: u32,
    pub kind: NatsProbeKind,
}

#[derive(Debug, Clone, Copy, PartialEq, Eq, Structural)]
pub enum NatsProbeKind {
    Healthz,
    JetstreamHealthz,
    ExporterMetrics,
}

#[derive(Debug, Clone, Copy, PartialEq, Eq)]
pub struct NatsValidationError {
    pub reason: NatsValidationErrorReason,
}

#[derive(Debug, Clone, Copy, PartialEq, Eq, Structural)]
pub enum NatsValidationErrorReason {
    InvalidIdentifier,
    InvalidPort,
    DuplicatePort,
    InvalidPath,
    InvalidRouteUrl,
    TlsRouteRequired,
    MissingPeerCidrs,
    MissingClusterName,
    MissingClusterRoutes,
    MissingGatewayRemotes,
    MissingGatewayRemoteUrls,
    MissingLeafnodeRemotes,
}

#[derive(Debug, Clone, PartialEq, Eq)]
pub struct ObservabilityDeploymentIntent {
    pub workload_role: ProvisioningWorkloadRole,
    pub action: ProvisioningLifecycleAction,
    pub node_name: String,
    pub docker_host: bool,
    pub prometheus_enabled: bool,
    pub grafana_enabled: bool,
    pub hephaestus_enabled: bool,
    pub node_exporter_port: u32,
    pub cadvisor_port: u32,
    pub prometheus_port: u32,
    pub grafana_port: u32,
    pub hephaestus_http_port: u32,
    pub hephaestus_metrics_port: u32,
    pub compose_dir: String,
    pub prometheus_scrape_targets_artifact_path: String,
    pub prometheus_retention_time: String,
    pub prometheus_retention_size: String,
    pub scrape_peers: Vec<ObservabilityScrapePeer>,
    pub grafana_admin_password_secret_ref: ProvisioningSecretRef,
    pub grafana_secret_key_secret_ref: ProvisioningSecretRef,
    pub hephaestus_env_secret_ref: ProvisioningSecretRef,
    pub hephaestus_config_ref: String,
    pub private_peer_cidr_count: u32,
    pub admin_peer_cidr_count: u32,
}

#[derive(Debug, Clone, PartialEq, Eq)]
pub struct ObservabilityScrapePeer {
    pub hostname: String,
    pub address: String,
    pub docker_host: bool,
    pub environment: ProvisioningEnvironment,
    pub data_region: ProvisioningDataRegion,
    pub site: ProvisioningSite,
    pub services: Vec<ProvisioningService>,
    pub placement_kind: ProvisioningPlacementKind,
}

#[derive(Debug, Clone, PartialEq, Eq)]
pub struct ObservabilityDeploymentPlan {
    pub runtime_config: ObservabilityRuntimeConfig,
    pub host_agents: Vec<ObservabilityHostAgentPlan>,
    pub scrape_jobs: Vec<PrometheusScrapeJobPlan>,
    pub probes: Vec<ObservabilityHttpProbe>,
    pub private_tcp_ports: Vec<u32>,
    pub required_secret_refs: Vec<ProvisioningSecretRef>,
    pub required_config_refs: Vec<String>,
}

#[derive(Debug, Clone, PartialEq, Eq)]
pub struct ObservabilityRuntimeConfig {
    pub workload_role: ProvisioningWorkloadRole,
    pub action: ProvisioningLifecycleAction,
    pub node_name: String,
    pub compose_dir: String,
    pub prometheus_scrape_targets_artifact_path: String,
    pub prometheus_retention_time: String,
    pub prometheus_retention_size: String,
    pub prometheus_enabled: bool,
    pub grafana_enabled: bool,
    pub hephaestus_enabled: bool,
}

#[derive(Debug, Clone, PartialEq, Eq)]
pub struct ObservabilityHostAgentPlan {
    pub kind: ObservabilityHostAgentKind,
    pub port: u32,
    pub metrics_path: String,
    pub expected_health_fragment: String,
    pub private_only: bool,
}

#[derive(Debug, Clone, Copy, PartialEq, Eq, Structural)]
pub enum ObservabilityHostAgentKind {
    NodeExporter,
    Cadvisor,
}

#[derive(Debug, Clone, PartialEq, Eq)]
pub struct PrometheusScrapeJobPlan {
    pub job_name: String,
    pub metrics_path: String,
    pub targets: Vec<PrometheusStaticTarget>,
}

#[derive(Debug, Clone, PartialEq, Eq)]
pub struct PrometheusStaticTarget {
    pub target: String,
    pub hostname: String,
    pub environment: ProvisioningEnvironment,
    pub data_region: ProvisioningDataRegion,
    pub site: ProvisioningSite,
    pub services: Vec<ProvisioningService>,
    pub metrics_source: ObservabilityHostAgentKind,
    pub placement_kind: ProvisioningPlacementKind,
}

#[derive(Debug, Clone, PartialEq, Eq)]
pub struct ObservabilityHttpProbe {
    pub port: u32,
    pub path: String,
    pub required_body_fragment: Option<String>,
    pub requires_secret: bool,
}

#[derive(Debug, Clone, Copy, PartialEq, Eq)]
pub struct ObservabilityValidationError {
    pub reason: ObservabilityValidationErrorReason,
}

#[derive(Debug, Clone, Copy, PartialEq, Eq, Structural)]
pub enum ObservabilityValidationErrorReason {
    InvalidRole,
    InvalidAction,
    InvalidIdentifier,
    InvalidPort,
    DuplicatePort,
    InvalidPath,
    MissingPeerCidrs,
    MissingScrapeTargets,
    MissingSecretRef,
    MissingHephaestusConfig,
    InvalidPeer,
    NoStackComponents,
}

#[derive(Debug, Clone, PartialEq, Eq)]
pub struct TypesenseServiceSpec {
    pub replication_groups: Vec<TypesenseReplicationGroup>,
}

#[derive(Debug, Clone, PartialEq, Eq)]
pub struct TypesenseReplicationGroup {
    pub group_id: String,
    pub data_regions: Vec<ProvisioningDataRegion>,
    pub replica_count: u32,
}

#[derive(Debug, Clone, PartialEq, Eq)]
pub struct TypesenseNodeDeploymentIntent {
    pub role: ProvisioningTypesenseRole,
    pub node_name: String,
    pub api_port: u32,
    pub peering_port: u32,
    pub cluster_peers: Vec<TypesenseClusterPeer>,
    pub peering_address: Option<String>,
    pub api_key_secret_ref: ProvisioningSecretRef,
    pub api_key_file_path: String,
    pub listen_address: String,
    pub data_dir: String,
    pub cors_enabled: bool,
    pub cors_domains: Vec<String>,
    pub tls: Option<TypesenseTlsConfig>,
    pub logging: Option<TypesenseLoggingConfig>,
    pub resource_guardrails: Option<TypesenseResourceGuardrails>,
    pub private_peer_cidr_count: u32,
    pub admin_peer_cidr_count: u32,
}

#[derive(Debug, Clone, PartialEq, Eq)]
pub struct TypesenseClusterPeer {
    pub address: String,
    pub peering_port: u32,
    pub api_port: u32,
}

#[derive(Debug, Clone, PartialEq, Eq)]
pub struct TypesenseTlsConfig {
    pub certificate_path: String,
    pub certificate_key_path: String,
    pub refresh_interval_seconds: Option<u32>,
}

#[derive(Debug, Clone, PartialEq, Eq)]
pub struct TypesenseLoggingConfig {
    pub log_dir: Option<String>,
    pub access_logging_enabled: bool,
    pub search_logging_enabled: bool,
    pub slow_requests_time_ms: Option<u32>,
    pub slow_searches_time_ms: Option<u32>,
}

#[derive(Debug, Clone, Copy, PartialEq, Eq)]
pub struct TypesenseResourceGuardrails {
    pub memory_used_max_percentage: Option<u32>,
    pub disk_used_max_percentage: Option<u32>,
}

#[derive(Debug, Clone, PartialEq, Eq)]
pub struct TypesenseDeploymentPlan {
    pub runtime_config: TypesenseRuntimeConfig,
    pub private_tcp_ports: Vec<u32>,
    pub probes: Vec<TypesenseHttpProbe>,
    pub validation_collection_name: String,
}

#[derive(Debug, Clone, PartialEq, Eq)]
pub struct TypesenseRuntimeConfig {
    pub role: ProvisioningTypesenseRole,
    pub node_name: String,
    pub api_port: u32,
    pub peering_port: u32,
    pub cluster_peers: Vec<TypesenseClusterPeer>,
    pub peering_address: Option<String>,
    pub api_key_secret_ref: ProvisioningSecretRef,
    pub api_key_file_path: String,
    pub listen_address: String,
    pub data_dir: String,
    pub cors_enabled: bool,
    pub cors_domains: Vec<String>,
    pub tls: Option<TypesenseTlsConfig>,
    pub logging: Option<TypesenseLoggingConfig>,
    pub resource_guardrails: Option<TypesenseResourceGuardrails>,
}

#[derive(Debug, Clone, PartialEq, Eq)]
pub struct TypesenseHttpProbe {
    pub port: u32,
    pub path: String,
    pub required_body_fragment: Option<String>,
    pub requires_api_key: bool,
}

#[derive(Debug, Clone, Copy, PartialEq, Eq)]
pub struct TypesenseValidationError {
    pub reason: TypesenseValidationErrorReason,
}

#[derive(Debug, Clone, Copy, PartialEq, Eq, Structural)]
pub enum TypesenseValidationErrorReason {
    InvalidRole,
    InvalidIdentifier,
    InvalidPort,
    DuplicatePort,
    InvalidPeerAddress,
    InvalidPath,
    MissingSecretRef,
    MissingPeerCidrs,
    MissingPeeringAddress,
    UnexpectedPeeringAddress,
    MissingCorsDomains,
    InvalidTlsConfig,
    InvalidPercentage,
}

#[derive(Debug, Clone, PartialEq, Eq)]
pub struct PlanDockerDeploymentRequest {
    pub intent: DockerDeploymentIntent,
}

#[derive(Debug, Clone, PartialEq, Eq)]
pub struct PlanDockerDeploymentResponse {
    pub plan: Option<DockerDeploymentPlan>,
    pub errors: Vec<DockerValidationError>,
}

#[derive(Debug, Clone, PartialEq, Eq)]
pub struct DockerDeploymentIntent {
    pub schema_version: u32,
    pub action: ProvisioningLifecycleAction,
    pub service: ProvisioningService,
    pub workload_roles: Vec<ProvisioningWorkloadRole>,
    pub runtime: ProvisioningRuntime,
    pub image: ContainerImageRef,
    pub container_name: String,
    pub compose_project_name: String,
    pub network_mode: DockerNetworkMode,
    pub restart_policy: DockerRestartPolicy,
    pub ports: Vec<DockerPortIntent>,
    pub volumes: Vec<DockerVolumeIntent>,
    pub secrets: Vec<DockerSecretMountIntent>,
    pub environment: Vec<DockerEnvironmentBinding>,
    pub probes: Vec<DockerHealthProbeIntent>,
    pub allow_public_ingress: bool,
    pub read_only_root_filesystem: bool,
    pub no_new_privileges: bool,
}

#[derive(Debug, Clone, PartialEq, Eq)]
pub struct DockerDeploymentPlan {
    pub runtime_config: DockerRuntimeConfig,
    pub image: DockerImagePlan,
    pub private_tcp_ports: Vec<u32>,
    pub public_tcp_ports: Vec<u32>,
    pub secret_mounts: Vec<DockerSecretMountIntent>,
    pub probes: Vec<DockerHealthProbeIntent>,
    pub operations: Vec<DockerPlannedOperation>,
}

#[derive(Debug, Clone, PartialEq, Eq)]
pub struct DockerRuntimeConfig {
    pub service: ProvisioningService,
    pub workload_roles: Vec<ProvisioningWorkloadRole>,
    pub runtime: ProvisioningRuntime,
    pub container_name: String,
    pub compose_project_name: String,
    pub network_mode: DockerNetworkMode,
    pub restart_policy: DockerRestartPolicy,
    pub ports: Vec<DockerPortIntent>,
    pub volumes: Vec<DockerVolumeIntent>,
    pub environment: Vec<DockerEnvironmentBinding>,
    pub read_only_root_filesystem: bool,
    pub no_new_privileges: bool,
}

#[derive(Debug, Clone, PartialEq, Eq)]
pub struct DockerImagePlan {
    pub image: ContainerImageRef,
    pub requires_registry_auth: bool,
    pub requires_local_archive_sync: bool,
}

#[derive(Debug, Clone, PartialEq, Eq)]
pub struct DockerPortIntent {
    pub name: String,
    pub container_port: u32,
    pub host_port: Option<u32>,
    pub protocol: DockerPortProtocol,
    pub public: bool,
}

#[derive(Debug, Clone, PartialEq, Eq)]
pub struct DockerVolumeIntent {
    pub source: String,
    pub target: String,
    pub read_only: bool,
}

#[derive(Debug, Clone, PartialEq, Eq)]
pub struct DockerSecretMountIntent {
    pub secret_ref: ProvisioningSecretRef,
    pub target_path: String,
    pub env_name: Option<String>,
}

#[derive(Debug, Clone, PartialEq, Eq)]
pub struct DockerEnvironmentBinding {
    pub name: String,
    pub value: String,
}

#[derive(Debug, Clone, PartialEq, Eq)]
pub struct DockerHealthProbeIntent {
    pub name: String,
    pub kind: DockerHealthProbeKind,
    pub port: u32,
    pub path: Option<String>,
    pub required_body_fragment: Option<String>,
    pub requires_secret: bool,
}

#[derive(Debug, Clone, PartialEq, Eq)]
pub struct DockerPlannedOperation {
    pub action: ProvisioningLifecycleAction,
    pub phase: String,
}

#[derive(Debug, Clone, Copy, PartialEq, Eq, Structural)]
pub enum DockerNetworkMode {
    Bridge,
    Host,
}

#[derive(Debug, Clone, Copy, PartialEq, Eq, Structural)]
pub enum DockerRestartPolicy {
    No,
    UnlessStopped,
    Always,
}

#[derive(Debug, Clone, Copy, PartialEq, Eq, PartialOrd, Ord, Structural)]
pub enum DockerPortProtocol {
    Tcp,
    Udp,
}

#[derive(Debug, Clone, Copy, PartialEq, Eq, Structural)]
pub enum DockerHealthProbeKind {
    Http,
    Tcp,
    Command,
    Metrics,
}

#[derive(Debug, Clone, Copy, PartialEq, Eq)]
pub struct DockerValidationError {
    pub reason: DockerValidationErrorReason,
}

#[derive(Debug, Clone, Copy, PartialEq, Eq, Structural)]
pub enum DockerValidationErrorReason {
    UnsupportedSchemaVersion,
    InvalidAction,
    InvalidRuntime,
    InvalidImage,
    InvalidContainerName,
    InvalidPort,
    DuplicatePort,
    PublicPortRequiresPublicIngress,
    InvalidPath,
    MissingSecretRef,
    InvalidEnvironment,
    InvalidHealthProbe,
}

#[derive(Debug, Clone, PartialEq, Eq)]
pub struct ApplicationServiceSpec {
    pub runtime_kind: ApplicationRuntimeKind,
    pub image_repository: String,
    pub image_tag_policy: String,
    pub published_ports: Vec<ServicePort>,
}

#[derive(Debug, Clone, Copy, PartialEq, Eq, Structural)]
pub enum ApplicationRuntimeKind {
    NuxtSsr,
    RustApi,
    Graphql,
    GenericDockerService,
}

#[derive(Debug, Clone, PartialEq, Eq)]
pub struct ServicePort {
    pub name: String,
    pub port: u32,
    pub protocol: String,
}

#[derive(Debug, Clone, Copy, PartialEq, Eq, Structural)]
pub enum InfrastructureProvider {
    Vultr,
    Cloudflare,
    Hetzner,
    Github,
    Local,
}

/// The catalog string of each [`InfrastructureProvider`] value.
pub open spec fn infrastructure_provider_catalog_str(v: InfrastructureProvider) -> Seq<char> {
    match v {
        InfrastructureProvider::Vultr => "vultr"@,
        InfrastructureProvider::Cloudflare => "cloudflare"@,
        InfrastructureProvider::Hetzner => "hetzner"@,
        InfrastructureProvider::Github => "github"@,
        InfrastructureProvider::Local => "local"@,
    }
}

impl InfrastructureProvider {
    /// Returns the stable catalog string of this value.
    pub fn as_catalog_str(self) -> (r: &'static str)
        ensures
            r@ == infrastructure_provider_catalog_str(self),
    {
        match self {
            InfrastructureProvider::Vultr => "vultr",
            InfrastructureProvider::Cloudflare => "cloudflare",
            InfrastructureProvider::Hetzner => "hetzner",
            InfrastructureProvider::Github => "github",
            InfrastructureProvider::Local => "local",
        }
    }
}

#[derive(Debug, Clone, Copy, PartialEq, Eq, Structural)]
pub enum ProvisioningRuntime {
    Docker,
    Host,
}

#[derive(Debug, Clone, Copy, PartialEq, Eq, Structural)]
pub enum ProvisioningLifecycleEngine {
    BaseNode,
    DockerHost,
    DockerService,
    Foundationdb,
}

#[derive(Debug, Clone, Copy, PartialEq, Eq, Structural)]
pub enum ProvisioningLifecycleAction {
    Create,
    Configure,
    Status,
    Destroy,
    BootstrapHost,
    ConfigureService,
}

#[derive(Debug, Clone, Copy, PartialEq, Eq, Structural)]
pub enum ProvisioningWorkloadRole {
    Api,
    Web,
    EdgeProxy,
    Observability,
    Ops,
    Graphql,
    Data,
}

/// The catalog string of each [`ProvisioningWorkloadRole`] value.
pub open spec fn provisioning_workload_role_catalog_str(v: ProvisioningWorkloadRole) -> Seq<char> {
    match v {
        ProvisioningWorkloadRole::Api => "api"@,
        ProvisioningWorkloadRole::Web => "web"@,
        ProvisioningWorkloadRole::EdgeProxy => "edge-proxy"@,
        ProvisioningWorkloadRole::Observability => "observability"@,
        ProvisioningWorkloadRole::Ops => "ops"@,
        ProvisioningWorkloadRole::Graphql => "graphql"@,
        ProvisioningWorkloadRole::Data => "data"@,
    }
}

impl ProvisioningWorkloadRole {
    /// Returns the stable catalog string of this value.
    pub fn as_catalog_str(self) -> (r: &'static str)
        ensures
            r@ == provisioning_workload_role_catalog_str(self),
    {
        match self {
            ProvisioningWorkloadRole::Api => "api",
            ProvisioningWorkloadRole::Web => "web",
            ProvisioningWorkloadRole::EdgeProxy => "edge-proxy",
            ProvisioningWorkloadRole::Observability => "observability",
            ProvisioningWorkloadRole::Ops => "ops",
            ProvisioningWorkloadRole::Graphql => "graphql",
            ProvisioningWorkloadRole::Data => "data",
        }
    }
}

#[derive(Debug, Clone, Copy, PartialEq, Eq, Structural)]
pub enum TailnetTagKind {
    Api,
    Web,
    Nats,
    NatsClient,
    Typesense,
    Edge,
    Observability,
    Ops,
    Staging,
    RegionEu,
    RegionUs,
    FdbStaging,
    FdbEu,
    FdbUs,
    GraphqlEu,
    GraphqlUs,
    DataEu,
    DataUs,
}

#[derive(Debug, Clone, Copy, PartialEq, Eq, Structural)]
pub enum ProvisioningHealthGroup {
    Host,
    Docker,
    Caddy,
    Nats,
    NatsExporter,
    Typesense,
    Foundationdb,
    Prometheus,
    Grafana,
    Api,
    Web,
}

#[derive(Debug, Clone, Copy, PartialEq, Eq, Structural)]
pub enum DockerServiceClassKind {
    EdgeApi,
    PrivateApi,
    Ops,
    BackgroundWorker,
    StatefulPrivateService,
}

#[derive(Debug, Clone, Copy, PartialEq, Eq, Structural)]
pub enum DashboardEnvironmentRisk {
    NonProduction,
    Production,
}

#[derive(Debug, Clone, Copy, PartialEq, Eq, Structural)]
pub enum DashboardCreateStatus {
    LiveStagingSupported,
    LiveStagingSupportedRoleAware,
    LiveSupportedClusterMember,
    LiveStagingSupportedSingleNodeProdTopologyPending,
    StagingScriptExists,
    PlannedWaitingForPlatformImageContract,
    PlannedWaitingForWebImageContract,
}

#[derive(Debug, Clone, Copy, PartialEq, Eq, Structural)]
pub enum DashboardInputField {
    Service,
    Environment,
    Site,
    Role,
    Plan,
    ImageSource,
    ImageRef,
    IngressMode,
    HostImageSource,
    NodeSelector,
}

#[derive(Debug, Clone, Copy, PartialEq, Eq, Structural)]
pub enum RegionStrategy {
    SingleSite,
    SpreadAcrossSites,
}

#[derive(Debug, Clone, Copy, PartialEq, Eq, Structural)]
pub enum NetworkTransport {
    Vpc,
    Tailscale,
}

#[derive(Debug, Clone, Copy, PartialEq, Eq, Structural)]
pub enum NetworkSource {
    PublicHttps,
    ApprovedAdminTailnetCidrs,
    AppNodes,
    OpsNodes,
    DeclaredServiceClients,
    ObservabilityNodes,
}

#[derive(Debug, Clone, Copy, PartialEq, Eq, Structural)]
pub enum ServerTemplate {
    VultrDockerPrivateService,
    HetznerDockerPrivateService,
}

#[derive(Debug, Clone, Copy, PartialEq, Eq, Structural)]
pub enum RolloutStrategy {
    ReplaceAllAfterApproval,
    RollingReplace,
}

#[derive(Debug, Clone, PartialEq, Eq)]
pub struct InfrastructureEnvironment {
    pub environment_id: String,
    pub display_name: String,
    pub environment_type: String,
    pub jurisdiction: String,
    pub primary_site: Option<String>,
    pub server_type: String,
    pub topology_template: Option<String>,
    pub topology_summary: Option<String>,
    pub region_ids: Vec<String>,
    pub topology_document_paths: Vec<String>,
    pub tofu_directory: String,
    pub tofu_plan_path: String,
    pub generated_inventory_path: String,
    pub ansible_vars_paths: Vec<String>,
    pub ansible_playbook_paths: Vec<String>,
    pub allowed_action_ids: Vec<String>,
}

#[derive(Debug, Clone, PartialEq, Eq)]
pub struct WorkflowActor {
    pub actor_id: String,
    pub display_name: String,
}

#[derive(Debug, Clone, PartialEq, Eq)]
pub struct PlanInfraRequest {
    pub environment_id: String,
    pub requested_by: WorkflowActor,
    pub expected_git_commit: Option<String>,
    pub refresh_state: bool,
}

#[derive(Debug, Clone, PartialEq, Eq)]
pub struct PlanInfraResponse {
    pub run: WorkflowRun,
}

#[derive(Debug, Clone, PartialEq, Eq)]
pub struct PlanNatsDeploymentRequest {
    pub intent: NatsNodeDeploymentIntent,
}

#[derive(Debug, Clone, PartialEq, Eq)]
pub struct PlanNatsDeploymentResponse {
    pub plan: Option<NatsDeploymentPlan>,
    pub errors: Vec<NatsValidationError>,
}

#[derive(Debug, Clone, PartialEq, Eq)]
pub struct PlanObservabilityDeploymentRequest {
    pub intent: ObservabilityDeploymentIntent,
}

#[derive(Debug, Clone, PartialEq, Eq)]
pub struct PlanObservabilityDeploymentResponse {
    pub plan: Option<ObservabilityDeploymentPlan>,
    pub errors: Vec<ObservabilityValidationError>,
}

#[derive(Debug, Clone, PartialEq, Eq)]
pub struct PlanTypesenseDeploymentRequest {
    pub intent: TypesenseNodeDeploymentIntent,
}

#[derive(Debug, Clone, PartialEq, Eq)]
pub struct PlanTypesenseDeploymentResponse {
    pub plan: Option<TypesenseDeploymentPlan>,
    pub errors: Vec<TypesenseValidationError>,
}

#[derive(Debug, Clone, PartialEq, Eq)]
pub struct PlanVpsRequest {
    pub intent: VpsDeploymentIntent,
}

#[derive(Debug, Clone, PartialEq, Eq)]
pub struct PlanVpsResponse {
    pub plan: Option<VpsDeploymentPlan>,
    pub errors: Vec<VpsValidationError>,
}

#[derive(Debug, Clone, PartialEq, Eq)]
pub struct VpsDeploymentIntent {
    pub schema_version: u32,
    pub request_id: String,
    pub provider: InfrastructureProvider,
    pub environment: ProvisioningEnvironment,
    pub data_region: ProvisioningDataRegion,
    pub site: ProvisioningSite,
    pub service: ProvisioningService,
    pub placement_kind: ProvisioningPlacementKind,
    pub action: ProvisioningLifecycleAction,
    pub plan: ProvisioningInstancePlan,
    pub image: MachineImageRef,
    pub node_type: ProvisioningNodeType,
    pub ingress_mode: ProvisioningIngressMode,
    pub runtime: ProvisioningRuntime,
    pub hostname: String,
    pub provider_label: String,
    pub replica_ordinal: u32,
    pub temporary_public_bootstrap_ssh_cidrs: Vec<String>,
    pub admin_tailnet_cidrs: Vec<String>,
    pub private_tcp_ports: Vec<u32>,
    pub public_tcp_ports: Vec<u32>,
    pub provider_tags: Vec<String>,
    pub secret_refs: Vec<ProvisioningSecretRef>,
    pub tailnet_bootstrap: bool,
    pub allow_public_ingress: bool,
    pub nats_role: Option<ProvisioningNatsRole>,
    pub typesense_role: Option<ProvisioningTypesenseRole>,
    pub foundationdb_role: Option<ProvisioningFoundationDbRole>,
    pub workload_role: Option<ProvisioningWorkloadRole>,
}

#[derive(Debug, Clone, PartialEq, Eq)]
pub struct VpsDeploymentPlan {
    pub runtime_config: VpsRuntimeConfig,
    pub provider_adapter: VpsProviderAdapterPlan,
    pub firewall: VpsFirewallPlan,
    pub bootstrap: VpsBootstrapPlan,
    pub operations: Vec<VpsPlannedOperation>,
}

#[derive(Debug, Clone, PartialEq, Eq)]
pub struct VpsRuntimeConfig {
    pub provider: InfrastructureProvider,
    pub environment: ProvisioningEnvironment,
    pub data_region: ProvisioningDataRegion,
    pub site: ProvisioningSite,
    pub service: ProvisioningService,
    pub placement_kind: ProvisioningPlacementKind,
    pub plan: ProvisioningInstancePlan,
    pub image: MachineImageRef,
    pub node_type: ProvisioningNodeType,
    pub ingress_mode: ProvisioningIngressMode,
    pub runtime: ProvisioningRuntime,
    pub hostname: String,
    pub provider_label: String,
    pub replica_ordinal: u32,
    pub provider_tags: Vec<String>,
    pub nats_role: Option<ProvisioningNatsRole>,
    pub typesense_role: Option<ProvisioningTypesenseRole>,
    pub foundationdb_role: Option<ProvisioningFoundationDbRole>,
    pub workload_role: Option<ProvisioningWorkloadRole>,
}

#[derive(Debug, Clone, PartialEq, Eq)]
pub struct VpsProviderAdapterPlan {
    pub provider: InfrastructureProvider,
    pub provider_location_id: String,
    pub instance_plan_id: String,
    pub image_ref: String,
    pub os_id: String,
    pub provider_neutral: bool,
}

#[derive(Debug, Clone, PartialEq, Eq)]
pub struct VpsFirewallPlan {
    pub temporary_public_bootstrap_ssh_cidrs: Vec<String>,
    pub admin_tailnet_cidrs: Vec<String>,
    pub private_tcp_ports: Vec<u32>,
    pub public_tcp_ports: Vec<u32>,
    pub public_ingress_allowed: bool,
}

#[derive(Debug, Clone, PartialEq, Eq)]
pub struct VpsBootstrapPlan {
    pub tailnet_bootstrap: bool,
    pub required_secret_refs: Vec<ProvisioningSecretRef>,
}

#[derive(Debug, Clone, PartialEq, Eq)]
pub struct VpsPlannedOperation {
    pub action: ProvisioningLifecycleAction,
    pub phase: String,
}

#[derive(Debug, Clone, Copy, PartialEq, Eq)]
pub struct VpsValidationError {
    pub reason: VpsValidationErrorReason,
}

#[derive(Debug, Clone, Copy, PartialEq, Eq, Structural)]
pub enum VpsValidationErrorReason {
    UnsupportedSchemaVersion,
    InvalidIdentifier,
    InvalidAction,
    InvalidRole,
    InvalidPort,
    InvalidCidr,
    MissingBootstrapCidr,
    MissingSecretRef,
    MissingImageRef,
    InvalidProviderPlan,
    InvalidNodeType,
    PublicPortRequiresPublicIngress,
}

#[derive(Debug, Clone, PartialEq, Eq)]
pub struct ApplyInfraRequest {
    pub environment_id: String,
    pub plan_run_id: String,
    pub approved_by: WorkflowActor,
    pub expected_git_commit: Option<String>,
}

#[derive(Debug, Clone, PartialEq, Eq)]
pub struct ApplyInfraResponse {
    pub run: WorkflowRun,
}

#[derive(Debug, Clone, PartialEq, Eq)]
pub struct WorkflowRun {
    pub run_id: String,
    pub environment_id: String,
    pub kind: WorkflowRunKind,
    pub status: WorkflowRunStatus,
    pub requested_by: WorkflowActor,
    pub approved_by: Option<WorkflowActor>,
    pub created_at: HephaestusTimestamp,
    pub updated_at: HephaestusTimestamp,
    pub git_commit: Option<String>,
    pub plan_run_id: Option<String>,
    pub artifacts: Vec<WorkflowArtifact>,
    pub target: ServiceActionTarget,
}

#[derive(Debug, Clone, Copy, PartialEq, Eq, Structural)]
pub enum WorkflowRunKind {
    TofuPlan,
    TofuApply,
    Ansible,
    HealthCheck,
    Recovery,
}

#[derive(Debug, Clone, Copy, PartialEq, Eq, Structural)]
pub enum WorkflowRunStatus {
    Queued,
    Running,
    Succeeded,
    Failed,
    WaitingForApproval,
    Cancelled,
    PreflightRunning,
    ConfirmationRequired,
    TimedOut,
}

#[derive(Debug, Clone, PartialEq, Eq)]
pub struct WorkflowArtifact {
    pub kind: WorkflowArtifactKind,
    pub relative_path: String,
    pub redacted: bool,
}

#[derive(Debug, Clone, PartialEq, Eq)]
pub struct RunbookCatalog {
    pub schema_version: u32,
    pub catalog_id: String,
    pub description: String,
    pub environments: Vec<RunbookEnvironmentDefinition>,
    pub actions: Vec<RunbookActionDefinition>,
    pub monitoring_signals: Vec<RunbookMonitoringSignal>,
    pub catalog_references: Vec<RunbookCatalogReference>,
    pub execution_policy: Option<RunbookExecutionPolicy>,
    pub defaults: Option<RunbookCatalogDefaults>,
    pub risk_levels: Vec<RunbookRiskDefinition>,
    pub preflight_checks: Vec<RunbookPreflightCheckDefinition>,
    pub topology_templates: Vec<RunbookTopologyTemplate>,
    pub server_types: Vec<RunbookServerType>,
    pub server_templates: Vec<RunbookServerTemplate>,
    pub resource_templates: Vec<RunbookResourceTemplate>,
    pub region_policies: Vec<RunbookRegionPolicy>,
    pub lifecycle_model: Vec<String>,
    pub action_state_model: Vec<String>,
    pub dashboard_contract: Option<RunbookDashboardContract>,
}

#[derive(Debug, Clone, PartialEq, Eq)]
pub struct RunbookCatalogDefaults {
    pub working_directory: String,
    pub command_model: String,
    pub operator_model: String,
    pub audit_log_required: bool,
    pub secret_policy: String,
}

#[derive(Debug, Clone, PartialEq, Eq)]
pub struct RunbookRiskDefinition {
    pub risk_id: String,
    pub requires_confirmation: bool,
    pub description: String,
}

#[derive(Debug, Clone, PartialEq, Eq)]
pub struct RunbookEnvironmentDefinition {
    pub environment_id: String,
    pub display_name: String,
    pub environment_type: String,
    pub jurisdiction: String,
    pub primary_site: Option<String>,
    pub server_type: String,
    pub topology_template: Option<String>,
    pub topology_summary: Option<String>,
}

#[derive(Debug, Clone, PartialEq, Eq)]
pub struct RunbookActionDefinition {
    pub action_id: String,
    pub display_name: String,
    pub category: String,
    pub phase: String,
    pub risk: RunbookRiskLevel,
    pub supported_environment_ids: Vec<String>,
    pub operator_confirmation: Option<RunbookOperatorConfirmation>,
    pub preflight_checks: Vec<String>,
    pub success_indicators: Vec<String>,
    pub commands: Vec<RunbookEnvironmentCommand>,
    pub required_environment_variables: Vec<String>,
    pub required_files: Vec<RunbookEnvironmentRequiredFiles>,
    pub implementation_status: Option<String>,
}

#[derive(Debug, Clone, PartialEq, Eq)]
pub struct RunbookCatalogReference {
    pub catalog_kind: String,
    pub catalog_id: String,
    pub path: String,
    pub required_for: Vec<String>,
}

#[derive(Debug, Clone, PartialEq, Eq)]
pub struct RunbookExecutionPolicy {
    pub no_free_form_shell: bool,
    pub resolve_executables_relative_to_repo_root: bool,
    pub run_with_empty_inherited_environment: bool,
    pub allowlist_environment_variables_only: bool,
    pub capture_stdout_stderr: bool,
    pub redact_output_before_display: bool,
    pub write_structured_audit_events: bool,
    pub per_environment_change_lock_required: bool,
    pub default_timeout_seconds: u32,
    pub max_timeout_seconds: u32,
    pub notes: Option<String>,
}

#[derive(Debug, Clone, PartialEq, Eq)]
pub struct RunbookEnvironmentCommand {
    pub environment_id: String,
    pub command: RunbookCommandSpec,
}

#[derive(Debug, Clone, PartialEq, Eq)]
pub struct RunbookCommandSpec {
    pub executable: String,
    pub args: Vec<String>,
}

#[derive(Debug, Clone, PartialEq, Eq)]
pub struct RunbookEnvironmentRequiredFiles {
    pub environment_id: String,
    pub relative_paths: Vec<String>,
}

#[derive(Debug, Clone, Copy, PartialEq, Eq, Structural)]
pub enum RunbookRiskLevel {
    Read,
    Change,
    Destructive,
}

#[derive(Debug, Clone, PartialEq, Eq)]
pub struct RunbookOperatorConfirmation {
    pub style: RunbookConfirmationStyle,
    pub typed_text: Option<String>,
    pub message: String,
}

#[derive(Debug, Clone, Copy, PartialEq, Eq, Structural)]
pub enum RunbookConfirmationStyle {
    DashboardConfirm,
    Typed,
}

#[derive(Debug, Clone, PartialEq, Eq)]
pub struct RunbookMonitoringSignal {
    pub signal_id: String,
    pub applies_to_server_types: Vec<String>,
    pub checks: Vec<String>,
    pub dashboard_fields: Vec<String>,
}

#[derive(Debug, Clone, PartialEq, Eq)]
pub struct RunbookPreflightCheckDefinition {
    pub preflight_id: String,
    pub category: String,
    pub description: String,
}

#[derive(Debug, Clone, PartialEq, Eq)]
pub struct RunbookTopologyTemplate {
    pub template_id: String,
    pub display_name: String,
    pub description: String,
    pub allowed_environment_types: Vec<String>,
    pub region_strategy: String,
    pub site_roles: Vec<RunbookTopologySiteRole>,
    pub server_groups: Vec<RunbookTopologyServerGroup>,
    pub database_policy: Option<RunbookDatabasePolicy>,
    pub resources: Vec<String>,
    pub image_selection: Option<RunbookImageSelectionPolicy>,
}

#[derive(Debug, Clone, PartialEq, Eq)]
pub struct RunbookTopologySiteRole {
    pub role: String,
    pub min_sites: u32,
    pub max_sites: u32,
    pub data_bearing: bool,
}

#[derive(Debug, Clone, PartialEq, Eq)]
pub struct RunbookTopologyServerGroup {
    pub name: String,
    pub server_type: String,
    pub min_count: u32,
    pub default_count: u32,
    pub max_count: Option<u32>,
    pub resize_policy: String,
}

#[derive(Debug, Clone, PartialEq, Eq)]
pub struct RunbookDatabasePolicy {
    pub redundancy_mode: String,
    pub storage_engine: String,
    pub usable_regions: u32,
    pub backup_required: bool,
}

#[derive(Debug, Clone, PartialEq, Eq)]
pub struct RunbookImageSelectionPolicy {
    pub catalog: String,
    pub allowed_image_source_types: Vec<String>,
    pub production_requires_digest: bool,
    pub production_requires_sbom: bool,
    pub production_requires_provenance: bool,
}

#[derive(Debug, Clone, PartialEq, Eq)]
pub struct RunbookServerType {
    pub server_type_id: String,
    pub display_name: String,
    pub runtime: String,
    pub base_role: String,
    pub service_identity_label: Option<String>,
    pub dockerized: bool,
    pub description: String,
}

#[derive(Debug, Clone, PartialEq, Eq)]
pub struct RunbookServerTemplate {
    pub template_id: String,
    pub server_type: String,
    pub provider: String,
    pub os: String,
    pub default_plan: String,
    pub admin_access: String,
    pub storage_policy: String,
    pub public_ingress: Vec<RunbookIngressRule>,
    pub private_ingress: Vec<RunbookIngressRule>,
    pub base_roles: Vec<String>,
    pub service_identity_labels: Vec<String>,
    pub service_contract_required: Vec<String>,
    pub scaling_policy: Option<RunbookScalingPolicy>,
    pub image_selection_policy: Option<RunbookServerImageSelectionPolicy>,
}

#[derive(Debug, Clone, PartialEq, Eq)]
pub struct RunbookIngressRule {
    pub name: String,
    pub port: u32,
    pub source: String,
}

#[derive(Debug, Clone, PartialEq, Eq)]
pub struct RunbookScalingPolicy {
    pub supports_in_place_resize: bool,
    pub supports_additive_scale_out: bool,
    pub requires_database_rebalance_check: bool,
    pub operator_notes: String,
}

#[derive(Debug, Clone, PartialEq, Eq)]
pub struct RunbookServerImageSelectionPolicy {
    pub provider_catalog: String,
    pub image_catalog: String,
    pub allowed_compute_image_sources: Vec<String>,
    pub allowed_container_image_sources: Vec<String>,
    pub production_requires_immutable_digest: bool,
    pub dashboard_must_display_image_apps: bool,
    pub dashboard_must_display_exposed_ports: bool,
    pub dashboard_must_display_volume_policy: bool,
    pub dashboard_must_display_security_metadata: bool,
}

#[derive(Debug, Clone, PartialEq, Eq)]
pub struct RunbookResourceTemplate {
    pub resource_id: String,
    pub provider: String,
    pub resource_type: String,
    pub lifecycle: String,
    pub region_scope: Option<String>,
    pub default_public_ingress: Vec<RunbookIngressRule>,
    pub bootstrap_public_ingress: Vec<RunbookProtocolIngressRule>,
    pub requirements: Vec<String>,
    pub notes: Option<String>,
}

#[derive(Debug, Clone, PartialEq, Eq)]
pub struct RunbookProtocolIngressRule {
    pub protocol: String,
    pub port: u32,
    pub source: String,
}

#[derive(Debug, Clone, PartialEq, Eq)]
pub struct RunbookRegionPolicy {
    pub policy_id: String,
    pub description: String,
}

#[derive(Debug, Clone, PartialEq, Eq)]
pub struct RunbookDashboardContract {
    pub button_enablement: Vec<String>,
    pub future_docker_services: Vec<String>,
}

#[derive(Debug, Clone, Copy, PartialEq, Eq, Structural)]
pub enum WorkflowArtifactKind {
    GitDiff,
    TofuPlanBinary,
    TofuPlanText,
    TofuOutputJson,
    AnsibleLog,
    HealthReport,
    RecoveryReport,
}

#[derive(Debug, Clone, PartialEq, Eq)]
pub struct ServiceActionTarget {
    pub service_id: Option<String>,
    pub service_group_id: Option<String>,
    pub service_kind: ServiceKind,
    pub region_id: Option<String>,
    pub site_id: Option<String>,
    pub tenant_id: Option<String>,
    pub server_id: Option<String>,
}

#[derive(Debug, Clone, Copy, PartialEq, Eq, Structural)]
pub enum WorkflowOperationKind {
    ConfigureService,
    InitializeService,
    FinalizeService,
    DeployService,
    ShowStatus,
    StartBackup,
    CheckBackup,
    RestoreBackup,
}

#[derive(Debug, Clone, PartialEq, Eq)]
pub struct ServiceOperationOptions {
    pub foundationdb_restore_backup: Option<FoundationDbRestoreBackupOptions>,
}

#[derive(Debug, Clone, PartialEq, Eq)]
pub struct RunAnsibleRequest {
    pub environment_id: String,
    pub target: ServiceActionTarget,
    pub operation: WorkflowOperationKind,
    pub requested_by: WorkflowActor,
    pub options: Option<ServiceOperationOptions>,
}

#[derive(Debug, Clone, PartialEq, Eq)]
pub struct RunAnsibleResponse {
    pub run: WorkflowRun,
}

#[derive(Debug, Clone, PartialEq, Eq)]
pub struct FoundationDbRestoreBackupOptions {
    pub mode: RestoreExecutionMode,
    pub selector: Option<FoundationDbRestoreSelector>,
    pub source_url: Option<String>,
}

#[derive(Debug, Clone, PartialEq, Eq)]
pub enum FoundationDbRestoreSelector {
    Timestamp(String),
    Version(String),
}

#[derive(Debug, Clone, Copy, PartialEq, Eq, Structural)]
pub enum RestoreExecutionMode {
    DryRun,
    Execute,
}

#[derive(Debug, Clone, PartialEq, Eq)]
pub struct HealthCheckTarget {
    pub target: ServiceActionTarget,
    pub kind: HealthCheckKind,
}

#[derive(Debug, Clone, Copy, PartialEq, Eq, Structural)]
pub enum HealthCheckKind {
    ProviderState,
    HostState,
    ServiceStatus,
    ReplicationStatus,
    FailoverReadiness,
    BackupStatus,
    EndpointProbe,
}

#[derive(Debug, Clone, PartialEq, Eq)]
pub struct RunHealthChecksRequest {
    pub environment_id: String,
    pub checks: Vec<HealthCheckTarget>,
    pub requested_by: WorkflowActor,
}

#[derive(Debug, Clone, PartialEq, Eq)]
pub struct RunHealthChecksResponse {
    pub run: WorkflowRun,
    pub snapshot: Option<HealthSnapshot>,
    pub infrastructure_snapshot: Option<InfrastructureHealthSnapshot>,
}

#[derive(Debug, Clone, PartialEq, Eq)]
pub struct RunRunbookActionRequest {
    pub environment_id: String,
    pub action_id: String,
    pub requested_by: WorkflowActor,
    pub confirmation_accepted: bool,
    pub confirmation_text: Option<String>,
    pub secret_refs: Vec<String>,
    pub dry_run: bool,
    pub plan_run_id: Option<String>,
    pub actor_role_ids: Vec<String>,
    pub approvals: Vec<RunbookActionApproval>,
    pub break_glass_incident_id: Option<String>,
    pub provisioning_request: Option<ProvisioningRequest>,
}

#[derive(Debug, Clone, PartialEq, Eq)]
pub struct RunRunbookActionResponse {
    pub run: WorkflowRun,
    pub infrastructure_snapshot: Option<InfrastructureHealthSnapshot>,
    pub provisioning_plan: Option<ProvisioningPlan>,
}

#[derive(Debug, Clone, PartialEq, Eq)]
pub struct ProvisioningRequest {
    pub schema_version: u32,
    pub request_id: String,
    pub action: ProvisioningAction,
    pub service: ProvisioningService,
    pub environment: ProvisioningEnvironment,
    pub site: ProvisioningSite,
    pub data_region: ProvisioningDataRegion,
    pub plan: ProvisioningInstancePlan,
    pub machine_image: Option<MachineImageRef>,
    pub ingress_mode: ProvisioningIngressMode,
    pub replicas: u32,
    pub allow_replace: bool,
    pub allow_public_ingress: bool,
    pub secret_refs: Vec<ProvisioningSecretRef>,
    pub dry_run: bool,
    pub nats_role: Option<ProvisioningNatsRole>,
    pub typesense_role: Option<ProvisioningTypesenseRole>,
    pub provider: InfrastructureProvider,
    pub node_type: ProvisioningNodeType,
    pub os: ProvisioningOs,
    pub placement_kind: ProvisioningPlacementKind,
    pub idempotency_key: String,
    pub foundationdb_role: Option<ProvisioningFoundationDbRole>,
    pub workload_role: Option<ProvisioningWorkloadRole>,
}

#[derive(Debug, Clone, PartialEq, Eq)]
pub struct MachineImageRef {
    pub source: ProvisioningMachineImageSource,
    pub image_ref: String,
    pub digest: Option<String>,
    pub os: ProvisioningOs,
}

#[derive(Debug, Clone, PartialEq, Eq)]
pub struct ContainerImageRef {
    pub source: ProvisioningContainerImageSource,
    pub registry: String,
    pub repository: String,
    pub tag: String,
    pub digest: Option<String>,
    pub auth_secret_ref: Option<ProvisioningSecretRef>,
}

#[derive(Debug, Clone, PartialEq, Eq)]
pub struct ProvisioningSecretRef {
    pub id: String,
    pub secret_ref: String,
}

#[derive(Debug, Clone, PartialEq, Eq)]
pub struct ProvisioningPlan {
    pub schema_version: u32,
    pub request_id: String,
    pub action: ProvisioningAction,
    pub supported: bool,
    pub resolution_status: ProvisioningResolutionStatus,
    pub dry_run: bool,
    pub derived: ProvisioningPlanDerived,
    pub execution: ProvisioningPlanExecution,
    pub errors: Vec<String>,
}

#[derive(Debug, Clone, PartialEq, Eq)]
pub struct ProvisioningPlanDerived {
    pub provider: String,
    pub provider_environment_id: Option<String>,
    pub service: ProvisioningService,
    pub environment: ProvisioningEnvironment,
    pub site: ProvisioningSite,
    pub provider_location: String,
    pub data_region: ProvisioningDataRegion,
    pub plan: ProvisioningInstancePlan,
    pub replicas: u32,
    pub ingress_mode: ProvisioningIngressMode,
    pub public_ingress: bool,
    pub tailscale_tags: Vec<TailnetTagKind>,
    pub provider_tags: Vec<String>,
    pub service_port: Option<u32>,
    pub machine_image: Option<MachineImageRef>,
    pub owner_repository: Option<String>,
    pub source_repository: Option<ProvisioningSourceRepository>,
    pub nats_role: Option<ProvisioningNatsRole>,
    pub typesense_role: Option<ProvisioningTypesenseRole>,
    pub provider_kind: InfrastructureProvider,
    pub node_type: ProvisioningNodeType,
    pub os: ProvisioningOs,
    pub placement_kind: ProvisioningPlacementKind,
    pub reconciliation_status: ProvisioningReconciliationStatus,
    pub idempotency_key: String,
    pub foundationdb_role: Option<ProvisioningFoundationDbRole>,
    pub workload_role: Option<ProvisioningWorkloadRole>,
}

#[derive(Debug, Clone, PartialEq, Eq)]
pub struct ProvisioningSourceRepository {
    pub id: String,
    pub kind: String,
    pub owner: String,
    pub repository: String,
    pub owns_services: Vec<String>,
    pub artifact_policy: String,
}

#[derive(Debug, Clone, PartialEq, Eq)]
pub struct ProvisioningPlanExecution {
    pub mode: ProvisioningExecutionMode,
    pub execute_via_shell: bool,
    pub allow_replace: bool,
    pub required_secret_bindings: Vec<ProvisioningRequiredSecretBinding>,
    pub commands: Vec<ProvisioningCommand>,
    pub unsupported_reason: Option<String>,
}

#[derive(Debug, Clone, PartialEq, Eq)]
pub struct ProvisioningRequiredSecretBinding {
    pub id: String,
    pub env_var: String,
    pub secret_ref: String,
}

#[derive(Debug, Clone, PartialEq, Eq)]
pub struct ProvisioningCommand {
    pub phase: String,
    pub executable: String,
    pub argv: Vec<String>,
    pub env: Vec<ProvisioningCommandEnvBinding>,
}

#[derive(Debug, Clone, PartialEq, Eq)]
pub struct ProvisioningCommandEnvBinding {
    pub env_var: String,
    pub from_secret_ref: String,
}

#[derive(Debug, Clone, Copy, PartialEq, Eq, Structural)]
pub enum ProvisioningAction {
    CreateServer,
}

/// The catalog string of each [`ProvisioningAction`] value.
pub open spec fn provisioning_action_catalog_str(v: ProvisioningAction) -> Seq<char> {
    match v {
        ProvisioningAction::CreateServer => "create_server"@,
    }
}

impl ProvisioningAction {
    /// Returns the stable catalog string of this value.
    pub fn as_catalog_str(self) -> (r: &'static str)
        ensures
            r@ == provisioning_action_catalog_str(self),
    {
        match self {
            ProvisioningAction::CreateServer => "create_server",
        }
    }
}

#[derive(Debug, Clone, Copy, PartialEq, Eq, Structural)]
pub enum ProvisioningService {
    Api,
    Web,
    Nats,
    Typesense,
    CaddyEdge,
    Fdb,
    Observability,
}

/// The catalog string of each [`ProvisioningService`] value.
pub open spec fn provisioning_service_catalog_str(v: ProvisioningService) -> Seq<char> {
    match v {
        ProvisioningService::Api => "api"@,
        ProvisioningService::Web => "web"@,
        ProvisioningService::Nats => "nats"@,
        ProvisioningService::Typesense => "typesense"@,
        ProvisioningService::CaddyEdge => "caddy-edge"@,
        ProvisioningService::Fdb => "fdb"@,
        ProvisioningService::Observability => "observability"@,
    }
}

impl ProvisioningService {
    /// Returns the stable catalog string of this value.
    pub fn as_catalog_str(self) -> (r: &'static str)
        ensures
            r@ == provisioning_service_catalog_str(self),
    {
        match self {
            ProvisioningService::Api => "api",
            ProvisioningService::Web => "web",
            ProvisioningService::Nats => "nats",
            ProvisioningService::Typesense => "typesense",
            ProvisioningService::CaddyEdge => "caddy-edge",
            ProvisioningService::Fdb => "fdb",
            ProvisioningService::Observability => "observability",
        }
    }
}

#[derive(Debug, Clone, Copy, PartialEq, Eq, Structural)]
pub enum ProvisioningEnvironment {
    Staging,
    Prod,
    Dev,
}

/// The catalog string of each [`ProvisioningEnvironment`] value.
pub open spec fn provisioning_environment_catalog_str(v: ProvisioningEnvironment) -> Seq<char> {
    match v {
        ProvisioningEnvironment::Staging => "staging"@,
        ProvisioningEnvironment::Prod => "prod"@,
        ProvisioningEnvironment::Dev => "dev"@,
    }
}

impl ProvisioningEnvironment {
    /// Returns the stable catalog string of this value.
    pub fn as_catalog_str(self) -> (r: &'static str)
        ensures
            r@ == provisioning_environment_catalog_str(self),
    {
        match self {
            ProvisioningEnvironment::Staging => "staging",
            ProvisioningEnvironment::Prod => "prod",
            ProvisioningEnvironment::Dev => "dev",
        }
    }
}

#[derive(Debug, Clone, Copy, PartialEq, Eq, Structural)]
pub enum ProvisioningDataRegion {
    Eu,
    Us,
    NoDataRegion,
}

/// The catalog string of each [`ProvisioningDataRegion`] value.
pub open spec fn provisioning_data_region_catalog_str(v: ProvisioningDataRegion) -> Seq<char> {
    match v {
        ProvisioningDataRegion::Eu => "eu"@,
        ProvisioningDataRegion::Us => "us"@,
        ProvisioningDataRegion::NoDataRegion => "none"@,
    }
}

impl ProvisioningDataRegion {
    /// Returns the stable catalog string of this value.
    pub fn as_catalog_str(self) -> (r: &'static str)
        ensures
            r@ == provisioning_data_region_catalog_str(self),
    {
        match self {
            ProvisioningDataRegion::Eu => "eu",
            ProvisioningDataRegion::Us => "us",
            ProvisioningDataRegion::NoDataRegion => "none",
        }
    }
}

#[derive(Debug, Clone, Copy, PartialEq, Eq, Structural)]
pub enum ProvisioningPlacementKind {
    Regional,
    Edge,
}

/// The catalog string of each [`ProvisioningPlacementKind`] value.
pub open spec fn provisioning_placement_kind_catalog_str(v: ProvisioningPlacementKind) -> Seq<char> {
    match v {
        ProvisioningPlacementKind::Regional => "regional"@,
        ProvisioningPlacementKind::Edge => "edge"@,
    }
}

impl ProvisioningPlacementKind {
    /// Returns the stable catalog string of this value.
    pub fn as_catalog_str(self) -> (r: &'static str)
        ensures
            r@ == provisioning_placement_kind_catalog_str(self),
    {
        match self {
            ProvisioningPlacementKind::Regional => "regional",
            ProvisioningPlacementKind::Edge => "edge",
        }
    }
}

#[derive(Debug, Clone, Copy, PartialEq, Eq, PartialOrd, Ord, Structural)]
pub enum ProvisioningSite {
    Ams,
    Ash,
    Atl,
    Blr,
    Bom,
    Cdg,
    Del,
    Dfw,
    Ewr,
    Fra,
    Gru,
    Hel,
    Hnl,
    Iad,
    Icn,
    Itm,
    Jnb,
    Lax,
    Lej,
    Lhr,
    Mad,
    Man,
    Mel,
    Mex,
    Mia,
    Mxp,
    Nrt,
    Nue,
    Ord,
    Pdx,
    Scl,
    Sea,
    Sin,
    Sjc,
    Sto,
    Syd,
    Tlv,
    Waw,
    Yto,
}

/// The catalog string of each [`ProvisioningSite`] value.
pub open spec fn provisioning_site_catalog_str(v: ProvisioningSite) -> Seq<char> {
    match v {
        ProvisioningSite::Ams => "ams"@,
        ProvisioningSite::Ash => "ash"@,
        ProvisioningSite::Atl => "atl"@,
        ProvisioningSite::Blr => "blr"@,
        ProvisioningSite::Bom => "bom"@,
        ProvisioningSite::Cdg => "cdg"@,
        ProvisioningSite::Del => "del"@,
        ProvisioningSite::Dfw => "dfw"@,
        ProvisioningSite::Ewr => "ewr"@,
        ProvisioningSite::Fra => "fra"@,
        ProvisioningSite::Gru => "gru"@,
        ProvisioningSite::Hel => "hel"@,
        ProvisioningSite::Hnl => "hnl"@,
        ProvisioningSite::Iad => "iad"@,
        ProvisioningSite::Icn => "icn"@,
        ProvisioningSite::Itm => "itm"@,
        ProvisioningSite::Jnb => "jnb"@,
        ProvisioningSite::Lax => "lax"@,
        ProvisioningSite::Lej => "lej"@,
        ProvisioningSite::Lhr => "lhr"@,
        ProvisioningSite::Mad => "mad"@,
        ProvisioningSite::Man => "man"@,
        ProvisioningSite::Mel => "mel"@,
        ProvisioningSite::Mex => "mex"@,
        ProvisioningSite::Mia => "mia"@,
        ProvisioningSite::Mxp => "mxp"@,
        ProvisioningSite::Nrt => "nrt"@,
        ProvisioningSite::Nue => "nue"@,
        ProvisioningSite::Ord => "ord"@,
        ProvisioningSite::Pdx => "pdx"@,
        ProvisioningSite::Scl => "scl"@,
        ProvisioningSite::Sea => "sea"@,
        ProvisioningSite::Sin => "sin"@,
        ProvisioningSite::Sjc => "sjc"@,
        ProvisioningSite::Sto => "sto"@,
        ProvisioningSite::Syd => "syd"@,
        ProvisioningSite::Tlv => "tlv"@,
        ProvisioningSite::Waw => "waw"@,
        ProvisioningSite::Yto => "yto"@,
    }
}

/// The Site whose catalog string has the given code, if any.
pub open spec fn provisioning_site_of_code(n: int) -> Option<ProvisioningSite> {
    if n == 6385011 {
        Some(ProvisioningSite::Ams)
    } else if n == 6386536 {
        Some(ProvisioningSite::Ash)
    } else if n == 6386796 {
        Some(ProvisioningSite::Atl)
    } else if n == 6450290 {
        Some(ProvisioningSite::Blr)
    } else if n == 6451053 {
        Some(ProvisioningSite::Bom)
    } else if n == 6513767 {
        Some(ProvisioningSite::Cdg)
    } else if n == 6579564 {
        Some(ProvisioningSite::Del)
    } else if n == 6579831 {
        Some(ProvisioningSite::Dfw)
    } else if n == 6649714 {
        Some(ProvisioningSite::Ewr)
    } else if n == 6713953 {
        Some(ProvisioningSite::Fra)
    } else if n == 6779509 {
        Some(ProvisioningSite::Gru)
    } else if n == 6841708 {
        Some(ProvisioningSite::Hel)
    } else if n == 6844012 {
        Some(ProvisioningSite::Hnl)
    } else if n == 6906212 {
        Some(ProvisioningSite::Iad)
    } else if n == 6906734 {
        Some(ProvisioningSite::Icn)
    } else if n == 6911085 {
        Some(ProvisioningSite::Itm)
    } else if n == 6975074 {
        Some(ProvisioningSite::Jnb)
    } else if n == 7102840 {
        Some(ProvisioningSite::Lax)
    } else if n == 7103850 {
        Some(ProvisioningSite::Lej)
    } else if n == 7104626 {
        Some(ProvisioningSite::Lhr)
    } else if n == 7168356 {
        Some(ProvisioningSite::Mad)
    } else if n == 7168366 {
        Some(ProvisioningSite::Man)
    } else if n == 7169388 {
        Some(ProvisioningSite::Mel)
    } else if n == 7169400 {
        Some(ProvisioningSite::Mex)
    } else if n == 7170401 {
        Some(ProvisioningSite::Mia)
    } else if n == 7174256 {
        Some(ProvisioningSite::Mxp)
    } else if n == 7238260 {
        Some(ProvisioningSite::Nrt)
    } else if n == 7239013 {
        Some(ProvisioningSite::Nue)
    } else if n == 7303780 {
        Some(ProvisioningSite::Ord)
    } else if n == 7365752 {
        Some(ProvisioningSite::Pdx)
    } else if n == 7562092 {
        Some(ProvisioningSite::Scl)
    } else if n == 7562593 {
        Some(ProvisioningSite::Sea)
    } else if n == 7563630 {
        Some(ProvisioningSite::Sin)
    } else if n == 7563875 {
        Some(ProvisioningSite::Sjc)
    } else if n == 7566447 {
        Some(ProvisioningSite::Sto)
    } else if n == 7567716 {
        Some(ProvisioningSite::Syd)
    } else if n == 7629942 {
        Some(ProvisioningSite::Tlv)
    } else if n == 7823735 {
        Some(ProvisioningSite::Waw)
    } else if n == 7959663 {
        Some(ProvisioningSite::Yto)
    } else {
        None
    }
}

/// Each Site's catalog string has a code that leads back to the Site.
proof fn lemma_provisioning_site_code(v: ProvisioningSite)
    ensures
        provisioning_site_of_code(catalog_code(provisioning_site_catalog_str(v))) == Some(v),
{
    reveal_strlit("ams");
    reveal_strlit("ash");
    reveal_strlit("atl");
    reveal_strlit("blr");
    reveal_strlit("bom");
    reveal_strlit("cdg");
    reveal_strlit("del");
    reveal_strlit("dfw");
    reveal_strlit("ewr");
    reveal_strlit("fra");
    reveal_strlit("gru");
    reveal_strlit("hel");
    reveal_strlit("hnl");
    reveal_strlit("iad");
    reveal_strlit("icn");
    reveal_strlit("itm");
    reveal_strlit("jnb");
    reveal_strlit("lax");
    reveal_strlit("lej");
    reveal_strlit("lhr");
    reveal_strlit("mad");
    reveal_strlit("man");
    reveal_strlit("mel");
    reveal_strlit("mex");
    reveal_strlit("mia");
    reveal_strlit("mxp");
    reveal_strlit("nrt");
    reveal_strlit("nue");
    reveal_strlit("ord");
    reveal_strlit("pdx");
    reveal_strlit("scl");
    reveal_strlit("sea");
    reveal_strlit("sin");
    reveal_strlit("sjc");
    reveal_strlit("sto");
    reveal_strlit("syd");
    reveal_strlit("tlv");
    reveal_strlit("waw");
    reveal_strlit("yto");
    match v {
        ProvisioningSite::Ams => assert(catalog_code("ams"@) == 6385011),
        ProvisioningSite::Ash => assert(catalog_code("ash"@) == 6386536),
        ProvisioningSite::Atl => assert(catalog_code("atl"@) == 6386796),
        ProvisioningSite::Blr => assert(catalog_code("blr"@) == 6450290),
        ProvisioningSite::Bom => assert(catalog_code("bom"@) == 6451053),
        ProvisioningSite::Cdg => assert(catalog_code("cdg"@) == 6513767),
        ProvisioningSite::Del => assert(catalog_code("del"@) == 6579564),
        ProvisioningSite::Dfw => assert(catalog_code("dfw"@) == 6579831),
        ProvisioningSite::Ewr => assert(catalog_code("ewr"@) == 6649714),
        ProvisioningSite::Fra => assert(catalog_code("fra"@) == 6713953),
        ProvisioningSite::Gru => assert(catalog_code("gru"@) == 6779509),
        ProvisioningSite::Hel => assert(catalog_code("hel"@) == 6841708),
        ProvisioningSite::Hnl => assert(catalog_code("hnl"@) == 6844012),
        ProvisioningSite::Iad => assert(catalog_code("iad"@) == 6906212),
        ProvisioningSite::Icn => assert(catalog_code("icn"@) == 6906734),
        ProvisioningSite::Itm => assert(catalog_code("itm"@) == 6911085),
        ProvisioningSite::Jnb => assert(catalog_code("jnb"@) == 6975074),
        ProvisioningSite::Lax => assert(catalog_code("lax"@) == 7102840),
        ProvisioningSite::Lej => assert(catalog_code("lej"@) == 7103850),
        ProvisioningSite::Lhr => assert(catalog_code("lhr"@) == 7104626),
        ProvisioningSite::Mad => assert(catalog_code("mad"@) == 7168356),
        ProvisioningSite::Man => assert(catalog_code("man"@) == 7168366),
        ProvisioningSite::Mel => assert(catalog_code("mel"@) == 7169388),
        ProvisioningSite::Mex => assert(catalog_code("mex"@) == 7169400),
        ProvisioningSite::Mia => assert(catalog_code("mia"@) == 7170401),
        ProvisioningSite::Mxp => assert(catalog_code("mxp"@) == 7174256),
        ProvisioningSite::Nrt => assert(catalog_code("nrt"@) == 7238260),
        ProvisioningSite::Nue => assert(catalog_code("nue"@) == 7239013),
        ProvisioningSite::Ord => assert(catalog_code("ord"@) == 7303780),
        ProvisioningSite::Pdx => assert(catalog_code("pdx"@) == 7365752),
        ProvisioningSite::Scl => assert(catalog_code("scl"@) == 7562092),
        ProvisioningSite::Sea => assert(catalog_code("sea"@) == 7562593),
        ProvisioningSite::Sin => assert(catalog_code("sin"@) == 7563630),
        ProvisioningSite::Sjc => assert(catalog_code("sjc"@) == 7563875),
        ProvisioningSite::Sto => assert(catalog_code("sto"@) == 7566447),
        ProvisioningSite::Syd => assert(catalog_code("syd"@) == 7567716),
        ProvisioningSite::Tlv => assert(catalog_code("tlv"@) == 7629942),
        ProvisioningSite::Waw => assert(catalog_code("waw"@) == 7823735),
        ProvisioningSite::Yto => assert(catalog_code("yto"@) == 7959663),
    }
}

/// Distinct Sites have distinct catalog strings, so a catalog string names
/// exactly one Site.
pub proof fn lemma_provisioning_site_catalog_str_injective(a: ProvisioningSite, b: ProvisioningSite)
    ensures
        provisioning_site_catalog_str(a) == provisioning_site_catalog_str(b) <==> a == b,
{
    lemma_provisioning_site_code(a);
    lemma_provisioning_site_code(b);
}

impl ProvisioningSite {
    /// Returns the stable catalog string of this value.
    pub fn as_catalog_str(self) -> (r: &'static str)
        ensures
            r@ == provisioning_site_catalog_str(self),
    {
        match self {
            ProvisioningSite::Ams => "ams",
            ProvisioningSite::Ash => "ash",
            ProvisioningSite::Atl => "atl",
            ProvisioningSite::Blr => "blr",
            ProvisioningSite::Bom => "bom",
            ProvisioningSite::Cdg => "cdg",
            ProvisioningSite::Del => "del",
            ProvisioningSite::Dfw => "dfw",
            ProvisioningSite::Ewr => "ewr",
            ProvisioningSite::Fra => "fra",
            ProvisioningSite::Gru => "gru",
            ProvisioningSite::Hel => "hel",
            ProvisioningSite::Hnl => "hnl",
            ProvisioningSite::Iad => "iad",
            ProvisioningSite::Icn => "icn",
            ProvisioningSite::Itm => "itm",
            ProvisioningSite::Jnb => "jnb",
            ProvisioningSite::Lax => "lax",
            ProvisioningSite::Lej => "lej",
            ProvisioningSite::Lhr => "lhr",
            ProvisioningSite::Mad => "mad",
            ProvisioningSite::Man => "man",
            ProvisioningSite::Mel => "mel",
            ProvisioningSite::Mex => "mex",
            ProvisioningSite::Mia => "mia",
            ProvisioningSite::Mxp => "mxp",
            ProvisioningSite::Nrt => "nrt",
            ProvisioningSite::Nue => "nue",
            ProvisioningSite::Ord => "ord",
            ProvisioningSite::Pdx => "pdx",
            ProvisioningSite::Scl => "scl",
            ProvisioningSite::Sea => "sea",
            ProvisioningSite::Sin => "sin",
            ProvisioningSite::Sjc => "sjc",
            ProvisioningSite::Sto => "sto",
            ProvisioningSite::Syd => "syd",
            ProvisioningSite::Tlv => "tlv",
            ProvisioningSite::Waw => "waw",
            ProvisioningSite::Yto => "yto",
        }
    }
}

#[derive(Debug, Clone, Copy, PartialEq, Eq, Structural)]
pub enum ProviderLocationCapability {
    Compute,
    LoadBalancer,
    Kubernetes,
    BlockStorage,
    NatGateway,
    PrivateNetwork,
}

#[derive(Debug, Clone, Copy, PartialEq, Eq, Structural)]
pub enum ProviderServerCapability {
    CreateServer,
    DeleteServer,
    GetServer,
    ListPlans,
    ListLocations,
    ListImages,
    AttachFirewall,
    AttachNetwork,
    RenderCloudInit,
    SnapshotGoldenImage,
    RegistryAuth,
}


/// The content of a provider location mapping.
pub struct ProviderLocationView {
    /// The infrastructure provider.
    pub provider: InfrastructureProvider,
    /// The provider's own location identifier.
    pub provider_location_id: Seq<char>,
    /// The ReallyMe Site the location maps to.
    pub site: ProvisioningSite,
    /// The data region of the Site.
    pub data_region: ProvisioningDataRegion,
    /// Whether the Site is regional or edge.
    pub placement_kind: ProvisioningPlacementKind,
    /// The city.
    pub city: Seq<char>,
    /// The country code.
    pub country: Seq<char>,
    /// The provider's network zone.
    pub provider_network_zone: Seq<char>,
    /// The provider capabilities at this location.
    pub capabilities: Seq<ProviderLocationCapability>,
    /// Whether this is the canonical provider location of its Site.
    pub canonical: bool,
    /// Operator notes.
    pub notes: Option<Seq<char>>,
}

/// The view of an optional string slice.
pub open spec fn optional_str_view(v: Option<&'static str>) -> Option<Seq<char>> {
    match v {
        Some(s) => Some(s@),
        None => None,
    }
}

#[derive(Debug, Clone, PartialEq, Eq)]
pub struct ProviderLocationMapping {
    pub provider: InfrastructureProvider,
    pub provider_location_id: String,
    pub site: ProvisioningSite,
    pub data_region: ProvisioningDataRegion,
    pub placement_kind: ProvisioningPlacementKind,
    pub city: String,
    pub country: String,
    pub provider_network_zone: String,
    pub capabilities: Vec<ProviderLocationCapability>,
    pub canonical: bool,
    pub notes: Option<String>,
}

impl View for ProviderLocationMapping {
    type V = ProviderLocationView;

    open spec fn view(&self) -> ProviderLocationView {
        ProviderLocationView {
            provider: self.provider,
            provider_location_id: self.provider_location_id@,
            site: self.site,
            data_region: self.data_region,
            placement_kind: self.placement_kind,
            city: self.city@,
            country: self.country@,
            provider_network_zone: self.provider_network_zone@,
            capabilities: self.capabilities@,
            canonical: self.canonical,
            notes: optional_text(self.notes),
        }
    }
}

#[derive(Debug, Clone, PartialEq, Eq)]
pub struct ProviderLocationMatrix {
    pub locations: Vec<ProviderLocationMapping>,
}

/// One row of the built-in provider location table.
#[derive(Debug, Clone, PartialEq, Eq)]
pub struct StaticProviderLocationMapping {
    pub provider: InfrastructureProvider,
    pub provider_location_id: &'static str,
    pub site: ProvisioningSite,
    pub data_region: ProvisioningDataRegion,
    pub placement_kind: ProvisioningPlacementKind,
    pub city: &'static str,
    pub country: &'static str,
    pub provider_network_zone: &'static str,
    pub capabilities: Vec<ProviderLocationCapability>,
    pub canonical: bool,
    pub notes: Option<&'static str>,
}

impl View for StaticProviderLocationMapping {
    type V = ProviderLocationView;

    open spec fn view(&self) -> ProviderLocationView {
        ProviderLocationView {
            provider: self.provider,
            provider_location_id: self.provider_location_id@,
            site: self.site,
            data_region: self.data_region,
            placement_kind: self.placement_kind,
            city: self.city@,
            country: self.country@,
            provider_network_zone: self.provider_network_zone@,
            capabilities: self.capabilities@,
            canonical: self.canonical,
            notes: optional_str_view(self.notes),
        }
    }
}

/// Copies the capabilities of a location.
fn copy_capabilities(v: &Vec<ProviderLocationCapability>) -> (r: Vec<ProviderLocationCapability>)
    ensures
        r@ == v@,
{
    let mut out: Vec<ProviderLocationCapability> = Vec::new();
    let mut i: usize = 0;
    while i < v.len()
        invariant
            i <= v@.len(),
            out@ == v@.subrange(0, i as int),
        decreases v@.len() - i,
    {
        out.push(v[i]);
        i = i + 1;
        assert(out@ =~= v@.subrange(0, i as int));
    }
    assert(v@.subrange(0, v@.len() as int) =~= v@);
    out
}

impl StaticProviderLocationMapping {
    /// Returns a copy of this row.
    pub fn clone_row(&self) -> (r: Self)
        ensures
            r@ == self@,
    {
        StaticProviderLocationMapping {
            provider: self.provider,
            provider_location_id: self.provider_location_id,
            site: self.site,
            data_region: self.data_region,
            placement_kind: self.placement_kind,
            city: self.city,
            country: self.country,
            provider_network_zone: self.provider_network_zone,
            capabilities: copy_capabilities(&self.capabilities),
            canonical: self.canonical,
            notes: self.notes,
        }
    }

    /// Returns an owned copy of this row.
    pub fn to_owned_mapping(&self) -> (r: ProviderLocationMapping)
        ensures
            r@ == self@,
    {
        let notes = match self.notes {
            Some(n) => Some(n.to_owned()),
            None => None,
        };
        ProviderLocationMapping {
            provider: self.provider,
            provider_location_id: self.provider_location_id.to_owned(),
            site: self.site,
            data_region: self.data_region,
            placement_kind: self.placement_kind,
            city: self.city.to_owned(),
            country: self.country.to_owned(),
            provider_network_zone: self.provider_network_zone.to_owned(),
            capabilities: copy_capabilities(&self.capabilities),
            canonical: self.canonical,
            notes,
        }
    }
}

/// Vultr locations with compute, load balancers, Kubernetes, block storage,
/// NAT gateways and private networks.
pub open spec fn vultr_compute_lb_k8s_nat_spec() -> Seq<ProviderLocationCapability> {
    seq![ProviderLocationCapability::Compute, ProviderLocationCapability::LoadBalancer, ProviderLocationCapability::Kubernetes, ProviderLocationCapability::BlockStorage, ProviderLocationCapability::NatGateway, ProviderLocationCapability::PrivateNetwork]
}

/// Vultr locations with compute, load balancers, Kubernetes, block storage,
/// NAT gateways and private networks.
fn vultr_compute_lb_k8s_nat() -> (r: Vec<ProviderLocationCapability>)
    ensures
        r@ == vultr_compute_lb_k8s_nat_spec(),
{
    vec![ProviderLocationCapability::Compute, ProviderLocationCapability::LoadBalancer, ProviderLocationCapability::Kubernetes, ProviderLocationCapability::BlockStorage, ProviderLocationCapability::NatGateway, ProviderLocationCapability::PrivateNetwork]
}

/// Vultr locations with compute, Kubernetes, block storage, NAT gateways and
/// private networks.
pub open spec fn vultr_compute_k8s_nat_spec() -> Seq<ProviderLocationCapability> {
    seq![ProviderLocationCapability::Compute, ProviderLocationCapability::Kubernetes, ProviderLocationCapability::BlockStorage, ProviderLocationCapability::NatGateway, ProviderLocationCapability::PrivateNetwork]
}

/// Vultr locations with compute, Kubernetes, block storage, NAT gateways and
/// private networks.
fn vultr_compute_k8s_nat() -> (r: Vec<ProviderLocationCapability>)
    ensures
        r@ == vultr_compute_k8s_nat_spec(),
{
    vec![ProviderLocationCapability::Compute, ProviderLocationCapability::Kubernetes, ProviderLocationCapability::BlockStorage, ProviderLocationCapability::NatGateway, ProviderLocationCapability::PrivateNetwork]
}

/// Hetzner Cloud locations with compute, load balancers, block storage and
/// private networks.
pub open spec fn hetzner_cloud_all_spec() -> Seq<ProviderLocationCapability> {
    seq![ProviderLocationCapability::Compute, ProviderLocationCapability::LoadBalancer, ProviderLocationCapability::BlockStorage, ProviderLocationCapability::PrivateNetwork]
}

/// Hetzner Cloud locations with compute, load balancers, block storage and
/// private networks.
fn hetzner_cloud_all() -> (r: Vec<ProviderLocationCapability>)
    ensures
        r@ == hetzner_cloud_all_spec(),
{
    vec![ProviderLocationCapability::Compute, ProviderLocationCapability::LoadBalancer, ProviderLocationCapability::BlockStorage, ProviderLocationCapability::PrivateNetwork]
}

/// The built-in table of provider locations and the ReallyMe Sites they map
/// to, in table order.
pub open spec fn provider_location_table() -> Seq<ProviderLocationView> {
    seq![
        ProviderLocationView {
            provider: InfrastructureProvider::Vultr,
            provider_location_id: "ams"@,
            site: ProvisioningSite::Ams,
            data_region: ProvisioningDataRegion::Eu,
            placement_kind: ProvisioningPlacementKind::Regional,
            city: "Amsterdam"@,
            country: "NL"@,
            provider_network_zone: "Europe"@,
            capabilities: vultr_compute_lb_k8s_nat_spec(),
            canonical: true,
            notes: None,
        },
        ProviderLocationView {
            provider: InfrastructureProvider::Vultr,
            provider_location_id: "atl"@,
            site: ProvisioningSite::Atl,
            data_region: ProvisioningDataRegion::Us,
            placement_kind: ProvisioningPlacementKind::Regional,
            city: "Atlanta"@,
            country: "US"@,
            provider_network_zone: "North America"@,
            capabilities: vultr_compute_lb_k8s_nat_spec(),
            canonical: true,
            notes: None,
        },
        ProviderLocationView {
            provider: InfrastructureProvider::Vultr,
            provider_location_id: "blr"@,
            site: ProvisioningSite::Blr,
            data_region: ProvisioningDataRegion::NoDataRegion,
            placement_kind: ProvisioningPlacementKind::Edge,
            city: "Bangalore"@,
            country: "IN"@,
            provider_network_zone: "Asia"@,
            capabilities: vultr_compute_lb_k8s_nat_spec(),
            canonical: true,
            notes: None,
        },
        ProviderLocationView {
            provider: InfrastructureProvider::Vultr,
            provider_location_id: "bom"@,
            site: ProvisioningSite::Bom,
            data_region: ProvisioningDataRegion::NoDataRegion,
            placement_kind: ProvisioningPlacementKind::Edge,
            city: "Mumbai"@,
            country: "IN"@,
            provider_network_zone: "Asia"@,
            capabilities: vultr_compute_lb_k8s_nat_spec(),
            canonical: true,
            notes: None,
        },
        ProviderLocationView {
            provider: InfrastructureProvider::Vultr,
            provider_location_id: "cdg"@,
            site: ProvisioningSite::Cdg,
            data_region: ProvisioningDataRegion::Eu,
            placement_kind: ProvisioningPlacementKind::Regional,
            city: "Paris"@,
            country: "FR"@,
            provider_network_zone: "Europe"@,
            capabilities: vultr_compute_lb_k8s_nat_spec(),
            canonical: true,
            notes: None,
        },
        ProviderLocationView {
            provider: InfrastructureProvider::Vultr,
            provider_location_id: "del"@,
            site: ProvisioningSite::Del,
            data_region: ProvisioningDataRegion::NoDataRegion,
            placement_kind: ProvisioningPlacementKind::Edge,
            city: "Delhi NCR"@,
            country: "IN"@,
            provider_network_zone: "Asia"@,
            capabilities: vultr_compute_lb_k8s_nat_spec(),
            canonical: true,
            notes: None,
        },
        ProviderLocationView {
            provider: InfrastructureProvider::Vultr,
            provider_location_id: "dfw"@,
            site: ProvisioningSite::Dfw,
            data_region: ProvisioningDataRegion::Us,
            placement_kind: ProvisioningPlacementKind::Regional,
            city: "Dallas"@,
            country: "US"@,
            provider_network_zone: "North America"@,
            capabilities: vultr_compute_lb_k8s_nat_spec(),
            canonical: true,
            notes: None,
        },
        ProviderLocationView {
            provider: InfrastructureProvider::Vultr,
            provider_location_id: "ewr"@,
            site: ProvisioningSite::Ewr,
            data_region: ProvisioningDataRegion::Us,
            placement_kind: ProvisioningPlacementKind::Regional,
            city: "New Jersey"@,
            country: "US"@,
            provider_network_zone: "North America"@,
            capabilities: vultr_compute_lb_k8s_nat_spec(),
            canonical: true,
            notes: None,
        },
        ProviderLocationView {
            provider: InfrastructureProvider::Vultr,
            provider_location_id: "fra"@,
            site: ProvisioningSite::Fra,
            data_region: ProvisioningDataRegion::Eu,
            placement_kind: ProvisioningPlacementKind::Regional,
            city: "Frankfurt"@,
            country: "DE"@,
            provider_network_zone: "Europe"@,
            capabilities: vultr_compute_lb_k8s_nat_spec(),
            canonical: true,
            notes: None,
        },
        ProviderLocationView {
            provider: InfrastructureProvider::Vultr,
            provider_location_id: "hnl"@,
            site: ProvisioningSite::Hnl,
            data_region: ProvisioningDataRegion::Us,
            placement_kind: ProvisioningPlacementKind::Regional,
            city: "Honolulu"@,
            country: "US"@,
            provider_network_zone: "North America"@,
            capabilities: vultr_compute_lb_k8s_nat_spec(),
            canonical: true,
            notes: None,
        },
        ProviderLocationView {
            provider: InfrastructureProvider::Vultr,
            provider_location_id: "icn"@,
            site: ProvisioningSite::Icn,
            data_region: ProvisioningDataRegion::NoDataRegion,
            placement_kind: ProvisioningPlacementKind::Edge,
            city: "Seoul"@,
            country: "KR"@,
            provider_network_zone: "Asia"@,
            capabilities: vultr_compute_lb_k8s_nat_spec(),
            canonical: true,
            notes: None,
        },
        ProviderLocationView {
            provider: InfrastructureProvider::Vultr,
            provider_location_id: "itm"@,
            site: ProvisioningSite::Itm,
            data_region: ProvisioningDataRegion::NoDataRegion,
            placement_kind: ProvisioningPlacementKind::Edge,
            city: "Osaka"@,
            country: "JP"@,
            provider_network_zone: "Asia"@,
            capabilities: vultr_compute_lb_k8s_nat_spec(),
            canonical: true,
            notes: None,
        },
        ProviderLocationView {
            provider: InfrastructureProvider::Vultr,
            provider_location_id: "jnb"@,
            site: ProvisioningSite::Jnb,
            data_region: ProvisioningDataRegion::NoDataRegion,
            placement_kind: ProvisioningPlacementKind::Edge,
            city: "Johannesburg"@,
            country: "ZA"@,
            provider_network_zone: "Africa"@,
            capabilities: vultr_compute_lb_k8s_nat_spec(),
            canonical: true,
            notes: None,
        },
        ProviderLocationView {
            provider: InfrastructureProvider::Vultr,
            provider_location_id: "lax"@,
            site: ProvisioningSite::Lax,
            data_region: ProvisioningDataRegion::Us,
            placement_kind: ProvisioningPlacementKind::Regional,
            city: "Los Angeles"@,
            country: "US"@,
            provider_network_zone: "North America"@,
            capabilities: vultr_compute_lb_k8s_nat_spec(),
            canonical: true,
            notes: None,
        },
        ProviderLocationView {
            provider: InfrastructureProvider::Vultr,
            provider_location_id: "lhr"@,
            site: ProvisioningSite::Lhr,
            data_region: ProvisioningDataRegion::Eu,
            placement_kind: ProvisioningPlacementKind::Regional,
            city: "London"@,
            country: "GB"@,
            provider_network_zone: "Europe"@,
            capabilities: vultr_compute_lb_k8s_nat_spec(),
            canonical: true,
            notes: None,
        },
        ProviderLocationView {
            provider: InfrastructureProvider::Vultr,
            provider_location_id: "mad"@,
            site: ProvisioningSite::Mad,
            data_region: ProvisioningDataRegion::Eu,
            placement_kind: ProvisioningPlacementKind::Regional,
            city: "Madrid"@,
            country: "ES"@,
            provider_network_zone: "Europe"@,
            capabilities: vultr_compute_lb_k8s_nat_spec(),
            canonical: true,
            notes: None,
        },
        ProviderLocationView {
            provider: InfrastructureProvider::Vultr,
            provider_location_id: "man"@,
            site: ProvisioningSite::Man,
            data_region: ProvisioningDataRegion::Eu,
            placement_kind: ProvisioningPlacementKind::Regional,
            city: "Manchester"@,
            country: "GB"@,
            provider_network_zone: "Europe"@,
            capabilities: vultr_compute_lb_k8s_nat_spec(),
            canonical: true,
            notes: None,
        },
        ProviderLocationView {
            provider: InfrastructureProvider::Vultr,
            provider_location_id: "mel"@,
            site: ProvisioningSite::Mel,
            data_region: ProvisioningDataRegion::NoDataRegion,
            placement_kind: ProvisioningPlacementKind::Edge,
            city: "Melbourne"@,
            country: "AU"@,
            provider_network_zone: "Australia"@,
            capabilities: vultr_compute_lb_k8s_nat_spec(),
            canonical: true,
            notes: None,
        },
        ProviderLocationView {
            provider: InfrastructureProvider::Vultr,
            provider_location_id: "mex"@,
            site: ProvisioningSite::Mex,
            data_region: ProvisioningDataRegion::NoDataRegion,
            placement_kind: ProvisioningPlacementKind::Edge,
            city: "Mexico City"@,
            country: "MX"@,
            provider_network_zone: "North America"@,
            capabilities: vultr_compute_lb_k8s_nat_spec(),
            canonical: true,
            notes: None,
        },
        ProviderLocationView {
            provider: InfrastructureProvider::Vultr,
            provider_location_id: "mia"@,
            site: ProvisioningSite::Mia,
            data_region: ProvisioningDataRegion::Us,
            placement_kind: ProvisioningPlacementKind::Regional,
            city: "Miami"@,
            country: "US"@,
            provider_network_zone: "North America"@,
            capabilities: vultr_compute_lb_k8s_nat_spec(),
            canonical: true,
            notes: None,
        },
        ProviderLocationView {
            provider: InfrastructureProvider::Vultr,
            provider_location_id: "mxp"@,
            site: ProvisioningSite::Mxp,
            data_region: ProvisioningDataRegion::Eu,
            placement_kind: ProvisioningPlacementKind::Regional,
            city: "Milan"@,
            country: "IT"@,
            provider_network_zone: "Europe"@,
            capabilities: vultr_compute_k8s_nat_spec(),
            canonical: true,
            notes: Some("Vultr reports no load_balancers option for this location as of the current regions API response."@),
        },
        ProviderLocationView {
            provider: InfrastructureProvider::Vultr,
            provider_location_id: "nrt"@,
            site: ProvisioningSite::Nrt,
            data_region: ProvisioningDataRegion::NoDataRegion,
            placement_kind: ProvisioningPlacementKind::Edge,
            city: "Tokyo"@,
            country: "JP"@,
            provider_network_zone: "Asia"@,
            capabilities: vultr_compute_lb_k8s_nat_spec(),
            canonical: true,
            notes: None,
        },
        ProviderLocationView {
            provider: InfrastructureProvider::Vultr,
            provider_location_id: "ord"@,
            site: ProvisioningSite::Ord,
            data_region: ProvisioningDataRegion::Us,
            placement_kind: ProvisioningPlacementKind::Regional,
            city: "Chicago"@,
            country: "US"@,
            provider_network_zone: "North America"@,
            capabilities: vultr_compute_lb_k8s_nat_spec(),
            canonical: true,
            notes: None,
        },
        ProviderLocationView {
            provider: InfrastructureProvider::Vultr,
            provider_location_id: "sao"@,
            site: ProvisioningSite::Gru,
            data_region: ProvisioningDataRegion::NoDataRegion,
            placement_kind: ProvisioningPlacementKind::Edge,
            city: "Sao Paulo"@,
            country: "BR"@,
            provider_network_zone: "South America"@,
            capabilities: vultr_compute_k8s_nat_spec(),
            canonical: false,
            notes: Some("Provider id is sao; ReallyMe site uses GRU airport code."@),
        },
        ProviderLocationView {
            provider: InfrastructureProvider::Vultr,
            provider_location_id: "scl"@,
            site: ProvisioningSite::Scl,
            data_region: ProvisioningDataRegion::NoDataRegion,
            placement_kind: ProvisioningPlacementKind::Edge,
            city: "Santiago"@,
            country: "CL"@,
            provider_network_zone: "South America"@,
            capabilities: vultr_compute_lb_k8s_nat_spec(),
            canonical: true,
            notes: None,
        },
        ProviderLocationView {
            provider: InfrastructureProvider::Vultr,
            provider_location_id: "sea"@,
            site: ProvisioningSite::Sea,
            data_region: ProvisioningDataRegion::Us,
            placement_kind: ProvisioningPlacementKind::Regional,
            city: "Seattle"@,
            country: "US"@,
            provider_network_zone: "North America"@,
            capabilities: vultr_compute_lb_k8s_nat_spec(),
            canonical: true,
            notes: None,
        },
        ProviderLocationView {
            provider: InfrastructureProvider::Vultr,
            provider_location_id: "sgp"@,
            site: ProvisioningSite::Sin,
            data_region: ProvisioningDataRegion::NoDataRegion,
            placement_kind: ProvisioningPlacementKind::Edge,
            city: "Singapore"@,
            country: "SG"@,
            provider_network_zone: "Asia"@,
            capabilities: vultr_compute_lb_k8s_nat_spec(),
            canonical: false,
            notes: Some("Provider id is sgp; ReallyMe site uses SIN airport code."@),
        },
        ProviderLocationView {
            provider: InfrastructureProvider::Vultr,
            provider_location_id: "sjc"@,
            site: ProvisioningSite::Sjc,
            data_region: ProvisioningDataRegion::Us,
            placement_kind: ProvisioningPlacementKind::Regional,
            city: "Silicon Valley"@,
            country: "US"@,
            provider_network_zone: "North America"@,
            capabilities: vultr_compute_lb_k8s_nat_spec(),
            canonical: true,
            notes: None,
        },
        ProviderLocationView {
            provider: InfrastructureProvider::Vultr,
            provider_location_id: "sto"@,
            site: ProvisioningSite::Sto,
            data_region: ProvisioningDataRegion::Eu,
            placement_kind: ProvisioningPlacementKind::Regional,
            city: "Stockholm"@,
            country: "SE"@,
            provider_network_zone: "Europe"@,
            capabilities: vultr_compute_lb_k8s_nat_spec(),
            canonical: true,
            notes: None,
        },
        ProviderLocationView {
            provider: InfrastructureProvider::Vultr,
            provider_location_id: "syd"@,
            site: ProvisioningSite::Syd,
            data_region: ProvisioningDataRegion::NoDataRegion,
            placement_kind: ProvisioningPlacementKind::Edge,
            city: "Sydney"@,
            country: "AU"@,
            provider_network_zone: "Australia"@,
            capabilities: vultr_compute_lb_k8s_nat_spec(),
            canonical: true,
            notes: None,
        },
        ProviderLocationView {
            provider: InfrastructureProvider::Vultr,
            provider_location_id: "tlv"@,
            site: ProvisioningSite::Tlv,
            data_region: ProvisioningDataRegion::NoDataRegion,
            placement_kind: ProvisioningPlacementKind::Edge,
            city: "Tel Aviv"@,
            country: "IL"@,
            provider_network_zone: "Asia"@,
            capabilities: vultr_compute_lb_k8s_nat_spec(),
            canonical: true,
            notes: None,
        },
        ProviderLocationView {
            provider: InfrastructureProvider::Vultr,
            provider_location_id: "waw"@,
            site: ProvisioningSite::Waw,
            data_region: ProvisioningDataRegion::Eu,
            placement_kind: ProvisioningPlacementKind::Regional,
            city: "Warsaw"@,
            country: "PL"@,
            provider_network_zone: "Europe"@,
            capabilities: vultr_compute_lb_k8s_nat_spec(),
            canonical: true,
            notes: None,
        },
        ProviderLocationView {
            provider: InfrastructureProvider::Vultr,
            provider_location_id: "yto"@,
            site: ProvisioningSite::Yto,
            data_region: ProvisioningDataRegion::NoDataRegion,
            placement_kind: ProvisioningPlacementKind::Edge,
            city: "Toronto"@,
            country: "CA"@,
            provider_network_zone: "North America"@,
            capabilities: vultr_compute_lb_k8s_nat_spec(),
            canonical: true,
            notes: None,
        },
        ProviderLocationView {
            provider: InfrastructureProvider::Hetzner,
            provider_location_id: "fsn1"@,
            site: ProvisioningSite::Lej,
            data_region: ProvisioningDataRegion::Eu,
            placement_kind: ProvisioningPlacementKind::Regional,
            city: "Falkenstein"@,
            country: "DE"@,
            provider_network_zone: "eu-central"@,
            capabilities: hetzner_cloud_all_spec(),
            canonical: false,
            notes: Some("Falkenstein maps to the Leipzig-area airport code LEJ."@),
        },
        ProviderLocationView {
            provider: InfrastructureProvider::Hetzner,
            provider_location_id: "nbg1"@,
            site: ProvisioningSite::Nue,
            data_region: ProvisioningDataRegion::Eu,
            placement_kind: ProvisioningPlacementKind::Regional,
            city: "Nuremberg"@,
            country: "DE"@,
            provider_network_zone: "eu-central"@,
            capabilities: hetzner_cloud_all_spec(),
            canonical: false,
            notes: Some("Provider id nbg1 maps to airport code NUE."@),
        },
        ProviderLocationView {
            provider: InfrastructureProvider::Hetzner,
            provider_location_id: "hel1"@,
            site: ProvisioningSite::Hel,
            data_region: ProvisioningDataRegion::Eu,
            placement_kind: ProvisioningPlacementKind::Regional,
            city: "Helsinki"@,
            country: "FI"@,
            provider_network_zone: "eu-central"@,
            capabilities: hetzner_cloud_all_spec(),
            canonical: false,
            notes: Some("Provider id hel1 maps to airport code HEL."@),
        },
        ProviderLocationView {
            provider: InfrastructureProvider::Hetzner,
            provider_location_id: "ash"@,
            site: ProvisioningSite::Iad,
            data_region: ProvisioningDataRegion::Us,
            placement_kind: ProvisioningPlacementKind::Regional,
            city: "Ashburn"@,
            country: "US"@,
            provider_network_zone: "us-east"@,
            capabilities: hetzner_cloud_all_spec(),
            canonical: false,
            notes: Some("Provider id ash maps to the Washington Dulles airport code IAD."@),
        },
        ProviderLocationView {
            provider: InfrastructureProvider::Hetzner,
            provider_location_id: "hil"@,
            site: ProvisioningSite::Pdx,
            data_region: ProvisioningDataRegion::Us,
            placement_kind: ProvisioningPlacementKind::Regional,
            city: "Hillsboro"@,
            country: "US"@,
            provider_network_zone: "us-west"@,
            capabilities: hetzner_cloud_all_spec(),
            canonical: false,
            notes: Some("Provider id hil maps to the Portland-area airport code PDX."@),
        },
        ProviderLocationView {
            provider: InfrastructureProvider::Hetzner,
            provider_location_id: "sin"@,
            site: ProvisioningSite::Sin,
            data_region: ProvisioningDataRegion::NoDataRegion,
            placement_kind: ProvisioningPlacementKind::Edge,
            city: "Singapore"@,
            country: "SG"@,
            provider_network_zone: "ap-southeast"@,
            capabilities: hetzner_cloud_all_spec(),
            canonical: true,
            notes: None,
        },
    ]
}

/// One row of the table.
fn location_row(
    provider: InfrastructureProvider,
    provider_location_id: &'static str,
    site: ProvisioningSite,
    data_region: ProvisioningDataRegion,
    placement_kind: ProvisioningPlacementKind,
    city: &'static str,
    country: &'static str,
    provider_network_zone: &'static str,
    capabilities: Vec<ProviderLocationCapability>,
    canonical: bool,
    notes: Option<&'static str>,
) -> (r: StaticProviderLocationMapping)
    ensures
        r@ == (ProviderLocationView {
            provider,
            provider_location_id: provider_location_id@,
            site,
            data_region,
            placement_kind,
            city: city@,
            country: country@,
            provider_network_zone: provider_network_zone@,
            capabilities: capabilities@,
            canonical,
            notes: optional_str_view(notes),
        }),
{
    StaticProviderLocationMapping {
        provider,
        provider_location_id,
        site,
        data_region,
        placement_kind,
        city,
        country,
        provider_network_zone,
        capabilities,
        canonical,
        notes,
    }
}

/// Returns the rows of the built-in provider location table, in order.
#[verifier::rlimit(50)]
pub fn provider_location_entries() -> (r: Vec<StaticProviderLocationMapping>)
    ensures
        r@.len() == provider_location_table().len(),
        forall|i: int| 0 <= i < r@.len() ==> (#[trigger] r@[i])@ == provider_location_table()[i],
{
    let mut rows: Vec<StaticProviderLocationMapping> = Vec::new();
    rows.push(location_row(InfrastructureProvider::Vultr, "ams", ProvisioningSite::Ams, ProvisioningDataRegion::Eu, ProvisioningPlacementKind::Regional, "Amsterdam", "NL", "Europe", vultr_compute_lb_k8s_nat(), true, None));
    rows.push(location_row(InfrastructureProvider::Vultr, "atl", ProvisioningSite::Atl, ProvisioningDataRegion::Us, ProvisioningPlacementKind::Regional, "Atlanta", "US", "North America", vultr_compute_lb_k8s_nat(), true, None));
    rows.push(location_row(InfrastructureProvider::Vultr, "blr", ProvisioningSite::Blr, ProvisioningDataRegion::NoDataRegion, ProvisioningPlacementKind::Edge, "Bangalore", "IN", "Asia", vultr_compute_lb_k8s_nat(), true, None));
    rows.push(location_row(InfrastructureProvider::Vultr, "bom", ProvisioningSite::Bom, ProvisioningDataRegion::NoDataRegion, ProvisioningPlacementKind::Edge, "Mumbai", "IN", "Asia", vultr_compute_lb_k8s_nat(), true, None));
    rows.push(location_row(InfrastructureProvider::Vultr, "cdg", ProvisioningSite::Cdg, ProvisioningDataRegion::Eu, ProvisioningPlacementKind::Regional, "Paris", "FR", "Europe", vultr_compute_lb_k8s_nat(), true, None));
    rows.push(location_row(InfrastructureProvider::Vultr, "del", ProvisioningSite::Del, ProvisioningDataRegion::NoDataRegion, ProvisioningPlacementKind::Edge, "Delhi NCR", "IN", "Asia", vultr_compute_lb_k8s_nat(), true, None));
    rows.push(location_row(InfrastructureProvider::Vultr, "dfw", ProvisioningSite::Dfw, ProvisioningDataRegion::Us, ProvisioningPlacementKind::Regional, "Dallas", "US", "North America", vultr_compute_lb_k8s_nat(), true, None));
    rows.push(location_row(InfrastructureProvider::Vultr, "ewr", ProvisioningSite::Ewr, ProvisioningDataRegion::Us, ProvisioningPlacementKind::Regional, "New Jersey", "US", "North America", vultr_compute_lb_k8s_nat(), true, None));
    rows.push(location_row(InfrastructureProvider::Vultr, "fra", ProvisioningSite::Fra, ProvisioningDataRegion::Eu, ProvisioningPlacementKind::Regional, "Frankfurt", "DE", "Europe", vultr_compute_lb_k8s_nat(), true, None));
    rows.push(location_row(InfrastructureProvider::Vultr, "hnl", ProvisioningSite::Hnl, ProvisioningDataRegion::Us, ProvisioningPlacementKind::Regional, "Honolulu", "US", "North America", vultr_compute_lb_k8s_nat(), true, None));
    rows.push(location_row(InfrastructureProvider::Vultr, "icn", ProvisioningSite::Icn, ProvisioningDataRegion::NoDataRegion, ProvisioningPlacementKind::Edge, "Seoul", "KR", "Asia", vultr_compute_lb_k8s_nat(), true, None));
    rows.push(location_row(InfrastructureProvider::Vultr, "itm", ProvisioningSite::Itm, ProvisioningDataRegion::NoDataRegion, ProvisioningPlacementKind::Edge, "Osaka", "JP", "Asia", vultr_compute_lb_k8s_nat(), true, None));
    rows.push(location_row(InfrastructureProvider::Vultr, "jnb", ProvisioningSite::Jnb, ProvisioningDataRegion::NoDataRegion, ProvisioningPlacementKind::Edge, "Johannesburg", "ZA", "Africa", vultr_compute_lb_k8s_nat(), true, None));
    rows.push(location_row(InfrastructureProvider::Vultr, "lax", ProvisioningSite::Lax, ProvisioningDataRegion::Us, ProvisioningPlacementKind::Regional, "Los Angeles", "US", "North America", vultr_compute_lb_k8s_nat(), true, None));
    rows.push(location_row(InfrastructureProvider::Vultr, "lhr", ProvisioningSite::Lhr, ProvisioningDataRegion::Eu, ProvisioningPlacementKind::Regional, "London", "GB", "Europe", vultr_compute_lb_k8s_nat(), true, None));
    rows.push(location_row(InfrastructureProvider::Vultr, "mad", ProvisioningSite::Mad, ProvisioningDataRegion::Eu, ProvisioningPlacementKind::Regional, "Madrid", "ES", "Europe", vultr_compute_lb_k8s_nat(), true, None));
    rows.push(location_row(InfrastructureProvider::Vultr, "man", ProvisioningSite::Man, ProvisioningDataRegion::Eu, ProvisioningPlacementKind::Regional, "Manchester", "GB", "Europe", vultr_compute_lb_k8s_nat(), true, None));
    rows.push(location_row(InfrastructureProvider::Vultr, "mel", ProvisioningSite::Mel, ProvisioningDataRegion::NoDataRegion, ProvisioningPlacementKind::Edge, "Melbourne", "AU", "Australia", vultr_compute_lb_k8s_nat(), true, None));
    rows.push(location_row(InfrastructureProvider::Vultr, "mex", ProvisioningSite::Mex, ProvisioningDataRegion::NoDataRegion, ProvisioningPlacementKind::Edge, "Mexico City", "MX", "North America", vultr_compute_lb_k8s_nat(), true, None));
    rows.push(location_row(InfrastructureProvider::Vultr, "mia", ProvisioningSite::Mia, ProvisioningDataRegion::Us, ProvisioningPlacementKind::Regional, "Miami", "US", "North America", vultr_compute_lb_k8s_nat(), true, None));
    rows.push(location_row(InfrastructureProvider::Vultr, "mxp", ProvisioningSite::Mxp, ProvisioningDataRegion::Eu, ProvisioningPlacementKind::Regional, "Milan", "IT", "Europe", vultr_compute_k8s_nat(), true, Some("Vultr reports no load_balancers option for this location as of the current regions API response.")));
    rows.push(location_row(InfrastructureProvider::Vultr, "nrt", ProvisioningSite::Nrt, ProvisioningDataRegion::NoDataRegion, ProvisioningPlacementKind::Edge, "Tokyo", "JP", "Asia", vultr_compute_lb_k8s_nat(), true, None));
    rows.push(location_row(InfrastructureProvider::Vultr, "ord", ProvisioningSite::Ord, ProvisioningDataRegion::Us, ProvisioningPlacementKind::Regional, "Chicago", "US", "North America", vultr_compute_lb_k8s_nat(), true, None));
    rows.push(location_row(InfrastructureProvider::Vultr, "sao", ProvisioningSite::Gru, ProvisioningDataRegion::NoDataRegion, ProvisioningPlacementKind::Edge, "Sao Paulo", "BR", "South America", vultr_compute_k8s_nat(), false, Some("Provider id is sao; ReallyMe site uses GRU airport code.")));
    rows.push(location_row(InfrastructureProvider::Vultr, "scl", ProvisioningSite::Scl, ProvisioningDataRegion::NoDataRegion, ProvisioningPlacementKind::Edge, "Santiago", "CL", "South America", vultr_compute_lb_k8s_nat(), true, None));
    rows.push(location_row(InfrastructureProvider::Vultr, "sea", ProvisioningSite::Sea, ProvisioningDataRegion::Us, ProvisioningPlacementKind::Regional, "Seattle", "US", "North America", vultr_compute_lb_k8s_nat(), true, None));
    rows.push(location_row(InfrastructureProvider::Vultr, "sgp", ProvisioningSite::Sin, ProvisioningDataRegion::NoDataRegion, ProvisioningPlacementKind::Edge, "Singapore", "SG", "Asia", vultr_compute_lb_k8s_nat(), false, Some("Provider id is sgp; ReallyMe site uses SIN airport code.")));
    rows.push(location_row(InfrastructureProvider::Vultr, "sjc", ProvisioningSite::Sjc, ProvisioningDataRegion::Us, ProvisioningPlacementKind::Regional, "Silicon Valley", "US", "North America", vultr_compute_lb_k8s_nat(), true, None));
    rows.push(location_row(InfrastructureProvider::Vultr, "sto", ProvisioningSite::Sto, ProvisioningDataRegion::Eu, ProvisioningPlacementKind::Regional, "Stockholm", "SE", "Europe", vultr_compute_lb_k8s_nat(), true, None));
    rows.push(location_row(InfrastructureProvider::Vultr, "syd", ProvisioningSite::Syd, ProvisioningDataRegion::NoDataRegion, ProvisioningPlacementKind::Edge, "Sydney", "AU", "Australia", vultr_compute_lb_k8s_nat(), true, None));
    rows.push(location_row(InfrastructureProvider::Vultr, "tlv", ProvisioningSite::Tlv, ProvisioningDataRegion::NoDataRegion, ProvisioningPlacementKind::Edge, "Tel Aviv", "IL", "Asia", vultr_compute_lb_k8s_nat(), true, None));
    rows.push(location_row(InfrastructureProvider::Vultr, "waw", ProvisioningSite::Waw, ProvisioningDataRegion::Eu, ProvisioningPlacementKind::Regional, "Warsaw", "PL", "Europe", vultr_compute_lb_k8s_nat(), true, None));
    rows.push(location_row(InfrastructureProvider::Vultr, "yto", ProvisioningSite::Yto, ProvisioningDataRegion::NoDataRegion, ProvisioningPlacementKind::Edge, "Toronto", "CA", "North America", vultr_compute_lb_k8s_nat(), true, None));
    rows.push(location_row(InfrastructureProvider::Hetzner, "fsn1", ProvisioningSite::Lej, ProvisioningDataRegion::Eu, ProvisioningPlacementKind::Regional, "Falkenstein", "DE", "eu-central", hetzner_cloud_all(), false, Some("Falkenstein maps to the Leipzig-area airport code LEJ.")));
    rows.push(location_row(InfrastructureProvider::Hetzner, "nbg1", ProvisioningSite::Nue, ProvisioningDataRegion::Eu, ProvisioningPlacementKind::Regional, "Nuremberg", "DE", "eu-central", hetzner_cloud_all(), false, Some("Provider id nbg1 maps to airport code NUE.")));
    rows.push(location_row(InfrastructureProvider::Hetzner, "hel1", ProvisioningSite::Hel, ProvisioningDataRegion::Eu, ProvisioningPlacementKind::Regional, "Helsinki", "FI", "eu-central", hetzner_cloud_all(), false, Some("Provider id hel1 maps to airport code HEL.")));
    rows.push(location_row(InfrastructureProvider::Hetzner, "ash", ProvisioningSite::Iad, ProvisioningDataRegion::Us, ProvisioningPlacementKind::Regional, "Ashburn", "US", "us-east", hetzner_cloud_all(), false, Some("Provider id ash maps to the Washington Dulles airport code IAD.")));
    rows.push(location_row(InfrastructureProvider::Hetzner, "hil", ProvisioningSite::Pdx, ProvisioningDataRegion::Us, ProvisioningPlacementKind::Regional, "Hillsboro", "US", "us-west", hetzner_cloud_all(), false, Some("Provider id hil maps to the Portland-area airport code PDX.")));
    rows.push(location_row(InfrastructureProvider::Hetzner, "sin", ProvisioningSite::Sin, ProvisioningDataRegion::NoDataRegion, ProvisioningPlacementKind::Edge, "Singapore", "SG", "ap-southeast", hetzner_cloud_all(), true, None));
    rows
}

/// Returns the built-in provider location table as owned mappings.
pub fn provider_location_matrix() -> (r: ProviderLocationMatrix)
    ensures
        r.locations@.len() == provider_location_table().len(),
        forall|i: int|
            0 <= i < r.locations@.len() ==> (#[trigger] r.locations@[i])@ == provider_location_table()[i],
{
    let rows = provider_location_entries();
    let mut locations: Vec<ProviderLocationMapping> = Vec::new();
    let mut i: usize = 0;
    while i < rows.len()
        invariant
            i <= rows@.len(),
            rows@.len() == provider_location_table().len(),
            forall|k: int| 0 <= k < rows@.len() ==> (#[trigger] rows@[k])@ == provider_location_table()[k],
            locations@.len() == i,
            forall|k: int| 0 <= k < i ==> (#[trigger] locations@[k])@ == provider_location_table()[k],
        decreases rows@.len() - i,
    {
        let m = rows[i].to_owned_mapping();
        locations.push(m);
        i = i + 1;
    }
    ProviderLocationMatrix { locations }
}

/// Whether a table row belongs to this provider and location identifier.
pub open spec fn location_matches(row: ProviderLocationView, provider: InfrastructureProvider, provider_location_id: Seq<char>) -> bool {
    row.provider == provider && row.provider_location_id == provider_location_id
}

/// Whether two providers are the same.
fn same_provider(a: InfrastructureProvider, b: InfrastructureProvider) -> (r: bool)
    ensures
        r == (a == b),
{
    a == b
}

/// Looks up the first table row of a provider location identifier.
pub fn provider_location_mapping(provider: InfrastructureProvider, provider_location_id: &str) -> (r: Option<StaticProviderLocationMapping>)
    ensures
        match r {
            Some(m) => exists|i: int|
                0 <= i < provider_location_table().len() && location_matches(
                    #[trigger] provider_location_table()[i],
                    provider,
                    provider_location_id@,
                ) && m@ == provider_location_table()[i] && forall|j: int|
                    0 <= j < i ==> !location_matches(
                        #[trigger] provider_location_table()[j],
                        provider,
                        provider_location_id@,
                    ),
            None => forall|i: int|
                0 <= i < provider_location_table().len() ==> !location_matches(
                    #[trigger] provider_location_table()[i],
                    provider,
                    provider_location_id@,
                ),
        },
{
    let rows = provider_location_entries();
    let mut i: usize = 0;
    while i < rows.len()
        invariant
            i <= rows@.len(),
            rows@.len() == provider_location_table().len(),
            forall|k: int| 0 <= k < rows@.len() ==> (#[trigger] rows@[k])@ == provider_location_table()[k],
            forall|k: int|
                0 <= k < i ==> !location_matches(
                    #[trigger] provider_location_table()[k],
                    provider,
                    provider_location_id@,
                ),
        decreases rows@.len() - i,
    {
        let row = &rows[i];
        if same_provider(row.provider, provider) && same_text(row.provider_location_id, provider_location_id) {
            assert(location_matches(provider_location_table()[i as int], provider, provider_location_id@));
            return Some(row.clone_row());
        }
        i = i + 1;
    }
    None
}

#[derive(Debug, Clone, Copy, PartialEq, Eq, Structural)]
pub enum ProvisioningIngressMode {
    VultrLoadBalancer,
    HetznerLoadBalancer,
    Caddy,
    InternalOnly,
}

/// The catalog string of each [`ProvisioningIngressMode`] value.
pub open spec fn provisioning_ingress_mode_catalog_str(v: ProvisioningIngressMode) -> Seq<char> {
    match v {
        ProvisioningIngressMode::VultrLoadBalancer => "vultr-lb"@,
        ProvisioningIngressMode::HetznerLoadBalancer => "hetzner-lb"@,
        ProvisioningIngressMode::Caddy => "caddy"@,
        ProvisioningIngressMode::InternalOnly => "internal-only"@,
    }
}

impl ProvisioningIngressMode {
    /// Returns the stable catalog string of this value.
    pub fn as_catalog_str(self) -> (r: &'static str)
        ensures
            r@ == provisioning_ingress_mode_catalog_str(self),
    {
        match self {
            ProvisioningIngressMode::VultrLoadBalancer => "vultr-lb",
            ProvisioningIngressMode::HetznerLoadBalancer => "hetzner-lb",
            ProvisioningIngressMode::Caddy => "caddy",
            ProvisioningIngressMode::InternalOnly => "internal-only",
        }
    }
}

#[derive(Debug, Clone, Copy, PartialEq, Eq, Structural)]
pub enum ProvisioningNodeType {
    Vps,
    LoadBalancer,
}

/// The catalog string of each [`ProvisioningNodeType`] value.
pub open spec fn provisioning_node_type_catalog_str(v: ProvisioningNodeType) -> Seq<char> {
    match v {
        ProvisioningNodeType::Vps => "vps"@,
        ProvisioningNodeType::LoadBalancer => "load-balancer"@,
    }
}

impl ProvisioningNodeType {
    /// Returns the stable catalog string of this value.
    pub fn as_catalog_str(self) -> (r: &'static str)
        ensures
            r@ == provisioning_node_type_catalog_str(self),
    {
        match self {
            ProvisioningNodeType::Vps => "vps",
            ProvisioningNodeType::LoadBalancer => "load-balancer",
        }
    }
}

#[derive(Debug, Clone, Copy, PartialEq, Eq, Structural)]
pub enum ProvisioningNatsRole {
    Regional,
    Gateway,
    EdgeLeaf,
}

/// The catalog string of each [`ProvisioningNatsRole`] value.
pub open spec fn provisioning_nats_role_catalog_str(v: ProvisioningNatsRole) -> Seq<char> {
    match v {
        ProvisioningNatsRole::Regional => "regional"@,
        ProvisioningNatsRole::Gateway => "gateway"@,
        ProvisioningNatsRole::EdgeLeaf => "edge-leaf"@,
    }
}

impl ProvisioningNatsRole {
    /// Returns the stable catalog string of this value.
    pub fn as_catalog_str(self) -> (r: &'static str)
        ensures
            r@ == provisioning_nats_role_catalog_str(self),
    {
        match self {
            ProvisioningNatsRole::Regional => "regional",
            ProvisioningNatsRole::Gateway => "gateway",
            ProvisioningNatsRole::EdgeLeaf => "edge-leaf",
        }
    }
}

#[derive(Debug, Clone, Copy, PartialEq, Eq, Structural)]
pub enum ProvisioningTypesenseRole {
    ClusterMember,
}

/// The catalog string of each [`ProvisioningTypesenseRole`] value.
pub open spec fn provisioning_typesense_role_catalog_str(v: ProvisioningTypesenseRole) -> Seq<char> {
    match v {
        ProvisioningTypesenseRole::ClusterMember => "cluster-member"@,
    }
}

impl ProvisioningTypesenseRole {
    /// Returns the stable catalog string of this value.
    pub fn as_catalog_str(self) -> (r: &'static str)
        ensures
            r@ == provisioning_typesense_role_catalog_str(self),
    {
        match self {
            ProvisioningTypesenseRole::ClusterMember => "cluster-member",
        }
    }
}

#[derive(Debug, Clone, Copy, PartialEq, Eq, Structural)]
pub enum ProvisioningMachineImageSource {
    ProviderOs,
    ProviderImage,
    ProviderSnapshot,
    GoldenImage,
}

/// The catalog string of each [`ProvisioningMachineImageSource`] value.
pub open spec fn provisioning_machine_image_source_catalog_str(v: ProvisioningMachineImageSource) -> Seq<char> {
    match v {
        ProvisioningMachineImageSource::ProviderOs => "os"@,
        ProvisioningMachineImageSource::ProviderImage => "provider-image"@,
        ProvisioningMachineImageSource::ProviderSnapshot => "provider-snapshot"@,
        ProvisioningMachineImageSource::GoldenImage => "golden-image"@,
    }
}

impl ProvisioningMachineImageSource {
    /// Returns the stable catalog string of this value.
    pub fn as_catalog_str(self) -> (r: &'static str)
        ensures
            r@ == provisioning_machine_image_source_catalog_str(self),
    {
        match self {
            ProvisioningMachineImageSource::ProviderOs => "os",
            ProvisioningMachineImageSource::ProviderImage => "provider-image",
            ProvisioningMachineImageSource::ProviderSnapshot => "provider-snapshot",
            ProvisioningMachineImageSource::GoldenImage => "golden-image",
        }
    }
}

#[derive(Debug, Clone, Copy, PartialEq, Eq, Structural)]
pub enum ProvisioningContainerImageSource {
    GithubContainerRegistry,
    VultrContainerRegistry,
    HetznerContainerRegistry,
    LocalArchive,
}

/// The catalog string of each [`ProvisioningContainerImageSource`] value.
pub open spec fn provisioning_container_image_source_catalog_str(v: ProvisioningContainerImageSource) -> Seq<char> {
    match v {
        ProvisioningContainerImageSource::GithubContainerRegistry => "github-container-registry"@,
        ProvisioningContainerImageSource::VultrContainerRegistry => "vultr-container-registry"@,
        ProvisioningContainerImageSource::HetznerContainerRegistry => "hetzner-container-registry"@,
        ProvisioningContainerImageSource::LocalArchive => "local-archive"@,
    }
}

impl ProvisioningContainerImageSource {
    /// Returns the stable catalog string of this value.
    pub fn as_catalog_str(self) -> (r: &'static str)
        ensures
            r@ == provisioning_container_image_source_catalog_str(self),
    {
        match self {
            ProvisioningContainerImageSource::GithubContainerRegistry => "github-container-registry",
            ProvisioningContainerImageSource::VultrContainerRegistry => "vultr-container-registry",
            ProvisioningContainerImageSource::HetznerContainerRegistry => "hetzner-container-registry",
            ProvisioningContainerImageSource::LocalArchive => "local-archive",
        }
    }
}

#[derive(Debug, Clone, Copy, PartialEq, Eq, Structural)]
pub enum ProvisioningOs {
    Ubuntu2604Lts,
}

/// The catalog string of each [`ProvisioningOs`] value.
pub open spec fn provisioning_os_catalog_str(v: ProvisioningOs) -> Seq<char> {
    match v {
        ProvisioningOs::Ubuntu2604Lts => "ubuntu-26.04-lts"@,
    }
}

impl ProvisioningOs {
    /// Returns the stable catalog string of this value.
    pub fn as_catalog_str(self) -> (r: &'static str)
        ensures
            r@ == provisioning_os_catalog_str(self),
    {
        match self {
            ProvisioningOs::Ubuntu2604Lts => "ubuntu-26.04-lts",
        }
    }
}

#[derive(Debug, Clone, Copy, PartialEq, Eq, Structural)]
pub enum ProvisioningInstancePlan {
    VultrVc2OneCoreOneGb,
    VultrVc2TwoCoreFourGb,
    VultrVc2FourCoreEightGb,
    HetznerCx23,
    HetznerCx33,
    HetznerCx43,
    HetznerCx53,
    HetznerCax11,
    HetznerCax21,
    HetznerCpx22,
    HetznerCpx32,
    HetznerCpx42,
    HetznerCpx52,
    HetznerCpx62,
    HetznerCcx13,
    HetznerCcx23,
    HetznerCcx33,
    HetznerCcx43,
    HetznerCcx53,
    HetznerCcx63,
}

/// The catalog string of each [`ProvisioningInstancePlan`] value.
pub open spec fn provisioning_instance_plan_catalog_str(v: ProvisioningInstancePlan) -> Seq<char> {
    match v {
        ProvisioningInstancePlan::VultrVc2OneCoreOneGb => "vc2-1c-1gb"@,
        ProvisioningInstancePlan::VultrVc2TwoCoreFourGb => "vc2-2c-4gb"@,
        ProvisioningInstancePlan::VultrVc2FourCoreEightGb => "vc2-4c-8gb"@,
        ProvisioningInstancePlan::HetznerCx23 => "cx23"@,
        ProvisioningInstancePlan::HetznerCx33 => "cx33"@,
        ProvisioningInstancePlan::HetznerCx43 => "cx43"@,
        ProvisioningInstancePlan::HetznerCx53 => "cx53"@,
        ProvisioningInstancePlan::HetznerCax11 => "cax11"@,
        ProvisioningInstancePlan::HetznerCax21 => "cax21"@,
        ProvisioningInstancePlan::HetznerCpx22 => "cpx22"@,
        ProvisioningInstancePlan::HetznerCpx32 => "cpx32"@,
        ProvisioningInstancePlan::HetznerCpx42 => "cpx42"@,
        ProvisioningInstancePlan::HetznerCpx52 => "cpx52"@,
        ProvisioningInstancePlan::HetznerCpx62 => "cpx62"@,
        ProvisioningInstancePlan::HetznerCcx13 => "ccx13"@,
        ProvisioningInstancePlan::HetznerCcx23 => "ccx23"@,
        ProvisioningInstancePlan::HetznerCcx33 => "ccx33"@,
        ProvisioningInstancePlan::HetznerCcx43 => "ccx43"@,
        ProvisioningInstancePlan::HetznerCcx53 => "ccx53"@,
        ProvisioningInstancePlan::HetznerCcx63 => "ccx63"@,
    }
}

impl ProvisioningInstancePlan {
    /// Returns the stable catalog string of this value.
    pub fn as_catalog_str(self) -> (r: &'static str)
        ensures
            r@ == provisioning_instance_plan_catalog_str(self),
    {
        match self {
            ProvisioningInstancePlan::VultrVc2OneCoreOneGb => "vc2-1c-1gb",
            ProvisioningInstancePlan::VultrVc2TwoCoreFourGb => "vc2-2c-4gb",
            ProvisioningInstancePlan::VultrVc2FourCoreEightGb => "vc2-4c-8gb",
            ProvisioningInstancePlan::HetznerCx23 => "cx23",
            ProvisioningInstancePlan::HetznerCx33 => "cx33",
            ProvisioningInstancePlan::HetznerCx43 => "cx43",
            ProvisioningInstancePlan::HetznerCx53 => "cx53",
            ProvisioningInstancePlan::HetznerCax11 => "cax11",
            ProvisioningInstancePlan::HetznerCax21 => "cax21",
            ProvisioningInstancePlan::HetznerCpx22 => "cpx22",
            ProvisioningInstancePlan::HetznerCpx32 => "cpx32",
            ProvisioningInstancePlan::HetznerCpx42 => "cpx42",
            ProvisioningInstancePlan::HetznerCpx52 => "cpx52",
            ProvisioningInstancePlan::HetznerCpx62 => "cpx62",
            ProvisioningInstancePlan::HetznerCcx13 => "ccx13",
            ProvisioningInstancePlan::HetznerCcx23 => "ccx23",
            ProvisioningInstancePlan::HetznerCcx33 => "ccx33",
            ProvisioningInstancePlan::HetznerCcx43 => "ccx43",
            ProvisioningInstancePlan::HetznerCcx53 => "ccx53",
            ProvisioningInstancePlan::HetznerCcx63 => "ccx63",
        }
    }
}

#[derive(Debug, Clone, Copy, PartialEq, Eq, Structural)]
pub enum ProvisioningResolutionStatus {
    Ready,
    Planned,
    Invalid,
}

/// The catalog string of each [`ProvisioningResolutionStatus`] value.
pub open spec fn provisioning_resolution_status_catalog_str(v: ProvisioningResolutionStatus) -> Seq<char> {
    match v {
        ProvisioningResolutionStatus::Ready => "ready"@,
        ProvisioningResolutionStatus::Planned => "planned"@,
        ProvisioningResolutionStatus::Invalid => "invalid"@,
    }
}

impl ProvisioningResolutionStatus {
    /// Returns the stable catalog string of this value.
    pub fn as_catalog_str(self) -> (r: &'static str)
        ensures
            r@ == provisioning_resolution_status_catalog_str(self),
    {
        match self {
            ProvisioningResolutionStatus::Ready => "ready",
            ProvisioningResolutionStatus::Planned => "planned",
            ProvisioningResolutionStatus::Invalid => "invalid",
        }
    }
}

#[derive(Debug, Clone, Copy, PartialEq, Eq, Structural)]
pub enum ProvisioningReconciliationStatus {
    NotStarted,
    Requested,
    ProviderObserved,
    TailnetObserved,
    Healthy,
    Drifted,
    Failed,
}

/// The catalog string of each [`ProvisioningReconciliationStatus`] value.
pub open spec fn provisioning_reconciliation_status_catalog_str(v: ProvisioningReconciliationStatus) -> Seq<char> {
    match v {
        ProvisioningReconciliationStatus::NotStarted => "not-started"@,
        ProvisioningReconciliationStatus::Requested => "requested"@,
        ProvisioningReconciliationStatus::ProviderObserved => "provider-observed"@,
        ProvisioningReconciliationStatus::TailnetObserved => "tailnet-observed"@,
        ProvisioningReconciliationStatus::Healthy => "healthy"@,
        ProvisioningReconciliationStatus::Drifted => "drifted"@,
        ProvisioningReconciliationStatus::Failed => "failed"@,
    }
}

impl ProvisioningReconciliationStatus {
    /// Returns the stable catalog string of this value.
    pub fn as_catalog_str(self) -> (r: &'static str)
        ensures
            r@ == provisioning_reconciliation_status_catalog_str(self),
    {
        match self {
            ProvisioningReconciliationStatus::NotStarted => "not-started",
            ProvisioningReconciliationStatus::Requested => "requested",
            ProvisioningReconciliationStatus::ProviderObserved => "provider-observed",
            ProvisioningReconciliationStatus::TailnetObserved => "tailnet-observed",
            ProvisioningReconciliationStatus::Healthy => "healthy",
            ProvisioningReconciliationStatus::Drifted => "drifted",
            ProvisioningReconciliationStatus::Failed => "failed",
        }
    }
}

#[derive(Debug, Clone, Copy, PartialEq, Eq, Structural)]
pub enum ProvisioningExecutionMode {
    ArgvOnly,
}

/// The catalog string of each [`ProvisioningExecutionMode`] value.
pub open spec fn provisioning_execution_mode_catalog_str(v: ProvisioningExecutionMode) -> Seq<char> {
    match v {
        ProvisioningExecutionMode::ArgvOnly => "argv_only"@,
    }
}

impl ProvisioningExecutionMode {
    /// Returns the stable catalog string of this value.
    pub fn as_catalog_str(self) -> (r: &'static str)
        ensures
            r@ == provisioning_execution_mode_catalog_str(self),
    {
        match self {
            ProvisioningExecutionMode::ArgvOnly => "argv_only",
        }
    }
}

#[derive(Debug, Clone, PartialEq, Eq)]
pub struct RunbookActionApproval {
    pub actor_id: String,
    pub role_id: String,
}

#[derive(Debug, Clone, PartialEq, Eq)]
pub struct InfrastructureActionRequest {
    pub schema_version: u32,
    pub environment_id: String,
    pub action_id: String,
    pub actor_id: String,
    pub confirmation: Option<InfrastructureActionConfirmation>,
    pub secret_refs: Vec<String>,
    pub dry_run: bool,
}

#[derive(Debug, Clone, PartialEq, Eq)]
pub struct InfrastructureActionConfirmation {
    pub typed_text: Option<String>,
    pub accepted: Option<bool>,
}

#[derive(Debug, Clone, PartialEq, Eq)]
pub struct InfrastructureActionEvent {
    pub schema_version: u32,
    pub event_type: InfrastructureActionEventType,
    pub invocation_id: String,
    pub environment_id: String,
    pub action_id: String,
    pub actor_id: String,
    pub created_at: HephaestusTimestamp,
    pub exit_code: Option<u32>,
    pub redacted_summary: Option<String>,
}

#[derive(Debug, Clone, Copy, PartialEq, Eq, Structural)]
pub enum InfrastructureActionEventType {
    ActionQueued,
    PreflightStarted,
    PreflightFailed,
    ConfirmationRequired,
    ActionStarted,
    ActionSucceeded,
    ActionFailed,
    ActionCanceled,
    ActionTimedOut,
}

#[derive(Debug, Clone, PartialEq, Eq)]
pub struct InfrastructureJsonSchemaDocument {
    pub relative_path: String,
    pub schema_id: String,
    pub title: String,
    pub required_fields: Vec<String>,
    pub property_names: Vec<String>,
    pub schema_json: String,
}

#[derive(Debug, Clone, PartialEq, Eq)]
pub struct InfrastructureOperationalDocument {
    pub relative_path: String,
    pub title: String,
    pub body: String,
}

#[derive(Debug, Clone, PartialEq, Eq)]
pub struct DockerImageCatalog {
    pub schema_version: u32,
    pub catalog_id: String,
    pub catalog_kind: String,
    pub source_policy: DockerImageSourcePolicy,
    pub service_classes: Vec<DockerServiceClass>,
    pub image_metadata_schema: DockerImageMetadataSchema,
    pub images: Vec<DockerServiceImage>,
}

#[derive(Debug, Clone, PartialEq, Eq)]
pub struct DockerImageSourcePolicy {
    pub image_digest_required: bool,
    pub platform_metadata_required: bool,
    pub floating_tags_disallowed_for_production: bool,
    pub sbom_reference_required_for_production: bool,
    pub provenance_reference_required_for_production: bool,
    pub operator_note: String,
}

#[derive(Debug, Clone, PartialEq, Eq)]
pub struct DockerServiceClass {
    pub service_class_id: String,
    pub display_name: String,
    pub default_public_ingress: Vec<u32>,
    pub requires_load_balancer_review: bool,
    pub allowed_network_sources: Vec<String>,
}

#[derive(Debug, Clone, PartialEq, Eq)]
pub struct DockerImageMetadataSchema {
    pub required_fields: Vec<String>,
    pub notes: String,
}

#[derive(Debug, Clone, PartialEq, Eq)]
pub struct DockerServiceImage {
    pub image_id: String,
    pub display_name: String,
    pub implementation_status: Option<String>,
    pub deployment_eligibility: Option<String>,
    pub service_class: String,
    pub registry: DockerImageRegistry,
    pub supported_platforms: Vec<DockerImageSupportedPlatform>,
    pub build: DockerImageBuildMetadata,
    pub apps: Vec<DockerImageApp>,
    pub ports: Vec<DockerImagePort>,
    pub volumes: Vec<DockerImageVolume>,
    pub health_checks: Vec<DockerImageHealthCheck>,
    pub observability: DockerImageObservability,
    pub secrets: Vec<DockerImageSecret>,
    pub backup_policy: DockerImageBackupPolicy,
    pub region_constraints: DockerImageRegionConstraints,
    pub resource_defaults: DockerImageResourceDefaults,
    pub security: DockerImageSecurityPolicy,
}

#[derive(Debug, Clone, PartialEq, Eq)]
pub struct DockerImageSupportedPlatform {
    pub os: String,
    pub architecture: String,
}

#[derive(Debug, Clone, Default, PartialEq, Eq)]
pub struct DockerImageBuildMetadata {
    pub dockerfile_path: String,
    pub build_context_path: String,
    pub feature_flags: Vec<String>,
    pub local_image_name: String,
}

#[derive(Debug, Clone, PartialEq, Eq)]
pub struct DockerImageRegistry {
    pub provider: String,
    pub hostname: String,
    pub repository: String,
    pub tag: String,
    pub digest: Option<String>,
}

#[derive(Debug, Clone, PartialEq, Eq)]
pub struct DockerImageApp {
    pub name: String,
    pub kind: String,
    pub description: String,
}

#[derive(Debug, Clone, PartialEq, Eq)]
pub struct DockerImagePort {
    pub name: String,
    pub container_port: u32,
    pub host_port: Option<u32>,
    pub protocol: String,
    pub exposure: String,
}

#[derive(Debug, Clone, PartialEq, Eq)]
pub struct DockerImageVolume {
    pub name: String,
    pub mount_path: Option<String>,
    pub source: Option<String>,
    pub read_only: bool,
    pub required: bool,
    pub mode: Option<String>,
}

#[derive(Debug, Clone, PartialEq, Eq)]
pub struct DockerImageHealthCheck {
    pub name: String,
    pub check_type: String,
    pub path: Option<String>,
    pub port: Option<u32>,
    pub expected_status: Option<u32>,
    pub command_id: Option<String>,
}

#[derive(Debug, Clone, PartialEq, Eq)]
pub struct DockerImageSecret {
    pub name: String,
    pub source: String,
    pub required: bool,
}

#[derive(Debug, Clone, Default, PartialEq, Eq)]
pub struct DockerImageObservability {
    pub metrics_endpoints: Vec<String>,
    pub structured_log_fields: Vec<String>,
}

#[derive(Debug, Clone, PartialEq, Eq)]
pub struct DockerImageBackupPolicy {
    pub required: bool,
    pub reason: String,
}

#[derive(Debug, Clone, PartialEq, Eq)]
pub struct DockerImageRegionConstraints {
    pub allowed_jurisdictions: Vec<String>,
    pub default_server_template: String,
    pub requires_public_ingress_review: bool,
}

#[derive(Debug, Clone, PartialEq, Eq)]
pub struct DockerImageResourceDefaults {
    pub min_vcpu: u32,
    pub min_ram_mb: u32,
    pub min_disk_gb: u32,
}

#[derive(Debug, Clone, PartialEq, Eq)]
pub struct DockerImageSecurityPolicy {
    pub runs_as_root: bool,
    pub requires_read_only_rootfs: bool,
    pub requires_cap_drop_all: bool,
    pub requires_sbom: bool,
    pub requires_provenance: bool,
}

#[derive(Debug, Clone, PartialEq, Eq)]
pub struct ProviderCatalog {
    pub schema_version: u32,
    pub provider_id: String,
    pub display_name: String,
    pub catalog_kind: String,
    pub source_policy: ProviderCatalogSourcePolicy,
    pub api_sources: Vec<ProviderApiSource>,
    pub image_source_types: Vec<ProviderImageSourceType>,
    pub required_dashboard_dimensions: Vec<String>,
    pub generated_cache: Vec<ProviderGeneratedCacheBucket>,
}

#[derive(Debug, Clone, PartialEq, Eq)]
pub struct ProviderCatalogSourcePolicy {
    pub source_of_truth: String,
    pub cache_is_generated: bool,
    pub cache_must_not_contain_secrets: bool,
    pub max_cache_age_seconds: u32,
    pub operator_note: String,
}

#[derive(Debug, Clone, PartialEq, Eq)]
pub struct ProviderApiSource {
    pub source_id: String,
    pub method: String,
    pub path: String,
    pub required_for: Vec<String>,
    pub required_fields: Vec<String>,
}

#[derive(Debug, Clone, PartialEq, Eq)]
pub struct ProviderImageSourceType {
    pub source_type_id: String,
    pub display_name: String,
    pub terraform_fields: Vec<String>,
    pub metadata_policy: String,
}

#[derive(Debug, Clone, PartialEq, Eq)]
pub struct ProviderGeneratedCacheBucket {
    pub bucket_id: String,
    pub item_count: u32,
    pub items: Vec<ProviderGeneratedCacheItem>,
}

#[derive(Debug, Clone, PartialEq, Eq)]
pub struct ProviderGeneratedCacheItem {
    pub item_index: u32,
    pub item_json: String,
}

#[derive(Debug, Clone, PartialEq, Eq)]
pub struct HealthSignalCatalog {
    pub schema_version: u32,
    pub catalog_id: String,
    pub catalog_kind: String,
    pub status_levels: Vec<HealthSignalStatusLevel>,
    pub collection_policy: HealthSignalCollectionPolicy,
    pub signals: Vec<HealthSignalDefinition>,
    pub dashboard_views: Vec<HealthSignalDashboardView>,
}

#[derive(Debug, Clone, PartialEq, Eq)]
pub struct HealthSignalStatusLevel {
    pub level_id: String,
    pub rank: u32,
    pub description: String,
}

#[derive(Debug, Clone, PartialEq, Eq)]
pub struct HealthSignalCollectionPolicy {
    pub mode: String,
    pub description: String,
}

#[derive(Debug, Clone, PartialEq, Eq)]
pub struct HealthSignalDefinition {
    pub signal_id: String,
    pub display_name: String,
    pub resource_kind: String,
    pub source: String,
    pub applies_to_server_types: Vec<String>,
    pub fields: Vec<String>,
    pub healthy_when: Vec<String>,
    pub degraded_when: Vec<String>,
    pub critical_when: Vec<String>,
    pub implementation_status: Option<String>,
}

#[derive(Debug, Clone, PartialEq, Eq)]
pub struct HealthSignalDashboardView {
    pub view_id: String,
    pub signals: Vec<String>,
}

#[derive(Debug, Clone, PartialEq, Eq)]
pub struct RbacPolicyCatalog {
    pub schema_version: u32,
    pub catalog_id: String,
    pub catalog_kind: String,
    pub principles: Vec<String>,
    pub roles: Vec<RbacRole>,
    pub approval_rules: Vec<RbacApprovalRule>,
    pub audit_policy: RbacAuditPolicy,
    pub ui_policy: RbacUiPolicy,
}

#[derive(Debug, Clone, PartialEq, Eq)]
pub struct RbacRole {
    pub role_id: String,
    pub display_name: String,
    pub description: String,
    pub allowed_risks: Vec<String>,
    pub denied_actions: Vec<String>,
    pub requires_incident_id: Option<bool>,
    pub max_session_minutes: Option<u32>,
}

#[derive(Debug, Clone, PartialEq, Eq)]
pub struct RbacApprovalRule {
    pub rule_id: String,
    pub environment_types: Vec<String>,
    pub risks: Vec<String>,
    pub action_ids: Vec<String>,
    pub required_role: String,
    pub required_approver_count: u32,
    pub allow_self_approval: bool,
}

#[derive(Debug, Clone, PartialEq, Eq)]
pub struct RbacAuditPolicy {
    pub retention_days: u32,
    pub capture_request: bool,
    pub capture_catalog_version: bool,
    pub capture_actor: bool,
    pub capture_approvers: bool,
    pub capture_preflight_results: bool,
    pub capture_stdout_stderr_redacted: bool,
    pub never_capture_secret_values: bool,
    pub never_capture_unredacted_backup_urls: bool,
}

#[derive(Debug, Clone, PartialEq, Eq)]
pub struct RbacUiPolicy {
    pub hide_denied_actions: bool,
    pub show_denied_reason: bool,
    pub require_reauthentication_for_destructive: bool,
    pub require_fresh_health_before_change_seconds: u32,
    pub require_provider_cache_fresh_before_change_seconds: u32,
    pub disable_actions_when_environment_locked: bool,
}

#[derive(Debug, Clone, PartialEq, Eq)]
pub struct DockerServiceDefinition {
    pub schema_version: u32,
    pub definition_id: String,
    pub environment_id: String,
    pub service_id: String,
    pub service_class: DockerServiceClassKind,
    pub services: Vec<ProvisioningService>,
    pub tailscale_tags: Vec<TailnetTagKind>,
    pub image_id: String,
    pub desired_replicas: u32,
    pub region_policy: DockerServiceRegionPolicy,
    pub compute: DockerServiceCompute,
    pub ingress: DockerServiceIngress,
    pub secrets: Vec<DockerServiceSecretRef>,
    pub lifecycle: DockerServiceLifecycle,
}

#[derive(Debug, Clone, PartialEq, Eq)]
pub struct ServiceMeshProjection {
    pub schema_version: u32,
    pub identity_contract: ServiceMeshIdentityContract,
    pub environment_contracts: Vec<ServiceMeshEnvironmentContract>,
    pub desired_service_identities: Vec<ServiceMeshDesiredIdentity>,
}

#[derive(Debug, Clone, PartialEq, Eq)]
pub struct ServiceMeshIdentityContract {
    pub declared_identity_source_action_id: String,
    pub declared_identity_section_name: String,
    pub declared_identity_count_field: String,
    pub declared_identity_record_fields: Vec<String>,
    pub observed_identity_source_action_id: String,
    pub observed_identity_host_key_field: String,
    pub observed_tailscale_tags_field: String,
    pub observed_tailscale_ipv4_field: String,
    pub observed_tailscale0_ipv4_field: String,
    pub drift_matching_key: String,
    pub drift_policy: String,
    pub drift_failure_conditions: Vec<String>,
}

#[derive(Debug, Clone, PartialEq, Eq)]
pub struct ServiceMeshEnvironmentContract {
    pub environment_id: String,
    pub environment_type: ProvisioningEnvironment,
    pub server_type: ProvisioningRuntime,
    pub topology_template: ProvisioningLifecycleEngine,
    pub declared_identity_supported: bool,
    pub declared_identity_transport: Option<ServiceMeshDeclaredIdentityTransport>,
    pub observed_identity_supported: bool,
    pub observed_identity_transport: Option<ServiceMeshObservedIdentityTransport>,
}

#[derive(Debug, Clone, PartialEq, Eq)]
pub struct ServiceMeshDeclaredIdentityTransport {
    pub action_id: String,
    pub format: String,
    pub section_name: String,
    pub count_field: String,
    pub record_fields: Vec<String>,
    pub optional_fields: Vec<String>,
}

#[derive(Debug, Clone, PartialEq, Eq)]
pub struct ServiceMeshObservedIdentityTransport {
    pub action_id: String,
    pub format: String,
    pub field_name: String,
    pub host_key_field: String,
    pub related_fields: Vec<String>,
}

#[derive(Debug, Clone, PartialEq, Eq)]
pub struct ServiceMeshDesiredIdentity {
    pub source_path: String,
    pub definition_id: String,
    pub environment_id: String,
    pub service_id: String,
    pub service_class: DockerServiceClassKind,
    pub services: Vec<ProvisioningService>,
    pub tailscale_tags: Vec<TailnetTagKind>,
    pub region_policy: DockerServiceRegionPolicy,
    pub desired_replicas: u32,
    pub image_id: String,
}

#[derive(Debug, Clone, PartialEq, Eq)]
pub struct DockerServiceRegionPolicy {
    pub data_region: ProvisioningDataRegion,
    pub allowed_sites: Vec<ProvisioningSite>,
    pub strategy: RegionStrategy,
    pub same_site_transport: NetworkTransport,
    pub cross_site_transport: NetworkTransport,
}

#[derive(Debug, Clone, PartialEq, Eq)]
pub struct DockerServiceCompute {
    pub provider: InfrastructureProvider,
    pub server_template: ServerTemplate,
    pub plan: ProvisioningInstancePlan,
    pub machine_image_source: ProvisioningMachineImageSource,
    pub os: Option<ProvisioningOs>,
    pub app_id: Option<String>,
    pub snapshot_id: Option<String>,
}

#[derive(Debug, Clone, PartialEq, Eq)]
pub struct DockerServiceIngress {
    pub public: Vec<DockerServiceIngressRule>,
    pub private: Vec<DockerServiceIngressRule>,
}

#[derive(Debug, Clone, PartialEq, Eq)]
pub struct DockerServiceIngressRule {
    pub name: String,
    pub port: Option<u32>,
    pub protocol: Option<String>,
    pub source: Option<NetworkSource>,
    pub requires_load_balancer: Option<bool>,
}

#[derive(Debug, Clone, PartialEq, Eq)]
pub struct DockerServiceSecretRef {
    pub name: String,
    pub secret_ref: String,
}

#[derive(Debug, Clone, PartialEq, Eq)]
pub struct DockerServiceLifecycle {
    pub rollout_strategy: RolloutStrategy,
    pub max_unavailable: u32,
    pub requires_health_before_scale_down: bool,
}

#[derive(Debug, Clone, PartialEq, Eq)]
pub struct ListWorkflowRunsRequest {
    pub environment_id: Option<String>,
    pub kind: Option<WorkflowRunKind>,
    pub limit: u32,
}

#[derive(Debug, Clone, PartialEq, Eq)]
pub struct ListWorkflowRunsResponse {
    pub runs: Vec<WorkflowRun>,
}

#[derive(Debug, Clone, PartialEq, Eq)]
pub struct GetWorkflowRunRequest {
    pub run_id: String,
}

#[derive(Debug, Clone, PartialEq, Eq)]
pub struct GetWorkflowRunResponse {
    pub run: WorkflowRun,
    pub events: Vec<WorkflowRunEvent>,
}

#[derive(Debug, Clone, PartialEq, Eq)]
pub struct WorkflowRunEvent {
    pub sequence: u32,
    pub stream: WorkflowRunEventStream,
    pub line: String,
    pub redacted: bool,
    pub emitted_at_unix_secs: u64,
}

#[derive(Debug, Clone, Copy, PartialEq, Eq, Structural)]
pub enum WorkflowRunEventStream {
    Stdout,
    Stderr,
    System,
}

#[derive(Debug, Clone, PartialEq, Eq)]
pub struct RecoveryTarget {
    pub target: ServiceActionTarget,
    pub systemd_unit_name: Option<String>,
    pub container_name: Option<String>,
}

#[derive(Debug, Clone, Copy, PartialEq, Eq, Structural)]
pub enum RecoveryActionKind {
    RestartSystemdUnit,
    RestartDockerContainer,
    RerunServiceOperation,
    RedeployService,
    RestoreBackup,
    FailoverService,
    FailbackService,
}

#[derive(Debug, Clone, PartialEq, Eq)]
pub struct TriggerRecoveryRequest {
    pub environment_id: String,
    pub target: RecoveryTarget,
    pub action: RecoveryActionKind,
    pub requested_by: WorkflowActor,
    pub options: Option<ServiceOperationOptions>,
}

#[derive(Debug, Clone, PartialEq, Eq)]
pub struct TriggerRecoveryResponse {
    pub run: WorkflowRun,
}

#[derive(Debug, Clone, PartialEq, Eq)]
pub struct CreateNodeRequest {
    pub provisioning_request: ProvisioningRequest,
    pub requested_by: WorkflowActor,
}

#[derive(Debug, Clone, PartialEq, Eq)]
pub struct CreateNodeResponse {
    pub plan: ProvisioningPlan,
    pub run: WorkflowRun,
    pub inventory_rows: Vec<HephaestusServerInventoryRow>,
    pub reconciliation_status: ProvisioningReconciliationStatus,
}

#[derive(Debug, Clone, PartialEq, Eq)]
pub struct DeleteNodeRequest {
    pub server_id: String,
    pub idempotency_key: String,
    pub requested_by: WorkflowActor,
    pub dry_run: bool,
}

#[derive(Debug, Clone, PartialEq, Eq)]
pub struct DeleteNodeResponse {
    pub server_id: String,
    pub reconciliation_status: ProvisioningReconciliationStatus,
    pub inventory_row: Option<HephaestusServerInventoryRow>,
}

#[derive(Debug, Clone, Copy, PartialEq, Eq, Structural)]
pub enum ProviderPowerActionKind {
    SoftReboot,
    HardReset,
    PowerOn,
    PowerOff,
}

#[derive(Debug, Clone, PartialEq, Eq)]
pub struct ProviderPowerActionRequest {
    pub server_id: String,
    pub action: ProviderPowerActionKind,
    pub idempotency_key: String,
    pub requested_by: WorkflowActor,
    pub dry_run: bool,
}

#[derive(Debug, Clone, PartialEq, Eq)]
pub struct ProviderPowerActionResponse {
    pub server_id: String,
    pub action: ProviderPowerActionKind,
    pub reconciliation_status: ProvisioningReconciliationStatus,
    pub inventory_row: Option<HephaestusServerInventoryRow>,
    pub requested: bool,
}

#[derive(Debug, Clone, PartialEq, Eq)]
pub struct ResizeNodeRequest {
    pub server_id: String,
    pub target_plan: ProvisioningInstancePlan,
    pub upgrade_disk: bool,
    pub idempotency_key: String,
    pub requested_by: WorkflowActor,
    pub dry_run: bool,
}

#[derive(Debug, Clone, PartialEq, Eq)]
pub struct ResizeNodeResponse {
    pub server_id: String,
    pub target_plan: ProvisioningInstancePlan,
    pub reconciliation_status: ProvisioningReconciliationStatus,
    pub inventory_row: Option<HephaestusServerInventoryRow>,
    pub requested: bool,
}

#[derive(Debug, Clone, PartialEq, Eq)]
pub struct CreateIpv4EgressGatewayRequest {
    pub provider: InfrastructureProvider,
    pub environment: ProvisioningEnvironment,
    pub data_region: ProvisioningDataRegion,
    pub site: ProvisioningSite,
    pub plan: ProvisioningInstancePlan,
    pub private_ipv4: String,
    pub server_id: String,
    pub idempotency_key: String,
    pub requested_by: WorkflowActor,
    pub dry_run: bool,
}

#[derive(Debug, Clone, PartialEq, Eq)]
pub struct CreateIpv4EgressGatewayResponse {
    pub server_id: String,
    pub provider_server_id: String,
    pub private_ipv4: String,
    pub network_zone: String,
    pub reconciliation_status: ProvisioningReconciliationStatus,
    pub inventory_row: Option<HephaestusServerInventoryRow>,
    pub requested: bool,
}

#[derive(Debug, Clone, PartialEq, Eq)]
pub struct RequestFoundationDbReconfigureRequest {
    pub environment: ProvisioningEnvironment,
    pub data_region: ProvisioningDataRegion,
    pub redundancy_mode: FoundationDbRedundancyMode,
    pub idempotency_key: String,
    pub requested_by: WorkflowActor,
    pub dry_run: bool,
}

#[derive(Debug, Clone, PartialEq, Eq)]
pub struct RequestFoundationDbReconfigureResponse {
    pub environment: ProvisioningEnvironment,
    pub data_region: ProvisioningDataRegion,
    pub redundancy_mode: FoundationDbRedundancyMode,
    pub target_node_ids: Vec<String>,
    pub reconciliation_status: ProvisioningReconciliationStatus,
    pub requested: bool,
}

#[derive(Debug, Clone, PartialEq, Eq)]
pub struct GetNodeRequest {
    pub server_id: String,
}

#[derive(Debug, Clone, PartialEq, Eq)]
pub struct GetNodeResponse {
    pub inventory_row: Option<HephaestusServerInventoryRow>,
    pub actual_state: Option<HephaestusNodeActualState>,
}

#[derive(Debug, Clone, PartialEq, Eq)]
pub struct ReconcileNodeRequest {
    pub server_id: String,
    pub idempotency_key: String,
    pub requested_by: WorkflowActor,
}

#[derive(Debug, Clone, PartialEq, Eq)]
pub struct ReconcileNodeResponse {
    pub server_id: String,
    pub reconciliation_status: ProvisioningReconciliationStatus,
    pub inventory_row: Option<HephaestusServerInventoryRow>,
    pub actual_state: Option<HephaestusNodeActualState>,
}

#[derive(Debug, Clone, PartialEq, Eq)]
pub struct GetNodeHealthRequest {
    pub server_id: String,
}

#[derive(Debug, Clone, Copy, PartialEq, Eq, Structural)]
pub enum AgentReportStatus {
    Unspecified,
    RegisteredNoReport,
    Reporting,
    Stale,
    Offline,
}

#[derive(Debug, Clone, PartialEq, Eq)]
pub struct GetNodeHealthResponse {
    pub server_id: String,
    pub reconciliation_status: ProvisioningReconciliationStatus,
    pub inventory_row: Option<HephaestusServerInventoryRow>,
    pub actual_state: Option<HephaestusNodeActualState>,
    pub agent_report_status: AgentReportStatus,
    pub has_full_report: bool,
    pub latest_agent_report: Option<HephaestusAgentReport>,
}

#[derive(Debug, Clone, Copy, Default, PartialEq, Eq)]
pub struct ListApprovedNodeChoicesRequest;

#[derive(Debug, Clone, PartialEq, Eq)]
pub struct ListApprovedNodeChoicesResponse {
    pub sites: Vec<DashboardSiteOption>,
    pub plans: Vec<DashboardPlanOption>,
    pub services: Vec<DashboardServiceOption>,
    pub provider_catalogs: Vec<ProviderCatalog>,
    pub location_matrix: ProviderLocationMatrix,
}

#[derive(Debug, Clone, Copy, Default, PartialEq, Eq)]
pub struct GetOperationalOverviewRequest;

#[derive(Debug, Clone, PartialEq, Eq)]
pub struct GetOperationalOverviewResponse {
    pub environments: Vec<InfrastructureEnvironment>,
    pub environment_locks: Vec<EnvironmentApplyLock>,
    pub recent_runs: Vec<WorkflowRun>,
    pub inventory_rows: Vec<HephaestusServerInventoryRow>,
    pub service_health: Vec<ServiceHealthAggregate>,
    pub runbook_catalog: Option<RunbookCatalog>,
    pub docker_image_catalog: Option<DockerImageCatalog>,
    pub provider_catalogs: Vec<ProviderCatalog>,
    pub health_signal_catalog: Option<HealthSignalCatalog>,
    pub rbac_policy: Option<RbacPolicyCatalog>,
    pub docker_service_definitions: Vec<DockerServiceDefinition>,
    pub action_request_examples: Vec<InfrastructureActionRequest>,
    pub json_schemas: Vec<InfrastructureJsonSchemaDocument>,
    pub operational_documents: Vec<InfrastructureOperationalDocument>,
    pub health_snapshots: Vec<InfrastructureHealthSnapshot>,
    pub service_mesh: Option<ServiceMeshProjection>,
    pub internal_dns: Option<InternalDnsProjection>,
    pub observability: Option<ObservabilityProjection>,
    pub node_topology: Option<NodeTopologyProjection>,
    pub dashboard_control_surface: Option<DashboardControlSurfaceProjection>,
    pub tailnet: Option<TailnetOverview>,
    pub control_plane_surfaces: Option<ControlPlaneSurfaceCatalog>,
}

#[derive(Debug, Clone, Copy, Default, PartialEq, Eq)]
pub struct GetTailnetOverviewRequest;

#[derive(Debug, Clone, PartialEq, Eq)]
pub struct GetTailnetOverviewResponse {
    pub tailnet: TailnetOverview,
    pub control_plane_surfaces: ControlPlaneSurfaceCatalog,
}

#[derive(Debug, Clone, PartialEq, Eq)]
pub struct ControlPlaneSurfaceCatalog {
    pub schema_version: u32,
    pub opentofu: OpenTofuSurface,
    pub ansible: AnsibleSurface,
    pub tailscale: TailscaleApiSurface,
}

#[derive(Debug, Clone, PartialEq, Eq)]
pub struct OpenTofuSurface {
    pub operations: Vec<OpenTofuOperation>,
    pub resource_kinds: Vec<OpenTofuResourceKind>,
    pub change_actions: Vec<OpenTofuChangeAction>,
    pub change_reasons: Vec<OpenTofuChangeReason>,
    pub sensitive_json_paths: Vec<String>,
}

#[derive(Debug, Clone, Copy, PartialEq, Eq, Structural)]
pub enum OpenTofuOperation {
    Init,
    Validate,
    Plan,
    Apply,
    Destroy,
    ShowPlanJson,
    ShowStateJson,
    OutputJson,
}

#[derive(Debug, Clone, Copy, PartialEq, Eq, Structural)]
pub enum OpenTofuResourceKind {
    Server,
    Network,
    Firewall,
    LoadBalancer,
    SshKey,
    Image,
    Snapshot,
    Volume,
    ObjectStorage,
    Dns,
}

#[derive(Debug, Clone, Copy, PartialEq, Eq, Structural)]
pub enum OpenTofuChangeAction {
    Noop,
    Create,
    Read,
    Update,
    Replace,
    Delete,
    Move,
}

#[derive(Debug, Clone, Copy, PartialEq, Eq, Structural)]
pub enum OpenTofuChangeReason {
    Requested,
    Tainted,
    CannotUpdate,
    MissingResourceConfig,
    ProviderDrift,
}

#[derive(Debug, Clone, PartialEq, Eq)]
pub struct AnsibleSurface {
    pub operations: Vec<AnsibleOperation>,
    pub event_kinds: Vec<AnsibleEventKind>,
    pub host_statuses: Vec<AnsibleHostStatus>,
    pub supported_runner_artifacts: Vec<String>,
}

#[derive(Debug, Clone, Copy, PartialEq, Eq, Structural)]
pub enum AnsibleOperation {
    RunPlaybook,
    CheckPlaybook,
    GatherFacts,
    RenderInventory,
    InspectRoleArgumentSpec,
}

#[derive(Debug, Clone, Copy, PartialEq, Eq, Structural)]
pub enum AnsibleEventKind {
    PlaybookOnStart,
    PlaybookOnPlayStart,
    PlaybookOnTaskStart,
    RunnerOnOk,
    RunnerOnChanged,
    RunnerOnFailed,
    RunnerOnUnreachable,
    RunnerOnSkipped,
    PlaybookOnStats,
}

#[derive(Debug, Clone, Copy, PartialEq, Eq, Structural)]
pub enum AnsibleHostStatus {
    Succeeded,
    Changed,
    Failed,
    Unreachable,
    Skipped,
    Rescued,
    Ignored,
}

#[derive(Debug, Clone, PartialEq, Eq)]
pub struct TailscaleApiSurface {
    pub operations: Vec<TailscaleApiOperation>,
    pub policy_sections: Vec<TailscalePolicySection>,
    pub device_operations: Vec<TailscaleDeviceOperation>,
}

#[derive(Debug, Clone, Copy, PartialEq, Eq, Structural)]
pub enum TailscaleApiOperation {
    ListDevices,
    GetDevice,
    GetPolicy,
    ValidatePolicy,
    ListServices,
    GetService,
    ListRoutes,
    ListAuthKeys,
}

#[derive(Debug, Clone, Copy, PartialEq, Eq, Structural)]
pub enum TailscalePolicySection {
    TagOwners,
    Grants,
    Acls,
    Ssh,
    AutoApprovers,
    Groups,
    Hosts,
    NodeAttrs,
    Tests,
    SshTests,
    IpSets,
}

#[derive(Debug, Clone, Copy, PartialEq, Eq, Structural)]
pub enum TailscaleDeviceOperation {
    UpdateTags,
    Authorize,
    ExpireKey,
    Delete,
    ApproveRoutes,
    RevokeRoutes,
}

#[derive(Debug, Clone, PartialEq, Eq)]
pub struct TailnetOverview {
    pub schema_version: u32,
    pub tailnet: String,
    pub collected_at: HephaestusTimestamp,
    pub devices: Vec<TailnetDevice>,
    pub tags: Vec<TailnetTag>,
    pub services: Vec<TailnetService>,
    pub policy: Option<TailnetPolicySummary>,
    pub drift_findings: Vec<TailnetDriftFinding>,
}

#[derive(Debug, Clone, PartialEq, Eq)]
pub struct TailnetDevice {
    pub hostname: String,
    pub device_id: Option<String>,
    pub magic_dns_name: Option<String>,
    pub addresses: Vec<String>,
    pub tags: Vec<String>,
    pub online: Option<bool>,
    pub last_seen: Option<String>,
    pub os: Option<String>,
    pub client_version: Option<String>,
    pub advertised_routes: Vec<TailnetRoute>,
    pub approved_routes: Vec<TailnetRoute>,
    pub key_expires: Option<String>,
    pub desired_node_id: Option<String>,
    pub drift_status: TailnetDeviceDriftStatus,
}

#[derive(Debug, Clone, PartialEq, Eq)]
pub struct TailnetRoute {
    pub cidr: String,
    pub approved: bool,
    pub primary: bool,
}

#[derive(Debug, Clone, Copy, PartialEq, Eq, Structural)]
pub enum TailnetDeviceDriftStatus {
    Unknown,
    InSync,
    Missing,
    TagDrift,
    StaleCollision,
}

#[derive(Debug, Clone, PartialEq, Eq)]
pub struct TailnetTag {
    pub tag: String,
    pub owners: Vec<String>,
    pub device_hostnames: Vec<String>,
    pub declared_in_policy: bool,
}

#[derive(Debug, Clone, PartialEq, Eq)]
pub struct TailnetService {
    pub service_name: String,
    pub magic_dns_names: Vec<String>,
    pub hosts: Vec<TailnetServiceHost>,
}

#[derive(Debug, Clone, PartialEq, Eq)]
pub struct TailnetServiceHost {
    pub hostname: String,
    pub device_id: Option<String>,
    pub advertised: bool,
    pub approved: bool,
}

#[derive(Debug, Clone, PartialEq, Eq)]
pub struct TailnetPolicySummary {
    pub source_path: Option<String>,
    pub etag: Option<String>,
    pub sha256: Option<String>,
    pub tag_owner_count: u32,
    pub grant_count: u32,
    pub acl_count: u32,
    pub ssh_rule_count: u32,
    pub auto_approver_count: u32,
    pub uses_grants: bool,
}

#[derive(Debug, Clone, PartialEq, Eq)]
pub struct TailnetDriftFinding {
    pub severity: TailnetDriftSeverity,
    pub subject: String,
    pub summary: String,
}

#[derive(Debug, Clone, Copy, PartialEq, Eq, Structural)]
pub enum TailnetDriftSeverity {
    Info,
    Warning,
    Critical,
}

#[derive(Debug, Clone, PartialEq, Eq)]
pub struct DashboardControlSurfaceProjection {
    pub schema_version: u32,
    pub catalog_id: String,
    pub description: String,
    pub naming_policy: DashboardNamingPolicy,
    pub state_model: DashboardStateModel,
    pub menus: DashboardMenus,
    pub actions: Vec<DashboardAction>,
    pub blocking_followups: Vec<DashboardBlockingFollowup>,
}

#[derive(Debug, Clone, PartialEq, Eq)]
pub struct DashboardNamingPolicy {
    pub non_role_template: String,
    pub role_template: String,
    pub ordinal_policy: String,
    pub operator_note: String,
}

#[derive(Debug, Clone, PartialEq, Eq)]
pub struct DashboardStateModel {
    pub template_catalog: String,
    pub runtime_instance_state: String,
    pub runtime_instance_state_policy: String,
    pub provider_state: String,
    pub health_state: String,
}

#[derive(Debug, Clone, PartialEq, Eq)]
pub struct DashboardMenus {
    pub environments: Vec<DashboardEnvironmentOption>,
    pub sites: Vec<DashboardSiteOption>,
    pub plans: Vec<DashboardPlanOption>,
    pub services: Vec<DashboardServiceOption>,
}

#[derive(Debug, Clone, PartialEq, Eq)]
pub struct DashboardEnvironmentOption {
    pub id: ProvisioningEnvironment,
    pub label: String,
    pub enabled: bool,
    pub risk: DashboardEnvironmentRisk,
    pub is_default: bool,
    pub disabled_reason: Option<String>,
}

#[derive(Debug, Clone, PartialEq, Eq)]
pub struct DashboardSiteOption {
    pub id: ProvisioningSite,
    pub label: String,
    pub provider_location: ProvisioningSite,
    pub data_region: ProvisioningDataRegion,
    pub enabled_for: Vec<ProvisioningEnvironment>,
    pub placement_kind: ProvisioningPlacementKind,
}

#[derive(Debug, Clone, PartialEq, Eq)]
pub struct DashboardPlanOption {
    pub id: ProvisioningInstancePlan,
    pub label: String,
    pub enabled_for: Vec<ProvisioningEnvironment>,
    pub default_for: Vec<ProvisioningService>,
}

#[derive(Debug, Clone, PartialEq, Eq)]
pub struct DashboardServiceOption {
    pub id: ProvisioningService,
    pub label: String,
    pub enabled: bool,
    pub runtime: ProvisioningRuntime,
    pub roles: Vec<DashboardServiceRoleOption>,
    pub default_plan: Option<ProvisioningInstancePlan>,
    pub default_ingress_mode: Option<ProvisioningIngressMode>,
    pub container_image_menu: Vec<ProvisioningContainerImageSource>,
    pub create_status: DashboardCreateStatus,
    pub health_groups: Vec<ProvisioningHealthGroup>,
}

#[derive(Debug, Clone, PartialEq, Eq)]
pub struct DashboardServiceRoleOption {
    pub nats_role: Option<ProvisioningNatsRole>,
    pub typesense_role: Option<ProvisioningTypesenseRole>,
    pub foundationdb_role: Option<ProvisioningFoundationDbRole>,
    pub workload_role: Option<ProvisioningWorkloadRole>,
    pub label: String,
    pub is_default: bool,
    pub description: Option<String>,
    pub foundationdb: Option<DashboardFoundationDbRoleSettings>,
}

#[derive(Debug, Clone, PartialEq, Eq)]
pub struct DashboardFoundationDbRoleSettings {
    pub data_bearing: bool,
    pub coordinator_allowed: bool,
}

#[derive(Debug, Clone, PartialEq, Eq)]
pub struct DashboardAction {
    pub id: ProvisioningLifecycleAction,
    pub label: String,
    pub risk: RunbookRiskLevel,
    pub button: bool,
    pub input_fields: Vec<DashboardInputField>,
    pub argv: Vec<String>,
    pub post_success_recommended_action: Option<ProvisioningLifecycleAction>,
    pub requires_node_selector: bool,
    pub forbid_destroy_all_without_extra_confirmation: bool,
}

#[derive(Debug, Clone, PartialEq, Eq)]
pub struct DashboardBlockingFollowup {
    pub id: String,
    pub priority: String,
    pub description: String,
}

#[derive(Debug, Clone, PartialEq, Eq)]
pub struct NodeTopologyProjection {
    pub schema_version: u32,
    pub resolver: NodeTopologyResolverContract,
    pub service_templates: Vec<NodeServiceTemplate>,
    pub nodes: Vec<NodeTopologyNode>,
}

#[derive(Debug, Clone, PartialEq, Eq)]
pub struct NodeTopologyResolverContract {
    pub executable: String,
    pub catalog_path: String,
    pub input_contract: String,
    pub output_contract: String,
    pub command_model: String,
    pub execute_via_shell: bool,
}

#[derive(Debug, Clone, PartialEq, Eq)]
pub struct NodeServiceTemplate {
    pub template_id: String,
    pub base_template_id: Option<String>,
    pub lifecycle_engine: String,
    pub provider_environment_id: String,
    pub service_identity_labels: Vec<String>,
    pub tailscale_tags: Vec<String>,
    pub service_dns_label: Option<String>,
    pub service_provider_tag: Option<String>,
    pub default_port: Option<u32>,
    pub default_plan: Option<String>,
    pub implementation_status: Option<String>,
}

#[derive(Debug, Clone, PartialEq, Eq)]
pub struct NodeTopologyNode {
    pub node_id: String,
    pub environment: String,
    pub service: String,
    pub site: String,
    pub data_region: String,
    pub provider_environment_id: String,
    pub state_identity: String,
    pub ordinal: u32,
    pub hostname: String,
    pub label: String,
    pub plan: String,
    pub foundationdb: Option<NodeFoundationDbRole>,
}

#[derive(Debug, Clone, PartialEq, Eq)]
pub struct NodeFoundationDbRole {
    pub coordinator: bool,
    pub data_bearing: bool,
    pub bootstrap: bool,
    pub role: String,
    pub process_class: Option<String>,
}

#[derive(Debug, Clone, PartialEq, Eq)]
pub struct EnvironmentApplyLock {
    pub environment_id: String,
    pub apply_in_progress: bool,
    pub active_run_id: Option<String>,
    pub locked_at: HephaestusTimestamp,
}

#[derive(Debug, Clone, PartialEq, Eq)]
pub struct ServiceHealthAggregate {
    pub environment_id: String,
    pub service_id: String,
    pub service_kind: ServiceKind,
    pub status: ServiceHealthStatus,
    pub checked_at: HephaestusTimestamp,
}

#[derive(Debug, Clone, Copy, PartialEq, Eq, Structural)]
pub enum ServiceHealthStatus {
    Unknown,
    Healthy,
    Degraded,
    Critical,
}

#[derive(Debug, Clone, PartialEq, Eq)]
pub struct HealthSnapshot {
    pub schema_version: u32,
    pub snapshot_id: String,
    pub environment_id: String,
    pub collected_at: HephaestusTimestamp,
    pub overall_status: ServiceHealthStatus,
    pub signals: Vec<HealthSignal>,
}

#[derive(Debug, Clone, PartialEq, Eq)]
pub struct HealthSignal {
    pub signal_id: String,
    pub status: ServiceHealthStatus,
    pub collected_at: HephaestusTimestamp,
    pub source: String,
    pub summary: String,
}

#[derive(Debug, Clone, PartialEq, Eq)]
pub struct InfrastructureHealthSnapshot {
    pub schema_version: u32,
    pub snapshot_id: String,
    pub environment_id: String,
    pub collected_at: HephaestusTimestamp,
    pub overall_status: ServiceHealthStatus,
    pub signals: Vec<InfrastructureHealthSignal>,
    pub tailscale_identities: Vec<TailscaleIdentitySnapshot>,
    pub docker_runtime: Option<DockerRuntimeHealth>,
    pub observability: Option<HostObservabilityHealth>,
}

#[derive(Debug, Clone, PartialEq, Eq)]
pub struct HostObservabilityHealth {
    pub node_exporter: Option<NodeExporterHealth>,
    pub cadvisor: Option<CadvisorHealth>,
}

#[derive(Debug, Clone, PartialEq, Eq)]
pub struct NodeExporterHealth {
    pub service_status: String,
    pub metrics_reachable: bool,
    pub port: u32,
    pub scrape_target: Option<String>,
}

#[derive(Debug, Clone, PartialEq, Eq)]
pub struct CadvisorHealth {
    pub container_name: String,
    pub running: bool,
    pub metrics_reachable: bool,
    pub port: u32,
    pub scrape_target: Option<String>,
}

#[derive(Debug, Clone, PartialEq, Eq)]
pub struct TailscaleIdentitySnapshot {
    pub hostname: String,
    pub declared_service_identity_labels: Vec<String>,
    pub declared_tailscale_tags: Vec<String>,
    pub observed_tailscale_tags: Vec<String>,
    pub site: Option<String>,
    pub jurisdiction: Option<String>,
    pub cluster: Option<String>,
    pub tailscale_ipv4: Option<String>,
    pub tailscale0_ipv4: Option<String>,
    pub drift_status: TailscaleIdentityDriftStatus,
    pub missing_declared_tags: Vec<String>,
    pub unexpected_observed_tags: Vec<String>,
}

#[derive(Debug, Clone, Copy, PartialEq, Eq, Structural)]
pub enum TailscaleIdentityDriftStatus {
    Unknown,
    InSync,
    Drifted,
    Unobserved,
}

#[derive(Debug, Clone, PartialEq, Eq)]
pub struct DockerRuntimeHealth {
    pub docker_status: String,
    pub containerd_status: String,
    pub docker_server_version: Option<String>,
    pub docker_storage_driver: Option<String>,
    pub docker_cgroup_driver: Option<String>,
    pub docker_containers_running: u32,
    pub docker_images_count: u32,
    pub docker_container_count: u32,
    pub containers: Vec<DockerContainerHealth>,
}

#[derive(Debug, Clone, PartialEq, Eq)]
pub struct DockerContainerHealth {
    pub index: u32,
    pub container_id: Option<String>,
    pub name: String,
    pub status: String,
    pub running: bool,
    pub health: Option<String>,
    pub restart_count: u32,
    pub started_at: Option<HephaestusTimestamp>,
    pub image_ref: Option<String>,
    pub image_id: Option<String>,
    pub image_architecture: Option<String>,
    pub image_digest: Option<String>,
    pub command: Option<String>,
    pub port_bindings: Vec<String>,
    pub mounts: Vec<String>,
}

#[derive(Debug, Clone, PartialEq, Eq)]
pub struct InfrastructureHealthSignal {
    pub signal_id: String,
    pub status: ServiceHealthStatus,
    pub collected_at: HephaestusTimestamp,
    pub source: String,
    pub summary: String,
    pub facts: Vec<InfrastructureHealthFact>,
}

#[derive(Debug, Clone, PartialEq, Eq)]
pub struct InfrastructureHealthFact {
    pub key: String,
    pub value_json: String,
}

#[derive(Debug, Clone, PartialEq, Eq)]
pub struct SubmitAgentReportRequest {
    report: HephaestusAgentReport,
}

impl SubmitAgentReportRequest {
    /// The report.
    pub closed spec fn spec_report(&self) -> HephaestusAgentReport {
        self.report
    }

    /// Constructs an agent-report submission request.
    pub fn new(report: HephaestusAgentReport) -> (r: Self)
        ensures
            r.spec_report() == report,
    {
        SubmitAgentReportRequest { report }
    }

    /// Returns the submitted report payload.
    pub fn report(&self) -> (r: &HephaestusAgentReport)
        ensures
            *r == self.spec_report(),
    {
        &self.report
    }
}

#[derive(Debug, Clone, PartialEq, Eq)]
pub struct SubmitAgentReportResponse {
    report: HephaestusAgentReport,
}

impl SubmitAgentReportResponse {
    /// The report.
    pub closed spec fn spec_report(&self) -> HephaestusAgentReport {
        self.report
    }

    /// Constructs an agent-report submission response.
    pub fn new(report: HephaestusAgentReport) -> (r: Self)
        ensures
            r.spec_report() == report,
    {
        SubmitAgentReportResponse { report }
    }

    /// Returns the accepted report payload.
    pub fn report(&self) -> (r: &HephaestusAgentReport)
        ensures
            *r == self.spec_report(),
    {
        &self.report
    }
}

#[derive(Debug, Clone, PartialEq, Eq)]
pub struct GetAgentReportByServerIdRequest {
    server_id: HephaestusServerId,
}

impl GetAgentReportByServerIdRequest {
    /// The server id.
    pub closed spec fn spec_server_id(&self) -> HephaestusServerId {
        self.server_id
    }

    /// Constructs an agent-report lookup request.
    pub fn new(server_id: HephaestusServerId) -> (r: Self)
        ensures
            r.spec_server_id() == server_id,
    {
        GetAgentReportByServerIdRequest { server_id }
    }

    /// Returns the internal server identifier.
    pub fn server_id(&self) -> (r: &HephaestusServerId)
        ensures
            *r == self.spec_server_id(),
    {
        &self.server_id
    }
}

#[derive(Debug, Clone, PartialEq, Eq)]
pub struct GetAgentReportByServerIdResponse {
    report: Option<HephaestusAgentReport>,
}

impl GetAgentReportByServerIdResponse {
    /// The report.
    pub closed spec fn spec_report(&self) -> Option<HephaestusAgentReport> {
        self.report
    }

    /// Constructs an agent-report lookup response.
    pub fn new(report: Option<HephaestusAgentReport>) -> (r: Self)
        ensures
            r.spec_report() == report,
    {
        GetAgentReportByServerIdResponse { report }
    }

    /// Returns the latest report when one is known.
    pub fn report(&self) -> (r: Option<&HephaestusAgentReport>)
        ensures
            r == match self.spec_report() {
                Some(v) => Some(&v),
                None => None::<&HephaestusAgentReport>,
            },
    {
        self.report.as_ref()
    }
}

#[derive(Debug, Clone, Copy, Default, PartialEq, Eq)]
pub struct ListAgentReportsRequest;

#[derive(Debug, Clone, PartialEq, Eq)]
pub struct ListAgentReportsResponse {
    reports: Vec<HephaestusAgentReport>,
}

impl ListAgentReportsResponse {
    /// The reports.
    pub closed spec fn spec_reports(&self) -> Seq<HephaestusAgentReport> {
        self.reports@
    }

    /// Constructs an agent-report listing response.
    pub fn new(reports: Vec<HephaestusAgentReport>) -> (r: Self)
        ensures
            r.spec_reports() == reports@,
    {
        ListAgentReportsResponse { reports }
    }

    /// Returns the latest reports.
    pub fn reports(&self) -> (r: &[HephaestusAgentReport])
        ensures
            r@ == self.spec_reports(),
    {
        self.reports.as_slice()
    }
}

#[derive(Debug, Clone, PartialEq, Eq)]
pub struct GetNodeLiveReportByServerIdRequest {
    server_id: HephaestusServerId,
}

impl GetNodeLiveReportByServerIdRequest {
    /// The server id.
    pub closed spec fn spec_server_id(&self) -> HephaestusServerId {
        self.server_id
    }

    /// Constructs a live-report lookup request.
    pub fn new(server_id: HephaestusServerId) -> (r: Self)
        ensures
            r.spec_server_id() == server_id,
    {
        GetNodeLiveReportByServerIdRequest { server_id }
    }

    /// Returns the internal server identity.
    pub fn server_id(&self) -> (r: &HephaestusServerId)
        ensures
            *r == self.spec_server_id(),
    {
        &self.server_id
    }
}

#[derive(Debug, Clone, PartialEq, Eq)]
pub struct GetNodeLiveReportByServerIdResponse {
    report: HephaestusAgentReport,
}

impl GetNodeLiveReportByServerIdResponse {
    /// The report.
    pub closed spec fn spec_report(&self) -> HephaestusAgentReport {
        self.report
    }

    /// Constructs a live-report response.
    pub fn new(report: HephaestusAgentReport) -> (r: Self)
        ensures
            r.spec_report() == report,
    {
        GetNodeLiveReportByServerIdResponse { report }
    }

    /// Returns the fetched live report.
    pub fn report(&self) -> (r: &HephaestusAgentReport)
        ensures
            *r == self.spec_report(),
    {
        &self.report
    }
}

#[derive(Debug, Clone, Copy, PartialEq, Eq, Structural)]
pub enum AgentActionCompletionStatus {
    Succeeded,
    Failed,
    Rejected,
}

#[derive(Debug, Clone, Copy, PartialEq, Eq, Structural)]
pub enum AgentActionCompletionReason {
    Completed,
    InvalidAction,
    Expired,
    WrongNode,
    LocalCommandFailed,
    LocalValidationFailed,
    FoundationDbServiceStartFailed,
    FoundationDbConfigureNewFailed,
    FoundationDbStatusUnavailable,
    FoundationDbCoordinatorsUnavailable,
    FoundationDbDatabaseNotConfigured,
    FoundationDbDatabaseUnavailable,
    FoundationDbConfigurationInvalid,
    FoundationDbStaleClusterFile,
    FoundationDbRecruitmentPending,
    FoundationDbRecoveryInProgress,
    FoundationDbDataMovementInProgress,
    FoundationDbCoordinatorQuorumLost,
    FoundationDbInsufficientStorageForRedundancy,
}

#[derive(Debug, Clone, PartialEq, Eq)]
pub struct QueueAgentActionRequest {
    pub node_id: HephaestusServerId,
    pub action_id: String,
    pub idempotency_key: String,
    pub action_json: String,
    pub created_at_unix_secs: u64,
}

#[derive(Debug, Clone, PartialEq, Eq)]
pub struct QueueAgentActionResponse {
    pub action_json: String,
    pub queued: bool,
}

#[derive(Debug, Clone, PartialEq, Eq)]
pub struct ListQueuedAgentActionsRequest {
    pub node_id: HephaestusServerId,
}

#[derive(Debug, Clone, PartialEq, Eq)]
pub struct ListQueuedAgentActionsResponse {
    pub action_json_values: Vec<String>,
}

#[derive(Debug, Clone, Copy, PartialEq, Eq, Structural)]
pub enum AgentActionQueueStatus {
    Queued,
    Delivered,
    Succeeded,
    Failed,
    Rejected,
}

#[derive(Debug, Clone, PartialEq, Eq)]
pub struct AgentActionRecord {
    pub action_json: String,
    pub queue_status: AgentActionQueueStatus,
    pub created_at_unix_secs: u64,
    pub delivered_at_unix_secs: Option<u64>,
    pub completed_at_unix_secs: Option<u64>,
    pub completion_status: Option<AgentActionCompletionStatus>,
    pub completion_reason: Option<AgentActionCompletionReason>,
}

#[derive(Debug, Clone, PartialEq, Eq)]
pub struct ListAgentActionRecordsRequest {
    pub node_id: HephaestusServerId,
}

#[derive(Debug, Clone, PartialEq, Eq)]
pub struct ListAgentActionRecordsResponse {
    pub records: Vec<AgentActionRecord>,
}

#[derive(Debug, Clone, PartialEq, Eq)]
pub struct PollQueuedAgentActionsRequest {
    pub node_id: HephaestusServerId,
    pub now_unix_secs: u64,
}

#[derive(Debug, Clone, PartialEq, Eq)]
pub struct PollQueuedAgentActionsResponse {
    pub action_json_values: Vec<String>,
}

#[derive(Debug, Clone, PartialEq, Eq)]
pub struct CompleteQueuedAgentActionRequest {
    pub node_id: HephaestusServerId,
    pub action_id: String,
    pub idempotency_key: String,
    pub status: AgentActionCompletionStatus,
    pub reason: AgentActionCompletionReason,
    pub completed_at_unix_secs: u64,
}

#[derive(Debug, Clone, Copy, PartialEq, Eq)]
pub struct CompleteQueuedAgentActionResponse {
    pub accepted: bool,
}


} // verus!

verus! {

/// The position of a provider location key in the built-in table, or `-1`
/// for a key that the table does not list.
spec fn provider_location_rank(p: InfrastructureProvider, id: Seq<char>) -> int {
    if p == InfrastructureProvider::Vultr && id == "ams"@ {
        0
    } else if p == InfrastructureProvider::Vultr && id == "atl"@ {
        1
    } else if p == InfrastructureProvider::Vultr && id == "blr"@ {
        2
    } else if p == InfrastructureProvider::Vultr && id == "bom"@ {
        3
    } else if p == InfrastructureProvider::Vultr && id == "cdg"@ {
        4
    } else if p == InfrastructureProvider::Vultr && id == "del"@ {
        5
    } else if p == InfrastructureProvider::Vultr && id == "dfw"@ {
        6
    } else if p == InfrastructureProvider::Vultr && id == "ewr"@ {
        7
    } else if p == InfrastructureProvider::Vultr && id == "fra"@ {
        8
    } else if p == InfrastructureProvider::Vultr && id == "hnl"@ {
        9
    } else if p == InfrastructureProvider::Vultr && id == "icn"@ {
        10
    } else if p == InfrastructureProvider::Vultr && id == "itm"@ {
        11
    } else if p == InfrastructureProvider::Vultr && id == "jnb"@ {
        12
    } else if p == InfrastructureProvider::Vultr && id == "lax"@ {
        13
    } else if p == InfrastructureProvider::Vultr && id == "lhr"@ {
        14
    } else if p == InfrastructureProvider::Vultr && id == "mad"@ {
        15
    } else if p == InfrastructureProvider::Vultr && id == "man"@ {
        16
    } else if p == InfrastructureProvider::Vultr && id == "mel"@ {
        17
    } else if p == InfrastructureProvider::Vultr && id == "mex"@ {
        18
    } else if p == InfrastructureProvider::Vultr && id == "mia"@ {
        19
    } else if p == InfrastructureProvider::Vultr && id == "mxp"@ {
        20
    } else if p == InfrastructureProvider::Vultr && id == "nrt"@ {
        21
    } else if p == InfrastructureProvider::Vultr && id == "ord"@ {
        22
    } else if p == InfrastructureProvider::Vultr && id == "sao"@ {
        23
    } else if p == InfrastructureProvider::Vultr && id == "scl"@ {
        24
    } else if p == InfrastructureProvider::Vultr && id == "sea"@ {
        25
    } else if p == InfrastructureProvider::Vultr && id == "sgp"@ {
        26
    } else if p == InfrastructureProvider::Vultr && id == "sjc"@ {
        27
    } else if p == InfrastructureProvider::Vultr && id == "sto"@ {
        28
    } else if p == InfrastructureProvider::Vultr && id == "syd"@ {
        29
    } else if p == InfrastructureProvider::Vultr && id == "tlv"@ {
        30
    } else if p == InfrastructureProvider::Vultr && id == "waw"@ {
        31
    } else if p == InfrastructureProvider::Vultr && id == "yto"@ {
        32
    } else if p == InfrastructureProvider::Hetzner && id == "fsn1"@ {
        33
    } else if p == InfrastructureProvider::Hetzner && id == "nbg1"@ {
        34
    } else if p == InfrastructureProvider::Hetzner && id == "hel1"@ {
        35
    } else if p == InfrastructureProvider::Hetzner && id == "ash"@ {
        36
    } else if p == InfrastructureProvider::Hetzner && id == "hil"@ {
        37
    } else if p == InfrastructureProvider::Hetzner && id == "sin"@ {
        38
    } else {
        -1
    }
}

/// Each row of the table sits at the position of its own key.
proof fn lemma_provider_location_rank_of_row(k: int)
    requires
        0 <= k < provider_location_table().len(),
    ensures
        provider_location_rank(
            provider_location_table()[k].provider,
            provider_location_table()[k].provider_location_id,
        ) == k,
{
    reveal_strlit("ams");
    reveal_strlit("atl");
    reveal_strlit("blr");
    reveal_strlit("bom");
    reveal_strlit("cdg");
    reveal_strlit("del");
    reveal_strlit("dfw");
    reveal_strlit("ewr");
    reveal_strlit("fra");
    reveal_strlit("hnl");
    reveal_strlit("icn");
    reveal_strlit("itm");
    reveal_strlit("jnb");
    reveal_strlit("lax");
    reveal_strlit("lhr");
    reveal_strlit("mad");
    reveal_strlit("man");
    reveal_strlit("mel");
    reveal_strlit("mex");
    reveal_strlit("mia");
    reveal_strlit("mxp");
    reveal_strlit("nrt");
    reveal_strlit("ord");
    reveal_strlit("sao");
    reveal_strlit("scl");
    reveal_strlit("sea");
    reveal_strlit("sgp");
    reveal_strlit("sjc");
    reveal_strlit("sto");
    reveal_strlit("syd");
    reveal_strlit("tlv");
    reveal_strlit("waw");
    reveal_strlit("yto");
    reveal_strlit("fsn1");
    reveal_strlit("nbg1");
    reveal_strlit("hel1");
    reveal_strlit("ash");
    reveal_strlit("hil");
    reveal_strlit("sin");
    assert("ams"@.len() == 3 && "ams"@[0] == 'a' && "ams"@[1] == 'm' && "ams"@[2] == 's');
    assert("atl"@.len() == 3 && "atl"@[0] == 'a' && "atl"@[1] == 't' && "atl"@[2] == 'l');
    assert("blr"@.len() == 3 && "blr"@[0] == 'b' && "blr"@[1] == 'l' && "blr"@[2] == 'r');
    assert("bom"@.len() == 3 && "bom"@[0] == 'b' && "bom"@[1] == 'o' && "bom"@[2] == 'm');
    assert("cdg"@.len() == 3 && "cdg"@[0] == 'c' && "cdg"@[1] == 'd' && "cdg"@[2] == 'g');
    assert("del"@.len() == 3 && "del"@[0] == 'd' && "del"@[1] == 'e' && "del"@[2] == 'l');
    assert("dfw"@.len() == 3 && "dfw"@[0] == 'd' && "dfw"@[1] == 'f' && "dfw"@[2] == 'w');
    assert("ewr"@.len() == 3 && "ewr"@[0] == 'e' && "ewr"@[1] == 'w' && "ewr"@[2] == 'r');
    assert("fra"@.len() == 3 && "fra"@[0] == 'f' && "fra"@[1] == 'r' && "fra"@[2] == 'a');
    assert("hnl"@.len() == 3 && "hnl"@[0] == 'h' && "hnl"@[1] == 'n' && "hnl"@[2] == 'l');
    assert("icn"@.len() == 3 && "icn"@[0] == 'i' && "icn"@[1] == 'c' && "icn"@[2] == 'n');
    assert("itm"@.len() == 3 && "itm"@[0] == 'i' && "itm"@[1] == 't' && "itm"@[2] == 'm');
    assert("jnb"@.len() == 3 && "jnb"@[0] == 'j' && "jnb"@[1] == 'n' && "jnb"@[2] == 'b');
    assert("lax"@.len() == 3 && "lax"@[0] == 'l' && "lax"@[1] == 'a' && "lax"@[2] == 'x');
    assert("lhr"@.len() == 3 && "lhr"@[0] == 'l' && "lhr"@[1] == 'h' && "lhr"@[2] == 'r');
    assert("mad"@.len() == 3 && "mad"@[0] == 'm' && "mad"@[1] == 'a' && "mad"@[2] == 'd');
    assert("man"@.len() == 3 && "man"@[0] == 'm' && "man"@[1] == 'a' && "man"@[2] == 'n');
    assert("mel"@.len() == 3 && "mel"@[0] == 'm' && "mel"@[1] == 'e' && "mel"@[2] == 'l');
    assert("mex"@.len() == 3 && "mex"@[0] == 'm' && "mex"@[1] == 'e' && "mex"@[2] == 'x');
    assert("mia"@.len() == 3 && "mia"@[0] == 'm' && "mia"@[1] == 'i' && "mia"@[2] == 'a');
    assert("mxp"@.len() == 3 && "mxp"@[0] == 'm' && "mxp"@[1] == 'x' && "mxp"@[2] == 'p');
    assert("nrt"@.len() == 3 && "nrt"@[0] == 'n' && "nrt"@[1] == 'r' && "nrt"@[2] == 't');
    assert("ord"@.len() == 3 && "ord"@[0] == 'o' && "ord"@[1] == 'r' && "ord"@[2] == 'd');
    assert("sao"@.len() == 3 && "sao"@[0] == 's' && "sao"@[1] == 'a' && "sao"@[2] == 'o');
    assert("scl"@.len() == 3 && "scl"@[0] == 's' && "scl"@[1] == 'c' && "scl"@[2] == 'l');
    assert("sea"@.len() == 3 && "sea"@[0] == 's' && "sea"@[1] == 'e' && "sea"@[2] == 'a');
    assert("sgp"@.len() == 3 && "sgp"@[0] == 's' && "sgp"@[1] == 'g' && "sgp"@[2] == 'p');
    assert("sjc"@.len() == 3 && "sjc"@[0] == 's' && "sjc"@[1] == 'j' && "sjc"@[2] == 'c');
    assert("sto"@.len() == 3 && "sto"@[0] == 's' && "sto"@[1] == 't' && "sto"@[2] == 'o');
    assert("syd"@.len() == 3 && "syd"@[0] == 's' && "syd"@[1] == 'y' && "syd"@[2] == 'd');
    assert("tlv"@.len() == 3 && "tlv"@[0] == 't' && "tlv"@[1] == 'l' && "tlv"@[2] == 'v');
    assert("waw"@.len() == 3 && "waw"@[0] == 'w' && "waw"@[1] == 'a' && "waw"@[2] == 'w');
    assert("yto"@.len() == 3 && "yto"@[0] == 'y' && "yto"@[1] == 't' && "yto"@[2] == 'o');
    assert("fsn1"@.len() == 4 && "fsn1"@[0] == 'f' && "fsn1"@[1] == 's' && "fsn1"@[2] == 'n' && "fsn1"@[3] == '1');
    assert("nbg1"@.len() == 4 && "nbg1"@[0] == 'n' && "nbg1"@[1] == 'b' && "nbg1"@[2] == 'g' && "nbg1"@[3] == '1');
    assert("hel1"@.len() == 4 && "hel1"@[0] == 'h' && "hel1"@[1] == 'e' && "hel1"@[2] == 'l' && "hel1"@[3] == '1');
    assert("ash"@.len() == 3 && "ash"@[0] == 'a' && "ash"@[1] == 's' && "ash"@[2] == 'h');
    assert("hil"@.len() == 3 && "hil"@[0] == 'h' && "hil"@[1] == 'i' && "hil"@[2] == 'l');
    assert("sin"@.len() == 3 && "sin"@[0] == 's' && "sin"@[1] == 'i' && "sin"@[2] == 'n');
    if k == 0 {
        assert(provider_location_rank(provider_location_table()[0].provider, provider_location_table()[0].provider_location_id) == 0);
    } else if k == 1 {
        assert(provider_location_rank(provider_location_table()[1].provider, provider_location_table()[1].provider_location_id) == 1);
    } else if k == 2 {
        assert(provider_location_rank(provider_location_table()[2].provider, provider_location_table()[2].provider_location_id) == 2);
    } else if k == 3 {
        assert(provider_location_rank(provider_location_table()[3].provider, provider_location_table()[3].provider_location_id) == 3);
    } else if k == 4 {
        assert(provider_location_rank(provider_location_table()[4].provider, provider_location_table()[4].provider_location_id) == 4);
    } else if k == 5 {
        assert(provider_location_rank(provider_location_table()[5].provider, provider_location_table()[5].provider_location_id) == 5);
    } else if k == 6 {
        assert(provider_location_rank(provider_location_table()[6].provider, provider_location_table()[6].provider_location_id) == 6);
    } else if k == 7 {
        assert(provider_location_rank(provider_location_table()[7].provider, provider_location_table()[7].provider_location_id) == 7);
    } else if k == 8 {
        assert(provider_location_rank(provider_location_table()[8].provider, provider_location_table()[8].provider_location_id) == 8);
    } else if k == 9 {
        assert(provider_location_rank(provider_location_table()[9].provider, provider_location_table()[9].provider_location_id) == 9);
    } else if k == 10 {
        assert(provider_location_rank(provider_location_table()[10].provider, provider_location_table()[10].provider_location_id) == 10);
    } else if k == 11 {
        assert(provider_location_rank(provider_location_table()[11].provider, provider_location_table()[11].provider_location_id) == 11);
    } else if k == 12 {
        assert(provider_location_rank(provider_location_table()[12].provider, provider_location_table()[12].provider_location_id) == 12);
    } else if k == 13 {
        assert(provider_location_rank(provider_location_table()[13].provider, provider_location_table()[13].provider_location_id) == 13);
    } else if k == 14 {
        assert(provider_location_rank(provider_location_table()[14].provider, provider_location_table()[14].provider_location_id) == 14);
    } else if k == 15 {
        assert(provider_location_rank(provider_location_table()[15].provider, provider_location_table()[15].provider_location_id) == 15);
    } else if k == 16 {
        assert(provider_location_rank(provider_location_table()[16].provider, provider_location_table()[16].provider_location_id) == 16);
    } else if k == 17 {
        assert(provider_location_rank(provider_location_table()[17].provider, provider_location_table()[17].provider_location_id) == 17);
    } else if k == 18 {
        assert(provider_location_rank(provider_location_table()[18].provider, provider_location_table()[18].provider_location_id) == 18);
    } else if k == 19 {
        assert(provider_location_rank(provider_location_table()[19].provider, provider_location_table()[19].provider_location_id) == 19);
    } else if k == 20 {
        assert(provider_location_rank(provider_location_table()[20].provider, provider_location_table()[20].provider_location_id) == 20);
    } else if k == 21 {
        assert(provider_location_rank(provider_location_table()[21].provider, provider_location_table()[21].provider_location_id) == 21);
    } else if k == 22 {
        assert(provider_location_rank(provider_location_table()[22].provider, provider_location_table()[22].provider_location_id) == 22);
    } else if k == 23 {
        assert(provider_location_rank(provider_location_table()[23].provider, provider_location_table()[23].provider_location_id) == 23);
    } else if k == 24 {
        assert(provider_location_rank(provider_location_table()[24].provider, provider_location_table()[24].provider_location_id) == 24);
    } else if k == 25 {
        assert(provider_location_rank(provider_location_table()[25].provider, provider_location_table()[25].provider_location_id) == 25);
    } else if k == 26 {
        assert(provider_location_rank(provider_location_table()[26].provider, provider_location_table()[26].provider_location_id) == 26);
    } else if k == 27 {
        assert(provider_location_rank(provider_location_table()[27].provider, provider_location_table()[27].provider_location_id) == 27);
    } else if k == 28 {
        assert(provider_location_rank(provider_location_table()[28].provider, provider_location_table()[28].provider_location_id) == 28);
    } else if k == 29 {
        assert(provider_location_rank(provider_location_table()[29].provider, provider_location_table()[29].provider_location_id) == 29);
    } else if k == 30 {
        assert(provider_location_rank(provider_location_table()[30].provider, provider_location_table()[30].provider_location_id) == 30);
    } else if k == 31 {
        assert(provider_location_rank(provider_location_table()[31].provider, provider_location_table()[31].provider_location_id) == 31);
    } else if k == 32 {
        assert(provider_location_rank(provider_location_table()[32].provider, provider_location_table()[32].provider_location_id) == 32);
    } else if k == 33 {
        assert(provider_location_rank(provider_location_table()[33].provider, provider_location_table()[33].provider_location_id) == 33);
    } else if k == 34 {
        assert(provider_location_rank(provider_location_table()[34].provider, provider_location_table()[34].provider_location_id) == 34);
    } else if k == 35 {
        assert(provider_location_rank(provider_location_table()[35].provider, provider_location_table()[35].provider_location_id) == 35);
    } else if k == 36 {
        assert(provider_location_rank(provider_location_table()[36].provider, provider_location_table()[36].provider_location_id) == 36);
    } else if k == 37 {
        assert(provider_location_rank(provider_location_table()[37].provider, provider_location_table()[37].provider_location_id) == 37);
    } else if k == 38 {
        assert(provider_location_rank(provider_location_table()[38].provider, provider_location_table()[38].provider_location_id) == 38);
    }
}

/// No two rows of the provider location table share a provider and a
/// provider location identifier, so each key names at most one Site.
pub proof fn lemma_provider_location_keys_unique()
    ensures
        forall|i: int, j: int|
            0 <= i < j < provider_location_table().len() ==> !location_matches(
                #[trigger] provider_location_table()[i],
                provider_location_table()[j].provider,
                #[trigger] provider_location_table()[j].provider_location_id,
            ),
{
    assert forall|i: int, j: int|
        0 <= i < j < provider_location_table().len() implies !location_matches(
            #[trigger] provider_location_table()[i],
            provider_location_table()[j].provider,
            #[trigger] provider_location_table()[j].provider_location_id,
        ) by {
        lemma_provider_location_rank_of_row(i);
        lemma_provider_location_rank_of_row(j);
    }
}

} // verus!
