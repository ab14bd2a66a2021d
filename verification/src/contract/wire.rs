//! Wire messages of the Hephaestus domain protocol: the plain fields a
//! protobuf message carries, before any domain validation. An empty string
//! or a zero stands for an absent value, and every enumeration has an
//! `Unspecified` value that the domain refuses.
use vstd::prelude::*;

use crate::text::string_views;

verus! {

/// Broad machine purpose on the wire.
#[derive(Debug, Clone, Copy, PartialEq, Eq, Structural, Default)]
pub enum ProtoServerRole {
    /// No role was sent.
    #[default]
    Unspecified,
    /// Application serving node.
    Api,
    /// Background worker.
    Worker,
    /// Database server.
    Db,
    /// Search server.
    Search,
    /// Edge or ingress server.
    Edge,
    /// Role not yet classified.
    Unknown,
}

/// Actual node status on the wire.
#[derive(Debug, Clone, Copy, PartialEq, Eq, Structural, Default)]
pub enum ProtoNodeActualStateStatus {
    /// No status was sent.
    #[default]
    Unspecified,
    /// Boot report completed.
    Ready,
    /// Freshness window missed.
    Stale,
    /// Stopped, destroyed or unreachable.
    Offline,
}

/// The text content of a [`ProtoNodeActualState`].
pub struct ProtoNodeActualStateView {
    /// Internal server identifier.
    pub server_id: Seq<char>,
    /// Provider server identifier.
    pub provider_server_id: Seq<char>,
    /// Site identifier.
    pub site_id: Seq<char>,
    /// Public address, empty when absent.
    pub public_ip: Seq<char>,
    /// Private address, empty when absent.
    pub private_ip: Seq<char>,
    /// Boot time.
    pub boot_time_unix_secs: u64,
    /// Last contact time.
    pub last_seen_unix_secs: u64,
    /// Status.
    pub status: ProtoNodeActualStateStatus,
    /// Logical group, empty when absent.
    pub cluster_id: Seq<char>,
    /// Server role.
    pub role: ProtoServerRole,
    /// Deployed apps.
    pub apps: Seq<Seq<char>>,
    /// Exposed services.
    pub services: Seq<Seq<char>>,
    /// Infrastructure class.
    pub infrastructure_class_id: Seq<char>,
}

/// Durable actual-state summary of a node, as sent on the wire.
#[derive(Debug, Clone, PartialEq, Eq, Default)]
pub struct ProtoNodeActualState {
    /// Internal server identifier.
    pub server_id: String,
    /// Provider server identifier.
    pub provider_server_id: String,
    /// Site identifier.
    pub site_id: String,
    /// Public address, empty when absent.
    pub public_ip: String,
    /// Private address, empty when absent.
    pub private_ip: String,
    /// Boot time.
    pub boot_time_unix_secs: u64,
    /// Last contact time.
    pub last_seen_unix_secs: u64,
    /// Status.
    pub status: ProtoNodeActualStateStatus,
    /// Logical group, empty when absent.
    pub cluster_id: String,
    /// Server role.
    pub role: ProtoServerRole,
    /// Deployed apps.
    pub apps: Vec<String>,
    /// Exposed services.
    pub services: Vec<String>,
    /// Infrastructure class.
    pub infrastructure_class_id: String,
}

impl View for ProtoNodeActualState {
    type V = ProtoNodeActualStateView;

    open spec fn view(&self) -> ProtoNodeActualStateView {
        ProtoNodeActualStateView {
            server_id: self.server_id@,
            provider_server_id: self.provider_server_id@,
            site_id: self.site_id@,
            public_ip: self.public_ip@,
            private_ip: self.private_ip@,
            boot_time_unix_secs: self.boot_time_unix_secs,
            last_seen_unix_secs: self.last_seen_unix_secs,
            status: self.status,
            cluster_id: self.cluster_id@,
            role: self.role,
            apps: string_views(self.apps@),
            services: string_views(self.services@),
            infrastructure_class_id: self.infrastructure_class_id@,
        }
    }
}

/// The text content of a [`ProtoVultrInstanceTemplate`].
pub struct ProtoVultrInstanceTemplateView {
    /// Template identifier.
    pub id: Seq<char>,
    /// Plan identifier.
    pub plan: Seq<char>,
    /// Label, empty when absent.
    pub label: Seq<char>,
    /// Operating-system identifier, zero when absent.
    pub os_id: u32,
    /// ISO identifier, empty when absent.
    pub iso_id: Seq<char>,
    /// Snapshot identifier, empty when absent.
    pub snapshot_id: Seq<char>,
    /// Marketplace application identifier, zero when absent.
    pub marketplace_app_id: u32,
    /// Marketplace image identifier, zero when absent.
    pub marketplace_image_id: u32,
    /// Startup script identifier, empty when absent.
    pub script_id: Seq<char>,
    /// SSH key identifiers.
    pub ssh_key_ids: Seq<Seq<char>>,
    /// VPC identifiers.
    pub vpc_ids: Seq<Seq<char>>,
    /// VFS identifiers.
    pub vfs_ids: Seq<Seq<char>>,
    /// Cloud-init user data, empty when absent.
    pub user_data: Seq<char>,
}

/// Vultr instance-template snapshot, as sent on the wire.
#[derive(Debug, Clone, PartialEq, Eq, Default)]
pub struct ProtoVultrInstanceTemplate {
    /// Template identifier.
    pub id: String,
    /// Plan identifier.
    pub plan: String,
    /// Label, empty when absent.
    pub label: String,
    /// Operating-system identifier, zero when absent.
    pub os_id: u32,
    /// ISO identifier, empty when absent.
    pub iso_id: String,
    /// Snapshot identifier, empty when absent.
    pub snapshot_id: String,
    /// Marketplace application identifier, zero when absent.
    pub marketplace_app_id: u32,
    /// Marketplace image identifier, zero when absent.
    pub marketplace_image_id: u32,
    /// Startup script identifier, empty when absent.
    pub script_id: String,
    /// SSH key identifiers.
    pub ssh_key_ids: Vec<String>,
    /// VPC identifiers.
    pub vpc_ids: Vec<String>,
    /// VFS identifiers.
    pub vfs_ids: Vec<String>,
    /// Cloud-init user data, empty when absent.
    pub user_data: String,
}

impl View for ProtoVultrInstanceTemplate {
    type V = ProtoVultrInstanceTemplateView;

    open spec fn view(&self) -> ProtoVultrInstanceTemplateView {
        ProtoVultrInstanceTemplateView {
            id: self.id@,
            plan: self.plan@,
            label: self.label@,
            os_id: self.os_id,
            iso_id: self.iso_id@,
            snapshot_id: self.snapshot_id@,
            marketplace_app_id: self.marketplace_app_id,
            marketplace_image_id: self.marketplace_image_id,
            script_id: self.script_id@,
            ssh_key_ids: string_views(self.ssh_key_ids@),
            vpc_ids: string_views(self.vpc_ids@),
            vfs_ids: string_views(self.vfs_ids@),
            user_data: self.user_data@,
        }
    }
}

/// Container lifecycle state on the wire.
#[derive(Debug, Clone, Copy, PartialEq, Eq, Structural, Default)]
pub enum ProtoContainerState {
    /// No value was sent.
    #[default]
    Unspecified,
    /// Created.
    Created,
    /// Running.
    Running,
    /// Restarting.
    Restarting,
    /// Being removed.
    Removing,
    /// Paused.
    Paused,
    /// Exited.
    Exited,
    /// Dead.
    Dead,
    /// Not known.
    Unknown,
}

/// Container health on the wire.
#[derive(Debug, Clone, Copy, PartialEq, Eq, Structural, Default)]
pub enum ProtoContainerHealthState {
    /// No value was sent.
    #[default]
    Unspecified,
    /// Healthy.
    Healthy,
    /// Unhealthy.
    Unhealthy,
    /// Health check starting.
    Starting,
    /// No health check configured.
    NotConfigured,
    /// Not known.
    Unknown,
}

/// Why a container restart is recommended, on the wire.
#[derive(Debug, Clone, Copy, PartialEq, Eq, Structural, Default)]
pub enum ProtoContainerRestartReason {
    /// No value was sent.
    #[default]
    Unspecified,
    /// No restart recommended.
    NotRequired,
    /// The container is unhealthy.
    Unhealthy,
    /// The container keeps restarting.
    Restarting,
    /// The container exited.
    Exited,
    /// The container is dead.
    Dead,
    /// Not known.
    Unknown,
}

/// Host service lifecycle state on the wire.
#[derive(Debug, Clone, Copy, PartialEq, Eq, Structural, Default)]
pub enum ProtoHostServiceState {
    /// No value was sent.
    #[default]
    Unspecified,
    /// Active.
    Active,
    /// Reloading.
    Reloading,
    /// Inactive.
    Inactive,
    /// Failed.
    Failed,
    /// Activating.
    Activating,
    /// Deactivating.
    Deactivating,
    /// Not known.
    Unknown,
}

/// Unattended-upgrades state on the wire.
#[derive(Debug, Clone, Copy, PartialEq, Eq, Structural, Default)]
pub enum ProtoUnattendedUpgradesState {
    /// No value was sent.
    #[default]
    Unspecified,
    /// Active.
    Active,
    /// Inactive.
    Inactive,
    /// Failed.
    Failed,
    /// Not installed.
    NotInstalled,
    /// Not known.
    Unknown,
}

/// Service probe kind on the wire.
#[derive(Debug, Clone, Copy, PartialEq, Eq, Structural, Default)]
pub enum ProtoServiceProbeKind {
    /// No value was sent.
    #[default]
    Unspecified,
    /// HTTP probe.
    Http,
    /// TCP probe.
    Tcp,
}

/// Service probe result on the wire.
#[derive(Debug, Clone, Copy, PartialEq, Eq, Structural, Default)]
pub enum ProtoServiceProbeStatus {
    /// No value was sent.
    #[default]
    Unspecified,
    /// The probe passed.
    Passed,
    /// The probe failed.
    Failed,
    /// The probe was skipped.
    Skipped,
}

/// Host resource snapshot, as sent on the wire.
#[derive(Debug, Clone, PartialEq, Eq, Default)]
pub struct ProtoHostResourceReport {
    /// CPU usage in basis points.
    pub cpu_usage_basis_points: u32,
    /// Total memory.
    pub memory_total_bytes: u64,
    /// Used memory.
    pub memory_used_bytes: u64,
    /// Total disk.
    pub disk_total_bytes: u64,
    /// Used disk.
    pub disk_used_bytes: u64,
}

/// The text content of a [`ProtoContainerReport`].
pub struct ProtoContainerReportView {
    /// Container name.
    pub container_name: Seq<char>,
    /// Image reference.
    pub image: Seq<char>,
    /// Lifecycle state.
    pub state: ProtoContainerState,
    /// Health.
    pub health_state: ProtoContainerHealthState,
    /// Recent log lines.
    pub recent_log_lines: Seq<Seq<char>>,
    /// Whether a restart is recommended.
    pub restart_required: bool,
    /// Why a restart is recommended.
    pub restart_reason: ProtoContainerRestartReason,
}

/// One container snapshot, as sent on the wire.
#[derive(Debug, Clone, PartialEq, Eq, Default)]
pub struct ProtoContainerReport {
    /// Container name.
    pub container_name: String,
    /// Image reference.
    pub image: String,
    /// Lifecycle state.
    pub state: ProtoContainerState,
    /// Health.
    pub health_state: ProtoContainerHealthState,
    /// Recent log lines.
    pub recent_log_lines: Vec<String>,
    /// Whether a restart is recommended.
    pub restart_required: bool,
    /// Why a restart is recommended.
    pub restart_reason: ProtoContainerRestartReason,
}

impl View for ProtoContainerReport {
    type V = ProtoContainerReportView;

    open spec fn view(&self) -> ProtoContainerReportView {
        ProtoContainerReportView {
            container_name: self.container_name@,
            image: self.image@,
            state: self.state,
            health_state: self.health_state,
            recent_log_lines: string_views(self.recent_log_lines@),
            restart_required: self.restart_required,
            restart_reason: self.restart_reason,
        }
    }
}

/// The text content of a [`ProtoHostServiceReport`].
pub struct ProtoHostServiceReportView {
    /// Unit name.
    pub unit_name: Seq<char>,
    /// Lifecycle state.
    pub state: ProtoHostServiceState,
    /// Recent log lines.
    pub recent_log_lines: Seq<Seq<char>>,
}

/// One host service snapshot, as sent on the wire.
#[derive(Debug, Clone, PartialEq, Eq, Default)]
pub struct ProtoHostServiceReport {
    /// Unit name.
    pub unit_name: String,
    /// Lifecycle state.
    pub state: ProtoHostServiceState,
    /// Recent log lines.
    pub recent_log_lines: Vec<String>,
}

impl View for ProtoHostServiceReport {
    type V = ProtoHostServiceReportView;

    open spec fn view(&self) -> ProtoHostServiceReportView {
        ProtoHostServiceReportView {
            unit_name: self.unit_name@,
            state: self.state,
            recent_log_lines: string_views(self.recent_log_lines@),
        }
    }
}

/// The text content of a [`ProtoTailscaleReport`].
pub struct ProtoTailscaleReportView {
    /// Hostname, empty when absent.
    pub hostname: Seq<char>,
    /// MagicDNS name, empty when absent.
    pub magic_dns_name: Seq<char>,
    /// Tailnet addresses.
    pub ips: Seq<Seq<char>>,
    /// Tags.
    pub tags: Seq<Seq<char>>,
    /// Services.
    pub services: Seq<Seq<char>>,
}

/// Node-local Tailscale identity, as sent on the wire.
#[derive(Debug, Clone, PartialEq, Eq, Default)]
pub struct ProtoTailscaleReport {
    /// Hostname, empty when absent.
    pub hostname: String,
    /// MagicDNS name, empty when absent.
    pub magic_dns_name: String,
    /// Tailnet addresses.
    pub ips: Vec<String>,
    /// Tags.
    pub tags: Vec<String>,
    /// Services.
    pub services: Vec<String>,
}

impl View for ProtoTailscaleReport {
    type V = ProtoTailscaleReportView;

    open spec fn view(&self) -> ProtoTailscaleReportView {
        ProtoTailscaleReportView {
            hostname: self.hostname@,
            magic_dns_name: self.magic_dns_name@,
            ips: string_views(self.ips@),
            tags: string_views(self.tags@),
            services: string_views(self.services@),
        }
    }
}

/// The text content of a [`ProtoRuntimeVersionReport`].
pub struct ProtoRuntimeVersionReportView {
    /// Docker version, empty when absent.
    pub docker_version: Seq<char>,
    /// Docker Compose version, empty when absent.
    pub docker_compose_version: Seq<char>,
}

/// Container runtime versions, as sent on the wire.
#[derive(Debug, Clone, PartialEq, Eq, Default)]
pub struct ProtoRuntimeVersionReport {
    /// Docker version, empty when absent.
    pub docker_version: String,
    /// Docker Compose version, empty when absent.
    pub docker_compose_version: String,
}

impl View for ProtoRuntimeVersionReport {
    type V = ProtoRuntimeVersionReportView;

    open spec fn view(&self) -> ProtoRuntimeVersionReportView {
        ProtoRuntimeVersionReportView {
            docker_version: self.docker_version@,
            docker_compose_version: self.docker_compose_version@,
        }
    }
}

/// Operating-system patch state, as sent on the wire.
#[derive(Debug, Clone, PartialEq, Eq, Default)]
pub struct ProtoPatchStateReport {
    /// Whether a reboot is pending.
    pub reboot_required: bool,
    /// Unattended-upgrades state.
    pub unattended_upgrades_state: ProtoUnattendedUpgradesState,
}

/// cAdvisor scrape summary, as sent on the wire.
#[derive(Debug, Clone, PartialEq, Eq, Default)]
pub struct ProtoCadvisorSummary {
    /// Whether cAdvisor answered.
    pub reachable: bool,
    /// Container metric lines seen.
    pub container_metric_lines: u32,
    /// Whether CPU metrics were seen.
    pub has_cpu_metrics: bool,
    /// Whether memory metrics were seen.
    pub has_memory_metrics: bool,
}

/// node-exporter scrape summary, as sent on the wire.
#[derive(Debug, Clone, PartialEq, Eq, Default)]
pub struct ProtoNodeExporterSummary {
    /// Whether node-exporter answered.
    pub reachable: bool,
    /// Metric lines seen.
    pub metric_lines: u32,
    /// Whether CPU metrics were seen.
    pub has_cpu_metrics: bool,
    /// Whether memory metrics were seen.
    pub has_memory_metrics: bool,
    /// Whether filesystem metrics were seen.
    pub has_filesystem_metrics: bool,
}

/// Host observability summary, as sent on the wire.
#[derive(Debug, Clone, PartialEq, Eq, Default)]
pub struct ProtoObservabilityReport {
    /// cAdvisor summary, when sent.
    pub cadvisor: Option<ProtoCadvisorSummary>,
    /// node-exporter summary, when sent.
    pub node_exporter: Option<ProtoNodeExporterSummary>,
}

/// The text content of a [`ProtoServiceProbeReport`].
pub struct ProtoServiceProbeReportView {
    /// Probe name.
    pub probe_name: Seq<char>,
    /// Service name.
    pub service_name: Seq<char>,
    /// Probe kind.
    pub kind: ProtoServiceProbeKind,
    /// Probe target.
    pub target: Seq<char>,
    /// Probe result.
    pub status: ProtoServiceProbeStatus,
    /// HTTP status code, zero when absent.
    pub http_status_code: u32,
}

/// One local service probe result, as sent on the wire.
#[derive(Debug, Clone, PartialEq, Eq, Default)]
pub struct ProtoServiceProbeReport {
    /// Probe name.
    pub probe_name: String,
    /// Service name.
    pub service_name: String,
    /// Probe kind.
    pub kind: ProtoServiceProbeKind,
    /// Probe target.
    pub target: String,
    /// Probe result.
    pub status: ProtoServiceProbeStatus,
    /// HTTP status code, zero when absent.
    pub http_status_code: u32,
}

impl View for ProtoServiceProbeReport {
    type V = ProtoServiceProbeReportView;

    open spec fn view(&self) -> ProtoServiceProbeReportView {
        ProtoServiceProbeReportView {
            probe_name: self.probe_name@,
            service_name: self.service_name@,
            kind: self.kind,
            target: self.target@,
            status: self.status,
            http_status_code: self.http_status_code,
        }
    }
}

/// The text content of a [`ProtoAgentReport`].
pub struct ProtoAgentReportView {
    /// Internal server identifier.
    pub server_id: Seq<char>,
    /// Provider server identifier.
    pub provider_server_id: Seq<char>,
    /// Private address, empty when absent.
    pub private_ip: Seq<char>,
    /// Report time.
    pub generated_at_unix_secs: u64,
    /// Host resources, when sent.
    pub resources: Option<ProtoHostResourceReport>,
    /// Container snapshots.
    pub containers: Seq<ProtoContainerReportView>,
    /// Host service snapshots.
    pub host_services: Seq<ProtoHostServiceReportView>,
    /// Discovered apps.
    pub actual_apps: Seq<Seq<char>>,
    /// Tailscale identity, when sent.
    pub tailscale: Option<ProtoTailscaleReportView>,
    /// Runtime versions, when sent.
    pub runtime_versions: Option<ProtoRuntimeVersionReportView>,
    /// Patch state, when sent.
    pub patch_state: Option<ProtoPatchStateReport>,
    /// Observability summary, when sent.
    pub observability: Option<ProtoObservabilityReport>,
    /// Service probe results.
    pub service_probes: Seq<ProtoServiceProbeReportView>,
}

/// Complete agent report, as sent on the wire.
#[derive(Debug, Clone, PartialEq, Eq, Default)]
pub struct ProtoAgentReport {
    /// Internal server identifier.
    pub server_id: String,
    /// Provider server identifier.
    pub provider_server_id: String,
    /// Private address, empty when absent.
    pub private_ip: String,
    /// Report time.
    pub generated_at_unix_secs: u64,
    /// Host resources, when sent.
    pub resources: Option<ProtoHostResourceReport>,
    /// Container snapshots.
    pub containers: Vec<ProtoContainerReport>,
    /// Host service snapshots.
    pub host_services: Vec<ProtoHostServiceReport>,
    /// Discovered apps.
    pub actual_apps: Vec<String>,
    /// Tailscale identity, when sent.
    pub tailscale: Option<ProtoTailscaleReport>,
    /// Runtime versions, when sent.
    pub runtime_versions: Option<ProtoRuntimeVersionReport>,
    /// Patch state, when sent.
    pub patch_state: Option<ProtoPatchStateReport>,
    /// Observability summary, when sent.
    pub observability: Option<ProtoObservabilityReport>,
    /// Service probe results.
    pub service_probes: Vec<ProtoServiceProbeReport>,
}

impl View for ProtoAgentReport {
    type V = ProtoAgentReportView;

    open spec fn view(&self) -> ProtoAgentReportView {
        ProtoAgentReportView {
            server_id: self.server_id@,
            provider_server_id: self.provider_server_id@,
            private_ip: self.private_ip@,
            generated_at_unix_secs: self.generated_at_unix_secs,
            resources: self.resources,
            containers: container_report_views(self.containers@),
            host_services: host_service_report_views(self.host_services@),
            actual_apps: string_views(self.actual_apps@),
            tailscale: match self.tailscale { Some(x) => Some(x@), None => None },
            runtime_versions: match self.runtime_versions { Some(x) => Some(x@), None => None },
            patch_state: self.patch_state,
            observability: self.observability,
            service_probes: service_probe_report_views(self.service_probes@),
        }
    }
}

/// DNS record kind on the wire.
#[derive(Debug, Clone, Copy, PartialEq, Eq, Structural, Default)]
pub enum ProtoDnsRecordKind {
    /// No value was sent.
    #[default]
    Unspecified,
    /// IPv4 address record.
    A,
    /// IPv6 address record.
    Aaaa,
}

/// DNS record visibility on the wire.
#[derive(Debug, Clone, Copy, PartialEq, Eq, Structural, Default)]
pub enum ProtoDnsRecordVisibility {
    /// No value was sent.
    #[default]
    Unspecified,
    /// Public record.
    Public,
    /// Internal record.
    Internal,
}

/// Server environment tag on the wire.
#[derive(Debug, Clone, Copy, PartialEq, Eq, Structural, Default)]
pub enum ProtoServerEnvironmentTag {
    /// No value was sent.
    #[default]
    Unspecified,
    /// Development.
    Dev,
    /// Production.
    Prod,
}

/// Provisioning event kind on the wire.
#[derive(Debug, Clone, Copy, PartialEq, Eq, Structural, Default)]
pub enum ProtoProvisioningEventKind {
    /// No value was sent.
    #[default]
    Unspecified,
    /// Provisioning requested.
    Requested,
    /// Instance creation started.
    InstanceCreateStarted,
    /// Instance creation succeeded.
    InstanceCreateSucceeded,
    /// Instance creation failed.
    InstanceCreateFailed,
    /// DNS reconciliation started.
    DnsReconcileStarted,
    /// DNS reconciliation succeeded.
    DnsReconcileSucceeded,
    /// DNS reconciliation failed.
    DnsReconcileFailed,
    /// Health check started.
    HealthCheckStarted,
    /// Health check succeeded.
    HealthCheckSucceeded,
    /// Health check failed.
    HealthCheckFailed,
    /// Boot reported.
    BootReported,
    /// Ready.
    Ready,
}

/// The text content of a [`ProtoDnsRecord`].
pub struct ProtoDnsRecordView {
    /// Record name.
    pub name: Seq<char>,
    /// Record kind.
    pub kind: ProtoDnsRecordKind,
    /// Record target.
    pub target: Seq<char>,
    /// Record visibility.
    pub visibility: ProtoDnsRecordVisibility,
}

/// One desired DNS record, as sent on the wire.
#[derive(Debug, Clone, PartialEq, Eq, Default)]
pub struct ProtoDnsRecord {
    /// Record name.
    pub name: String,
    /// Record kind.
    pub kind: ProtoDnsRecordKind,
    /// Record target.
    pub target: String,
    /// Record visibility.
    pub visibility: ProtoDnsRecordVisibility,
}

impl View for ProtoDnsRecord {
    type V = ProtoDnsRecordView;

    open spec fn view(&self) -> ProtoDnsRecordView {
        ProtoDnsRecordView {
            name: self.name@,
            kind: self.kind,
            target: self.target@,
            visibility: self.visibility,
        }
    }
}

/// The text content of a [`ProtoProvisioningEventSnapshot`].
pub struct ProtoProvisioningEventSnapshotView {
    /// Event kind.
    pub kind: ProtoProvisioningEventKind,
    /// Detail, empty when absent.
    pub detail: Seq<char>,
}

/// Latest provisioning event, as sent on the wire.
#[derive(Debug, Clone, PartialEq, Eq, Default)]
pub struct ProtoProvisioningEventSnapshot {
    /// Event kind.
    pub kind: ProtoProvisioningEventKind,
    /// Detail, empty when absent.
    pub detail: String,
}

impl View for ProtoProvisioningEventSnapshot {
    type V = ProtoProvisioningEventSnapshotView;

    open spec fn view(&self) -> ProtoProvisioningEventSnapshotView {
        ProtoProvisioningEventSnapshotView {
            kind: self.kind,
            detail: self.detail@,
        }
    }
}

/// The text content of a [`ProtoServerInventoryRow`].
pub struct ProtoServerInventoryRowView {
    /// Internal server identifier.
    pub server_id: Seq<char>,
    /// Provider server identifier.
    pub provider_server_id: Seq<char>,
    /// Site identifier.
    pub site_id: Seq<char>,
    /// Infrastructure class.
    pub infrastructure_class_id: Seq<char>,
    /// Logical group, empty when absent.
    pub cluster_id: Seq<char>,
    /// Server role.
    pub role: ProtoServerRole,
    /// Planned apps.
    pub apps: Seq<Seq<char>>,
    /// Planned services.
    pub services: Seq<Seq<char>>,
    /// Apps the agent reported.
    pub actual_apps: Seq<Seq<char>>,
    /// Assigned Region, empty when absent.
    pub assigned_region_id: Seq<char>,
    /// Environment tag.
    pub environment_tag: ProtoServerEnvironmentTag,
    /// Planned private address, empty when absent.
    pub planned_private_ip: Seq<char>,
    /// Public address, empty when absent.
    pub public_ip: Seq<char>,
    /// Private address, empty when absent.
    pub private_ip: Seq<char>,
    /// Boot time, zero when unknown.
    pub boot_time_unix_secs: u64,
    /// Last contact, zero when unknown.
    pub last_seen_unix_secs: u64,
    /// Actual status, `Unspecified` when unknown.
    pub actual_status: ProtoNodeActualStateStatus,
    /// Latest provisioning event, when known.
    pub latest_provisioning_event: Option<ProtoProvisioningEventSnapshotView>,
    /// DNS records.
    pub dns_records: Seq<ProtoDnsRecordView>,
    /// Latest agent report, when known.
    pub latest_agent_report: Option<ProtoAgentReportView>,
}

/// Dashboard inventory row, as sent on the wire.
#[derive(Debug, Clone, PartialEq, Eq, Default)]
pub struct ProtoServerInventoryRow {
    /// Internal server identifier.
    pub server_id: String,
    /// Provider server identifier.
    pub provider_server_id: String,
    /// Site identifier.
    pub site_id: String,
    /// Infrastructure class.
    pub infrastructure_class_id: String,
    /// Logical group, empty when absent.
    pub cluster_id: String,
    /// Server role.
    pub role: ProtoServerRole,
    /// Planned apps.
    pub apps: Vec<String>,
    /// Planned services.
    pub services: Vec<String>,
    /// Apps the agent reported.
    pub actual_apps: Vec<String>,
    /// Assigned Region, empty when absent.
    pub assigned_region_id: String,
    /// Environment tag.
    pub environment_tag: ProtoServerEnvironmentTag,
    /// Planned private address, empty when absent.
    pub planned_private_ip: String,
    /// Public address, empty when absent.
    pub public_ip: String,
    /// Private address, empty when absent.
    pub private_ip: String,
    /// Boot time, zero when unknown.
    pub boot_time_unix_secs: u64,
    /// Last contact, zero when unknown.
    pub last_seen_unix_secs: u64,
    /// Actual status, `Unspecified` when unknown.
    pub actual_status: ProtoNodeActualStateStatus,
    /// Latest provisioning event, when known.
    pub latest_provisioning_event: Option<ProtoProvisioningEventSnapshot>,
    /// DNS records.
    pub dns_records: Vec<ProtoDnsRecord>,
    /// Latest agent report, when known.
    pub latest_agent_report: Option<ProtoAgentReport>,
}

impl View for ProtoServerInventoryRow {
    type V = ProtoServerInventoryRowView;

    open spec fn view(&self) -> ProtoServerInventoryRowView {
        ProtoServerInventoryRowView {
            server_id: self.server_id@,
            provider_server_id: self.provider_server_id@,
            site_id: self.site_id@,
            infrastructure_class_id: self.infrastructure_class_id@,
            cluster_id: self.cluster_id@,
            role: self.role,
            apps: string_views(self.apps@),
            services: string_views(self.services@),
            actual_apps: string_views(self.actual_apps@),
            assigned_region_id: self.assigned_region_id@,
            environment_tag: self.environment_tag,
            planned_private_ip: self.planned_private_ip@,
            public_ip: self.public_ip@,
            private_ip: self.private_ip@,
            boot_time_unix_secs: self.boot_time_unix_secs,
            last_seen_unix_secs: self.last_seen_unix_secs,
            actual_status: self.actual_status,
            latest_provisioning_event: match self.latest_provisioning_event { Some(x) => Some(x@), None => None },
            dns_records: dns_record_wire_views(self.dns_records@),
            latest_agent_report: match self.latest_agent_report { Some(x) => Some(x@), None => None },
        }
    }
}

/// The text contents of a sequence of [`ProtoContainerReport`] messages.
pub open spec fn container_report_views(s: Seq<ProtoContainerReport>) -> Seq<ProtoContainerReportView> {
    s.map_values(|x: ProtoContainerReport| x@)
}

/// The text contents of a sequence of [`ProtoHostServiceReport`] messages.
pub open spec fn host_service_report_views(s: Seq<ProtoHostServiceReport>) -> Seq<ProtoHostServiceReportView> {
    s.map_values(|x: ProtoHostServiceReport| x@)
}

/// The text contents of a sequence of [`ProtoServiceProbeReport`] messages.
pub open spec fn service_probe_report_views(s: Seq<ProtoServiceProbeReport>) -> Seq<ProtoServiceProbeReportView> {
    s.map_values(|x: ProtoServiceProbeReport| x@)
}

/// The text contents of a sequence of [`ProtoDnsRecord`] messages.
pub open spec fn dns_record_wire_views(s: Seq<ProtoDnsRecord>) -> Seq<ProtoDnsRecordView> {
    s.map_values(|x: ProtoDnsRecord| x@)
}

/// Outcome of a boot report, on the wire.
#[derive(Debug, Clone, Copy, PartialEq, Eq, Structural, Default)]
pub enum ProtoAgentBootReportResult {
    /// No value was sent.
    #[default]
    Unspecified,
    /// The report was accepted.
    Accepted,
    /// No expected state matched the server.
    RejectedUnknownServer,
    /// The boot secret did not match.
    RejectedAuthentication,
}

/// The text content of a [`ProtoRegionDefinition`].
pub struct ProtoRegionDefinitionView {
    /// Region identifier.
    pub region_id: Seq<char>,
    /// Site identifiers.
    pub site_ids: Seq<Seq<char>>,
}

/// Region definition, as sent on the wire.
#[derive(Debug, Clone, PartialEq, Eq, Default)]
pub struct ProtoRegionDefinition {
    /// Region identifier.
    pub region_id: String,
    /// Site identifiers.
    pub site_ids: Vec<String>,
}

impl View for ProtoRegionDefinition {
    type V = ProtoRegionDefinitionView;

    open spec fn view(&self) -> ProtoRegionDefinitionView {
        ProtoRegionDefinitionView {
            region_id: self.region_id@,
            site_ids: string_views(self.site_ids@),
        }
    }
}

/// The text content of a [`ProtoAgentBootReport`].
pub struct ProtoAgentBootReportView {
    /// Internal server identifier.
    pub server_id: Seq<char>,
    /// Provider server identifier.
    pub provider_server_id: Seq<char>,
    /// Site identifier.
    pub site_id: Seq<char>,
    /// Public address, empty when absent.
    pub public_ip: Seq<char>,
    /// Private address, empty when absent.
    pub private_ip: Seq<char>,
    /// Boot time.
    pub boot_time_unix_secs: u64,
    /// Report time.
    pub generated_at_unix_secs: u64,
}

/// Agent boot report, as sent on the wire.
#[derive(Debug, Clone, PartialEq, Eq, Default)]
pub struct ProtoAgentBootReport {
    /// Internal server identifier.
    pub server_id: String,
    /// Provider server identifier.
    pub provider_server_id: String,
    /// Site identifier.
    pub site_id: String,
    /// Public address, empty when absent.
    pub public_ip: String,
    /// Private address, empty when absent.
    pub private_ip: String,
    /// Boot time.
    pub boot_time_unix_secs: u64,
    /// Report time.
    pub generated_at_unix_secs: u64,
}

impl View for ProtoAgentBootReport {
    type V = ProtoAgentBootReportView;

    open spec fn view(&self) -> ProtoAgentBootReportView {
        ProtoAgentBootReportView {
            server_id: self.server_id@,
            provider_server_id: self.provider_server_id@,
            site_id: self.site_id@,
            public_ip: self.public_ip@,
            private_ip: self.private_ip@,
            boot_time_unix_secs: self.boot_time_unix_secs,
            generated_at_unix_secs: self.generated_at_unix_secs,
        }
    }
}

/// The text content of a [`ProtoDnsDesiredState`].
pub struct ProtoDnsDesiredStateView {
    /// Desired records.
    pub records: Seq<ProtoDnsRecordView>,
}

/// Desired DNS state, as sent on the wire.
#[derive(Debug, Clone, PartialEq, Eq, Default)]
pub struct ProtoDnsDesiredState {
    /// Desired records.
    pub records: Vec<ProtoDnsRecord>,
}

impl View for ProtoDnsDesiredState {
    type V = ProtoDnsDesiredStateView;

    open spec fn view(&self) -> ProtoDnsDesiredStateView {
        ProtoDnsDesiredStateView {
            records: dns_record_wire_views(self.records@),
        }
    }
}

/// Vultr plan family on the wire.
#[derive(Debug, Clone, Copy, PartialEq, Eq, Structural, Default)]
pub enum ProtoVultrPlanType {
    /// No value was sent.
    #[default]
    Unspecified,
    /// Cloud Compute.
    CloudCompute,
    /// Dedicated Cloud.
    DedicatedCloud,
    /// High Frequency.
    HighFrequency,
    /// High Performance.
    HighPerformance,
    /// Optimized Cloud.
    OptimizedCloud,
    /// Bare Metal.
    BareMetal,
    /// Cloud GPU.
    CloudGpu,
}

/// Vultr instance status on the wire.
#[derive(Debug, Clone, Copy, PartialEq, Eq, Structural, Default)]
pub enum ProtoVultrInstanceStatus {
    /// No value was sent.
    #[default]
    Unspecified,
    /// Being created.
    Pending,
    /// Running.
    Active,
    /// Stopped.
    Stopped,
    /// Suspended.
    Suspended,
}

/// The text content of a [`ProtoVultrRegion`].
pub struct ProtoVultrRegionView {
    /// Region identifier.
    pub id: Seq<char>,
    /// City.
    pub city: Seq<char>,
    /// Country code.
    pub country: Seq<char>,
    /// Continent.
    pub continent: Seq<char>,
}

/// Vultr region, as sent on the wire.
#[derive(Debug, Clone, PartialEq, Eq, Default)]
pub struct ProtoVultrRegion {
    /// Region identifier.
    pub id: String,
    /// City.
    pub city: String,
    /// Country code.
    pub country: String,
    /// Continent.
    pub continent: String,
}

impl View for ProtoVultrRegion {
    type V = ProtoVultrRegionView;

    open spec fn view(&self) -> ProtoVultrRegionView {
        ProtoVultrRegionView {
            id: self.id@,
            city: self.city@,
            country: self.country@,
            continent: self.continent@,
        }
    }
}

/// The text content of a [`ProtoVultrPlan`].
pub struct ProtoVultrPlanView {
    /// Plan identifier.
    pub id: Seq<char>,
    /// Plan family.
    pub plan_type: ProtoVultrPlanType,
    /// Virtual CPUs.
    pub vcpu_count: u32,
    /// Memory in MiB.
    pub ram_mb: u32,
    /// Disk in GiB.
    pub disk_gb: u32,
    /// Monthly cost in cents.
    pub monthly_cost_cents: u32,
}

/// Vultr plan, as sent on the wire.
#[derive(Debug, Clone, PartialEq, Eq, Default)]
pub struct ProtoVultrPlan {
    /// Plan identifier.
    pub id: String,
    /// Plan family.
    pub plan_type: ProtoVultrPlanType,
    /// Virtual CPUs.
    pub vcpu_count: u32,
    /// Memory in MiB.
    pub ram_mb: u32,
    /// Disk in GiB.
    pub disk_gb: u32,
    /// Monthly cost in cents.
    pub monthly_cost_cents: u32,
}

impl View for ProtoVultrPlan {
    type V = ProtoVultrPlanView;

    open spec fn view(&self) -> ProtoVultrPlanView {
        ProtoVultrPlanView {
            id: self.id@,
            plan_type: self.plan_type,
            vcpu_count: self.vcpu_count,
            ram_mb: self.ram_mb,
            disk_gb: self.disk_gb,
            monthly_cost_cents: self.monthly_cost_cents,
        }
    }
}

/// The text content of a [`ProtoVultrVpc`].
pub struct ProtoVultrVpcView {
    /// VPC identifier.
    pub id: Seq<char>,
    /// Region identifier.
    pub region: Seq<char>,
    /// Description.
    pub description: Seq<char>,
    /// Address block.
    pub ip_block: Seq<char>,
    /// Prefix length.
    pub prefix_length: u32,
}

/// Vultr VPC, as sent on the wire.
#[derive(Debug, Clone, PartialEq, Eq, Default)]
pub struct ProtoVultrVpc {
    /// VPC identifier.
    pub id: String,
    /// Region identifier.
    pub region: String,
    /// Description.
    pub description: String,
    /// Address block.
    pub ip_block: String,
    /// Prefix length.
    pub prefix_length: u32,
}

impl View for ProtoVultrVpc {
    type V = ProtoVultrVpcView;

    open spec fn view(&self) -> ProtoVultrVpcView {
        ProtoVultrVpcView {
            id: self.id@,
            region: self.region@,
            description: self.description@,
            ip_block: self.ip_block@,
            prefix_length: self.prefix_length,
        }
    }
}

/// The text content of a [`ProtoVultrInstance`].
pub struct ProtoVultrInstanceView {
    /// Instance identifier.
    pub id: Seq<char>,
    /// Region identifier.
    pub region: Seq<char>,
    /// Plan identifier.
    pub plan: Seq<char>,
    /// Label.
    pub label: Seq<char>,
    /// Status.
    pub status: ProtoVultrInstanceStatus,
    /// Public address, empty when absent.
    pub main_ip: Seq<char>,
    /// Private address, empty when absent.
    pub internal_ip: Seq<char>,
    /// Attached VPCs.
    pub vpc_ids: Seq<Seq<char>>,
    /// Whether the instance is reachable over VPC only.
    pub vpc_only: bool,
}

/// Vultr instance, as sent on the wire.
#[derive(Debug, Clone, PartialEq, Eq, Default)]
pub struct ProtoVultrInstance {
    /// Instance identifier.
    pub id: String,
    /// Region identifier.
    pub region: String,
    /// Plan identifier.
    pub plan: String,
    /// Label.
    pub label: String,
    /// Status.
    pub status: ProtoVultrInstanceStatus,
    /// Public address, empty when absent.
    pub main_ip: String,
    /// Private address, empty when absent.
    pub internal_ip: String,
    /// Attached VPCs.
    pub vpc_ids: Vec<String>,
    /// Whether the instance is reachable over VPC only.
    pub vpc_only: bool,
}

impl View for ProtoVultrInstance {
    type V = ProtoVultrInstanceView;

    open spec fn view(&self) -> ProtoVultrInstanceView {
        ProtoVultrInstanceView {
            id: self.id@,
            region: self.region@,
            plan: self.plan@,
            label: self.label@,
            status: self.status,
            main_ip: self.main_ip@,
            internal_ip: self.internal_ip@,
            vpc_ids: string_views(self.vpc_ids@),
            vpc_only: self.vpc_only,
        }
    }
}

/// The text content of a [`ProtoVultrContainerRegistry`].
pub struct ProtoVultrContainerRegistryView {
    /// Registry identifier.
    pub id: Seq<char>,
    /// Registry name.
    pub name: Seq<char>,
    /// Whether the registry is public.
    pub public: bool,
    /// Registry URN.
    pub urn: Seq<char>,
    /// Storage in use.
    pub storage_bytes_used: u64,
}

/// Vultr container registry, as sent on the wire.
#[derive(Debug, Clone, PartialEq, Eq, Default)]
pub struct ProtoVultrContainerRegistry {
    /// Registry identifier.
    pub id: String,
    /// Registry name.
    pub name: String,
    /// Whether the registry is public.
    pub public: bool,
    /// Registry URN.
    pub urn: String,
    /// Storage in use.
    pub storage_bytes_used: u64,
}

impl View for ProtoVultrContainerRegistry {
    type V = ProtoVultrContainerRegistryView;

    open spec fn view(&self) -> ProtoVultrContainerRegistryView {
        ProtoVultrContainerRegistryView {
            id: self.id@,
            name: self.name@,
            public: self.public,
            urn: self.urn@,
            storage_bytes_used: self.storage_bytes_used,
        }
    }
}

/// The text content of a [`ProtoVultrContainerRepository`].
pub struct ProtoVultrContainerRepositoryView {
    /// Registry identifier.
    pub registry_id: Seq<char>,
    /// Repository name.
    pub name: Seq<char>,
    /// Description.
    pub description: Seq<char>,
    /// Pulls.
    pub pull_count: u64,
    /// Artifacts.
    pub artifact_count: u32,
}

/// Vultr container repository, as sent on the wire.
#[derive(Debug, Clone, PartialEq, Eq, Default)]
pub struct ProtoVultrContainerRepository {
    /// Registry identifier.
    pub registry_id: String,
    /// Repository name.
    pub name: String,
    /// Description.
    pub description: String,
    /// Pulls.
    pub pull_count: u64,
    /// Artifacts.
    pub artifact_count: u32,
}

impl View for ProtoVultrContainerRepository {
    type V = ProtoVultrContainerRepositoryView;

    open spec fn view(&self) -> ProtoVultrContainerRepositoryView {
        ProtoVultrContainerRepositoryView {
            registry_id: self.registry_id@,
            name: self.name@,
            description: self.description@,
            pull_count: self.pull_count,
            artifact_count: self.artifact_count,
        }
    }
}

/// The text content of a [`ProtoVultrContainerArtifact`].
pub struct ProtoVultrContainerArtifactView {
    /// Registry identifier.
    pub registry_id: Seq<char>,
    /// Repository name.
    pub repository: Seq<char>,
    /// Artifact digest.
    pub digest: Seq<char>,
    /// Tags.
    pub tags: Seq<Seq<char>>,
    /// Size.
    pub size_bytes: u64,
}

/// Vultr container artifact, as sent on the wire.
#[derive(Debug, Clone, PartialEq, Eq, Default)]
pub struct ProtoVultrContainerArtifact {
    /// Registry identifier.
    pub registry_id: String,
    /// Repository name.
    pub repository: String,
    /// Artifact digest.
    pub digest: String,
    /// Tags.
    pub tags: Vec<String>,
    /// Size.
    pub size_bytes: u64,
}

impl View for ProtoVultrContainerArtifact {
    type V = ProtoVultrContainerArtifactView;

    open spec fn view(&self) -> ProtoVultrContainerArtifactView {
        ProtoVultrContainerArtifactView {
            registry_id: self.registry_id@,
            repository: self.repository@,
            digest: self.digest@,
            tags: string_views(self.tags@),
            size_bytes: self.size_bytes,
        }
    }
}

/// The name the protocol definition gives a server role value.
pub open spec fn proto_server_role_name(p: ProtoServerRole) -> Seq<char> {
    match p {
        ProtoServerRole::Unspecified => "HEPHAESTUS_SERVER_ROLE_UNSPECIFIED"@,
        ProtoServerRole::Api => "HEPHAESTUS_SERVER_ROLE_API"@,
        ProtoServerRole::Worker => "HEPHAESTUS_SERVER_ROLE_WORKER"@,
        ProtoServerRole::Db => "HEPHAESTUS_SERVER_ROLE_DB"@,
        ProtoServerRole::Search => "HEPHAESTUS_SERVER_ROLE_SEARCH"@,
        ProtoServerRole::Edge => "HEPHAESTUS_SERVER_ROLE_EDGE"@,
        ProtoServerRole::Unknown => "HEPHAESTUS_SERVER_ROLE_UNKNOWN"@,
    }
}

/// The name the protocol definition gives a node status value.
pub open spec fn proto_node_actual_state_status_name(p: ProtoNodeActualStateStatus) -> Seq<char> {
    match p {
        ProtoNodeActualStateStatus::Unspecified => "HEPHAESTUS_NODE_ACTUAL_STATE_STATUS_UNSPECIFIED"@,
        ProtoNodeActualStateStatus::Ready => "HEPHAESTUS_NODE_ACTUAL_STATE_STATUS_READY"@,
        ProtoNodeActualStateStatus::Stale => "HEPHAESTUS_NODE_ACTUAL_STATE_STATUS_STALE"@,
        ProtoNodeActualStateStatus::Offline => "HEPHAESTUS_NODE_ACTUAL_STATE_STATUS_OFFLINE"@,
    }
}

/// The name the protocol definition gives a container state value.
pub open spec fn proto_container_state_name(p: ProtoContainerState) -> Seq<char> {
    match p {
        ProtoContainerState::Unspecified => "HEPHAESTUS_CONTAINER_STATE_UNSPECIFIED"@,
        ProtoContainerState::Created => "HEPHAESTUS_CONTAINER_STATE_CREATED"@,
        ProtoContainerState::Running => "HEPHAESTUS_CONTAINER_STATE_RUNNING"@,
        ProtoContainerState::Restarting => "HEPHAESTUS_CONTAINER_STATE_RESTARTING"@,
        ProtoContainerState::Removing => "HEPHAESTUS_CONTAINER_STATE_REMOVING"@,
        ProtoContainerState::Paused => "HEPHAESTUS_CONTAINER_STATE_PAUSED"@,
        ProtoContainerState::Exited => "HEPHAESTUS_CONTAINER_STATE_EXITED"@,
        ProtoContainerState::Dead => "HEPHAESTUS_CONTAINER_STATE_DEAD"@,
        ProtoContainerState::Unknown => "HEPHAESTUS_CONTAINER_STATE_UNKNOWN"@,
    }
}

/// The name the protocol definition gives a container health value.
pub open spec fn proto_container_health_state_name(p: ProtoContainerHealthState) -> Seq<char> {
    match p {
        ProtoContainerHealthState::Unspecified => "HEPHAESTUS_CONTAINER_HEALTH_STATE_UNSPECIFIED"@,
        ProtoContainerHealthState::Healthy => "HEPHAESTUS_CONTAINER_HEALTH_STATE_HEALTHY"@,
        ProtoContainerHealthState::Unhealthy => "HEPHAESTUS_CONTAINER_HEALTH_STATE_UNHEALTHY"@,
        ProtoContainerHealthState::Starting => "HEPHAESTUS_CONTAINER_HEALTH_STATE_STARTING"@,
        ProtoContainerHealthState::NotConfigured => "HEPHAESTUS_CONTAINER_HEALTH_STATE_NONE"@,
        ProtoContainerHealthState::Unknown => "HEPHAESTUS_CONTAINER_HEALTH_STATE_UNKNOWN"@,
    }
}

/// The name the protocol definition gives a restart reason value.
pub open spec fn proto_container_restart_reason_name(p: ProtoContainerRestartReason) -> Seq<char> {
    match p {
        ProtoContainerRestartReason::Unspecified => "HEPHAESTUS_CONTAINER_RESTART_REASON_UNSPECIFIED"@,
        ProtoContainerRestartReason::NotRequired => "HEPHAESTUS_CONTAINER_RESTART_REASON_NONE"@,
        ProtoContainerRestartReason::Unhealthy => "HEPHAESTUS_CONTAINER_RESTART_REASON_UNHEALTHY"@,
        ProtoContainerRestartReason::Restarting => "HEPHAESTUS_CONTAINER_RESTART_REASON_RESTARTING"@,
        ProtoContainerRestartReason::Exited => "HEPHAESTUS_CONTAINER_RESTART_REASON_EXITED"@,
        ProtoContainerRestartReason::Dead => "HEPHAESTUS_CONTAINER_RESTART_REASON_DEAD"@,
        ProtoContainerRestartReason::Unknown => "HEPHAESTUS_CONTAINER_RESTART_REASON_UNKNOWN"@,
    }
}

/// The name the protocol definition gives a host service state value.
pub open spec fn proto_host_service_state_name(p: ProtoHostServiceState) -> Seq<char> {
    match p {
        ProtoHostServiceState::Unspecified => "HEPHAESTUS_HOST_SERVICE_STATE_UNSPECIFIED"@,
        ProtoHostServiceState::Active => "HEPHAESTUS_HOST_SERVICE_STATE_ACTIVE"@,
        ProtoHostServiceState::Reloading => "HEPHAESTUS_HOST_SERVICE_STATE_RELOADING"@,
        ProtoHostServiceState::Inactive => "HEPHAESTUS_HOST_SERVICE_STATE_INACTIVE"@,
        ProtoHostServiceState::Failed => "HEPHAESTUS_HOST_SERVICE_STATE_FAILED"@,
        ProtoHostServiceState::Activating => "HEPHAESTUS_HOST_SERVICE_STATE_ACTIVATING"@,
        ProtoHostServiceState::Deactivating => "HEPHAESTUS_HOST_SERVICE_STATE_DEACTIVATING"@,
        ProtoHostServiceState::Unknown => "HEPHAESTUS_HOST_SERVICE_STATE_UNKNOWN"@,
    }
}

/// The name the protocol definition gives a unattended-upgrades state value.
pub open spec fn proto_unattended_upgrades_state_name(p: ProtoUnattendedUpgradesState) -> Seq<char> {
    match p {
        ProtoUnattendedUpgradesState::Unspecified => "HEPHAESTUS_UNATTENDED_UPGRADES_STATE_UNSPECIFIED"@,
        ProtoUnattendedUpgradesState::Active => "HEPHAESTUS_UNATTENDED_UPGRADES_STATE_ACTIVE"@,
        ProtoUnattendedUpgradesState::Inactive => "HEPHAESTUS_UNATTENDED_UPGRADES_STATE_INACTIVE"@,
        ProtoUnattendedUpgradesState::Failed => "HEPHAESTUS_UNATTENDED_UPGRADES_STATE_FAILED"@,
        ProtoUnattendedUpgradesState::NotInstalled => "HEPHAESTUS_UNATTENDED_UPGRADES_STATE_NOT_INSTALLED"@,
        ProtoUnattendedUpgradesState::Unknown => "HEPHAESTUS_UNATTENDED_UPGRADES_STATE_UNKNOWN"@,
    }
}

/// The name the protocol definition gives a probe kind value.
pub open spec fn proto_service_probe_kind_name(p: ProtoServiceProbeKind) -> Seq<char> {
    match p {
        ProtoServiceProbeKind::Unspecified => "HEPHAESTUS_SERVICE_PROBE_KIND_UNSPECIFIED"@,
        ProtoServiceProbeKind::Http => "HEPHAESTUS_SERVICE_PROBE_KIND_HTTP"@,
        ProtoServiceProbeKind::Tcp => "HEPHAESTUS_SERVICE_PROBE_KIND_TCP"@,
    }
}

/// The name the protocol definition gives a probe status value.
pub open spec fn proto_service_probe_status_name(p: ProtoServiceProbeStatus) -> Seq<char> {
    match p {
        ProtoServiceProbeStatus::Unspecified => "HEPHAESTUS_SERVICE_PROBE_STATUS_UNSPECIFIED"@,
        ProtoServiceProbeStatus::Passed => "HEPHAESTUS_SERVICE_PROBE_STATUS_OK"@,
        ProtoServiceProbeStatus::Failed => "HEPHAESTUS_SERVICE_PROBE_STATUS_FAILED"@,
        ProtoServiceProbeStatus::Skipped => "HEPHAESTUS_SERVICE_PROBE_STATUS_SKIPPED"@,
    }
}

/// The name the protocol definition gives a DNS record kind value.
pub open spec fn proto_dns_record_kind_name(p: ProtoDnsRecordKind) -> Seq<char> {
    match p {
        ProtoDnsRecordKind::Unspecified => "HEPHAESTUS_DNS_RECORD_KIND_UNSPECIFIED"@,
        ProtoDnsRecordKind::A => "HEPHAESTUS_DNS_RECORD_KIND_A"@,
        ProtoDnsRecordKind::Aaaa => "HEPHAESTUS_DNS_RECORD_KIND_AAAA"@,
    }
}

/// The name the protocol definition gives a DNS record visibility value.
pub open spec fn proto_dns_record_visibility_name(p: ProtoDnsRecordVisibility) -> Seq<char> {
    match p {
        ProtoDnsRecordVisibility::Unspecified => "HEPHAESTUS_DNS_RECORD_VISIBILITY_UNSPECIFIED"@,
        ProtoDnsRecordVisibility::Public => "HEPHAESTUS_DNS_RECORD_VISIBILITY_PUBLIC"@,
        ProtoDnsRecordVisibility::Internal => "HEPHAESTUS_DNS_RECORD_VISIBILITY_INTERNAL"@,
    }
}

/// The name the protocol definition gives a environment tag value.
pub open spec fn proto_server_environment_tag_name(p: ProtoServerEnvironmentTag) -> Seq<char> {
    match p {
        ProtoServerEnvironmentTag::Unspecified => "HEPHAESTUS_SERVER_ENVIRONMENT_TAG_UNSPECIFIED"@,
        ProtoServerEnvironmentTag::Dev => "HEPHAESTUS_SERVER_ENVIRONMENT_TAG_DEV"@,
        ProtoServerEnvironmentTag::Prod => "HEPHAESTUS_SERVER_ENVIRONMENT_TAG_PROD"@,
    }
}

/// The name the protocol definition gives a provisioning event kind value.
pub open spec fn proto_provisioning_event_kind_name(p: ProtoProvisioningEventKind) -> Seq<char> {
    match p {
        ProtoProvisioningEventKind::Unspecified => "PROVISIONING_EVENT_KIND_UNSPECIFIED"@,
        ProtoProvisioningEventKind::Requested => "PROVISIONING_EVENT_KIND_REQUESTED"@,
        ProtoProvisioningEventKind::InstanceCreateStarted => "PROVISIONING_EVENT_KIND_INSTANCE_CREATE_STARTED"@,
        ProtoProvisioningEventKind::InstanceCreateSucceeded => "PROVISIONING_EVENT_KIND_INSTANCE_CREATE_SUCCEEDED"@,
        ProtoProvisioningEventKind::InstanceCreateFailed => "PROVISIONING_EVENT_KIND_INSTANCE_CREATE_FAILED"@,
        ProtoProvisioningEventKind::DnsReconcileStarted => "PROVISIONING_EVENT_KIND_DNS_RECONCILE_STARTED"@,
        ProtoProvisioningEventKind::DnsReconcileSucceeded => "PROVISIONING_EVENT_KIND_DNS_RECONCILE_SUCCEEDED"@,
        ProtoProvisioningEventKind::DnsReconcileFailed => "PROVISIONING_EVENT_KIND_DNS_RECONCILE_FAILED"@,
        ProtoProvisioningEventKind::HealthCheckStarted => "PROVISIONING_EVENT_KIND_HEALTH_CHECK_STARTED"@,
        ProtoProvisioningEventKind::HealthCheckSucceeded => "PROVISIONING_EVENT_KIND_HEALTH_CHECK_SUCCEEDED"@,
        ProtoProvisioningEventKind::HealthCheckFailed => "PROVISIONING_EVENT_KIND_HEALTH_CHECK_FAILED"@,
        ProtoProvisioningEventKind::BootReported => "PROVISIONING_EVENT_KIND_BOOT_REPORTED"@,
        ProtoProvisioningEventKind::Ready => "PROVISIONING_EVENT_KIND_READY"@,
    }
}

/// The name the protocol definition gives a boot report result value.
pub open spec fn proto_agent_boot_report_result_name(p: ProtoAgentBootReportResult) -> Seq<char> {
    match p {
        ProtoAgentBootReportResult::Unspecified => "HEPHAESTUS_AGENT_BOOT_REPORT_RESULT_UNSPECIFIED"@,
        ProtoAgentBootReportResult::Accepted => "HEPHAESTUS_AGENT_BOOT_REPORT_RESULT_ACCEPTED"@,
        ProtoAgentBootReportResult::RejectedUnknownServer => "HEPHAESTUS_AGENT_BOOT_REPORT_RESULT_REJECTED_UNKNOWN_SERVER"@,
        ProtoAgentBootReportResult::RejectedAuthentication => "HEPHAESTUS_AGENT_BOOT_REPORT_RESULT_REJECTED_AUTHENTICATION"@,
    }
}

/// The name the protocol definition gives a plan type value.
pub open spec fn proto_vultr_plan_type_name(p: ProtoVultrPlanType) -> Seq<char> {
    match p {
        ProtoVultrPlanType::Unspecified => "VULTR_PLAN_TYPE_UNSPECIFIED"@,
        ProtoVultrPlanType::CloudCompute => "VULTR_PLAN_TYPE_CLOUD_COMPUTE"@,
        ProtoVultrPlanType::DedicatedCloud => "VULTR_PLAN_TYPE_DEDICATED_CLOUD"@,
        ProtoVultrPlanType::HighFrequency => "VULTR_PLAN_TYPE_HIGH_FREQUENCY"@,
        ProtoVultrPlanType::HighPerformance => "VULTR_PLAN_TYPE_HIGH_PERFORMANCE"@,
        ProtoVultrPlanType::OptimizedCloud => "VULTR_PLAN_TYPE_OPTIMIZED_CLOUD"@,
        ProtoVultrPlanType::BareMetal => "VULTR_PLAN_TYPE_BARE_METAL"@,
        ProtoVultrPlanType::CloudGpu => "VULTR_PLAN_TYPE_CLOUD_GPU"@,
    }
}

/// The name the protocol definition gives a instance status value.
pub open spec fn proto_vultr_instance_status_name(p: ProtoVultrInstanceStatus) -> Seq<char> {
    match p {
        ProtoVultrInstanceStatus::Unspecified => "VULTR_INSTANCE_STATUS_UNSPECIFIED"@,
        ProtoVultrInstanceStatus::Pending => "VULTR_INSTANCE_STATUS_PENDING"@,
        ProtoVultrInstanceStatus::Active => "VULTR_INSTANCE_STATUS_ACTIVE"@,
        ProtoVultrInstanceStatus::Stopped => "VULTR_INSTANCE_STATUS_STOPPED"@,
        ProtoVultrInstanceStatus::Suspended => "VULTR_INSTANCE_STATUS_SUSPENDED"@,
    }
}

} // verus!
