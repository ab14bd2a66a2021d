//! Conversion between agent-report wire messages and validated Hephaestus
//! report values.
use vstd::prelude::*;

use crate::contract::domain_conversion::text_or_empty;
use crate::contract::wire::{
    ProtoAgentReport, ProtoAgentReportView, ProtoCadvisorSummary, ProtoContainerHealthState,
    ProtoContainerReport, ProtoContainerReportView, ProtoContainerRestartReason,
    ProtoContainerState, ProtoHostResourceReport, ProtoHostServiceReport,
    ProtoHostServiceReportView, ProtoHostServiceState, ProtoNodeExporterSummary,
    ProtoObservabilityReport, ProtoPatchStateReport, ProtoRuntimeVersionReport,
    ProtoRuntimeVersionReportView, ProtoServiceProbeKind, ProtoServiceProbeReport,
    ProtoServiceProbeReportView, ProtoServiceProbeStatus, ProtoTailscaleReport,
    ProtoTailscaleReportView, ProtoUnattendedUpgradesState, container_report_views,
    host_service_report_views, service_probe_report_views,
};
use crate::contract::domain_conversion::{
    empty_or_ip, lemma_valid_ip_text_accepted, lemma_domain_tokens_idempotent, lemma_domain_tokens_len, private_ip_from_proto,
};
use crate::hephaestus::health::{
    domain_token, domain_tokens, lemma_domain_token_idempotent, lemma_domain_tokens_fixed, HephaestusDomainError,
};
use crate::hephaestus::node::{
    app_texts, HephaestusProviderServerId, HephaestusServerApp, HephaestusServerId,
    MAX_PROVIDER_SERVER_ID_BYTES, MAX_SERVER_APP_BYTES, MAX_SERVER_ID_BYTES,
};
use crate::hephaestus::report::{
    log_line_texts, HephaestusAgentReport, HephaestusAgentReportLine, HephaestusCadvisorSummary,
    HephaestusContainerHealthState, HephaestusContainerReport, HephaestusContainerRestartReason,
    HephaestusContainerState, HephaestusHostResourceReport, HephaestusHostServiceReport,
    HephaestusHostServiceState, HephaestusNodeExporterSummary, HephaestusObservabilityReport,
    HephaestusPatchStateReport, HephaestusRuntimeVersionReport, HephaestusServiceProbeKind,
    HephaestusServiceProbeReport, HephaestusServiceProbeStatus, HephaestusTailscaleReport,
    HephaestusUnattendedUpgradesState, container_report_fault, host_resources_valid,
    observed_services_in_bounds, runtime_versions_fault, service_probe_fault,
    tailscale_report_fault, HephaestusHostServiceUnitName, HephaestusObservedServiceSet,
    MAX_HOST_SERVICE_UNIT_NAME_BYTES, MAX_LOG_LINES_PER_HOST_SERVICE, MAX_LOG_LINE_BYTES,
    MAX_SERVICE_PROBES_PER_REPORT,
};
use crate::text::{
    each_outcome, lemma_each_outcome_fixed, lemma_each_outcome_idempotent, lemma_each_outcome_len, lemma_each_outcome_prefix_fault, lemma_each_outcome_step,
    optional_text, string_views, CharClass,
};
use crate::vultr::bootstrap::{
    DockerContainerName, DockerImageReference, MAX_DOCKER_CONTAINER_NAME_BYTES,
    MAX_DOCKER_IMAGE_REFERENCE_BYTES,
};
use crate::vultr::error::{lemma_vultr_token_idempotent, vultr_token, VultrError};
use vstd::string::{StrSliceExecFns, StringExecFns};

verus! {

/// The domain container state a wire container state names; `Unspecified` is refused.
pub open spec fn container_state_outcome(p: ProtoContainerState) -> Result<HephaestusContainerState, HephaestusDomainError> {
    match p {
        ProtoContainerState::Unspecified => Err(HephaestusDomainError::InvalidNumber),
        ProtoContainerState::Created => Ok(HephaestusContainerState::Created),
        ProtoContainerState::Running => Ok(HephaestusContainerState::Running),
        ProtoContainerState::Restarting => Ok(HephaestusContainerState::Restarting),
        ProtoContainerState::Removing => Ok(HephaestusContainerState::Removing),
        ProtoContainerState::Paused => Ok(HephaestusContainerState::Paused),
        ProtoContainerState::Exited => Ok(HephaestusContainerState::Exited),
        ProtoContainerState::Dead => Ok(HephaestusContainerState::Dead),
        ProtoContainerState::Unknown => Ok(HephaestusContainerState::Unknown),
    }
}

/// The wire container state of a domain container state.
pub open spec fn proto_container_state(d: HephaestusContainerState) -> ProtoContainerState {
    match d {
        HephaestusContainerState::Created => ProtoContainerState::Created,
        HephaestusContainerState::Running => ProtoContainerState::Running,
        HephaestusContainerState::Restarting => ProtoContainerState::Restarting,
        HephaestusContainerState::Removing => ProtoContainerState::Removing,
        HephaestusContainerState::Paused => ProtoContainerState::Paused,
        HephaestusContainerState::Exited => ProtoContainerState::Exited,
        HephaestusContainerState::Dead => ProtoContainerState::Dead,
        HephaestusContainerState::Unknown => ProtoContainerState::Unknown,
    }
}

/// Converts a wire container state into a domain container state; `Unspecified` is refused.
pub fn container_state_from_proto(p: ProtoContainerState) -> (r: Result<HephaestusContainerState, HephaestusDomainError>)
    ensures
        r == container_state_outcome(p),
{
    match p {
        ProtoContainerState::Unspecified => Err(HephaestusDomainError::InvalidNumber),
        ProtoContainerState::Created => Ok(HephaestusContainerState::Created),
        ProtoContainerState::Running => Ok(HephaestusContainerState::Running),
        ProtoContainerState::Restarting => Ok(HephaestusContainerState::Restarting),
        ProtoContainerState::Removing => Ok(HephaestusContainerState::Removing),
        ProtoContainerState::Paused => Ok(HephaestusContainerState::Paused),
        ProtoContainerState::Exited => Ok(HephaestusContainerState::Exited),
        ProtoContainerState::Dead => Ok(HephaestusContainerState::Dead),
        ProtoContainerState::Unknown => Ok(HephaestusContainerState::Unknown),
    }
}

/// Converts a domain container state into its wire container state.
pub fn proto_container_state_from_domain(d: HephaestusContainerState) -> (p: ProtoContainerState)
    ensures
        p == proto_container_state(d),
{
    match d {
        HephaestusContainerState::Created => ProtoContainerState::Created,
        HephaestusContainerState::Running => ProtoContainerState::Running,
        HephaestusContainerState::Restarting => ProtoContainerState::Restarting,
        HephaestusContainerState::Removing => ProtoContainerState::Removing,
        HephaestusContainerState::Paused => ProtoContainerState::Paused,
        HephaestusContainerState::Exited => ProtoContainerState::Exited,
        HephaestusContainerState::Dead => ProtoContainerState::Dead,
        HephaestusContainerState::Unknown => ProtoContainerState::Unknown,
    }
}

/// The domain container health a wire container health names; `Unspecified` is refused.
pub open spec fn container_health_outcome(p: ProtoContainerHealthState) -> Result<HephaestusContainerHealthState, HephaestusDomainError> {
    match p {
        ProtoContainerHealthState::Unspecified => Err(HephaestusDomainError::InvalidNumber),
        ProtoContainerHealthState::Healthy => Ok(HephaestusContainerHealthState::Healthy),
        ProtoContainerHealthState::Unhealthy => Ok(HephaestusContainerHealthState::Unhealthy),
        ProtoContainerHealthState::Starting => Ok(HephaestusContainerHealthState::Starting),
        ProtoContainerHealthState::NotConfigured => Ok(HephaestusContainerHealthState::NotConfigured),
        ProtoContainerHealthState::Unknown => Ok(HephaestusContainerHealthState::Unknown),
    }
}

/// The wire container health of a domain container health.
pub open spec fn proto_container_health(d: HephaestusContainerHealthState) -> ProtoContainerHealthState {
    match d {
        HephaestusContainerHealthState::Healthy => ProtoContainerHealthState::Healthy,
        HephaestusContainerHealthState::Unhealthy => ProtoContainerHealthState::Unhealthy,
        HephaestusContainerHealthState::Starting => ProtoContainerHealthState::Starting,
        HephaestusContainerHealthState::NotConfigured => ProtoContainerHealthState::NotConfigured,
        HephaestusContainerHealthState::Unknown => ProtoContainerHealthState::Unknown,
    }
}

/// Converts a wire container health into a domain container health; `Unspecified` is refused.
pub fn container_health_from_proto(p: ProtoContainerHealthState) -> (r: Result<HephaestusContainerHealthState, HephaestusDomainError>)
    ensures
        r == container_health_outcome(p),
{
    match p {
        ProtoContainerHealthState::Unspecified => Err(HephaestusDomainError::InvalidNumber),
        ProtoContainerHealthState::Healthy => Ok(HephaestusContainerHealthState::Healthy),
        ProtoContainerHealthState::Unhealthy => Ok(HephaestusContainerHealthState::Unhealthy),
        ProtoContainerHealthState::Starting => Ok(HephaestusContainerHealthState::Starting),
        ProtoContainerHealthState::NotConfigured => Ok(HephaestusContainerHealthState::NotConfigured),
        ProtoContainerHealthState::Unknown => Ok(HephaestusContainerHealthState::Unknown),
    }
}

/// Converts a domain container health into its wire container health.
pub fn proto_container_health_from_domain(d: HephaestusContainerHealthState) -> (p: ProtoContainerHealthState)
    ensures
        p == proto_container_health(d),
{
    match d {
        HephaestusContainerHealthState::Healthy => ProtoContainerHealthState::Healthy,
        HephaestusContainerHealthState::Unhealthy => ProtoContainerHealthState::Unhealthy,
        HephaestusContainerHealthState::Starting => ProtoContainerHealthState::Starting,
        HephaestusContainerHealthState::NotConfigured => ProtoContainerHealthState::NotConfigured,
        HephaestusContainerHealthState::Unknown => ProtoContainerHealthState::Unknown,
    }
}

/// The domain restart reason a wire restart reason names; `Unspecified` is refused.
pub open spec fn restart_reason_outcome(p: ProtoContainerRestartReason) -> Result<HephaestusContainerRestartReason, HephaestusDomainError> {
    match p {
        ProtoContainerRestartReason::Unspecified => Err(HephaestusDomainError::InvalidNumber),
        ProtoContainerRestartReason::NotRequired => Ok(HephaestusContainerRestartReason::NotRequired),
        ProtoContainerRestartReason::Unhealthy => Ok(HephaestusContainerRestartReason::Unhealthy),
        ProtoContainerRestartReason::Restarting => Ok(HephaestusContainerRestartReason::Restarting),
        ProtoContainerRestartReason::Exited => Ok(HephaestusContainerRestartReason::Exited),
        ProtoContainerRestartReason::Dead => Ok(HephaestusContainerRestartReason::Dead),
        ProtoContainerRestartReason::Unknown => Ok(HephaestusContainerRestartReason::Unknown),
    }
}

/// The wire restart reason of a domain restart reason.
pub open spec fn proto_restart_reason(d: HephaestusContainerRestartReason) -> ProtoContainerRestartReason {
    match d {
        HephaestusContainerRestartReason::NotRequired => ProtoContainerRestartReason::NotRequired,
        HephaestusContainerRestartReason::Unhealthy => ProtoContainerRestartReason::Unhealthy,
        HephaestusContainerRestartReason::Restarting => ProtoContainerRestartReason::Restarting,
        HephaestusContainerRestartReason::Exited => ProtoContainerRestartReason::Exited,
        HephaestusContainerRestartReason::Dead => ProtoContainerRestartReason::Dead,
        HephaestusContainerRestartReason::Unknown => ProtoContainerRestartReason::Unknown,
    }
}

/// Converts a wire restart reason into a domain restart reason; `Unspecified` is refused.
pub fn restart_reason_from_proto(p: ProtoContainerRestartReason) -> (r: Result<HephaestusContainerRestartReason, HephaestusDomainError>)
    ensures
        r == restart_reason_outcome(p),
{
    match p {
        ProtoContainerRestartReason::Unspecified => Err(HephaestusDomainError::InvalidNumber),
        ProtoContainerRestartReason::NotRequired => Ok(HephaestusContainerRestartReason::NotRequired),
        ProtoContainerRestartReason::Unhealthy => Ok(HephaestusContainerRestartReason::Unhealthy),
        ProtoContainerRestartReason::Restarting => Ok(HephaestusContainerRestartReason::Restarting),
        ProtoContainerRestartReason::Exited => Ok(HephaestusContainerRestartReason::Exited),
        ProtoContainerRestartReason::Dead => Ok(HephaestusContainerRestartReason::Dead),
        ProtoContainerRestartReason::Unknown => Ok(HephaestusContainerRestartReason::Unknown),
    }
}

/// Converts a domain restart reason into its wire restart reason.
pub fn proto_restart_reason_from_domain(d: HephaestusContainerRestartReason) -> (p: ProtoContainerRestartReason)
    ensures
        p == proto_restart_reason(d),
{
    match d {
        HephaestusContainerRestartReason::NotRequired => ProtoContainerRestartReason::NotRequired,
        HephaestusContainerRestartReason::Unhealthy => ProtoContainerRestartReason::Unhealthy,
        HephaestusContainerRestartReason::Restarting => ProtoContainerRestartReason::Restarting,
        HephaestusContainerRestartReason::Exited => ProtoContainerRestartReason::Exited,
        HephaestusContainerRestartReason::Dead => ProtoContainerRestartReason::Dead,
        HephaestusContainerRestartReason::Unknown => ProtoContainerRestartReason::Unknown,
    }
}

/// The domain host service state a wire host service state names; `Unspecified` is refused.
pub open spec fn host_service_state_outcome(p: ProtoHostServiceState) -> Result<HephaestusHostServiceState, HephaestusDomainError> {
    match p {
        ProtoHostServiceState::Unspecified => Err(HephaestusDomainError::InvalidNumber),
        ProtoHostServiceState::Active => Ok(HephaestusHostServiceState::Active),
        ProtoHostServiceState::Reloading => Ok(HephaestusHostServiceState::Reloading),
        ProtoHostServiceState::Inactive => Ok(HephaestusHostServiceState::Inactive),
        ProtoHostServiceState::Failed => Ok(HephaestusHostServiceState::Failed),
        ProtoHostServiceState::Activating => Ok(HephaestusHostServiceState::Activating),
        ProtoHostServiceState::Deactivating => Ok(HephaestusHostServiceState::Deactivating),
        ProtoHostServiceState::Unknown => Ok(HephaestusHostServiceState::Unknown),
    }
}

/// The wire host service state of a domain host service state.
pub open spec fn proto_host_service_state(d: HephaestusHostServiceState) -> ProtoHostServiceState {
    match d {
        HephaestusHostServiceState::Active => ProtoHostServiceState::Active,
        HephaestusHostServiceState::Reloading => ProtoHostServiceState::Reloading,
        HephaestusHostServiceState::Inactive => ProtoHostServiceState::Inactive,
        HephaestusHostServiceState::Failed => ProtoHostServiceState::Failed,
        HephaestusHostServiceState::Activating => ProtoHostServiceState::Activating,
        HephaestusHostServiceState::Deactivating => ProtoHostServiceState::Deactivating,
        HephaestusHostServiceState::Unknown => ProtoHostServiceState::Unknown,
    }
}

/// Converts a wire host service state into a domain host service state; `Unspecified` is refused.
pub fn host_service_state_from_proto(p: ProtoHostServiceState) -> (r: Result<HephaestusHostServiceState, HephaestusDomainError>)
    ensures
        r == host_service_state_outcome(p),
{
    match p {
        ProtoHostServiceState::Unspecified => Err(HephaestusDomainError::InvalidNumber),
        ProtoHostServiceState::Active => Ok(HephaestusHostServiceState::Active),
        ProtoHostServiceState::Reloading => Ok(HephaestusHostServiceState::Reloading),
        ProtoHostServiceState::Inactive => Ok(HephaestusHostServiceState::Inactive),
        ProtoHostServiceState::Failed => Ok(HephaestusHostServiceState::Failed),
        ProtoHostServiceState::Activating => Ok(HephaestusHostServiceState::Activating),
        ProtoHostServiceState::Deactivating => Ok(HephaestusHostServiceState::Deactivating),
        ProtoHostServiceState::Unknown => Ok(HephaestusHostServiceState::Unknown),
    }
}

/// Converts a domain host service state into its wire host service state.
pub fn proto_host_service_state_from_domain(d: HephaestusHostServiceState) -> (p: ProtoHostServiceState)
    ensures
        p == proto_host_service_state(d),
{
    match d {
        HephaestusHostServiceState::Active => ProtoHostServiceState::Active,
        HephaestusHostServiceState::Reloading => ProtoHostServiceState::Reloading,
        HephaestusHostServiceState::Inactive => ProtoHostServiceState::Inactive,
        HephaestusHostServiceState::Failed => ProtoHostServiceState::Failed,
        HephaestusHostServiceState::Activating => ProtoHostServiceState::Activating,
        HephaestusHostServiceState::Deactivating => ProtoHostServiceState::Deactivating,
        HephaestusHostServiceState::Unknown => ProtoHostServiceState::Unknown,
    }
}

/// The domain unattended-upgrades state a wire unattended-upgrades state names; `Unspecified` is refused.
pub open spec fn unattended_upgrades_outcome(p: ProtoUnattendedUpgradesState) -> Result<HephaestusUnattendedUpgradesState, HephaestusDomainError> {
    match p {
        ProtoUnattendedUpgradesState::Unspecified => Err(HephaestusDomainError::InvalidNumber),
        ProtoUnattendedUpgradesState::Active => Ok(HephaestusUnattendedUpgradesState::Active),
        ProtoUnattendedUpgradesState::Inactive => Ok(HephaestusUnattendedUpgradesState::Inactive),
        ProtoUnattendedUpgradesState::Failed => Ok(HephaestusUnattendedUpgradesState::Failed),
        ProtoUnattendedUpgradesState::NotInstalled => Ok(HephaestusUnattendedUpgradesState::NotInstalled),
        ProtoUnattendedUpgradesState::Unknown => Ok(HephaestusUnattendedUpgradesState::Unknown),
    }
}

/// The wire unattended-upgrades state of a domain unattended-upgrades state.
pub open spec fn proto_unattended_upgrades(d: HephaestusUnattendedUpgradesState) -> ProtoUnattendedUpgradesState {
    match d {
        HephaestusUnattendedUpgradesState::Active => ProtoUnattendedUpgradesState::Active,
        HephaestusUnattendedUpgradesState::Inactive => ProtoUnattendedUpgradesState::Inactive,
        HephaestusUnattendedUpgradesState::Failed => ProtoUnattendedUpgradesState::Failed,
        HephaestusUnattendedUpgradesState::NotInstalled => ProtoUnattendedUpgradesState::NotInstalled,
        HephaestusUnattendedUpgradesState::Unknown => ProtoUnattendedUpgradesState::Unknown,
    }
}

/// Converts a wire unattended-upgrades state into a domain unattended-upgrades state; `Unspecified` is refused.
pub fn unattended_upgrades_from_proto(p: ProtoUnattendedUpgradesState) -> (r: Result<HephaestusUnattendedUpgradesState, HephaestusDomainError>)
    ensures
        r == unattended_upgrades_outcome(p),
{
    match p {
        ProtoUnattendedUpgradesState::Unspecified => Err(HephaestusDomainError::InvalidNumber),
        ProtoUnattendedUpgradesState::Active => Ok(HephaestusUnattendedUpgradesState::Active),
        ProtoUnattendedUpgradesState::Inactive => Ok(HephaestusUnattendedUpgradesState::Inactive),
        ProtoUnattendedUpgradesState::Failed => Ok(HephaestusUnattendedUpgradesState::Failed),
        ProtoUnattendedUpgradesState::NotInstalled => Ok(HephaestusUnattendedUpgradesState::NotInstalled),
        ProtoUnattendedUpgradesState::Unknown => Ok(HephaestusUnattendedUpgradesState::Unknown),
    }
}

/// Converts a domain unattended-upgrades state into its wire unattended-upgrades state.
pub fn proto_unattended_upgrades_from_domain(d: HephaestusUnattendedUpgradesState) -> (p: ProtoUnattendedUpgradesState)
    ensures
        p == proto_unattended_upgrades(d),
{
    match d {
        HephaestusUnattendedUpgradesState::Active => ProtoUnattendedUpgradesState::Active,
        HephaestusUnattendedUpgradesState::Inactive => ProtoUnattendedUpgradesState::Inactive,
        HephaestusUnattendedUpgradesState::Failed => ProtoUnattendedUpgradesState::Failed,
        HephaestusUnattendedUpgradesState::NotInstalled => ProtoUnattendedUpgradesState::NotInstalled,
        HephaestusUnattendedUpgradesState::Unknown => ProtoUnattendedUpgradesState::Unknown,
    }
}

/// The domain probe kind a wire probe kind names; `Unspecified` is refused.
pub open spec fn probe_kind_outcome(p: ProtoServiceProbeKind) -> Result<HephaestusServiceProbeKind, HephaestusDomainError> {
    match p {
        ProtoServiceProbeKind::Unspecified => Err(HephaestusDomainError::InvalidNumber),
        ProtoServiceProbeKind::Http => Ok(HephaestusServiceProbeKind::Http),
        ProtoServiceProbeKind::Tcp => Ok(HephaestusServiceProbeKind::Tcp),
    }
}

/// The wire probe kind of a domain probe kind.
pub open spec fn proto_probe_kind(d: HephaestusServiceProbeKind) -> ProtoServiceProbeKind {
    match d {
        HephaestusServiceProbeKind::Http => ProtoServiceProbeKind::Http,
        HephaestusServiceProbeKind::Tcp => ProtoServiceProbeKind::Tcp,
    }
}

/// Converts a wire probe kind into a domain probe kind; `Unspecified` is refused.
pub fn probe_kind_from_proto(p: ProtoServiceProbeKind) -> (r: Result<HephaestusServiceProbeKind, HephaestusDomainError>)
    ensures
        r == probe_kind_outcome(p),
{
    match p {
        ProtoServiceProbeKind::Unspecified => Err(HephaestusDomainError::InvalidNumber),
        ProtoServiceProbeKind::Http => Ok(HephaestusServiceProbeKind::Http),
        ProtoServiceProbeKind::Tcp => Ok(HephaestusServiceProbeKind::Tcp),
    }
}

/// Converts a domain probe kind into its wire probe kind.
pub fn proto_probe_kind_from_domain(d: HephaestusServiceProbeKind) -> (p: ProtoServiceProbeKind)
    ensures
        p == proto_probe_kind(d),
{
    match d {
        HephaestusServiceProbeKind::Http => ProtoServiceProbeKind::Http,
        HephaestusServiceProbeKind::Tcp => ProtoServiceProbeKind::Tcp,
    }
}

/// The domain probe status a wire probe status names; `Unspecified` is refused.
pub open spec fn probe_status_outcome(p: ProtoServiceProbeStatus) -> Result<HephaestusServiceProbeStatus, HephaestusDomainError> {
    match p {
        ProtoServiceProbeStatus::Unspecified => Err(HephaestusDomainError::InvalidNumber),
        ProtoServiceProbeStatus::Passed => Ok(HephaestusServiceProbeStatus::Passed),
        ProtoServiceProbeStatus::Failed => Ok(HephaestusServiceProbeStatus::Failed),
        ProtoServiceProbeStatus::Skipped => Ok(HephaestusServiceProbeStatus::Skipped),
    }
}

/// The wire probe status of a domain probe status.
pub open spec fn proto_probe_status(d: HephaestusServiceProbeStatus) -> ProtoServiceProbeStatus {
    match d {
        HephaestusServiceProbeStatus::Passed => ProtoServiceProbeStatus::Passed,
        HephaestusServiceProbeStatus::Failed => ProtoServiceProbeStatus::Failed,
        HephaestusServiceProbeStatus::Skipped => ProtoServiceProbeStatus::Skipped,
    }
}

/// Converts a wire probe status into a domain probe status; `Unspecified` is refused.
pub fn probe_status_from_proto(p: ProtoServiceProbeStatus) -> (r: Result<HephaestusServiceProbeStatus, HephaestusDomainError>)
    ensures
        r == probe_status_outcome(p),
{
    match p {
        ProtoServiceProbeStatus::Unspecified => Err(HephaestusDomainError::InvalidNumber),
        ProtoServiceProbeStatus::Passed => Ok(HephaestusServiceProbeStatus::Passed),
        ProtoServiceProbeStatus::Failed => Ok(HephaestusServiceProbeStatus::Failed),
        ProtoServiceProbeStatus::Skipped => Ok(HephaestusServiceProbeStatus::Skipped),
    }
}

/// Converts a domain probe status into its wire probe status.
pub fn proto_probe_status_from_domain(d: HephaestusServiceProbeStatus) -> (p: ProtoServiceProbeStatus)
    ensures
        p == proto_probe_status(d),
{
    match d {
        HephaestusServiceProbeStatus::Passed => ProtoServiceProbeStatus::Passed,
        HephaestusServiceProbeStatus::Failed => ProtoServiceProbeStatus::Failed,
        HephaestusServiceProbeStatus::Skipped => ProtoServiceProbeStatus::Skipped,
    }
}

/// The text of an optional text, empty when absent.
pub open spec fn seq_or_empty(v: Option<Seq<char>>) -> Seq<char> {
    match v {
        Some(s) => s,
        None => Seq::empty(),
    }
}

/// The wire message of a host resource snapshot.
pub open spec fn host_resources_proto(v: HephaestusHostResourceReport) -> ProtoHostResourceReport {
    ProtoHostResourceReport {
        cpu_usage_basis_points: v.spec_cpu_usage_basis_points() as u32,
        memory_total_bytes: v.spec_memory_total_bytes(),
        memory_used_bytes: v.spec_memory_used_bytes(),
        disk_total_bytes: v.spec_disk_total_bytes(),
        disk_used_bytes: v.spec_disk_used_bytes(),
    }
}

/// The wire content of a container snapshot.
pub open spec fn container_view(v: HephaestusContainerReport) -> ProtoContainerReportView {
    ProtoContainerReportView {
        container_name: v.spec_name()@,
        image: v.spec_image()@,
        state: proto_container_state(v.spec_state()),
        health_state: proto_container_health(v.spec_health()),
        recent_log_lines: log_line_texts(v.spec_recent_logs()),
        restart_required: v.spec_restart_required(),
        restart_reason: proto_restart_reason(v.spec_restart_reason()),
    }
}

/// The wire content of a host service snapshot.
pub open spec fn host_service_view(v: HephaestusHostServiceReport) -> ProtoHostServiceReportView {
    ProtoHostServiceReportView {
        unit_name: v.spec_unit_name()@,
        state: proto_host_service_state(v.spec_state()),
        recent_log_lines: log_line_texts(v.spec_recent_logs()),
    }
}

/// The wire content of a Tailscale report.
pub open spec fn tailscale_view(v: HephaestusTailscaleReport) -> ProtoTailscaleReportView {
    ProtoTailscaleReportView {
        hostname: seq_or_empty(v.spec_hostname()),
        magic_dns_name: seq_or_empty(v.spec_magic_dns_name()),
        ips: v.spec_ips(),
        tags: v.spec_tags(),
        services: v.spec_services(),
    }
}

/// The wire content of a runtime version report.
pub open spec fn runtime_versions_view(v: HephaestusRuntimeVersionReport) -> ProtoRuntimeVersionReportView {
    ProtoRuntimeVersionReportView {
        docker_version: seq_or_empty(v.spec_docker_version()),
        docker_compose_version: seq_or_empty(v.spec_docker_compose_version()),
    }
}

/// The wire message of a patch state.
pub open spec fn patch_state_proto(v: HephaestusPatchStateReport) -> ProtoPatchStateReport {
    ProtoPatchStateReport {
        reboot_required: v.spec_reboot_required(),
        unattended_upgrades_state: proto_unattended_upgrades(v.spec_unattended_upgrades_state()),
    }
}

/// The wire message of a cAdvisor summary.
pub open spec fn cadvisor_proto(v: HephaestusCadvisorSummary) -> ProtoCadvisorSummary {
    ProtoCadvisorSummary {
        reachable: v.spec_reachable(),
        container_metric_lines: v.spec_container_metric_lines(),
        has_cpu_metrics: v.spec_has_cpu_metrics(),
        has_memory_metrics: v.spec_has_memory_metrics(),
    }
}

/// The wire message of a node-exporter summary.
pub open spec fn node_exporter_proto(v: HephaestusNodeExporterSummary) -> ProtoNodeExporterSummary {
    ProtoNodeExporterSummary {
        reachable: v.spec_reachable(),
        metric_lines: v.spec_metric_lines(),
        has_cpu_metrics: v.spec_has_cpu_metrics(),
        has_memory_metrics: v.spec_has_memory_metrics(),
        has_filesystem_metrics: v.spec_has_filesystem_metrics(),
    }
}

/// The wire message of an observability report: both summaries are sent.
pub open spec fn observability_proto(v: HephaestusObservabilityReport) -> ProtoObservabilityReport {
    ProtoObservabilityReport {
        cadvisor: Some(cadvisor_proto(v.spec_cadvisor())),
        node_exporter: Some(node_exporter_proto(v.spec_node_exporter())),
    }
}

/// The wire content of a probe result; an absent HTTP status code is zero.
pub open spec fn service_probe_view(v: HephaestusServiceProbeReport) -> ProtoServiceProbeReportView {
    ProtoServiceProbeReportView {
        probe_name: v.spec_probe_name(),
        service_name: v.spec_service_name(),
        kind: proto_probe_kind(v.spec_kind()),
        target: v.spec_target(),
        status: proto_probe_status(v.spec_status()),
        http_status_code: match v.spec_http_status_code() {
            Some(c) => c as u32,
            None => 0,
        },
    }
}

/// The wire contents of a sequence of container snapshots.
pub open spec fn container_views(s: Seq<HephaestusContainerReport>) -> Seq<ProtoContainerReportView> {
    s.map_values(|c: HephaestusContainerReport| container_view(c))
}

/// The wire contents of a sequence of host service snapshots.
pub open spec fn host_service_views(s: Seq<HephaestusHostServiceReport>) -> Seq<ProtoHostServiceReportView> {
    s.map_values(|h: HephaestusHostServiceReport| host_service_view(h))
}

/// The wire contents of a sequence of probe results.
pub open spec fn service_probe_views(s: Seq<HephaestusServiceProbeReport>) -> Seq<ProtoServiceProbeReportView> {
    s.map_values(|p: HephaestusServiceProbeReport| service_probe_view(p))
}

/// The wire content of an agent report: every sub-message is sent, and an
/// absent private address is empty.
pub open spec fn agent_report_view(v: HephaestusAgentReport) -> ProtoAgentReportView {
    ProtoAgentReportView {
        server_id: v.spec_server_id()@,
        provider_server_id: v.spec_provider_server_id()@,
        private_ip: text_or_empty(v.spec_private_ip()),
        generated_at_unix_secs: v.spec_generated_at_unix_secs(),
        resources: Some(host_resources_proto(v.spec_resources())),
        containers: container_views(v.spec_observed_services().spec_containers()),
        host_services: host_service_views(v.spec_observed_services().spec_host_services()),
        actual_apps: app_texts(v.spec_observed_services().spec_actual_apps()),
        tailscale: Some(tailscale_view(v.spec_tailscale())),
        runtime_versions: Some(runtime_versions_view(v.spec_runtime_versions())),
        patch_state: Some(patch_state_proto(v.spec_patch_state())),
        observability: Some(observability_proto(v.spec_observability())),
        service_probes: service_probe_views(v.spec_service_probes()),
    }
}

/// The text of an optional text, empty when absent.
fn str_or_empty(v: Option<&str>) -> (r: String)
    ensures
        r@ == match v {
            Some(s) => s@,
            None => Seq::<char>::empty(),
        },
{
    match v {
        Some(s) => s.to_string(),
        None => String::new(),
    }
}

/// A copy of each string of `items`, in order.
fn copy_strings(items: &[String]) -> (r: Vec<String>)
    ensures
        string_views(r@) == string_views(items@),
{
    let mut out: Vec<String> = Vec::new();
    let mut i: usize = 0;
    while i < items.len()
        invariant
            i <= items@.len(),
            string_views(out@) =~= string_views(items@.take(i as int)),
        decreases items@.len() - i,
    {
        let ghost before = out@;
        out.push(items[i].clone());
        proof {
            assert(items@.take(i as int + 1) =~= items@.take(i as int).push(items@[i as int]));
            assert(string_views(out@) =~= string_views(before).push(items@[i as int]@));
        }
        i += 1;
    }
    proof {
        assert(items@.take(i as int) =~= items@);
    }
    out
}

/// Converts a host resource snapshot into its wire message.
pub fn proto_host_resource_report_from_domain(value: &HephaestusHostResourceReport) -> (r: ProtoHostResourceReport)
    ensures
        r == host_resources_proto(*value),
        host_resources_outcome(Some(r)) == Ok::<ProtoHostResourceReport, HephaestusDomainError>(r),
{
    proof {
        use_type_invariant(value);
    }
    ProtoHostResourceReport {
        cpu_usage_basis_points: value.cpu_usage_basis_points() as u32,
        memory_total_bytes: value.memory_total_bytes(),
        memory_used_bytes: value.memory_used_bytes(),
        disk_total_bytes: value.disk_total_bytes(),
        disk_used_bytes: value.disk_used_bytes(),
    }
}

/// Converts a container snapshot into its wire message.
pub fn proto_container_report_from_domain(value: &HephaestusContainerReport) -> (r: ProtoContainerReport)
    ensures
        r@ == container_view(*value),
        container_outcome(r@) == Ok::<ProtoContainerReportView, HephaestusDomainError>(r@),
{
    let name = value.name();
    let image = value.image();
    proof {
        use_type_invariant(value);
        use_type_invariant(name);
        use_type_invariant(image);
    }
    let recent_log_lines = HephaestusAgentReportLine::to_texts(value.recent_logs());
    proof {
        let items = log_line_texts(value.spec_recent_logs());
        assert forall|i: int| 0 <= i < items.len() implies domain_token(#[trigger] items[i], MAX_LOG_LINE_BYTES as nat, CharClass::LogLine) == Ok::<Seq<char>, HephaestusDomainError>(items[i]) by {
            assert(value.spec_recent_logs()[i].valid());
        }
        lemma_domain_tokens_fixed(items, MAX_LOG_LINE_BYTES as nat, CharClass::LogLine);
    }
    ProtoContainerReport {
        container_name: name.as_str().to_string(),
        image: image.as_str().to_string(),
        state: proto_container_state_from_domain(value.state()),
        health_state: proto_container_health_from_domain(value.health()),
        recent_log_lines,
        restart_required: value.restart_required(),
        restart_reason: proto_restart_reason_from_domain(value.restart_reason()),
    }
}

/// Converts a host service snapshot into its wire message.
pub fn proto_host_service_report_from_domain(value: &HephaestusHostServiceReport) -> (r: ProtoHostServiceReport)
    ensures
        r@ == host_service_view(*value),
        host_service_outcome(r@) == Ok::<ProtoHostServiceReportView, HephaestusDomainError>(r@),
{
    let unit_name = value.unit_name();
    proof {
        use_type_invariant(value);
        use_type_invariant(unit_name);
    }
    let recent_log_lines = HephaestusAgentReportLine::to_texts(value.recent_logs());
    proof {
        let items = log_line_texts(value.spec_recent_logs());
        assert forall|i: int| 0 <= i < items.len() implies domain_token(#[trigger] items[i], MAX_LOG_LINE_BYTES as nat, CharClass::LogLine) == Ok::<Seq<char>, HephaestusDomainError>(items[i]) by {
            assert(value.spec_recent_logs()[i].valid());
        }
        lemma_domain_tokens_fixed(items, MAX_LOG_LINE_BYTES as nat, CharClass::LogLine);
    }
    ProtoHostServiceReport {
        unit_name: unit_name.as_str().to_string(),
        state: proto_host_service_state_from_domain(value.state()),
        recent_log_lines,
    }
}

/// Converts a Tailscale report into its wire message.
pub fn proto_tailscale_report_from_domain(value: &HephaestusTailscaleReport) -> (r: ProtoTailscaleReport)
    ensures
        r@ == tailscale_view(*value),
        tailscale_outcome(Some(r@)) == Ok::<ProtoTailscaleReportView, HephaestusDomainError>(r@),
{
    proof {
        use_type_invariant(value);
    }
    ProtoTailscaleReport {
        hostname: str_or_empty(value.hostname()),
        magic_dns_name: str_or_empty(value.magic_dns_name()),
        ips: copy_strings(value.ips()),
        tags: copy_strings(value.tags()),
        services: copy_strings(value.services()),
    }
}

/// Converts a runtime version report into its wire message.
pub fn proto_runtime_version_report_from_domain(value: &HephaestusRuntimeVersionReport) -> (r:
    ProtoRuntimeVersionReport)
    ensures
        r@ == runtime_versions_view(*value),
        runtime_versions_outcome(Some(r@)) == Ok::<ProtoRuntimeVersionReportView, HephaestusDomainError>(r@),
{
    proof {
        use_type_invariant(value);
    }
    ProtoRuntimeVersionReport {
        docker_version: str_or_empty(value.docker_version()),
        docker_compose_version: str_or_empty(value.docker_compose_version()),
    }
}

/// Converts a patch state into its wire message.
pub fn proto_patch_state_report_from_domain(value: &HephaestusPatchStateReport) -> (r: ProtoPatchStateReport)
    ensures
        r == patch_state_proto(*value),
        patch_state_outcome(Some(r)) == Ok::<ProtoPatchStateReport, HephaestusDomainError>(r),
{
    ProtoPatchStateReport {
        reboot_required: value.reboot_required(),
        unattended_upgrades_state: proto_unattended_upgrades_from_domain(value.unattended_upgrades_state()),
    }
}

/// Converts an observability report into its wire message.
pub fn proto_observability_report_from_domain(value: HephaestusObservabilityReport) -> (r:
    ProtoObservabilityReport)
    ensures
        r == observability_proto(value),
{
    let cadvisor = value.cadvisor();
    let node_exporter = value.node_exporter();
    ProtoObservabilityReport {
        cadvisor: Some(
            ProtoCadvisorSummary {
                reachable: cadvisor.reachable(),
                container_metric_lines: cadvisor.container_metric_lines(),
                has_cpu_metrics: cadvisor.has_cpu_metrics(),
                has_memory_metrics: cadvisor.has_memory_metrics(),
            },
        ),
        node_exporter: Some(
            ProtoNodeExporterSummary {
                reachable: node_exporter.reachable(),
                metric_lines: node_exporter.metric_lines(),
                has_cpu_metrics: node_exporter.has_cpu_metrics(),
                has_memory_metrics: node_exporter.has_memory_metrics(),
                has_filesystem_metrics: node_exporter.has_filesystem_metrics(),
            },
        ),
    }
}

/// Converts a probe result into its wire message.
pub fn proto_service_probe_report_from_domain(value: &HephaestusServiceProbeReport) -> (r: ProtoServiceProbeReport)
    ensures
        r@ == service_probe_view(*value),
        service_probe_outcome(r@) == Ok::<ProtoServiceProbeReportView, HephaestusDomainError>(r@),
{
    proof {
        use_type_invariant(value);
    }
    ProtoServiceProbeReport {
        probe_name: value.probe_name().to_string(),
        service_name: value.service_name().to_string(),
        kind: proto_probe_kind_from_domain(value.kind()),
        target: value.target().to_string(),
        status: proto_probe_status_from_domain(value.status()),
        http_status_code: match value.http_status_code() {
            Some(c) => c as u32,
            None => 0,
        },
    }
}

/// Converts an agent report into its wire message; every sub-message is
/// sent.
///
/// The message is accepted by [`agent_report_from_proto`] unchanged, so
/// converting it back yields a report with the same wire content and the
/// same absent texts; a probe status code of zero comes back absent.
pub fn proto_agent_report_from_domain(value: &HephaestusAgentReport) -> (r: ProtoAgentReport)
    ensures
        r@ == agent_report_view(*value),
        agent_report_outcome(r@) == Ok::<ProtoAgentReportView, HephaestusDomainError>(r@),
        value.spec_private_ip() is None <==> r.private_ip@.len() == 0,
        value.spec_tailscale().spec_hostname() is None <==> r@.tailscale->Some_0.hostname.len() == 0,
        value.spec_tailscale().spec_magic_dns_name() is None <==> r@.tailscale->Some_0.magic_dns_name.len() == 0,
        value.spec_runtime_versions().spec_docker_version() is None <==> r@.runtime_versions->Some_0.docker_version.len() == 0,
        value.spec_runtime_versions().spec_docker_compose_version() is None
            <==> r@.runtime_versions->Some_0.docker_compose_version.len() == 0,
{
    proof {
        use_type_invariant(value);
    }
    let containers_in = value.containers();
    let mut containers: Vec<ProtoContainerReport> = Vec::new();
    let mut i: usize = 0;
    while i < containers_in.len()
        invariant
            i <= containers_in@.len(),
            containers@.map_values(|x: ProtoContainerReport| x@) =~= container_views(containers_in@.take(i as int)),
            forall|m: int| 0 <= m < i ==> container_outcome(#[trigger] container_views(containers_in@)[m]) == Ok::<
                ProtoContainerReportView,
                HephaestusDomainError,
            >(container_views(containers_in@)[m]),
        decreases containers_in@.len() - i,
    {
        let ghost before = containers@;
        containers.push(proto_container_report_from_domain(&containers_in[i]));
        proof {
            assert(containers_in@.take(i as int + 1) =~= containers_in@.take(i as int).push(containers_in@[i as int]));
            assert(containers@.map_values(|x: ProtoContainerReport| x@) =~= before.map_values(
                |x: ProtoContainerReport| x@,
            ).push(container_view(containers_in@[i as int])));
        }
        i += 1;
    }
    proof {
        assert(containers_in@.take(i as int) =~= containers_in@);
    }
    let services_in = value.host_services();
    let mut host_services: Vec<ProtoHostServiceReport> = Vec::new();
    let mut j: usize = 0;
    while j < services_in.len()
        invariant
            j <= services_in@.len(),
            host_services@.map_values(|x: ProtoHostServiceReport| x@) =~= host_service_views(services_in@.take(j as int)),
            forall|m: int| 0 <= m < j ==> host_service_outcome(#[trigger] host_service_views(services_in@)[m]) == Ok::<
                ProtoHostServiceReportView,
                HephaestusDomainError,
            >(host_service_views(services_in@)[m]),
        decreases services_in@.len() - j,
    {
        let ghost before = host_services@;
        host_services.push(proto_host_service_report_from_domain(&services_in[j]));
        proof {
            assert(services_in@.take(j as int + 1) =~= services_in@.take(j as int).push(services_in@[j as int]));
            assert(host_services@.map_values(|x: ProtoHostServiceReport| x@) =~= before.map_values(
                |x: ProtoHostServiceReport| x@,
            ).push(host_service_view(services_in@[j as int])));
        }
        j += 1;
    }
    proof {
        assert(services_in@.take(j as int) =~= services_in@);
    }
    let probes_in = value.service_probes();
    let mut probes: Vec<ProtoServiceProbeReport> = Vec::new();
    let mut k: usize = 0;
    while k < probes_in.len()
        invariant
            k <= probes_in@.len(),
            probes@.map_values(|x: ProtoServiceProbeReport| x@) =~= service_probe_views(probes_in@.take(k as int)),
            forall|m: int| 0 <= m < k ==> service_probe_outcome(#[trigger] service_probe_views(probes_in@)[m]) == Ok::<
                ProtoServiceProbeReportView,
                HephaestusDomainError,
            >(service_probe_views(probes_in@)[m]),
        decreases probes_in@.len() - k,
    {
        let ghost before = probes@;
        probes.push(proto_service_probe_report_from_domain(&probes_in[k]));
        proof {
            assert(probes_in@.take(k as int + 1) =~= probes_in@.take(k as int).push(probes_in@[k as int]));
            assert(probes@.map_values(|x: ProtoServiceProbeReport| x@) =~= before.map_values(
                |x: ProtoServiceProbeReport| x@,
            ).push(service_probe_view(probes_in@[k as int])));
        }
        k += 1;
    }
    proof {
        assert(probes_in@.take(k as int) =~= probes_in@);
    }
    let private_ip = value.private_ip();
    let server_id = value.server_id();
    let provider_server_id = value.provider_server_id();
    let tailscale = value.tailscale();
    let runtime_versions = value.runtime_versions();
    proof {
        use_type_invariant(server_id);
        use_type_invariant(provider_server_id);
        use_type_invariant(tailscale);
        use_type_invariant(runtime_versions);
    }
    if let Some(ip) = private_ip {
        proof {
            use_type_invariant(ip);
            lemma_valid_ip_text_accepted(ip@);
        }
    }
    let actual_apps = HephaestusServerApp::to_texts(value.actual_apps());
    let r = ProtoAgentReport {
        server_id: server_id.as_str().to_string(),
        provider_server_id: provider_server_id.as_str().to_string(),
        private_ip: str_or_empty(match private_ip {
            Some(ip) => Some(ip.as_str()),
            None => None,
        }),
        generated_at_unix_secs: value.generated_at_unix_secs(),
        resources: Some(proto_host_resource_report_from_domain(value.resources())),
        containers,
        host_services,
        actual_apps,
        tailscale: Some(proto_tailscale_report_from_domain(tailscale)),
        runtime_versions: Some(proto_runtime_version_report_from_domain(runtime_versions)),
        patch_state: Some(proto_patch_state_report_from_domain(value.patch_state())),
        observability: Some(proto_observability_report_from_domain(value.observability())),
        service_probes: probes,
    };
    proof {
        let services = value.spec_observed_services();
        let items = app_texts(services.spec_actual_apps());
        assert forall|m: int| 0 <= m < items.len() implies domain_token(#[trigger] items[m], MAX_SERVER_APP_BYTES as nat, CharClass::Identifier) == Ok::<Seq<char>, HephaestusDomainError>(items[m]) by {
            assert(services.spec_actual_apps()[m].valid());
        }
        lemma_domain_tokens_fixed(items, MAX_SERVER_APP_BYTES as nat, CharClass::Identifier);
        lemma_each_outcome_fixed(container_views(services.spec_containers()), container_outcome_fn());
        lemma_each_outcome_fixed(host_service_views(services.spec_host_services()), host_service_outcome_fn());
        lemma_each_outcome_fixed(service_probe_views(value.spec_service_probes()), service_probe_outcome_fn());
    }
    r
}

/// The domain error a Vultr validation error stands for.
pub open spec fn vultr_error_as_domain(e: VultrError) -> HephaestusDomainError {
    match e {
        VultrError::Empty => HephaestusDomainError::Empty,
        VultrError::TooLong => HephaestusDomainError::TooLong,
        VultrError::InvalidCharacter => HephaestusDomainError::InvalidCharacter,
        _ => HephaestusDomainError::InvalidNumber,
    }
}

/// Maps a Vultr validation error to the domain error it stands for.
fn map_vultr_error(e: VultrError) -> (r: HephaestusDomainError)
    ensures
        r == vultr_error_as_domain(e),
{
    match e {
        VultrError::Empty => HephaestusDomainError::Empty,
        VultrError::TooLong => HephaestusDomainError::TooLong,
        VultrError::InvalidCharacter => HephaestusDomainError::InvalidCharacter,
        _ => HephaestusDomainError::InvalidNumber,
    }
}

/// A Vultr token check, with its error taken as a domain error.
pub open spec fn vultr_token_as_domain(s: Seq<char>, max: nat, k: CharClass) -> Result<Seq<char>, HephaestusDomainError> {
    match vultr_token(s, max, k) {
        Ok(t) => Ok(t),
        Err(e) => Err(vultr_error_as_domain(e)),
    }
}

/// What a wire resource snapshot yields: a missing one is refused as
/// `InvalidCharacter`; a CPU figure beyond `u16` or an out-of-range
/// snapshot is `InvalidNumber`.
pub open spec fn host_resources_outcome(p: Option<ProtoHostResourceReport>) -> Result<
    ProtoHostResourceReport,
    HephaestusDomainError,
> {
    match p {
        None => Err(HephaestusDomainError::InvalidCharacter),
        Some(r) => if r.cpu_usage_basis_points > u16::MAX {
            Err(HephaestusDomainError::InvalidNumber)
        } else if !host_resources_valid(
            r.cpu_usage_basis_points as u16,
            r.memory_total_bytes,
            r.memory_used_bytes,
            r.disk_total_bytes,
            r.disk_used_bytes,
        ) {
            Err(HephaestusDomainError::InvalidNumber)
        } else {
            Ok(r)
        },
    }
}

/// What a wire container snapshot yields: name, image, state, health, log
/// lines and restart reason in that order, then the snapshot's own rule;
/// name, image and log lines are trimmed.
pub open spec fn container_outcome(p: ProtoContainerReportView) -> Result<
    ProtoContainerReportView,
    HephaestusDomainError,
> {
    let name = vultr_token_as_domain(p.container_name, MAX_DOCKER_CONTAINER_NAME_BYTES as nat, CharClass::DnsName);
    let image = vultr_token_as_domain(p.image, MAX_DOCKER_IMAGE_REFERENCE_BYTES as nat, CharClass::DockerImage);
    let state = container_state_outcome(p.state);
    let health = container_health_outcome(p.health_state);
    let logs = domain_tokens(p.recent_log_lines, MAX_LOG_LINE_BYTES as nat, CharClass::LogLine);
    let reason = restart_reason_outcome(p.restart_reason);
    if name is Err {
        Err(name->Err_0)
    } else if image is Err {
        Err(image->Err_0)
    } else if state is Err {
        Err(state->Err_0)
    } else if health is Err {
        Err(health->Err_0)
    } else if logs is Err {
        Err(logs->Err_0)
    } else if reason is Err {
        Err(reason->Err_0)
    } else if container_report_fault(p.recent_log_lines.len(), p.restart_required, reason->Ok_0) is Some {
        Err(container_report_fault(p.recent_log_lines.len(), p.restart_required, reason->Ok_0)->Some_0)
    } else {
        Ok(
            ProtoContainerReportView {
                container_name: name->Ok_0,
                image: image->Ok_0,
                state: p.state,
                health_state: p.health_state,
                recent_log_lines: logs->Ok_0,
                restart_required: p.restart_required,
                restart_reason: p.restart_reason,
            },
        )
    }
}

/// [`container_outcome`] as a function value, for lists.
pub open spec fn container_outcome_fn() -> spec_fn(ProtoContainerReportView) -> Result<
    ProtoContainerReportView,
    HephaestusDomainError,
> {
    |p: ProtoContainerReportView| container_outcome(p)
}

/// What a wire host service snapshot yields: unit name, state and log
/// lines in that order, then the log-line bound; texts are trimmed.
pub open spec fn host_service_outcome(p: ProtoHostServiceReportView) -> Result<
    ProtoHostServiceReportView,
    HephaestusDomainError,
> {
    let unit = domain_token(p.unit_name, MAX_HOST_SERVICE_UNIT_NAME_BYTES as nat, CharClass::UnitName);
    let state = host_service_state_outcome(p.state);
    let logs = domain_tokens(p.recent_log_lines, MAX_LOG_LINE_BYTES as nat, CharClass::LogLine);
    if unit is Err {
        Err(unit->Err_0)
    } else if state is Err {
        Err(state->Err_0)
    } else if logs is Err {
        Err(logs->Err_0)
    } else if p.recent_log_lines.len() > MAX_LOG_LINES_PER_HOST_SERVICE {
        Err(HephaestusDomainError::TooLong)
    } else {
        Ok(ProtoHostServiceReportView { unit_name: unit->Ok_0, state: p.state, recent_log_lines: logs->Ok_0 })
    }
}

/// [`host_service_outcome`] as a function value, for lists.
pub open spec fn host_service_outcome_fn() -> spec_fn(ProtoHostServiceReportView) -> Result<
    ProtoHostServiceReportView,
    HephaestusDomainError,
> {
    |p: ProtoHostServiceReportView| host_service_outcome(p)
}

/// An optional text on the wire: the empty text is "absent".
pub open spec fn empty_as_none(s: Seq<char>) -> Option<Seq<char>> {
    if s.len() == 0 {
        None
    } else {
        Some(s)
    }
}

/// What a wire Tailscale report yields; a missing one is the empty report.
/// Values are kept as observed.
pub open spec fn tailscale_outcome(p: Option<ProtoTailscaleReportView>) -> Result<
    ProtoTailscaleReportView,
    HephaestusDomainError,
> {
    match p {
        None => Ok(
            ProtoTailscaleReportView {
                hostname: Seq::empty(),
                magic_dns_name: Seq::empty(),
                ips: Seq::empty(),
                tags: Seq::empty(),
                services: Seq::empty(),
            },
        ),
        Some(t) => match tailscale_report_fault(
            empty_as_none(t.hostname),
            empty_as_none(t.magic_dns_name),
            t.ips,
            t.tags,
            t.services,
        ) {
            Some(e) => Err(e),
            None => Ok(t),
        },
    }
}

/// What a wire runtime version report yields; a missing one is the empty
/// report. Values are kept as observed.
pub open spec fn runtime_versions_outcome(p: Option<ProtoRuntimeVersionReportView>) -> Result<
    ProtoRuntimeVersionReportView,
    HephaestusDomainError,
> {
    match p {
        None => Ok(ProtoRuntimeVersionReportView { docker_version: Seq::empty(), docker_compose_version: Seq::empty() }),
        Some(v) => match runtime_versions_fault(empty_as_none(v.docker_version), empty_as_none(v.docker_compose_version)) {
            Some(e) => Err(e),
            None => Ok(v),
        },
    }
}

/// What a wire patch state yields; a missing one is "no reboot pending,
/// upgrades state unknown".
pub open spec fn patch_state_outcome(p: Option<ProtoPatchStateReport>) -> Result<ProtoPatchStateReport, HephaestusDomainError> {
    match p {
        None => Ok(ProtoPatchStateReport { reboot_required: false, unattended_upgrades_state: ProtoUnattendedUpgradesState::Unknown }),
        Some(s) => match unattended_upgrades_outcome(s.unattended_upgrades_state) {
            Err(e) => Err(e),
            Ok(_) => Ok(s),
        },
    }
}

/// The wire message of an unreachable cAdvisor summary.
pub open spec fn unreachable_cadvisor() -> ProtoCadvisorSummary {
    ProtoCadvisorSummary { reachable: false, container_metric_lines: 0, has_cpu_metrics: false, has_memory_metrics: false }
}

/// The wire message of an unreachable node-exporter summary.
pub open spec fn unreachable_node_exporter() -> ProtoNodeExporterSummary {
    ProtoNodeExporterSummary {
        reachable: false,
        metric_lines: 0,
        has_cpu_metrics: false,
        has_memory_metrics: false,
        has_filesystem_metrics: false,
    }
}

/// What a wire observability report yields: a missing report or summary
/// stands for an unreachable one. It is never refused.
pub open spec fn observability_outcome(p: Option<ProtoObservabilityReport>) -> ProtoObservabilityReport {
    match p {
        None => ProtoObservabilityReport { cadvisor: Some(unreachable_cadvisor()), node_exporter: Some(unreachable_node_exporter()) },
        Some(o) => ProtoObservabilityReport {
            cadvisor: Some(
                match o.cadvisor {
                    Some(c) => c,
                    None => unreachable_cadvisor(),
                },
            ),
            node_exporter: Some(
                match o.node_exporter {
                    Some(n) => n,
                    None => unreachable_node_exporter(),
                },
            ),
        },
    }
}

/// The HTTP status code a wire probe carries: zero is "absent", a value
/// beyond `u16` is refused.
pub open spec fn http_status_outcome(code: u32) -> Result<Option<u16>, HephaestusDomainError> {
    if code == 0 {
        Ok(None)
    } else if code > u16::MAX {
        Err(HephaestusDomainError::InvalidNumber)
    } else {
        Ok(Some(code as u16))
    }
}

/// What a wire probe result yields: the status code, kind and status in
/// that order, then the probe's own rule. Texts are kept as given.
pub open spec fn service_probe_outcome(p: ProtoServiceProbeReportView) -> Result<
    ProtoServiceProbeReportView,
    HephaestusDomainError,
> {
    let code = http_status_outcome(p.http_status_code);
    let kind = probe_kind_outcome(p.kind);
    let status = probe_status_outcome(p.status);
    if code is Err {
        Err(code->Err_0)
    } else if kind is Err {
        Err(kind->Err_0)
    } else if status is Err {
        Err(status->Err_0)
    } else if service_probe_fault(p.probe_name, p.service_name, kind->Ok_0, p.target, code->Ok_0) is Some {
        Err(service_probe_fault(p.probe_name, p.service_name, kind->Ok_0, p.target, code->Ok_0)->Some_0)
    } else {
        Ok(p)
    }
}

/// [`service_probe_outcome`] as a function value, for lists.
pub open spec fn service_probe_outcome_fn() -> spec_fn(ProtoServiceProbeReportView) -> Result<
    ProtoServiceProbeReportView,
    HephaestusDomainError,
> {
    |p: ProtoServiceProbeReportView| service_probe_outcome(p)
}

/// What a wire agent report yields. The fields are checked in this order:
/// the private address, the resources (which must be sent), the server and
/// provider identifiers, each container, each host service, each app, the
/// observation bounds, a zero report time, then the Tailscale, runtime
/// version and patch-state reports (a missing one is empty), each probe and
/// the probe bound; the first refusal decides the error. Otherwise the wire
/// content of the domain report.
pub open spec fn agent_report_outcome(p: ProtoAgentReportView) -> Result<ProtoAgentReportView, HephaestusDomainError> {
    let private_ip = empty_or_ip(p.private_ip);
    let resources = host_resources_outcome(p.resources);
    let server_id = domain_token(p.server_id, MAX_SERVER_ID_BYTES as nat, CharClass::Identifier);
    let provider_server_id = domain_token(p.provider_server_id, MAX_PROVIDER_SERVER_ID_BYTES as nat, CharClass::Identifier);
    let containers = each_outcome(p.containers, container_outcome_fn());
    let host_services = each_outcome(p.host_services, host_service_outcome_fn());
    let actual_apps = domain_tokens(p.actual_apps, MAX_SERVER_APP_BYTES as nat, CharClass::Identifier);
    let tailscale = tailscale_outcome(p.tailscale);
    let runtime_versions = runtime_versions_outcome(p.runtime_versions);
    let patch_state = patch_state_outcome(p.patch_state);
    let probes = each_outcome(p.service_probes, service_probe_outcome_fn());
    if private_ip is Err {
        Err(private_ip->Err_0)
    } else if resources is Err {
        Err(resources->Err_0)
    } else if server_id is Err {
        Err(server_id->Err_0)
    } else if provider_server_id is Err {
        Err(provider_server_id->Err_0)
    } else if containers is Err {
        Err(containers->Err_0)
    } else if host_services is Err {
        Err(host_services->Err_0)
    } else if actual_apps is Err {
        Err(actual_apps->Err_0)
    } else if !observed_services_in_bounds(p.containers.len(), p.host_services.len(), p.actual_apps.len()) {
        Err(HephaestusDomainError::TooLong)
    } else if p.generated_at_unix_secs == 0 {
        Err(HephaestusDomainError::InvalidNumber)
    } else if tailscale is Err {
        Err(tailscale->Err_0)
    } else if runtime_versions is Err {
        Err(runtime_versions->Err_0)
    } else if patch_state is Err {
        Err(patch_state->Err_0)
    } else if probes is Err {
        Err(probes->Err_0)
    } else if p.service_probes.len() > MAX_SERVICE_PROBES_PER_REPORT {
        Err(HephaestusDomainError::TooLong)
    } else {
        Ok(
            ProtoAgentReportView {
                server_id: server_id->Ok_0,
                provider_server_id: provider_server_id->Ok_0,
                private_ip: p.private_ip,
                generated_at_unix_secs: p.generated_at_unix_secs,
                resources: Some(resources->Ok_0),
                containers: containers->Ok_0,
                host_services: host_services->Ok_0,
                actual_apps: actual_apps->Ok_0,
                tailscale: Some(tailscale->Ok_0),
                runtime_versions: Some(runtime_versions->Ok_0),
                patch_state: Some(patch_state->Ok_0),
                observability: Some(observability_outcome(p.observability)),
                service_probes: probes->Ok_0,
            },
        )
    }
}

/// Converts a wire resource snapshot; a missing one is refused.
fn host_resource_report_from_proto(p: Option<ProtoHostResourceReport>) -> (r: Result<
    HephaestusHostResourceReport,
    HephaestusDomainError,
>)
    ensures
        match host_resources_outcome(p) {
            Ok(n) => r is Ok && host_resources_proto(r->Ok_0) == n,
            Err(e) => r == Err::<HephaestusHostResourceReport, HephaestusDomainError>(e),
        },
{
    let res = match p {
        Some(res) => res,
        None => return Err(HephaestusDomainError::InvalidCharacter),
    };
    if res.cpu_usage_basis_points > 65535 {
        return Err(HephaestusDomainError::InvalidNumber);
    }
    let cpu = res.cpu_usage_basis_points as u16;
    match HephaestusHostResourceReport::new(
        cpu,
        res.memory_total_bytes,
        res.memory_used_bytes,
        res.disk_total_bytes,
        res.disk_used_bytes,
    ) {
        Ok(v) => Ok(v),
        Err(e) => Err(e),
    }
}

/// Converts a wire container snapshot, as [`container_outcome`] describes.
pub fn container_report_from_proto(p: &ProtoContainerReport) -> (r: Result<HephaestusContainerReport, HephaestusDomainError>)
    ensures
        match container_outcome(p@) {
            Ok(n) => r is Ok && container_view(r->Ok_0) == n,
            Err(e) => r == Err::<HephaestusContainerReport, HephaestusDomainError>(e),
        },
{
    let name = match DockerContainerName::new(p.container_name.as_str()) {
        Ok(v) => v,
        Err(e) => return Err(map_vultr_error(e)),
    };
    let image = match DockerImageReference::new(p.image.as_str()) {
        Ok(v) => v,
        Err(e) => return Err(map_vultr_error(e)),
    };
    let state = match container_state_from_proto(p.state) {
        Ok(v) => v,
        Err(e) => return Err(e),
    };
    let health = match container_health_from_proto(p.health_state) {
        Ok(v) => v,
        Err(e) => return Err(e),
    };
    let logs = match HephaestusAgentReportLine::from_texts(&p.recent_log_lines) {
        Ok(v) => v,
        Err(e) => return Err(e),
    };
    let reason = match restart_reason_from_proto(p.restart_reason) {
        Ok(v) => v,
        Err(e) => return Err(e),
    };
    proof {
        lemma_domain_tokens_len(p@.recent_log_lines, MAX_LOG_LINE_BYTES as nat, CharClass::LogLine);
        assert(log_line_texts(logs@).len() == logs@.len());
    }
    HephaestusContainerReport::new(name, image, state, health, logs, p.restart_required, reason)
}

/// Converts a wire host service snapshot, as [`host_service_outcome`]
/// describes.
pub fn host_service_report_from_proto(p: &ProtoHostServiceReport) -> (r: Result<
    HephaestusHostServiceReport,
    HephaestusDomainError,
>)
    ensures
        match host_service_outcome(p@) {
            Ok(n) => r is Ok && host_service_view(r->Ok_0) == n,
            Err(e) => r == Err::<HephaestusHostServiceReport, HephaestusDomainError>(e),
        },
{
    let unit = match HephaestusHostServiceUnitName::new(p.unit_name.as_str()) {
        Ok(v) => v,
        Err(e) => return Err(e),
    };
    let state = match host_service_state_from_proto(p.state) {
        Ok(v) => v,
        Err(e) => return Err(e),
    };
    let logs = match HephaestusAgentReportLine::from_texts(&p.recent_log_lines) {
        Ok(v) => v,
        Err(e) => return Err(e),
    };
    proof {
        lemma_domain_tokens_len(p@.recent_log_lines, MAX_LOG_LINE_BYTES as nat, CharClass::LogLine);
        assert(log_line_texts(logs@).len() == logs@.len());
    }
    HephaestusHostServiceReport::new(unit, state, logs)
}

/// An empty text is the empty sequence, and so is what stands for it.
proof fn lemma_empty_text(s: Seq<char>)
    ensures
        seq_or_empty(empty_as_none(s)) == s,
{
    if s.len() == 0 {
        assert(s =~= Seq::<char>::empty());
    }
}

/// The owned text of a wire text, or nothing when it is empty.
fn nonempty_text(s: &String) -> (r: Option<String>)
    ensures
        optional_text(r) == empty_as_none(s@),
{
    if s.as_str().is_empty() {
        None
    } else {
        Some(s.clone())
    }
}

/// The text content of an optional Tailscale message.
pub open spec fn optional_tailscale_view(p: Option<ProtoTailscaleReport>) -> Option<ProtoTailscaleReportView> {
    match p {
        Some(t) => Some(t@),
        None => None,
    }
}

/// The text content of an optional runtime version message.
pub open spec fn optional_runtime_view(p: Option<ProtoRuntimeVersionReport>) -> Option<ProtoRuntimeVersionReportView> {
    match p {
        Some(v) => Some(v@),
        None => None,
    }
}

/// Converts an optional wire Tailscale report; a missing one is empty.
fn tailscale_report_from_proto(p: Option<ProtoTailscaleReport>) -> (r: Result<
    HephaestusTailscaleReport,
    HephaestusDomainError,
>)
    ensures
        match tailscale_outcome(optional_tailscale_view(p)) {
            Ok(n) => r is Ok && tailscale_view(r->Ok_0) == n
                && (r->Ok_0.spec_hostname() is None <==> n.hostname.len() == 0)
                && (r->Ok_0.spec_magic_dns_name() is None <==> n.magic_dns_name.len() == 0),
            Err(e) => r == Err::<HephaestusTailscaleReport, HephaestusDomainError>(e),
        },
{
    match p {
        None => {
            let empty = HephaestusTailscaleReport::empty();
            proof {
                assert(empty.spec_ips() =~= Seq::<Seq<char>>::empty());
                assert(empty.spec_tags() =~= Seq::<Seq<char>>::empty());
                assert(empty.spec_services() =~= Seq::<Seq<char>>::empty());
            }
            Ok(empty)
        },
        Some(t) => {
            proof {
                lemma_empty_text(t.hostname@);
                lemma_empty_text(t.magic_dns_name@);
            }
            HephaestusTailscaleReport::new(
            nonempty_text(&t.hostname),
            nonempty_text(&t.magic_dns_name),
            copy_strings(t.ips.as_slice()),
            copy_strings(t.tags.as_slice()),
            copy_strings(t.services.as_slice()),
            )
        },
    }
}

/// Converts an optional wire runtime version report; a missing one is
/// empty.
fn runtime_version_report_from_proto(p: Option<ProtoRuntimeVersionReport>) -> (r: Result<
    HephaestusRuntimeVersionReport,
    HephaestusDomainError,
>)
    ensures
        match runtime_versions_outcome(optional_runtime_view(p)) {
            Ok(n) => r is Ok && runtime_versions_view(r->Ok_0) == n
                && (r->Ok_0.spec_docker_version() is None <==> n.docker_version.len() == 0)
                && (r->Ok_0.spec_docker_compose_version() is None <==> n.docker_compose_version.len() == 0),
            Err(e) => r == Err::<HephaestusRuntimeVersionReport, HephaestusDomainError>(e),
        },
{
    match p {
        None => Ok(HephaestusRuntimeVersionReport::empty()),
        Some(v) => {
            proof {
                lemma_empty_text(v.docker_version@);
                lemma_empty_text(v.docker_compose_version@);
            }
            HephaestusRuntimeVersionReport::new(
                nonempty_text(&v.docker_version),
                nonempty_text(&v.docker_compose_version),
            )
        },
    }
}

/// Converts an optional wire patch state; a missing one is unknown.
fn patch_state_report_from_proto(p: Option<ProtoPatchStateReport>) -> (r: Result<
    HephaestusPatchStateReport,
    HephaestusDomainError,
>)
    ensures
        match patch_state_outcome(p) {
            Ok(n) => r is Ok && patch_state_proto(r->Ok_0) == n,
            Err(e) => r == Err::<HephaestusPatchStateReport, HephaestusDomainError>(e),
        },
{
    match p {
        None => Ok(HephaestusPatchStateReport::unknown()),
        Some(s) => match unattended_upgrades_from_proto(s.unattended_upgrades_state) {
            Ok(state) => Ok(HephaestusPatchStateReport::new(s.reboot_required, state)),
            Err(e) => Err(e),
        },
    }
}

/// Converts an optional wire observability report; a missing report or
/// summary is an unreachable one.
fn observability_report_from_proto(p: Option<ProtoObservabilityReport>) -> (r: HephaestusObservabilityReport)
    ensures
        observability_proto(r) == observability_outcome(p),
{
    match p {
        None => HephaestusObservabilityReport::empty(),
        Some(o) => {
            let cadvisor = match o.cadvisor {
                Some(c) => HephaestusCadvisorSummary::new(
                    c.reachable,
                    c.container_metric_lines,
                    c.has_cpu_metrics,
                    c.has_memory_metrics,
                ),
                None => HephaestusCadvisorSummary::unreachable(),
            };
            let node_exporter = match o.node_exporter {
                Some(n) => HephaestusNodeExporterSummary::new(
                    n.reachable,
                    n.metric_lines,
                    n.has_cpu_metrics,
                    n.has_memory_metrics,
                    n.has_filesystem_metrics,
                ),
                None => HephaestusNodeExporterSummary::unreachable(),
            };
            HephaestusObservabilityReport::new(cadvisor, node_exporter)
        },
    }
}

/// Converts a wire probe result, as [`service_probe_outcome`] describes; a
/// zero status code becomes an absent one.
pub fn service_probe_report_from_proto(p: &ProtoServiceProbeReport) -> (r: Result<
    HephaestusServiceProbeReport,
    HephaestusDomainError,
>)
    ensures
        match service_probe_outcome(p@) {
            Ok(n) => r is Ok && service_probe_view(r->Ok_0) == n
                && (r->Ok_0.spec_http_status_code() is None <==> p.http_status_code == 0),
            Err(e) => r == Err::<HephaestusServiceProbeReport, HephaestusDomainError>(e),
        },
{
    let code: Option<u16> = if p.http_status_code == 0 {
        None
    } else if p.http_status_code > 65535 {
        return Err(HephaestusDomainError::InvalidNumber);
    } else {
        Some(p.http_status_code as u16)
    };
    let kind = match probe_kind_from_proto(p.kind) {
        Ok(v) => v,
        Err(e) => return Err(e),
    };
    let status = match probe_status_from_proto(p.status) {
        Ok(v) => v,
        Err(e) => return Err(e),
    };
    HephaestusServiceProbeReport::new(p.probe_name.clone(), p.service_name.clone(), kind, p.target.clone(), status, code)
}


/// Converts each wire container snapshot, in order; the first refused one
/// decides the error.
fn containers_from_proto(items: &Vec<ProtoContainerReport>) -> (r: Result<
    Vec<HephaestusContainerReport>,
    HephaestusDomainError,
>)
    ensures
        match each_outcome(container_report_views(items@), container_outcome_fn()) {
            Ok(ns) => r is Ok && container_views(r->Ok_0@) == ns,
            Err(e) => r == Err::<Vec<HephaestusContainerReport>, HephaestusDomainError>(e),
        },
{
    let ghost pv = container_report_views(items@);
    let mut out: Vec<HephaestusContainerReport> = Vec::new();
    let mut i: usize = 0;
    proof {
        assert(pv.take(0) =~= Seq::<ProtoContainerReportView>::empty());
        assert(container_views(out@) =~= Seq::<ProtoContainerReportView>::empty());
    }
    while i < items.len()
        invariant
            i <= items@.len(),
            pv == container_report_views(items@),
            each_outcome(pv.take(i as int), container_outcome_fn()) == Ok::<
                Seq<ProtoContainerReportView>,
                HephaestusDomainError,
            >(container_views(out@)),
        decreases items@.len() - i,
    {
        proof {
            lemma_each_outcome_step(pv, i as int, container_outcome_fn());
            assert(pv[i as int] == items@[i as int]@);
        }
        match container_report_from_proto(&items[i]) {
            Ok(c) => {
                let ghost before = out@;
                out.push(c);
                proof {
                    assert(container_views(out@) =~= container_views(before).push(container_view(c)));
                }
            },
            Err(e) => {
                proof {
                    lemma_each_outcome_prefix_fault(pv, i as int + 1, container_outcome_fn());
                }
                return Err(e);
            },
        }
        i += 1;
    }
    proof {
        assert(pv.take(i as int) =~= pv);
    }
    Ok(out)
}

/// Converts each wire host service snapshot, in order; the first refused
/// one decides the error.
fn host_services_from_proto(items: &Vec<ProtoHostServiceReport>) -> (r: Result<
    Vec<HephaestusHostServiceReport>,
    HephaestusDomainError,
>)
    ensures
        match each_outcome(host_service_report_views(items@), host_service_outcome_fn()) {
            Ok(ns) => r is Ok && host_service_views(r->Ok_0@) == ns,
            Err(e) => r == Err::<Vec<HephaestusHostServiceReport>, HephaestusDomainError>(e),
        },
{
    let ghost pv = host_service_report_views(items@);
    let mut out: Vec<HephaestusHostServiceReport> = Vec::new();
    let mut i: usize = 0;
    proof {
        assert(pv.take(0) =~= Seq::<ProtoHostServiceReportView>::empty());
        assert(host_service_views(out@) =~= Seq::<ProtoHostServiceReportView>::empty());
    }
    while i < items.len()
        invariant
            i <= items@.len(),
            pv == host_service_report_views(items@),
            each_outcome(pv.take(i as int), host_service_outcome_fn()) == Ok::<
                Seq<ProtoHostServiceReportView>,
                HephaestusDomainError,
            >(host_service_views(out@)),
        decreases items@.len() - i,
    {
        proof {
            lemma_each_outcome_step(pv, i as int, host_service_outcome_fn());
            assert(pv[i as int] == items@[i as int]@);
        }
        match host_service_report_from_proto(&items[i]) {
            Ok(h) => {
                let ghost before = out@;
                out.push(h);
                proof {
                    assert(host_service_views(out@) =~= host_service_views(before).push(host_service_view(h)));
                }
            },
            Err(e) => {
                proof {
                    lemma_each_outcome_prefix_fault(pv, i as int + 1, host_service_outcome_fn());
                }
                return Err(e);
            },
        }
        i += 1;
    }
    proof {
        assert(pv.take(i as int) =~= pv);
    }
    Ok(out)
}

/// Converts each wire probe result, in order; the first refused one decides
/// the error. A zero status code becomes an absent one.
fn service_probes_from_proto(items: &Vec<ProtoServiceProbeReport>) -> (r: Result<
    Vec<HephaestusServiceProbeReport>,
    HephaestusDomainError,
>)
    ensures
        match each_outcome(service_probe_report_views(items@), service_probe_outcome_fn()) {
            Ok(ns) => r is Ok && service_probe_views(r->Ok_0@) == ns && r->Ok_0@.len() == items@.len()
                && forall|m: int| 0 <= m < items@.len() ==> (
                    #[trigger] r->Ok_0@[m].spec_http_status_code() is None <==> items@[m].http_status_code == 0),
            Err(e) => r == Err::<Vec<HephaestusServiceProbeReport>, HephaestusDomainError>(e),
        },
{
    let ghost pv = service_probe_report_views(items@);
    let mut out: Vec<HephaestusServiceProbeReport> = Vec::new();
    let mut i: usize = 0;
    proof {
        assert(pv.take(0) =~= Seq::<ProtoServiceProbeReportView>::empty());
        assert(service_probe_views(out@) =~= Seq::<ProtoServiceProbeReportView>::empty());
    }
    while i < items.len()
        invariant
            i <= items@.len(),
            out@.len() == i,
            pv == service_probe_report_views(items@),
            each_outcome(pv.take(i as int), service_probe_outcome_fn()) == Ok::<
                Seq<ProtoServiceProbeReportView>,
                HephaestusDomainError,
            >(service_probe_views(out@)),
            forall|m: int| 0 <= m < i ==> (
                #[trigger] out@[m].spec_http_status_code() is None <==> items@[m].http_status_code == 0),
        decreases items@.len() - i,
    {
        proof {
            lemma_each_outcome_step(pv, i as int, service_probe_outcome_fn());
            assert(pv[i as int] == items@[i as int]@);
        }
        match service_probe_report_from_proto(&items[i]) {
            Ok(p) => {
                let ghost before = out@;
                out.push(p);
                proof {
                    assert(service_probe_views(out@) =~= service_probe_views(before).push(service_probe_view(p)));
                }
            },
            Err(e) => {
                proof {
                    lemma_each_outcome_prefix_fault(pv, i as int + 1, service_probe_outcome_fn());
                }
                return Err(e);
            },
        }
        i += 1;
    }
    proof {
        assert(pv.take(i as int) =~= pv);
    }
    Ok(out)
}

/// Converts a wire agent report into a validated domain report, as
/// [`agent_report_outcome`] describes; absent optional texts stay absent.
pub fn agent_report_from_proto(value: ProtoAgentReport) -> (r: Result<HephaestusAgentReport, HephaestusDomainError>)
    ensures
        match agent_report_outcome(value@) {
            Ok(n) => r is Ok && {
                let v = r->Ok_0;
                &&& agent_report_view(v) == n
                &&& (v.spec_private_ip() is None <==> value.private_ip@.len() == 0)
                &&& (v.spec_tailscale().spec_hostname() is None <==> n.tailscale->Some_0.hostname.len() == 0)
                &&& (v.spec_tailscale().spec_magic_dns_name() is None <==> n.tailscale->Some_0.magic_dns_name.len() == 0)
                &&& (v.spec_runtime_versions().spec_docker_version() is None
                    <==> n.runtime_versions->Some_0.docker_version.len() == 0)
                &&& (v.spec_runtime_versions().spec_docker_compose_version() is None
                    <==> n.runtime_versions->Some_0.docker_compose_version.len() == 0)
                &&& forall|i: int| 0 <= i < v.spec_service_probes().len() ==> (
                    #[trigger] v.spec_service_probes()[i].spec_http_status_code() is None
                    <==> value.service_probes@[i].http_status_code == 0)
            },
            Err(e) => r == Err::<HephaestusAgentReport, HephaestusDomainError>(e),
        },
{
    let private_ip = match private_ip_from_proto(&value.private_ip) {
        Ok(v) => v,
        Err(e) => return Err(e),
    };
    let resources = match host_resource_report_from_proto(value.resources) {
        Ok(v) => v,
        Err(e) => return Err(e),
    };
    let server_id = match HephaestusServerId::new(value.server_id.as_str()) {
        Ok(v) => v,
        Err(e) => return Err(e),
    };
    let provider_server_id = match HephaestusProviderServerId::new(value.provider_server_id.as_str()) {
        Ok(v) => v,
        Err(e) => return Err(e),
    };
    let containers = match containers_from_proto(&value.containers) {
        Ok(v) => v,
        Err(e) => return Err(e),
    };
    let host_services = match host_services_from_proto(&value.host_services) {
        Ok(v) => v,
        Err(e) => return Err(e),
    };
    let actual_apps = match HephaestusServerApp::from_texts(&value.actual_apps) {
        Ok(v) => v,
        Err(e) => return Err(e),
    };
    proof {
        lemma_each_outcome_len(value@.containers, container_outcome_fn());
        lemma_each_outcome_len(value@.host_services, host_service_outcome_fn());
        lemma_domain_tokens_len(value@.actual_apps, MAX_SERVER_APP_BYTES as nat, CharClass::Identifier);
        assert(container_views(containers@).len() == containers@.len());
        assert(host_service_views(host_services@).len() == host_services@.len());
        assert(app_texts(actual_apps@).len() == actual_apps@.len());
    }
    let observed = match HephaestusObservedServiceSet::new(containers, host_services, actual_apps) {
        Ok(v) => v,
        Err(e) => return Err(e),
    };
    let report = match HephaestusAgentReport::new(
        server_id,
        provider_server_id,
        private_ip,
        value.generated_at_unix_secs,
        resources,
        observed,
    ) {
        Ok(v) => v,
        Err(e) => return Err(e),
    };
    let tailscale = match tailscale_report_from_proto(value.tailscale) {
        Ok(v) => v,
        Err(e) => return Err(e),
    };
    let runtime_versions = match runtime_version_report_from_proto(value.runtime_versions) {
        Ok(v) => v,
        Err(e) => return Err(e),
    };
    let patch_state = match patch_state_report_from_proto(value.patch_state) {
        Ok(v) => v,
        Err(e) => return Err(e),
    };
    let observability = observability_report_from_proto(value.observability);
    let probes = match service_probes_from_proto(&value.service_probes) {
        Ok(v) => v,
        Err(e) => return Err(e),
    };
    proof {
        lemma_each_outcome_len(value@.service_probes, service_probe_outcome_fn());
    }
    report.with_host_health_details(tailscale, runtime_versions, patch_state, observability, probes)
}

/// A container snapshot that is accepted is accepted again, unchanged.
pub proof fn lemma_container_outcome_idempotent(p: ProtoContainerReportView)
    requires
        container_outcome(p) is Ok,
    ensures
        container_outcome(container_outcome(p)->Ok_0) == container_outcome(p),
{
    lemma_vultr_token_idempotent(p.container_name, MAX_DOCKER_CONTAINER_NAME_BYTES as nat, CharClass::DnsName);
    lemma_vultr_token_idempotent(p.image, MAX_DOCKER_IMAGE_REFERENCE_BYTES as nat, CharClass::DockerImage);
    lemma_domain_tokens_idempotent(p.recent_log_lines, MAX_LOG_LINE_BYTES as nat, CharClass::LogLine);
    lemma_domain_tokens_len(p.recent_log_lines, MAX_LOG_LINE_BYTES as nat, CharClass::LogLine);
}

/// A host service snapshot that is accepted is accepted again, unchanged.
pub proof fn lemma_host_service_outcome_idempotent(p: ProtoHostServiceReportView)
    requires
        host_service_outcome(p) is Ok,
    ensures
        host_service_outcome(host_service_outcome(p)->Ok_0) == host_service_outcome(p),
{
    lemma_domain_token_idempotent(p.unit_name, MAX_HOST_SERVICE_UNIT_NAME_BYTES as nat, CharClass::UnitName);
    lemma_domain_tokens_idempotent(p.recent_log_lines, MAX_LOG_LINE_BYTES as nat, CharClass::LogLine);
    lemma_domain_tokens_len(p.recent_log_lines, MAX_LOG_LINE_BYTES as nat, CharClass::LogLine);
}

/// Converting an agent report from the wire is stable: the wire content of
/// an accepted message, in which every sub-report is present, converts
/// again to that same content. With the contracts of
/// [`agent_report_from_proto`] and [`proto_agent_report_from_domain`], a
/// report read from the wire and written back reads back as the same
/// report.
pub proof fn lemma_agent_report_outcome_idempotent(p: ProtoAgentReportView)
    requires
        agent_report_outcome(p) is Ok,
    ensures
        agent_report_outcome(agent_report_outcome(p)->Ok_0) == agent_report_outcome(p),
{
    let n = agent_report_outcome(p)->Ok_0;
    lemma_domain_token_idempotent(p.server_id, MAX_SERVER_ID_BYTES as nat, CharClass::Identifier);
    lemma_domain_token_idempotent(p.provider_server_id, MAX_PROVIDER_SERVER_ID_BYTES as nat, CharClass::Identifier);
    assert forall|x: ProtoContainerReportView| #[trigger] container_outcome_fn()(x) is Ok implies container_outcome_fn()(
        container_outcome_fn()(x)->Ok_0,
    ) == container_outcome_fn()(x) by {
        lemma_container_outcome_idempotent(x);
    }
    assert forall|x: ProtoHostServiceReportView| #[trigger] host_service_outcome_fn()(x) is Ok implies host_service_outcome_fn()(
        host_service_outcome_fn()(x)->Ok_0,
    ) == host_service_outcome_fn()(x) by {
        lemma_host_service_outcome_idempotent(x);
    }
    assert forall|x: ProtoServiceProbeReportView| #[trigger] service_probe_outcome_fn()(x) is Ok implies service_probe_outcome_fn()(
        service_probe_outcome_fn()(x)->Ok_0,
    ) == service_probe_outcome_fn()(x) by {
    }
    lemma_each_outcome_idempotent(p.containers, container_outcome_fn());
    lemma_each_outcome_idempotent(p.host_services, host_service_outcome_fn());
    lemma_each_outcome_idempotent(p.service_probes, service_probe_outcome_fn());
    lemma_each_outcome_len(p.containers, container_outcome_fn());
    lemma_each_outcome_len(p.host_services, host_service_outcome_fn());
    lemma_each_outcome_len(p.service_probes, service_probe_outcome_fn());
    lemma_domain_tokens_idempotent(p.actual_apps, MAX_SERVER_APP_BYTES as nat, CharClass::Identifier);
    lemma_domain_tokens_len(p.actual_apps, MAX_SERVER_APP_BYTES as nat, CharClass::Identifier);
    assert(tailscale_outcome(n.tailscale) == Ok::<ProtoTailscaleReportView, HephaestusDomainError>(n.tailscale->Some_0));
    assert(runtime_versions_outcome(n.runtime_versions) == Ok::<ProtoRuntimeVersionReportView, HephaestusDomainError>(
        n.runtime_versions->Some_0,
    ));
}

/// Reading a wire container state gives the domain value of the same name, and
/// writing a domain value gives the wire value of its name; only
/// `Unspecified` is refused.
pub proof fn lemma_container_state_names(p: ProtoContainerState, d: HephaestusContainerState)
    ensures
        container_state_outcome(p) is Err <==> p == ProtoContainerState::Unspecified,
        container_state_outcome(p) == Ok::<HephaestusContainerState, HephaestusDomainError>(d) ==> crate::text::ascii_lowercase(crate::contract::wire::proto_container_state_name(p)) == "hephaestus_container_state_"@ + crate::hephaestus::report::container_state_name(d),
        crate::text::ascii_lowercase(crate::contract::wire::proto_container_state_name(proto_container_state(d))) == "hephaestus_container_state_"@ + crate::hephaestus::report::container_state_name(d),
{
    reveal_strlit("hephaestus_container_state_");
    reveal_strlit("HEPHAESTUS_CONTAINER_STATE_UNSPECIFIED");
    reveal_strlit("HEPHAESTUS_CONTAINER_STATE_CREATED");
    reveal_strlit("HEPHAESTUS_CONTAINER_STATE_RUNNING");
    reveal_strlit("HEPHAESTUS_CONTAINER_STATE_RESTARTING");
    reveal_strlit("HEPHAESTUS_CONTAINER_STATE_REMOVING");
    reveal_strlit("HEPHAESTUS_CONTAINER_STATE_PAUSED");
    reveal_strlit("HEPHAESTUS_CONTAINER_STATE_EXITED");
    reveal_strlit("HEPHAESTUS_CONTAINER_STATE_DEAD");
    reveal_strlit("HEPHAESTUS_CONTAINER_STATE_UNKNOWN");
    reveal_strlit("created");
    reveal_strlit("running");
    reveal_strlit("restarting");
    reveal_strlit("removing");
    reveal_strlit("paused");
    reveal_strlit("exited");
    reveal_strlit("dead");
    reveal_strlit("unknown");
}

/// Reading a wire container health gives the domain value of the same name, and
/// writing a domain value gives the wire value of its name; only
/// `Unspecified` is refused.
pub proof fn lemma_container_health_state_names(p: ProtoContainerHealthState, d: HephaestusContainerHealthState)
    ensures
        container_health_outcome(p) is Err <==> p == ProtoContainerHealthState::Unspecified,
        container_health_outcome(p) == Ok::<HephaestusContainerHealthState, HephaestusDomainError>(d) ==> crate::text::ascii_lowercase(crate::contract::wire::proto_container_health_state_name(p)) == "hephaestus_container_health_state_"@ + crate::hephaestus::report::container_health_name(d),
        crate::text::ascii_lowercase(crate::contract::wire::proto_container_health_state_name(proto_container_health(d))) == "hephaestus_container_health_state_"@ + crate::hephaestus::report::container_health_name(d),
{
    reveal_strlit("hephaestus_container_health_state_");
    reveal_strlit("HEPHAESTUS_CONTAINER_HEALTH_STATE_UNSPECIFIED");
    reveal_strlit("HEPHAESTUS_CONTAINER_HEALTH_STATE_HEALTHY");
    reveal_strlit("HEPHAESTUS_CONTAINER_HEALTH_STATE_UNHEALTHY");
    reveal_strlit("HEPHAESTUS_CONTAINER_HEALTH_STATE_STARTING");
    reveal_strlit("HEPHAESTUS_CONTAINER_HEALTH_STATE_NONE");
    reveal_strlit("HEPHAESTUS_CONTAINER_HEALTH_STATE_UNKNOWN");
    reveal_strlit("healthy");
    reveal_strlit("unhealthy");
    reveal_strlit("starting");
    reveal_strlit("none");
    reveal_strlit("unknown");
}

/// Reading a wire restart reason gives the domain value of the same name, and
/// writing a domain value gives the wire value of its name; only
/// `Unspecified` is refused.
pub proof fn lemma_container_restart_reason_names(p: ProtoContainerRestartReason, d: HephaestusContainerRestartReason)
    ensures
        restart_reason_outcome(p) is Err <==> p == ProtoContainerRestartReason::Unspecified,
        restart_reason_outcome(p) == Ok::<HephaestusContainerRestartReason, HephaestusDomainError>(d) ==> crate::text::ascii_lowercase(crate::contract::wire::proto_container_restart_reason_name(p)) == "hephaestus_container_restart_reason_"@ + crate::hephaestus::report::restart_reason_name(d),
        crate::text::ascii_lowercase(crate::contract::wire::proto_container_restart_reason_name(proto_restart_reason(d))) == "hephaestus_container_restart_reason_"@ + crate::hephaestus::report::restart_reason_name(d),
{
    reveal_strlit("hephaestus_container_restart_reason_");
    reveal_strlit("HEPHAESTUS_CONTAINER_RESTART_REASON_UNSPECIFIED");
    reveal_strlit("HEPHAESTUS_CONTAINER_RESTART_REASON_NONE");
    reveal_strlit("HEPHAESTUS_CONTAINER_RESTART_REASON_UNHEALTHY");
    reveal_strlit("HEPHAESTUS_CONTAINER_RESTART_REASON_RESTARTING");
    reveal_strlit("HEPHAESTUS_CONTAINER_RESTART_REASON_EXITED");
    reveal_strlit("HEPHAESTUS_CONTAINER_RESTART_REASON_DEAD");
    reveal_strlit("HEPHAESTUS_CONTAINER_RESTART_REASON_UNKNOWN");
    reveal_strlit("none");
    reveal_strlit("unhealthy");
    reveal_strlit("restarting");
    reveal_strlit("exited");
    reveal_strlit("dead");
    reveal_strlit("unknown");
}

/// Reading a wire host service state gives the domain value of the same name, and
/// writing a domain value gives the wire value of its name; only
/// `Unspecified` is refused.
pub proof fn lemma_host_service_state_names(p: ProtoHostServiceState, d: HephaestusHostServiceState)
    ensures
        host_service_state_outcome(p) is Err <==> p == ProtoHostServiceState::Unspecified,
        host_service_state_outcome(p) == Ok::<HephaestusHostServiceState, HephaestusDomainError>(d) ==> crate::text::ascii_lowercase(crate::contract::wire::proto_host_service_state_name(p)) == "hephaestus_host_service_state_"@ + crate::hephaestus::report::host_service_state_name(d),
        crate::text::ascii_lowercase(crate::contract::wire::proto_host_service_state_name(proto_host_service_state(d))) == "hephaestus_host_service_state_"@ + crate::hephaestus::report::host_service_state_name(d),
{
    reveal_strlit("hephaestus_host_service_state_");
    reveal_strlit("HEPHAESTUS_HOST_SERVICE_STATE_UNSPECIFIED");
    reveal_strlit("HEPHAESTUS_HOST_SERVICE_STATE_ACTIVE");
    reveal_strlit("HEPHAESTUS_HOST_SERVICE_STATE_RELOADING");
    reveal_strlit("HEPHAESTUS_HOST_SERVICE_STATE_INACTIVE");
    reveal_strlit("HEPHAESTUS_HOST_SERVICE_STATE_FAILED");
    reveal_strlit("HEPHAESTUS_HOST_SERVICE_STATE_ACTIVATING");
    reveal_strlit("HEPHAESTUS_HOST_SERVICE_STATE_DEACTIVATING");
    reveal_strlit("HEPHAESTUS_HOST_SERVICE_STATE_UNKNOWN");
    reveal_strlit("active");
    reveal_strlit("reloading");
    reveal_strlit("inactive");
    reveal_strlit("failed");
    reveal_strlit("activating");
    reveal_strlit("deactivating");
    reveal_strlit("unknown");
}

/// Reading a wire unattended-upgrades state gives the domain value of the same name, and
/// writing a domain value gives the wire value of its name; only
/// `Unspecified` is refused.
pub proof fn lemma_unattended_upgrades_state_names(p: ProtoUnattendedUpgradesState, d: HephaestusUnattendedUpgradesState)
    ensures
        unattended_upgrades_outcome(p) is Err <==> p == ProtoUnattendedUpgradesState::Unspecified,
        unattended_upgrades_outcome(p) == Ok::<HephaestusUnattendedUpgradesState, HephaestusDomainError>(d) ==> crate::text::ascii_lowercase(crate::contract::wire::proto_unattended_upgrades_state_name(p)) == "hephaestus_unattended_upgrades_state_"@ + crate::hephaestus::report::unattended_upgrades_name(d),
        crate::text::ascii_lowercase(crate::contract::wire::proto_unattended_upgrades_state_name(proto_unattended_upgrades(d))) == "hephaestus_unattended_upgrades_state_"@ + crate::hephaestus::report::unattended_upgrades_name(d),
{
    reveal_strlit("hephaestus_unattended_upgrades_state_");
    reveal_strlit("HEPHAESTUS_UNATTENDED_UPGRADES_STATE_UNSPECIFIED");
    reveal_strlit("HEPHAESTUS_UNATTENDED_UPGRADES_STATE_ACTIVE");
    reveal_strlit("HEPHAESTUS_UNATTENDED_UPGRADES_STATE_INACTIVE");
    reveal_strlit("HEPHAESTUS_UNATTENDED_UPGRADES_STATE_FAILED");
    reveal_strlit("HEPHAESTUS_UNATTENDED_UPGRADES_STATE_NOT_INSTALLED");
    reveal_strlit("HEPHAESTUS_UNATTENDED_UPGRADES_STATE_UNKNOWN");
    reveal_strlit("active");
    reveal_strlit("inactive");
    reveal_strlit("failed");
    reveal_strlit("not_installed");
    reveal_strlit("unknown");
}

/// Reading a wire probe kind gives the domain value of the same name, and
/// writing a domain value gives the wire value of its name; only
/// `Unspecified` is refused.
pub proof fn lemma_service_probe_kind_names(p: ProtoServiceProbeKind, d: HephaestusServiceProbeKind)
    ensures
        probe_kind_outcome(p) is Err <==> p == ProtoServiceProbeKind::Unspecified,
        probe_kind_outcome(p) == Ok::<HephaestusServiceProbeKind, HephaestusDomainError>(d) ==> crate::text::ascii_lowercase(crate::contract::wire::proto_service_probe_kind_name(p)) == "hephaestus_service_probe_kind_"@ + crate::hephaestus::report::probe_kind_name(d),
        crate::text::ascii_lowercase(crate::contract::wire::proto_service_probe_kind_name(proto_probe_kind(d))) == "hephaestus_service_probe_kind_"@ + crate::hephaestus::report::probe_kind_name(d),
{
    reveal_strlit("hephaestus_service_probe_kind_");
    reveal_strlit("HEPHAESTUS_SERVICE_PROBE_KIND_UNSPECIFIED");
    reveal_strlit("HEPHAESTUS_SERVICE_PROBE_KIND_HTTP");
    reveal_strlit("HEPHAESTUS_SERVICE_PROBE_KIND_TCP");
    reveal_strlit("http");
    reveal_strlit("tcp");
}

/// Reading a wire probe status gives the domain value of the same name, and
/// writing a domain value gives the wire value of its name; only
/// `Unspecified` is refused.
pub proof fn lemma_service_probe_status_names(p: ProtoServiceProbeStatus, d: HephaestusServiceProbeStatus)
    ensures
        probe_status_outcome(p) is Err <==> p == ProtoServiceProbeStatus::Unspecified,
        probe_status_outcome(p) == Ok::<HephaestusServiceProbeStatus, HephaestusDomainError>(d) ==> crate::text::ascii_lowercase(crate::contract::wire::proto_service_probe_status_name(p)) == "hephaestus_service_probe_status_"@ + crate::hephaestus::report::probe_status_name(d),
        crate::text::ascii_lowercase(crate::contract::wire::proto_service_probe_status_name(proto_probe_status(d))) == "hephaestus_service_probe_status_"@ + crate::hephaestus::report::probe_status_name(d),
{
    reveal_strlit("hephaestus_service_probe_status_");
    reveal_strlit("HEPHAESTUS_SERVICE_PROBE_STATUS_UNSPECIFIED");
    reveal_strlit("HEPHAESTUS_SERVICE_PROBE_STATUS_OK");
    reveal_strlit("HEPHAESTUS_SERVICE_PROBE_STATUS_FAILED");
    reveal_strlit("HEPHAESTUS_SERVICE_PROBE_STATUS_SKIPPED");
    reveal_strlit("ok");
    reveal_strlit("failed");
    reveal_strlit("skipped");
}

} // verus!
