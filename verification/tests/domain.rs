use hephaestus::hephaestus::agent::{agent_capability_catalog, HephaestusAgentRolloutPhase};
use hephaestus::hephaestus::dns::{
    HephaestusDnsDesiredState, HephaestusDnsRecord, HephaestusDnsRecordKind,
    HephaestusDnsRecordName, HephaestusDnsRecordTarget, HephaestusDnsRecordVisibility,
};
use hephaestus::hephaestus::health::{
    server_kit_log_event_catalog, HephaestusHealthUrl, HephaestusServerPort,
};
use hephaestus::hephaestus::node::{
    HephaestusAgentBootReport, HephaestusAgentBootSecret, HephaestusClusterId,
    HephaestusControllerBaseUrl, HephaestusInfrastructureClassId, HephaestusNodeActualState,
    HephaestusNodeActualStateStatus, HephaestusOrchestratorNodeState, HephaestusPrivateIpAddress,
    HephaestusProviderServerId, HephaestusServerApp, HephaestusServerBootTiming,
    HephaestusServerCatalog, HephaestusServerId, HephaestusServerIdentity,
    HephaestusServerNetwork, HephaestusServerRole, HephaestusServerService,
};
use hephaestus::hephaestus::region::{HephaestusRegionDefinition, HephaestusRegionId, HephaestusSiteId};
use hephaestus::hephaestus::report::{
    HephaestusAgentReport, HephaestusAgentReportLine, HephaestusContainerHealthState,
    HephaestusContainerReport, HephaestusContainerRestartReason, HephaestusContainerState,
    HephaestusHostResourceReport, HephaestusHostServiceReport, HephaestusHostServiceState,
    HephaestusHostServiceUnitName, HephaestusObservedServiceSet,
};
use hephaestus::vultr::bootstrap::{DockerContainerName, DockerImageReference};

#[test]
fn every_agent_capability_is_after_core_control_plane() {
    assert!(agent_capability_catalog()
        .capabilities
        .iter()
        .all(|capability| capability.phase == HephaestusAgentRolloutPhase::AfterCoreControlPlane));
}

#[test]
fn dns_name_normalizes_to_lowercase_without_trailing_dot() {
    let name = HephaestusDnsRecordName::new("Service.Example.COM.").expect("valid dns name fixture");

    assert_eq!(name.as_str(), "service.example.com");
}

#[test]
fn dns_desired_state_models_public_and_internal_records() {
    let public = HephaestusDnsRecord::new(
        HephaestusDnsRecordName::new("service.example.com").expect("valid public name"),
        HephaestusDnsRecordKind::A,
        HephaestusDnsRecordTarget::new("203.0.113.10").expect("valid public ip"),
        HephaestusDnsRecordVisibility::Public,
    );
    let internal = HephaestusDnsRecord::new(
        HephaestusDnsRecordName::new("service.internal").expect("valid internal name"),
        HephaestusDnsRecordKind::A,
        HephaestusDnsRecordTarget::new("10.1.1.10").expect("valid private ip"),
        HephaestusDnsRecordVisibility::Internal,
    );

    let state = HephaestusDnsDesiredState::new(vec![public, internal]).expect("valid desired state");

    assert_eq!(state.records().len(), 2);
}

#[test]
fn health_url_requires_http_scheme() {
    assert!(HephaestusHealthUrl::new("ftp://example.test/healthz").is_err());
    assert!(HephaestusHealthUrl::new("http://example.test/healthz").is_ok());
}

#[test]
fn server_port_rejects_zero() {
    assert!(HephaestusServerPort::new(0).is_err());
    assert!(HephaestusServerPort::new(8721).is_ok());
}

#[test]
fn server_kit_log_catalog_includes_ready_event() {
    assert!(server_kit_log_event_catalog()
        .events
        .iter()
        .any(|event| event.message == "server process ready"));
}

#[test]
fn controller_base_url_rejects_paths() {
    assert!(HephaestusControllerBaseUrl::new("https://hephaestus.reallyme.net/path").is_err());
    assert!(HephaestusControllerBaseUrl::new("https://hephaestus.reallyme.net").is_ok());
}

#[test]
fn boot_report_builds_node_actual_state() {
    let report = HephaestusAgentBootReport::new(
        HephaestusServerIdentity::new(
            HephaestusServerId::new("srv-lhr-01").expect("valid server"),
            HephaestusProviderServerId::new("provider-server-1").expect("valid provider server"),
            HephaestusSiteId::new("lhr").expect("valid site"),
        ),
        HephaestusServerNetwork::new(
            None,
            Some(HephaestusPrivateIpAddress::new("10.1.100.10").expect("valid private ip")),
        ),
        HephaestusServerBootTiming::new(10, 20).expect("valid timing"),
    )
    .expect("valid report");
    let catalog = HephaestusServerCatalog::new(
        Some(HephaestusClusterId::new("POOL-API").expect("valid group")),
        HephaestusServerRole::Api,
        vec![HephaestusServerApp::new("api").expect("valid app")],
        vec![HephaestusServerService::new("api/http").expect("valid service")],
    )
    .expect("valid catalog");
    let orchestrator_state = HephaestusOrchestratorNodeState::new(
        HephaestusServerIdentity::new(
            HephaestusServerId::new("srv-lhr-01").expect("valid server"),
            HephaestusProviderServerId::new("provider-server-1").expect("valid provider server"),
            HephaestusSiteId::new("lhr").expect("valid site"),
        ),
        catalog,
        HephaestusInfrastructureClassId::new("standard-small").expect("valid infrastructure class"),
        Some(HephaestusPrivateIpAddress::new("10.1.100.10").expect("valid private ip")),
        HephaestusAgentBootSecret::new("secret-token").expect("valid secret"),
    );

    let state = HephaestusNodeActualState::from_boot_report(
        &report,
        &orchestrator_state,
        HephaestusNodeActualStateStatus::Ready,
    )
    .expect("valid actual state");

    assert_eq!(state.last_seen_unix_secs(), 20);
    assert_eq!(state.status(), HephaestusNodeActualStateStatus::Ready);
    assert_eq!(state.server_id().as_str(), "srv-lhr-01");
}

#[test]
fn region_definition_rejects_duplicate_sites() {
    let result = HephaestusRegionDefinition::new(
        HephaestusRegionId::new("EU").expect("valid region"),
        vec![
            HephaestusSiteId::new("ams").expect("valid site"),
            HephaestusSiteId::new("ams").expect("valid site"),
        ],
    );

    assert!(result.is_err());
}

#[test]
fn region_definition_tracks_site_membership() {
    let region = HephaestusRegionDefinition::new(
        HephaestusRegionId::new("EU").expect("valid region"),
        vec![
            HephaestusSiteId::new("ams").expect("valid site"),
            HephaestusSiteId::new("cdg").expect("valid site"),
        ],
    )
    .expect("valid region definition");

    assert!(region.contains_site_id(&HephaestusSiteId::new("ams").expect("valid site")));
    assert!(!region.contains_site_id(&HephaestusSiteId::new("ewr").expect("valid site")));
}

#[test]
fn host_resource_report_rejects_invalid_usage_bounds() {
    assert!(HephaestusHostResourceReport::new(10_001, 10, 9, 10, 9).is_err());
    assert!(HephaestusHostResourceReport::new(500, 10, 11, 10, 9).is_err());
}

#[test]
fn agent_report_accepts_bounded_container_snapshot() {
    let container = HephaestusContainerReport::new(
        DockerContainerName::new("app").expect("valid name"),
        DockerImageReference::new("ghcr.io/reallyme/app:latest").expect("valid image"),
        HephaestusContainerState::Running,
        HephaestusContainerHealthState::Healthy,
        vec![HephaestusAgentReportLine::new("service ready").expect("valid log line")],
        false,
        HephaestusContainerRestartReason::NotRequired,
    )
    .expect("valid container report");
    let resources = HephaestusHostResourceReport::new(2500, 1024, 512, 2048, 1024).expect("valid usage");
    let host_service = HephaestusHostServiceReport::new(
        HephaestusHostServiceUnitName::new("foundationdb.service").expect("valid unit"),
        HephaestusHostServiceState::Active,
        vec![HephaestusAgentReportLine::new("cluster available").expect("valid log line")],
    )
    .expect("valid host service report");

    let report = HephaestusAgentReport::new(
        HephaestusServerId::new("srv-lhr-01").expect("valid server id"),
        HephaestusProviderServerId::new("provider-server-01").expect("valid provider server id"),
        Some(HephaestusPrivateIpAddress::new("10.1.1.12").expect("valid private ip")),
        1_715_726_400,
        resources,
        HephaestusObservedServiceSet::new(
            vec![container],
            vec![host_service],
            vec![HephaestusServerApp::new("reallyme-api").expect("valid app")],
        )
        .expect("valid observed service set"),
    );

    assert!(report.is_ok());
}

#[test]
fn boot_secret_debug_is_redacted() {
    let secret = HephaestusAgentBootSecret::new("secret-token").expect("valid secret");
    let debug = secret.debug_text();
    assert!(debug.contains("<redacted>"));
    assert!(!debug.contains("secret-token"));
}
