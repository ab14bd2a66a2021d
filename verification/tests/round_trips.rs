use hephaestus::contract::domain_conversion::{
    agent_boot_report_from_proto, node_actual_state_from_proto, proto_agent_boot_report_from_domain,
    proto_node_actual_state_from_domain,
};
use hephaestus::contract::report_conversion::{agent_report_from_proto, proto_agent_report_from_domain};
use hephaestus::contract::vultr_conversion::{
    proto_vultr_instance_template_from_domain, vultr_instance_template_from_proto,
};
use hephaestus::hephaestus::node::{
    HephaestusAgentBootReport, HephaestusAgentPublicKey, HephaestusAgentPublicKeyFingerprint,
    HephaestusClusterId, HephaestusInfrastructureClassId, HephaestusNodeActualState,
    HephaestusNodeActualStateStatus, HephaestusPrivateIpAddress, HephaestusProviderServerId,
    HephaestusPublicIpAddress, HephaestusServerApp, HephaestusServerBootTiming,
    HephaestusServerCatalog, HephaestusServerId, HephaestusServerIdentity, HephaestusServerNetwork,
    HephaestusServerRole, HephaestusServerService,
};
use hephaestus::hephaestus::region::HephaestusSiteId;
use hephaestus::hephaestus::report::{
    HephaestusAgentReport, HephaestusAgentReportLine, HephaestusContainerHealthState,
    HephaestusContainerReport, HephaestusContainerRestartReason, HephaestusContainerState,
    HephaestusHostResourceReport, HephaestusHostServiceReport, HephaestusHostServiceState,
    HephaestusHostServiceUnitName, HephaestusObservabilityReport, HephaestusObservedServiceSet,
    HephaestusPatchStateReport, HephaestusRuntimeVersionReport, HephaestusServiceProbeKind,
    HephaestusServiceProbeReport, HephaestusServiceProbeStatus, HephaestusTailscaleReport,
    HephaestusUnattendedUpgradesState,
};
use hephaestus::vultr::bootstrap::{DockerContainerName, DockerImageReference};
use hephaestus::vultr::types::{
    VultrCloudInitUserData, VultrInstanceTemplate, VultrInstanceTemplateId, VultrLabel,
    VultrMarketplaceAppId, VultrOperatingSystemId, VultrPlanId, VultrSnapshotId, VultrSshKeyId,
    VultrVfsId, VultrVpcId,
};

fn identity() -> HephaestusServerIdentity {
    HephaestusServerIdentity::new(
        HephaestusServerId::new("srv-lhr-01").expect("server"),
        HephaestusProviderServerId::new("provider-1").expect("provider"),
        HephaestusSiteId::new("lhr").expect("site"),
    )
}

#[test]
fn boot_report_comes_back_from_its_wire_form() {
    let report = HephaestusAgentBootReport::new(
        identity(),
        HephaestusServerNetwork::new(
            Some(HephaestusPublicIpAddress::new("203.0.113.9").expect("public")),
            None,
        ),
        HephaestusServerBootTiming::new(100, 200).expect("timing"),
    )
    .expect("report");
    let back = agent_boot_report_from_proto(proto_agent_boot_report_from_domain(&report));
    assert_eq!(back, Ok(report));
}

#[test]
fn node_actual_state_comes_back_from_its_wire_form_without_agent_key() {
    let catalog = HephaestusServerCatalog::new(
        Some(HephaestusClusterId::new("pool-a").expect("cluster")),
        HephaestusServerRole::Db,
        vec![HephaestusServerApp::new("reallyme-api").expect("app")],
        vec![HephaestusServerService::new("postgres").expect("service")],
    )
    .expect("catalog");
    let state = HephaestusNodeActualState::new(
        identity(),
        HephaestusServerNetwork::new(
            None,
            Some(HephaestusPrivateIpAddress::new("10.0.0.7").expect("private")),
        ),
        catalog,
        HephaestusInfrastructureClassId::new("small").expect("class"),
        5,
        9,
        HephaestusNodeActualStateStatus::Ready,
    )
    .expect("state");
    let back = node_actual_state_from_proto(proto_node_actual_state_from_domain(&state));
    assert_eq!(back.as_ref(), Ok(&state));
    let fingerprint = "a".repeat(64);
    let keyed = state.with_agent_public_identity(
        HephaestusAgentPublicKey::new("MDAwMDAwMDAwMDAwMDAwMDAwMDAwMDAwMDAwMDAwMDA").expect("key"),
        HephaestusAgentPublicKeyFingerprint::new(fingerprint.as_str()).expect("fingerprint"),
    );
    let back = node_actual_state_from_proto(proto_node_actual_state_from_domain(&keyed)).expect("state");
    assert!(back.agent_public_key().is_none());
    assert!(back.agent_public_key_fingerprint().is_none());
    assert_eq!(back, state_without_key());
}

fn state_without_key() -> HephaestusNodeActualState {
    HephaestusNodeActualState::new(
        identity(),
        HephaestusServerNetwork::new(
            None,
            Some(HephaestusPrivateIpAddress::new("10.0.0.7").expect("private")),
        ),
        HephaestusServerCatalog::new(
            Some(HephaestusClusterId::new("pool-a").expect("cluster")),
            HephaestusServerRole::Db,
            vec![HephaestusServerApp::new("reallyme-api").expect("app")],
            vec![HephaestusServerService::new("postgres").expect("service")],
        )
        .expect("catalog"),
        HephaestusInfrastructureClassId::new("small").expect("class"),
        5,
        9,
        HephaestusNodeActualStateStatus::Ready,
    )
    .expect("state")
}

fn template(user_data: Option<VultrCloudInitUserData>) -> VultrInstanceTemplate {
    VultrInstanceTemplate::new(
        VultrInstanceTemplateId::new("tpl-1").expect("id"),
        VultrPlanId::new("vc2-1c-1gb").expect("plan"),
        Some(VultrLabel::new("edge node").expect("label")),
        Some(VultrOperatingSystemId::new(2284).expect("os")),
        None,
        Some(VultrSnapshotId::new("snap-1").expect("snapshot")),
        Some(VultrMarketplaceAppId::new(7).expect("app")),
        None,
        None,
        vec![VultrSshKeyId::new("key-a").expect("key"), VultrSshKeyId::new("key-b").expect("key")],
        vec![VultrVpcId::new("vpc-1").expect("vpc")],
        vec![VultrVfsId::new("vfs-1").expect("vfs")],
        user_data,
    )
}

#[test]
fn instance_template_comes_back_from_its_wire_form() {
    let original = template(Some(VultrCloudInitUserData::new("#cloud-config\n").expect("user data")));
    let back = vultr_instance_template_from_proto(proto_vultr_instance_template_from_domain(&original))
        .expect("template");
    assert!(back == original);
    let bare = template(None);
    let back = vultr_instance_template_from_proto(proto_vultr_instance_template_from_domain(&bare))
        .expect("template");
    assert!(back == bare);
    assert!(back.user_data().is_none());
    assert!(back.iso_id().is_none());
    assert!(back.marketplace_image_id().is_none());
}

fn agent_report(http_status_code: Option<u16>) -> HephaestusAgentReport {
    let container = HephaestusContainerReport::new(
        DockerContainerName::new("app").expect("name"),
        DockerImageReference::new("ghcr.io/reallyme/app:latest").expect("image"),
        HephaestusContainerState::Running,
        HephaestusContainerHealthState::Healthy,
        vec![HephaestusAgentReportLine::new("service ready").expect("line")],
        true,
        HephaestusContainerRestartReason::Unhealthy,
    )
    .expect("container");
    let host_service = HephaestusHostServiceReport::new(
        HephaestusHostServiceUnitName::new("tailscaled.service").expect("unit"),
        HephaestusHostServiceState::Active,
        vec![HephaestusAgentReportLine::new("up").expect("line")],
    )
    .expect("host service");
    let observed = HephaestusObservedServiceSet::new(
        vec![container],
        vec![host_service],
        vec![HephaestusServerApp::new("reallyme-api").expect("app")],
    )
    .expect("observed");
    let probe = HephaestusServiceProbeReport::new(
        "api-health".to_string(),
        "api".to_string(),
        HephaestusServiceProbeKind::Http,
        "http://127.0.0.1:8080/health".to_string(),
        HephaestusServiceProbeStatus::Passed,
        http_status_code,
    )
    .expect("probe");
    HephaestusAgentReport::new(
        HephaestusServerId::new("srv-lhr-01").expect("server"),
        HephaestusProviderServerId::new("provider-1").expect("provider"),
        Some(HephaestusPrivateIpAddress::new("10.1.1.12").expect("private")),
        1_715_726_400,
        HephaestusHostResourceReport::new(2500, 1024, 512, 2048, 1024).expect("resources"),
        observed,
    )
    .expect("report")
    .with_host_health_details(
        HephaestusTailscaleReport::new(
            Some("srv-lhr-01".to_string()),
            None,
            vec!["100.64.0.1".to_string()],
            vec!["tag:server".to_string()],
            vec![],
        )
        .expect("tailscale"),
        HephaestusRuntimeVersionReport::new(Some("27.1.1".to_string()), None).expect("versions"),
        HephaestusPatchStateReport::new(true, HephaestusUnattendedUpgradesState::Active),
        HephaestusObservabilityReport::empty(),
        vec![probe],
    )
    .expect("details")
}

#[test]
fn agent_report_comes_back_from_its_wire_form() {
    let report = agent_report(Some(200));
    let back = agent_report_from_proto(proto_agent_report_from_domain(&report));
    assert_eq!(back, Ok(report));
    let unset = agent_report(None);
    let back = agent_report_from_proto(proto_agent_report_from_domain(&unset));
    assert_eq!(back, Ok(unset));
}

#[test]
fn agent_report_zero_probe_code_comes_back_absent() {
    let report = agent_report(Some(0));
    let back = agent_report_from_proto(proto_agent_report_from_domain(&report)).expect("report");
    assert_eq!(back.service_probes()[0].http_status_code(), None);
    assert_eq!(back, agent_report(None));
}
