use hephaestus::contract::domain_conversion::{proto_region_definition_from_domain, region_definition_from_proto};
use hephaestus::contract::wire::ProtoRegionDefinition;
use hephaestus::contract::domain_conversion::{agent_boot_report_from_proto, proto_agent_boot_report_from_domain};
use hephaestus::contract::wire::ProtoAgentBootReport;
use hephaestus::contract::domain_conversion::{dns_desired_state_from_proto, proto_dns_desired_state_from_domain};
use hephaestus::contract::wire::{ProtoDnsDesiredState, ProtoDnsRecord, ProtoDnsRecordKind, ProtoDnsRecordVisibility};
use hephaestus::contract::vultr_conversion::{
        proto_vultr_container_artifact_from_domain, proto_vultr_container_registry_from_domain,
        proto_vultr_container_repository_from_domain, proto_vultr_instance_from_domain,
        proto_vultr_plan_from_domain, proto_vultr_region_from_domain, proto_vultr_vpc_from_domain,
        vultr_container_artifact_from_proto, vultr_container_registry_from_proto,
        vultr_container_repository_from_proto, vultr_instance_from_proto, vultr_plan_from_proto,
        vultr_region_from_proto, vultr_vpc_from_proto,
    };
use hephaestus::contract::wire::{
        ProtoVultrContainerArtifact, ProtoVultrContainerRegistry, ProtoVultrContainerRepository,
        ProtoVultrInstance, ProtoVultrInstanceStatus, ProtoVultrPlan, ProtoVultrPlanType,
        ProtoVultrRegion, ProtoVultrVpc,
    };
use hephaestus::contract::domain_conversion::{
    node_actual_state_from_proto, proto_node_actual_state_from_domain,
    proto_server_inventory_row_from_domain,
};
use hephaestus::contract::report_conversion::{agent_report_from_proto, proto_agent_report_from_domain};
use hephaestus::contract::vultr_conversion::{
    proto_vultr_instance_template_from_domain, vultr_instance_template_from_proto,
};
use hephaestus::contract::wire::{
    ProtoAgentReport, ProtoContainerHealthState, ProtoContainerReport, ProtoContainerRestartReason,
    ProtoContainerState, ProtoHostResourceReport, ProtoNodeActualState,
    ProtoNodeActualStateStatus, ProtoServerEnvironmentTag, ProtoServerRole,
    ProtoServiceProbeKind, ProtoServiceProbeReport, ProtoServiceProbeStatus, ProtoTailscaleReport,
    ProtoVultrInstanceTemplate,
};
use hephaestus::hephaestus::dns::HephaestusDnsRecordTarget;
use hephaestus::hephaestus::health::HephaestusDomainError;
use hephaestus::hephaestus::inventory::HephaestusServerInventoryRow;
use hephaestus::hephaestus::node::{
    HephaestusClusterId, HephaestusInfrastructureClassId, HephaestusNodeActualState,
    HephaestusNodeActualStateStatus, HephaestusPrivateIpAddress, HephaestusProviderServerId,
    HephaestusPublicIpAddress, HephaestusServerCatalog, HephaestusServerId,
    HephaestusServerIdentity, HephaestusServerNetwork, HephaestusServerRole,
};
use hephaestus::hephaestus::region::HephaestusSiteId;
use hephaestus::hephaestus::report::HephaestusServiceProbeKind;
use hephaestus::vultr::error::VultrError;

fn wire_actual_state() -> ProtoNodeActualState {
    ProtoNodeActualState {
        server_id: " srv-lhr-01 ".to_string(),
        provider_server_id: "provider-1".to_string(),
        site_id: "lhr".to_string(),
        public_ip: String::new(),
        private_ip: "10.1.0.5".to_string(),
        boot_time_unix_secs: 10,
        last_seen_unix_secs: 20,
        status: ProtoNodeActualStateStatus::Ready,
        cluster_id: String::new(),
        role: ProtoServerRole::Api,
        apps: vec!["api".to_string()],
        services: vec!["api/http".to_string()],
        infrastructure_class_id: "standard-small".to_string(),
    }
}

#[test]
fn dns_target_accepts_ipv4_and_ipv6_addresses() {
    assert_eq!(HephaestusDnsRecordTarget::new(" 203.0.113.10 ").expect("ipv4").as_str(), "203.0.113.10");
    assert_eq!(HephaestusDnsRecordTarget::new("2001:db8::1").expect("ipv6").as_str(), "2001:db8::1");
}

#[test]
fn dns_target_refuses_text_that_is_not_an_address() {
    assert_eq!(HephaestusDnsRecordTarget::new("1.2").err(), Some(HephaestusDomainError::InvalidCharacter));
    assert_eq!(HephaestusDnsRecordTarget::new("   ").err(), Some(HephaestusDomainError::Empty));
    assert_eq!(
        HephaestusDnsRecordTarget::new("2001:0db8:0000:0000:0000:0000:0000:0001:0000:0000").err(),
        Some(HephaestusDomainError::TooLong)
    );
}

#[test]
fn actual_observation_keeps_the_provider_public_address() {
    let identity = HephaestusServerIdentity::new(
        HephaestusServerId::new("srv-1").expect("server"),
        HephaestusProviderServerId::new("p-1").expect("provider"),
        HephaestusSiteId::new("lhr").expect("site"),
    );
    let catalog = HephaestusServerCatalog::new(None, HephaestusServerRole::Api, vec![], vec![]).expect("catalog");
    let row = HephaestusServerInventoryRow::new(
        identity.clone(),
        None,
        catalog.clone(),
        HephaestusInfrastructureClassId::new("small").expect("class"),
        vec![],
        None,
        Some(HephaestusPublicIpAddress::new("203.0.113.1").expect("public")),
        None,
        None,
        None,
        None,
        None,
        vec![],
        None,
    )
    .expect("row");
    let state = HephaestusNodeActualState::new(
        identity,
        HephaestusServerNetwork::new(
            Some(HephaestusPublicIpAddress::new("198.51.100.7").expect("public")),
            Some(HephaestusPrivateIpAddress::new("10.0.0.7").expect("private")),
        ),
        catalog,
        HephaestusInfrastructureClassId::new("small").expect("class"),
        5,
        9,
        HephaestusNodeActualStateStatus::Stale,
    )
    .expect("state");
    let updated = row.with_actual_observation(&state).expect("observed");
    assert_eq!(updated.public_ip().map(|ip| ip.as_str()), Some("203.0.113.1"));
    assert_eq!(updated.private_ip().map(|ip| ip.as_str()), Some("10.0.0.7"));
    assert_eq!(updated.last_seen_unix_secs(), Some(9));
    assert_eq!(updated.actual_status(), Some(HephaestusNodeActualStateStatus::Stale));
}

#[test]
fn node_actual_state_round_trips_through_the_wire() {
    let state = node_actual_state_from_proto(wire_actual_state()).expect("valid state");
    assert_eq!(state.server_id().as_str(), "srv-lhr-01");
    assert!(state.public_ip().is_none());
    assert!(state.cluster_id().is_none());
    assert_eq!(state.role(), HephaestusServerRole::Api);
    let back = proto_node_actual_state_from_domain(&state);
    let mut expected = wire_actual_state();
    expected.server_id = "srv-lhr-01".to_string();
    assert_eq!(back, expected);
}

#[test]
fn node_actual_state_refuses_unspecified_values_and_bad_times() {
    let mut role = wire_actual_state();
    role.role = ProtoServerRole::Unspecified;
    assert_eq!(node_actual_state_from_proto(role).err(), Some(HephaestusDomainError::InvalidNumber));
    let mut status = wire_actual_state();
    status.status = ProtoNodeActualStateStatus::Unspecified;
    assert_eq!(node_actual_state_from_proto(status).err(), Some(HephaestusDomainError::InvalidNumber));
    let mut times = wire_actual_state();
    times.boot_time_unix_secs = 30;
    assert_eq!(node_actual_state_from_proto(times).err(), Some(HephaestusDomainError::InvalidNumber));
    let mut ip = wire_actual_state();
    ip.public_ip = "not-an-ip".to_string();
    assert_eq!(node_actual_state_from_proto(ip).err(), Some(HephaestusDomainError::InvalidCharacter));
    let mut server = wire_actual_state();
    server.server_id = String::new();
    assert_eq!(node_actual_state_from_proto(server).err(), Some(HephaestusDomainError::Empty));
    let mut apps = wire_actual_state();
    apps.apps = (0..33).map(|i| format!("app-{i}")).collect();
    assert_eq!(node_actual_state_from_proto(apps).err(), Some(HephaestusDomainError::TooLong));
}

fn wire_template() -> ProtoVultrInstanceTemplate {
    ProtoVultrInstanceTemplate {
        id: "tpl-1".to_string(),
        plan: "vc2-1c-1gb".to_string(),
        label: "edge node".to_string(),
        os_id: 2284,
        ssh_key_ids: vec!["key-a".to_string(), "key-b".to_string()],
        vpc_ids: vec!["vpc-1".to_string()],
        user_data: "#cloud-config\n".to_string(),
        ..ProtoVultrInstanceTemplate::default()
    }
}

#[test]
fn vultr_instance_template_round_trips_through_the_wire() {
    let template = vultr_instance_template_from_proto(wire_template()).expect("valid template");
    assert_eq!(template.os_id().map(|id| id.get()), Some(2284));
    assert!(template.iso_id().is_none());
    assert!(template.marketplace_app_id().is_none());
    assert_eq!(template.ssh_key_ids().len(), 2);
    assert_eq!(proto_vultr_instance_template_from_domain(&template), wire_template());
}

#[test]
fn vultr_instance_template_reports_the_first_refused_field() {
    let mut label = wire_template();
    label.label = "   ".to_string();
    label.id = "BAD ID!".to_string();
    assert_eq!(vultr_instance_template_from_proto(label).err(), Some(VultrError::Empty));
    let mut id = wire_template();
    id.id = String::new();
    assert_eq!(vultr_instance_template_from_proto(id).err(), Some(VultrError::Empty));
    let mut key = wire_template();
    key.ssh_key_ids = vec!["ok".to_string(), "Bad Key".to_string()];
    assert!(vultr_instance_template_from_proto(key).is_err());
}

fn wire_report() -> ProtoAgentReport {
    ProtoAgentReport {
        server_id: "srv-lhr-01".to_string(),
        provider_server_id: "provider-1".to_string(),
        private_ip: "10.1.1.12".to_string(),
        generated_at_unix_secs: 1_715_726_400,
        resources: Some(ProtoHostResourceReport {
            cpu_usage_basis_points: 2500,
            memory_total_bytes: 1024,
            memory_used_bytes: 512,
            disk_total_bytes: 2048,
            disk_used_bytes: 1024,
        }),
        containers: vec![ProtoContainerReport {
            container_name: "app".to_string(),
            image: "ghcr.io/reallyme/app:latest".to_string(),
            state: ProtoContainerState::Running,
            health_state: ProtoContainerHealthState::Healthy,
            recent_log_lines: vec!["service ready".to_string()],
            restart_required: false,
            restart_reason: ProtoContainerRestartReason::NotRequired,
        }],
        actual_apps: vec!["reallyme-api".to_string()],
        tailscale: Some(ProtoTailscaleReport {
            hostname: "srv-lhr-01".to_string(),
            ips: vec!["100.64.0.1".to_string()],
            ..ProtoTailscaleReport::default()
        }),
        service_probes: vec![ProtoServiceProbeReport {
            probe_name: "api-health".to_string(),
            service_name: "api".to_string(),
            kind: ProtoServiceProbeKind::Http,
            target: "http://127.0.0.1:8080/health".to_string(),
            status: ProtoServiceProbeStatus::Passed,
            http_status_code: 200,
        }],
        ..ProtoAgentReport::default()
    }
}

#[test]
fn agent_report_converts_and_fills_missing_sub_reports() {
    let report = agent_report_from_proto(wire_report()).expect("valid report");
    assert_eq!(report.containers().len(), 1);
    assert_eq!(report.tailscale().hostname(), Some("srv-lhr-01"));
    assert!(report.tailscale().magic_dns_name().is_none());
    assert!(report.runtime_versions().docker_version().is_none());
    assert!(!report.observability().cadvisor().reachable());
    assert_eq!(report.service_probes()[0].http_status_code(), Some(200));
    assert_eq!(report.service_probes()[0].kind(), HephaestusServiceProbeKind::Http);
    let wire = proto_agent_report_from_domain(&report);
    assert!(wire.runtime_versions.is_some());
    assert!(wire.observability.is_some());
    let again = agent_report_from_proto(wire.clone()).expect("converts again");
    assert_eq!(proto_agent_report_from_domain(&again), wire);
}

#[test]
fn agent_report_refuses_missing_resources_and_bad_numbers() {
    let mut missing = wire_report();
    missing.resources = None;
    assert_eq!(agent_report_from_proto(missing).err(), Some(HephaestusDomainError::InvalidCharacter));
    let mut cpu = wire_report();
    cpu.resources = Some(ProtoHostResourceReport { cpu_usage_basis_points: 70_000, ..ProtoHostResourceReport::default() });
    assert_eq!(agent_report_from_proto(cpu).err(), Some(HephaestusDomainError::InvalidNumber));
    let mut code = wire_report();
    code.service_probes[0].http_status_code = 70_000;
    assert_eq!(agent_report_from_proto(code).err(), Some(HephaestusDomainError::InvalidNumber));
    let mut zero = wire_report();
    zero.generated_at_unix_secs = 0;
    assert_eq!(agent_report_from_proto(zero).err(), Some(HephaestusDomainError::InvalidNumber));
    let mut state = wire_report();
    state.containers[0].state = ProtoContainerState::Unspecified;
    assert_eq!(agent_report_from_proto(state).err(), Some(HephaestusDomainError::InvalidNumber));
    let mut image = wire_report();
    image.containers[0].image = String::new();
    assert_eq!(agent_report_from_proto(image).err(), Some(HephaestusDomainError::Empty));
}

#[test]
fn inventory_row_is_written_with_empty_absent_values() {
    let identity = HephaestusServerIdentity::new(
        HephaestusServerId::new("srv-1").expect("server"),
        HephaestusProviderServerId::new("p-1").expect("provider"),
        HephaestusSiteId::new("lhr").expect("site"),
    );
    let catalog = HephaestusServerCatalog::new(
        Some(HephaestusClusterId::new("POOL").expect("cluster")),
        HephaestusServerRole::Db,
        vec![],
        vec![],
    )
    .expect("catalog");
    let row = HephaestusServerInventoryRow::new(
        identity,
        None,
        catalog,
        HephaestusInfrastructureClassId::new("small").expect("class"),
        vec![],
        None,
        None,
        None,
        None,
        None,
        None,
        None,
        vec![],
        None,
    )
    .expect("row");
    let wire = proto_server_inventory_row_from_domain(&row);
    assert_eq!(wire.server_id, "srv-1");
    assert_eq!(wire.cluster_id, "POOL");
    assert_eq!(wire.role, ProtoServerRole::Db);
    assert_eq!(wire.public_ip, "");
    assert_eq!(wire.boot_time_unix_secs, 0);
    assert_eq!(wire.actual_status, ProtoNodeActualStateStatus::Unspecified);
    assert_eq!(wire.environment_tag, ProtoServerEnvironmentTag::Unspecified);
    assert!(wire.latest_agent_report.is_none());
}

#[test]
fn region_definition_round_trips_and_refuses_repeated_sites() {
    let wire = ProtoRegionDefinition { region_id: " EU ".to_string(), site_ids: vec!["ams".to_string(), "cdg".to_string()] };
    let region = region_definition_from_proto(wire).expect("valid region");
    let back = proto_region_definition_from_domain(&region);
    assert_eq!(back.region_id, "EU");
    assert_eq!(back.site_ids, vec!["ams".to_string(), "cdg".to_string()]);
    let repeated = ProtoRegionDefinition { region_id: "EU".to_string(), site_ids: vec!["ams".to_string(), " ams".to_string()] };
    assert_eq!(region_definition_from_proto(repeated).err(), Some(HephaestusDomainError::InvalidCharacter));
    let empty = ProtoRegionDefinition { region_id: "EU".to_string(), site_ids: vec![] };
    assert_eq!(region_definition_from_proto(empty).err(), Some(HephaestusDomainError::Empty));
}

#[test]
fn boot_report_round_trips_and_checks_addresses_first() {
    let wire = ProtoAgentBootReport {
        server_id: "srv-1".to_string(),
        provider_server_id: "p-1".to_string(),
        site_id: "lhr".to_string(),
        public_ip: String::new(),
        private_ip: "10.0.0.1".to_string(),
        boot_time_unix_secs: 10,
        generated_at_unix_secs: 20,
    };
    let report = agent_boot_report_from_proto(wire.clone()).expect("valid boot report");
    assert!(report.public_ip().is_none());
    assert_eq!(proto_agent_boot_report_from_domain(&report), wire);
    let mut bad = wire.clone();
    bad.server_id = String::new();
    bad.public_ip = "nope".to_string();
    assert_eq!(agent_boot_report_from_proto(bad).err(), Some(HephaestusDomainError::InvalidCharacter));
}

#[test]
fn dns_desired_state_round_trips_and_refuses_unspecified_kinds() {
    let record = ProtoDnsRecord {
        name: "API.Example.com.".to_string(),
        kind: ProtoDnsRecordKind::Aaaa,
        target: "2001:db8::5".to_string(),
        visibility: ProtoDnsRecordVisibility::Public,
    };
    let state = dns_desired_state_from_proto(ProtoDnsDesiredState { records: vec![record.clone()] }).expect("valid state");
    let back = proto_dns_desired_state_from_domain(&state);
    assert_eq!(back.records[0].name, "api.example.com");
    assert_eq!(back.records[0].target, "2001:db8::5");
    let mut unspecified = record;
    unspecified.kind = ProtoDnsRecordKind::Unspecified;
    assert_eq!(
        dns_desired_state_from_proto(ProtoDnsDesiredState { records: vec![unspecified] }).err(),
        Some(HephaestusDomainError::InvalidNumber)
    );
}

#[test]
fn vultr_resources_round_trip_through_the_wire() {
    let region = ProtoVultrRegion { id: "ewr".to_string(), city: "New Jersey".to_string(), country: "US".to_string(), continent: "North America".to_string() };
    assert_eq!(proto_vultr_region_from_domain(&vultr_region_from_proto(region.clone()).expect("region")), region);
    let plan = ProtoVultrPlan { id: "vc2-1c-1gb".to_string(), plan_type: ProtoVultrPlanType::CloudCompute, vcpu_count: 1, ram_mb: 1024, disk_gb: 25, monthly_cost_cents: 500 };
    assert_eq!(proto_vultr_plan_from_domain(&vultr_plan_from_proto(plan.clone()).expect("plan")), plan);
    let mut unknown = plan.clone();
    unknown.plan_type = ProtoVultrPlanType::Unspecified;
    assert_eq!(vultr_plan_from_proto(unknown).err(), Some(VultrError::UnknownPlanType));
    let vpc = ProtoVultrVpc { id: "vpc-1".to_string(), region: "ewr".to_string(), description: "private".to_string(), ip_block: "10.0.0.0".to_string(), prefix_length: 24 };
    assert_eq!(proto_vultr_vpc_from_domain(&vultr_vpc_from_proto(vpc.clone()).expect("vpc")), vpc);
    let mut wide = vpc.clone();
    wide.prefix_length = 300;
    assert_eq!(vultr_vpc_from_proto(wide).err(), Some(VultrError::InvalidNumber));
    let instance = ProtoVultrInstance {
        id: "inst-1".to_string(),
        region: "ewr".to_string(),
        plan: "vc2-1c-1gb".to_string(),
        label: "edge".to_string(),
        status: ProtoVultrInstanceStatus::Active,
        main_ip: "203.0.113.9".to_string(),
        internal_ip: String::new(),
        vpc_ids: vec!["vpc-1".to_string()],
        vpc_only: false,
    };
    let domain = vultr_instance_from_proto(instance.clone()).expect("instance");
    assert!(domain.internal_ip().is_none());
    assert_eq!(proto_vultr_instance_from_domain(&domain), instance);
    let mut pending = instance;
    pending.status = ProtoVultrInstanceStatus::Unspecified;
    assert_eq!(vultr_instance_from_proto(pending).err(), Some(VultrError::UnknownInstanceStatus));
    let registry = ProtoVultrContainerRegistry { id: "reg-1".to_string(), name: "main".to_string(), public: false, urn: "urn:vultr:registry:reg-1".to_string(), storage_bytes_used: 42 };
    let r = vultr_container_registry_from_proto(registry.clone()).expect("registry");
    assert_eq!(proto_vultr_container_registry_from_domain(&r), registry);
    let repository = ProtoVultrContainerRepository { registry_id: "reg-1".to_string(), name: "app".to_string(), description: String::new(), pull_count: 3, artifact_count: 1 };
    assert_eq!(proto_vultr_container_repository_from_domain(&vultr_container_repository_from_proto(repository.clone()).expect("repository")), repository);
    let artifact = ProtoVultrContainerArtifact { registry_id: "reg-1".to_string(), repository: "app".to_string(), digest: "sha256:abc123".to_string(), tags: vec!["latest".to_string()], size_bytes: 7 };
    let a = vultr_container_artifact_from_proto(artifact.clone()).expect("artifact");
    assert_eq!(proto_vultr_container_artifact_from_domain(&a), artifact);
    let mut bad_tag = artifact;
    bad_tag.tags = vec!["latest".to_string(), String::new()];
    bad_tag.digest = String::new();
    assert_eq!(vultr_container_artifact_from_proto(bad_tag).err(), Some(VultrError::Empty));
}
