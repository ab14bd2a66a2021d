use hephaestus::hephaestus::health::HephaestusDomainError;
use hephaestus::hephaestus::node::{
    ip_address_decision, HephaestusAgentBootSecret, HephaestusAgentRuntimeToken,
    HephaestusPrivateIpAddress, HephaestusServerId,
};
use hephaestus::hephaestus::report::{
    HephaestusAgentReportLine, HephaestusContainerHealthState, HephaestusContainerReport,
    HephaestusContainerRestartReason, HephaestusContainerState, HephaestusRuntimeVersionReport,
    HephaestusServiceProbeKind, HephaestusServiceProbeReport, HephaestusServiceProbeStatus,
    HephaestusTailscaleReport,
};
use hephaestus::kit::cookies::{AppConfigDocumentErrorReason, AppCookieSameSitePolicy};
use hephaestus::kit::jsonc::{strip_jsonc_comments, AppConfigParseError, AppConfigParseErrorReason};
use hephaestus::vultr::bootstrap::{
    DockerCloudInitSpec, DockerContainerName, DockerDnsResolver, DockerImageReference,
    DockerRestartPolicy, DockerRunArgument, HephaestusServerMetadata,
};
use hephaestus::vultr::error::VultrError;
use hephaestus::vultr::types::{
    VultrCloudInitUserData, VultrInstanceStatus, VultrOperatingSystemId, VultrPlanType, VultrPlanTypeCode, VultrRegionId,
};

#[test]
fn vultr_errors_cover_each_variant() {
    assert_eq!(VultrRegionId::new("   "), Err(VultrError::Empty));
    assert_eq!(VultrRegionId::new(&"a".repeat(17)), Err(VultrError::TooLong));
    assert_eq!(VultrRegionId::new("EWR"), Err(VultrError::InvalidCharacter));
    assert_eq!(VultrOperatingSystemId::new(0), Err(VultrError::InvalidNumber));
    assert_eq!(VultrInstanceStatus::parse("rebooting"), Err(VultrError::UnknownInstanceStatus));
    assert_eq!(VultrInstanceStatus::parse("active"), Ok(VultrInstanceStatus::Active));
    assert_eq!(VultrPlanTypeCode::parse("vxx"), Err(VultrError::UnknownPlanType));
    assert_eq!(VultrPlanType::parse("nonsense").err(), Some(VultrError::UnknownPlanType));
    assert_eq!(VultrError::TooLong.message(), "vultr value is too long");
}

#[test]
fn domain_errors_cover_each_variant() {
    assert_eq!(HephaestusServerId::new(" \t ").err(), Some(HephaestusDomainError::Empty));
    assert_eq!(HephaestusServerId::new(&"s".repeat(200)).err(), Some(HephaestusDomainError::TooLong));
    assert_eq!(HephaestusServerId::new("srv lhr").err(), Some(HephaestusDomainError::InvalidCharacter));
    assert_eq!(
        HephaestusPrivateIpAddress::new("10.1.1").err(),
        Some(HephaestusDomainError::InvalidCharacter)
    );
    assert!(HephaestusPrivateIpAddress::new(" fd00::1 ").is_ok());
    assert_eq!(HephaestusDomainError::InvalidNumber.message(), "hephaestus value is outside the accepted range");
}

#[test]
fn tailscale_report_checks_in_order() {
    let too_many: Vec<String> = (0..9).map(|i| format!("100.64.0.{i}")).collect();
    assert_eq!(
        HephaestusTailscaleReport::new(Some("bad host!".to_owned()), None, too_many, vec![], vec![]).err(),
        Some(HephaestusDomainError::TooLong)
    );
    assert_eq!(
        HephaestusTailscaleReport::new(None, None, vec!["100.64.0.1".to_owned(), " 100.64.0.2".to_owned()], vec![], vec![])
            .err(),
        Some(HephaestusDomainError::InvalidCharacter)
    );
    let report = HephaestusTailscaleReport::new(
        Some(" node-1 ".to_owned()),
        Some("node-1.tail.ts.net".to_owned()),
        vec!["100.64.0.1".to_owned(), "fd7a:115c:a1e0::1".to_owned()],
        vec!["tag:api".to_owned()],
        vec!["svc:api".to_owned()],
    )
    .expect("valid tailscale identity");
    assert_eq!(report.hostname(), Some(" node-1 "));
    assert_eq!(report.ips().len(), 2);
    assert!(HephaestusTailscaleReport::empty().hostname().is_none());
}

#[test]
fn runtime_versions_and_probes_are_bounded() {
    assert_eq!(
        HephaestusRuntimeVersionReport::new(Some("".to_owned()), None).err(),
        Some(HephaestusDomainError::Empty)
    );
    assert!(HephaestusRuntimeVersionReport::new(Some("Docker version 27.0.3".to_owned()), None).is_ok());
    assert_eq!(
        HephaestusServiceProbeReport::new(
            "api-health".to_owned(),
            "api".to_owned(),
            HephaestusServiceProbeKind::Tcp,
            "127.0.0.1:8080".to_owned(),
            HephaestusServiceProbeStatus::Passed,
            Some(200),
        )
        .err(),
        Some(HephaestusDomainError::InvalidNumber)
    );
    assert!(HephaestusServiceProbeReport::new(
        "api-health".to_owned(),
        "api".to_owned(),
        HephaestusServiceProbeKind::Http,
        "http://127.0.0.1:8080/healthz".to_owned(),
        HephaestusServiceProbeStatus::Passed,
        Some(200),
    )
    .is_ok());
}

#[test]
fn container_restart_reason_requires_restart() {
    let build = |required: bool, reason: HephaestusContainerRestartReason, logs: usize| {
        HephaestusContainerReport::new(
            DockerContainerName::new("app").expect("name"),
            DockerImageReference::new("ghcr.io/reallyme/app:1").expect("image"),
            HephaestusContainerState::Exited,
            HephaestusContainerHealthState::NotConfigured,
            (0..logs).map(|_| HephaestusAgentReportLine::new("line\twith tab").expect("line")).collect(),
            required,
            reason,
        )
    };
    assert_eq!(
        build(false, HephaestusContainerRestartReason::Exited, 0).err(),
        Some(HephaestusDomainError::InvalidNumber)
    );
    assert!(build(true, HephaestusContainerRestartReason::Exited, 0).is_ok());
    assert_eq!(
        build(true, HephaestusContainerRestartReason::Exited, 33).err(),
        Some(HephaestusDomainError::TooLong)
    );
}

#[test]
fn server_metadata_reports_first_fault_and_trims() {
    let meta = |dc: &str, ports: Vec<String>, role: &str| {
        HephaestusServerMetadata::new(
            dc,
            vec!["ams".to_owned(), " lhr ".to_owned()],
            "srv-1",
            Some(" 10.0.0.5 ".to_owned()),
            vec![],
            "api",
            "reallyme-api",
            false,
            true,
            ports,
            "cluster-1",
            role,
        )
    };
    assert_eq!(meta("", vec![], "api").err(), Some(VultrError::Empty));
    assert_eq!(meta("ams", vec!["80".to_owned(), "a;b".to_owned()], "").err(), Some(VultrError::InvalidCharacter));
    let ok = meta(" ams ", vec![" 443 ".to_owned()], "api").expect("valid metadata");
    assert_eq!(ok.dc(), "ams");
    assert_eq!(ok.private_ip(), Some("10.0.0.5"));
    assert_eq!(ok.ports(), &["443".to_owned()]);
}

#[test]
fn docker_cloud_init_builders_change_one_field() {
    let spec = DockerCloudInitSpec::new(
        DockerImageReference::new("ghcr.io/reallyme/app:1").expect("image"),
        DockerContainerName::new("app").expect("name"),
        DockerRestartPolicy::UnlessStopped,
        true,
    );
    assert!(spec.dns_resolvers().is_empty());
    let spec = spec
        .with_dns_resolvers(vec![DockerDnsResolver::new("1.1.1.1").expect("resolver")])
        .with_arguments(vec![DockerRunArgument::new("--port=8080").expect("arg")]);
    assert_eq!(spec.dns_resolvers().len(), 1);
    assert_eq!(spec.arguments()[0].as_str(), "--port=8080");
    assert_eq!(spec.restart_policy().as_cli_value(), "unless-stopped");
    assert_eq!(DockerRestartPolicy::No.as_cli_value(), "no");
    assert!(spec.host_network());
    assert!(spec.metadata().is_none());
}

#[test]
fn parse_errors_and_policies_have_stable_values() {
    assert_eq!(AppConfigParseError::new(AppConfigParseErrorReason::InvalidJson).reason(), AppConfigParseErrorReason::InvalidJson);
    assert_eq!(strip_jsonc_comments("\"/* not a comment */\"").expect("string"), "\"/* not a comment */\"");
    assert_eq!(AppCookieSameSitePolicy::parse("lax").ok(), Some(AppCookieSameSitePolicy::Lax));
    assert_eq!(
        AppCookieSameSitePolicy::parse("Lax").err().map(|e| e.reason()),
        Some(AppConfigDocumentErrorReason::InvalidCookieSameSitePolicy)
    );
}

#[test]
fn secrets_can_be_zeroized() {
    let mut secret = HephaestusAgentBootSecret::new("secret-token").expect("valid secret");
    assert_eq!(secret.expose_as_str(), "secret-token");
    secret.zeroize();
    assert_eq!(secret.expose_as_str(), "");
    let mut token = HephaestusAgentRuntimeToken::new("runtime-token").expect("valid token");
    token.zeroize();
    assert_eq!(token.expose_as_str(), "");
    let mut data = VultrCloudInitUserData::new("#cloud-config\npackages: []\n").expect("valid user data");
    data.zeroize();
    assert_eq!(data.expose_as_str(), "");
}

#[test]
fn ip_address_decision_follows_the_parse() {
    assert_eq!(ip_address_decision(true, false), Err(HephaestusDomainError::Empty));
    assert_eq!(ip_address_decision(false, false), Err(HephaestusDomainError::InvalidCharacter));
    assert_eq!(ip_address_decision(false, true), Ok(()));
}
