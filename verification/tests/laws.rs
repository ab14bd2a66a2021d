use hephaestus::contract::dto::ProvisioningSite;
use hephaestus::contract::dto::{
    provider_location_entries, provider_location_mapping, provider_location_matrix,
    HephaestusTimestamp,
};
use hephaestus::contract::rpc::{
    hephaestus_status_rpc, hephaestus_submit_agent_report_rpc, nats_plan_nats_deployment_rpc,
};
use hephaestus::hephaestus::dns::HephaestusDnsRecordName;
use hephaestus::hephaestus::node::{
    HephaestusAgentRuntimeToken, HephaestusInfrastructureClassId, HephaestusNodeActualStateStatus,
    HephaestusProviderServerId, HephaestusServerCatalog, HephaestusServerId,
    HephaestusServerIdentity, HephaestusServerRole,
};
use hephaestus::hephaestus::inventory::{HephaestusServerEnvironmentTag, HephaestusServerInventoryRow};
use hephaestus::hephaestus::region::HephaestusSiteId;
use hephaestus::hephaestus::health::HephaestusDomainError;
use hephaestus::kit::cookies::{
    AppConfigDocumentErrorReason, AppCookieConfig, AppCookieDomain, AppCookieSameSitePolicy,
    RawCookieConfig,
};
use hephaestus::kit::jsonc::strip_jsonc_comments;
use hephaestus::vultr::bootstrap::{DockerVolumeMount, SshAuthorizedKey};
use hephaestus::vultr::types::{VultrDatacenterCode, VultrPlanType, VultrPlanTypeCode, VultrRegionId};

#[test]
fn validated_values_round_trip_through_their_text() {
    let region = VultrRegionId::new("  ewr \n").expect("valid region");
    assert_eq!(region.as_str(), "ewr");
    assert_eq!(VultrRegionId::new(region.as_str()), Ok(region.clone()));

    let mount = DockerVolumeMount::new(" /srv/data:/data:ro ").expect("valid mount");
    assert_eq!(DockerVolumeMount::new(mount.as_str()), Ok(mount.clone()));

    let key = SshAuthorizedKey::new(" ssh-ed25519 AAAAC3NzaC1lZDI1NTE5 ").expect("valid key");
    assert_eq!(key.as_str(), "ssh-ed25519 AAAAC3NzaC1lZDI1NTE5");
    assert!(SshAuthorizedKey::new(key.as_str()).ok() == Some(key));
}

#[test]
fn dns_name_normalization_is_idempotent() {
    let name = HephaestusDnsRecordName::new(" API.Example.Net.. ").expect("valid name");
    assert_eq!(name.as_str(), "api.example.net");
    let again = HephaestusDnsRecordName::new(name.as_str()).expect("normalized name is valid");
    assert_eq!(again.as_str(), name.as_str());
}

#[test]
fn timestamp_round_trips_unix_seconds() {
    for seconds in [0u64, 1, 1_715_726_400, i64::MAX as u64] {
        assert_eq!(HephaestusTimestamp::from_unix_secs(seconds).unix_secs(), seconds);
    }
    assert_eq!(HephaestusTimestamp::from_unix_secs(u64::MAX).unix_secs(), i64::MAX as u64);
    assert_eq!(HephaestusTimestamp::new(-5, 0).unix_secs(), 0);
    let t = HephaestusTimestamp::new(42, 0);
    assert_eq!(HephaestusTimestamp::from_unix_secs(t.unix_secs()), t);
}

#[test]
fn plan_type_codes_round_trip_through_api_codes() {
    for code in [
        VultrPlanTypeCode::All,
        VultrPlanTypeCode::Vc2,
        VultrPlanTypeCode::Vdc,
        VultrPlanTypeCode::Vhf,
        VultrPlanTypeCode::Vhp,
        VultrPlanTypeCode::Voc,
        VultrPlanTypeCode::VocG,
        VultrPlanTypeCode::VocC,
        VultrPlanTypeCode::VocM,
        VultrPlanTypeCode::VocS,
        VultrPlanTypeCode::Vbm,
        VultrPlanTypeCode::Vcg,
    ] {
        assert_eq!(VultrPlanTypeCode::parse(code.as_api_code()), Ok(code));
    }
}

#[test]
fn datacenter_ids_round_trip_for_canonical_codes() {
    for code in [VultrDatacenterCode::AMS, VultrDatacenterCode::EWR, VultrDatacenterCode::MXP] {
        assert_eq!(VultrDatacenterCode::parse_id(code.id()), Some(code));
    }
    assert_eq!(VultrDatacenterCode::parse_id(VultrDatacenterCode::LON.id()), Some(VultrDatacenterCode::LHR));
}

#[test]
fn rpc_paths_join_service_and_method() {
    for rpc in [hephaestus_status_rpc(), hephaestus_submit_agent_report_rpc(), nats_plan_nats_deployment_rpc()] {
        assert_eq!(rpc.path(), format!("/{}/{}", rpc.service_name(), rpc.method_name()));
    }
    assert_eq!(hephaestus_status_rpc().path(), "/reallyme.hephaestus.v1.HephaestusService/GetStatus");
}

#[test]
fn block_comments_separate_tokens() {
    assert_eq!(strip_jsonc_comments("1/*comment*/2").expect("closed comment"), "1 2");
    assert_eq!(strip_jsonc_comments("/*before*/12/*after*/").expect("closed comments"), " 12 ");
    assert_eq!(strip_jsonc_comments("tr/*comment*/ue").expect("closed comment"), "tr ue");
}

#[test]
fn jsonc_comment_markers_inside_strings_are_text() {
    let text = "{\"url\": \"https://api.reallyme.net/path\", // comment\n \"s\": \"a\\\"/*b\"}";
    assert_eq!(
        strip_jsonc_comments(text).expect("valid"),
        "{\"url\": \"https://api.reallyme.net/path\", \n \"s\": \"a\\\"/*b\"}"
    );
}

#[test]
fn jsonc_without_slash_is_unchanged_and_stripping_never_lengthens() {
    let plain = "{ \"a\": [1, 2, \"x*y\"] }\n";
    assert_eq!(strip_jsonc_comments(plain).expect("valid"), plain);
    for text in ["// only a comment", "a/**/b", "/* x\ny */", "x // y\nz"] {
        let stripped = strip_jsonc_comments(text).expect("closed comments");
        assert!(stripped.chars().count() <= text.chars().count());
    }
    assert_eq!(strip_jsonc_comments("a // tail\nb").expect("valid"), "a \nb");
    assert_eq!(strip_jsonc_comments("/* one\ntwo */x").expect("valid"), " \nx");
    assert_eq!(strip_jsonc_comments("a/").expect("valid"), "a/");
    assert_eq!(strip_jsonc_comments("/*/").map_err(|e| e.reason()).is_err(), true);
}

#[test]
fn cross_site_cookies_require_secure() {
    let refused = AppCookieConfig::try_from_raw(RawCookieConfig {
        secure: Some(false),
        domain: None,
        same_site_policy: Some("none".to_owned()),
    });
    assert_eq!(
        refused.err().map(|e| e.reason()),
        Some(AppConfigDocumentErrorReason::CookieSameSiteNoneRequiresSecure)
    );
    let accepted = AppCookieConfig::try_from_raw(RawCookieConfig {
        secure: None,
        domain: Some("App.ReallyMe.net".to_owned()),
        same_site_policy: Some("none".to_owned()),
    })
    .ok()
    .expect("secure by default");
    assert!(accepted.secure());
    assert_eq!(accepted.same_site_policy(), AppCookieSameSitePolicy::CrossSite);
    assert_eq!(accepted.domain().map(|d| d.as_str().to_owned()), Some("app.reallyme.net".to_owned()));
}

#[test]
fn inventory_rows_keep_valid_timestamps() {
    let identity = HephaestusServerIdentity::new(
        HephaestusServerId::new("srv-ams-01").expect("valid server"),
        HephaestusProviderServerId::new("provider-1").expect("valid provider"),
        HephaestusSiteId::new("ams").expect("valid site"),
    );
    let catalog = HephaestusServerCatalog::new(None, HephaestusServerRole::Api, vec![], vec![]).expect("catalog");
    let class = HephaestusInfrastructureClassId::new("standard-small").expect("class");
    let make = |boot: Option<u64>, last: Option<u64>| {
        HephaestusServerInventoryRow::new(
            identity.clone(),
            None,
            catalog.clone(),
            class.clone(),
            vec![],
            None,
            None,
            None,
            boot,
            last,
            Some(HephaestusNodeActualStateStatus::Ready),
            None,
            vec![],
            None,
        )
    };
    assert_eq!(make(Some(20), Some(10)).err(), Some(HephaestusDomainError::InvalidNumber));
    assert_eq!(make(Some(0), None).err(), Some(HephaestusDomainError::InvalidNumber));
    assert_eq!(make(None, Some(0)).err(), Some(HephaestusDomainError::InvalidNumber));
    let row = make(Some(10), Some(20)).expect("ordered timestamps");
    assert_eq!(row.environment_tag(), HephaestusServerEnvironmentTag::Unspecified);
    let tagged = row.with_environment_tag(HephaestusServerEnvironmentTag::Prod);
    assert_eq!(tagged.environment_tag(), HephaestusServerEnvironmentTag::Prod);
    assert_eq!(tagged.boot_time_unix_secs(), Some(10));
    assert_eq!(tagged.last_seen_unix_secs(), Some(20));
}

#[test]
fn every_provider_location_is_found_by_its_key() {
    let entries = provider_location_entries();
    let matrix = provider_location_matrix();
    assert_eq!(entries.len(), matrix.locations.len());
    for (entry, owned) in entries.iter().zip(matrix.locations.iter()) {
        let found = provider_location_mapping(entry.provider, entry.provider_location_id).expect("listed key");
        assert_eq!(&found, entry);
        assert_eq!(owned.provider_location_id, entry.provider_location_id);
        assert_eq!(owned.city, entry.city);
    }
}

#[test]
fn runtime_tokens_compare_in_constant_time() {
    let a = HephaestusAgentRuntimeToken::new("token-a").expect("valid token");
    let a2 = HephaestusAgentRuntimeToken::new("  token-a ").expect("valid token");
    let b = HephaestusAgentRuntimeToken::new("token-b").expect("valid token");
    assert!(a.constant_time_eq(&a2));
    assert!(!a.constant_time_eq(&b));
}

#[test]
fn cookie_domains_are_validated_and_lowercased() {
    assert_eq!(AppCookieDomain::new("Example.COM").ok().map(|d| d.as_str().to_owned()), Some("example.com".to_owned()));
    assert!(AppCookieDomain::new("localhost").is_ok());
    for bad in ["", ".example.com", "example.com.", "a..b", "-a.b", "a-.b", "a.-b", "a b.c", "a/b", "a:b", "a@b", "é.com"] {
        assert_eq!(
            AppCookieDomain::new(bad).err().map(|e| e.reason()),
            Some(AppConfigDocumentErrorReason::InvalidCookieDomain),
            "{bad}"
        );
    }
    assert!(AppCookieDomain::new(&"a".repeat(255)).is_ok());
    assert!(AppCookieDomain::new(&"a".repeat(256)).is_err());
}

#[test]
fn stripping_comments_twice_is_stripping_once() {
    let text = "{\n  // note\n  \"a\": \"x//y\", /* block\n */ \"b\": 1 / 2\n}";
    let once = strip_jsonc_comments(text).expect("closed comments");
    let twice = strip_jsonc_comments(once.as_str()).expect("no comments left");
    assert_eq!(once, twice);
    assert_eq!(once.matches('\n').count(), text.matches('\n').count());
    assert!(once.len() <= text.len());
}

#[test]
fn catalog_strings_name_one_site_each() {
    let sites = [
        ProvisioningSite::Sin,
        ProvisioningSite::Gru,
        ProvisioningSite::Lej,
        ProvisioningSite::Iad,
        ProvisioningSite::Ams,
        ProvisioningSite::Ash,
    ];
    for (i, a) in sites.iter().enumerate() {
        for (j, b) in sites.iter().enumerate() {
            assert_eq!(a.as_catalog_str() == b.as_catalog_str(), i == j);
        }
    }
    assert_eq!(ProvisioningSite::Lej.as_catalog_str(), "lej");
}

#[test]
fn every_canonical_datacenter_code_parses_back_from_its_id() {
    let aliases = ["DAL", "LON", "NYC", "SIG", "SFO", "YYZ"];
    for (name, code) in [
        ("AMS", VultrDatacenterCode::AMS),
        ("ATL", VultrDatacenterCode::ATL),
        ("BLR", VultrDatacenterCode::BLR),
        ("BOM", VultrDatacenterCode::BOM),
        ("CDG", VultrDatacenterCode::CDG),
        ("DEL", VultrDatacenterCode::DEL),
        ("DFW", VultrDatacenterCode::DFW),
        ("DAL", VultrDatacenterCode::DAL),
        ("EWR", VultrDatacenterCode::EWR),
        ("FRA", VultrDatacenterCode::FRA),
        ("HNL", VultrDatacenterCode::HNL),
        ("IAD", VultrDatacenterCode::IAD),
        ("ICN", VultrDatacenterCode::ICN),
        ("ITM", VultrDatacenterCode::ITM),
        ("JNB", VultrDatacenterCode::JNB),
        ("LAX", VultrDatacenterCode::LAX),
        ("LHR", VultrDatacenterCode::LHR),
        ("LON", VultrDatacenterCode::LON),
        ("MAD", VultrDatacenterCode::MAD),
        ("MAN", VultrDatacenterCode::MAN),
        ("MEL", VultrDatacenterCode::MEL),
        ("MEX", VultrDatacenterCode::MEX),
        ("MIA", VultrDatacenterCode::MIA),
        ("MXP", VultrDatacenterCode::MXP),
        ("NRT", VultrDatacenterCode::NRT),
        ("NYC", VultrDatacenterCode::NYC),
        ("ORD", VultrDatacenterCode::ORD),
        ("SAO", VultrDatacenterCode::SAO),
        ("SCL", VultrDatacenterCode::SCL),
        ("SEA", VultrDatacenterCode::SEA),
        ("SGP", VultrDatacenterCode::SGP),
        ("SIG", VultrDatacenterCode::SIG),
        ("SJC", VultrDatacenterCode::SJC),
        ("SFO", VultrDatacenterCode::SFO),
        ("STO", VultrDatacenterCode::STO),
        ("SYD", VultrDatacenterCode::SYD),
        ("TLV", VultrDatacenterCode::TLV),
        ("WAW", VultrDatacenterCode::WAW),
        ("YTO", VultrDatacenterCode::YTO),
        ("YYZ", VultrDatacenterCode::YYZ),
    ] {
        if !aliases.contains(&name) {
            assert_eq!(VultrDatacenterCode::parse_id(code.id()), Some(code));
        }
    }
    for text in ["ams", "nyc", "lon", "xyz", ""] {
        if let Some(code) = VultrDatacenterCode::parse_id(text) {
            assert!(code.id() == text || (text == "nyc" && code == VultrDatacenterCode::NYC));
        }
    }
}

#[test]
fn plan_type_code_family_parses_from_its_api_code() {
    for code in [
        VultrPlanTypeCode::All,
        VultrPlanTypeCode::Vc2,
        VultrPlanTypeCode::Vdc,
        VultrPlanTypeCode::Vhf,
        VultrPlanTypeCode::Vhp,
        VultrPlanTypeCode::Voc,
        VultrPlanTypeCode::VocG,
        VultrPlanTypeCode::VocC,
        VultrPlanTypeCode::VocM,
        VultrPlanTypeCode::VocS,
        VultrPlanTypeCode::Vbm,
        VultrPlanTypeCode::Vcg,
    ] {
        match code.family() {
            None => assert_eq!(code, VultrPlanTypeCode::All),
            Some(family) => assert_eq!(VultrPlanType::parse(code.as_api_code()), Ok(family)),
        }
    }
}

#[test]
fn jsonc_stripping_never_lengthens_in_bytes() {
    for text in ["// \u{e9}t\u{e9}", "a/*\u{1f600}*/b", "\"\u{e9}\" // c\n", "x"] {
        let stripped = strip_jsonc_comments(text).expect("closed comments");
        assert!(stripped.len() <= text.len());
        assert_eq!(strip_jsonc_comments(&stripped).expect("again"), stripped);
    }
}
