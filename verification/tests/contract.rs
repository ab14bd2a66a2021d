use std::collections::BTreeSet;

use hephaestus::contract::dto::{
    provider_location_entries, provider_location_mapping, InfrastructureProvider,
    ProvisioningDataRegion, ProvisioningPlacementKind, ProvisioningSite,
};
use hephaestus::contract::node::agent_registration_signature_payload;
use hephaestus::hephaestus::node::{
    HephaestusAgentBootReport, HephaestusAgentPublicKey, HephaestusAgentPublicKeyFingerprint,
    HephaestusPrivateIpAddress, HephaestusProviderServerId, HephaestusServerBootTiming,
    HephaestusServerId, HephaestusServerIdentity, HephaestusServerNetwork,
};
use hephaestus::hephaestus::region::HephaestusSiteId;

#[test]
fn provider_location_matrix_maps_provider_specific_ids_to_reallyme_sites() {
    assert_eq!(
        provider_location_mapping(InfrastructureProvider::Vultr, "sgp")
            .map(|mapping| (mapping.site, mapping.data_region, mapping.placement_kind, mapping.canonical)),
        Some((
            ProvisioningSite::Sin,
            ProvisioningDataRegion::NoDataRegion,
            ProvisioningPlacementKind::Edge,
            false
        ))
    );
    assert_eq!(
        provider_location_mapping(InfrastructureProvider::Vultr, "sao")
            .map(|mapping| (mapping.site, mapping.data_region, mapping.placement_kind, mapping.canonical)),
        Some((
            ProvisioningSite::Gru,
            ProvisioningDataRegion::NoDataRegion,
            ProvisioningPlacementKind::Edge,
            false
        ))
    );
    assert_eq!(
        provider_location_mapping(InfrastructureProvider::Hetzner, "fsn1")
            .map(|mapping| (mapping.site, mapping.data_region, mapping.placement_kind, mapping.canonical)),
        Some((
            ProvisioningSite::Lej,
            ProvisioningDataRegion::Eu,
            ProvisioningPlacementKind::Regional,
            false
        ))
    );
    assert_eq!(
        provider_location_mapping(InfrastructureProvider::Hetzner, "ash")
            .map(|mapping| (mapping.site, mapping.data_region, mapping.placement_kind, mapping.canonical)),
        Some((
            ProvisioningSite::Iad,
            ProvisioningDataRegion::Us,
            ProvisioningPlacementKind::Regional,
            false
        ))
    );
}

#[test]
fn provider_location_matrix_has_unique_provider_location_keys() {
    let mut seen = BTreeSet::new();
    for mapping in provider_location_entries() {
        assert!(
            seen.insert((mapping.provider.as_catalog_str(), mapping.provider_location_id)),
            "duplicate provider location key"
        );
    }
}

#[test]
fn provider_location_matrix_rejects_unknown_provider_location() {
    assert_eq!(provider_location_mapping(InfrastructureProvider::Hetzner, "ams"), None);
    assert_eq!(provider_location_mapping(InfrastructureProvider::Vultr, "fsn1"), None);
}

#[test]
fn agent_registration_signature_payload_matches_expected_wire_format() {
    let report = HephaestusAgentBootReport::new(
        HephaestusServerIdentity::new(
            HephaestusServerId::new("srv-lhr-01").expect("valid server"),
            HephaestusProviderServerId::new("provider-server-1").expect("valid provider"),
            HephaestusSiteId::new("lhr").expect("valid site"),
        ),
        HephaestusServerNetwork::new(
            None,
            Some(HephaestusPrivateIpAddress::new("10.1.100.10").expect("valid private ip")),
        ),
        HephaestusServerBootTiming::new(1_700_000_000, 1_700_000_001).expect("valid timing"),
    )
    .expect("valid report");

    let fingerprint = "a".repeat(64);
    let payload = agent_registration_signature_payload(
        &report,
        "hephaestus-agent/1.2.3",
        &HephaestusAgentPublicKey::new("MDAwMDAwMDAwMDAwMDAwMDAwMDAwMDAwMDAwMDAwMDA")
            .expect("valid public key"),
        &HephaestusAgentPublicKeyFingerprint::new(fingerprint.as_str()).expect("valid fingerprint"),
    );

    let expected = format!(
        "reallyme:hephaestus-agent-register:v1\n\
server_id=srv-lhr-01\n\
provider_server_id=provider-server-1\n\
site_id=lhr\n\
private_ip=10.1.100.10\n\
agent_version=hephaestus-agent/1.2.3\n\
agent_public_key=MDAwMDAwMDAwMDAwMDAwMDAwMDAwMDAwMDAwMDAwMDA\n\
agent_public_key_fingerprint={fingerprint}\n"
    );

    assert_eq!(payload, expected);
}
