use hephaestus::vultr::bootstrap::{DockerImageReference, DockerVolumeMount, SshAuthorizedKey};
use hephaestus::vultr::error::VultrError;
use hephaestus::vultr::types::{VultrDatacenterCode, VultrPlanId, VultrPlanTypeCode, VultrRegionId};

#[test]
fn docker_image_reference_rejects_shell_metacharacters() {
    assert_eq!(
        DockerImageReference::new("ghcr.io/reallyme/app:latest;rm -rf /"),
        Err(VultrError::InvalidCharacter)
    );
}

#[test]
fn ssh_authorized_key_requires_known_key_prefix() {
    assert_eq!(
        SshAuthorizedKey::new("not-a-key AAAAC3NzaC1lZDI1NTE5AAAAIFixtureKey").err(),
        Some(VultrError::InvalidCharacter)
    );
}

#[test]
fn docker_volume_mount_requires_host_and_container_path() {
    assert_eq!(DockerVolumeMount::new("/root/var/lib/app"), Err(VultrError::InvalidCharacter));
}

#[test]
fn region_id_rejects_empty_values() {
    assert_eq!(VultrRegionId::new(" "), Err(VultrError::Empty));
}

#[test]
fn plan_id_rejects_uppercase_values() {
    assert_eq!(VultrPlanId::new("VC2-1C-1GB"), Err(VultrError::InvalidCharacter));
}

#[test]
fn plan_id_accepts_current_vultr_shape() {
    let value = VultrPlanId::new("vc2-1c-2gb").expect("valid plan id fixture");
    assert_eq!(value.as_str(), "vc2-1c-2gb");
}

#[test]
fn datacenter_code_maps_current_vultr_ids() {
    let current_vultr_region_ids: &[&str] = &[
        "ams", "atl", "blr", "ord", "dfw", "del", "fra", "hnl", "jnb", "lhr", "lax", "mad", "man",
        "mel", "mex", "mia", "mxp", "bom", "ewr", "itm", "cdg", "scl", "sao", "sea", "icn", "sjc",
        "sgp", "sto", "syd", "tlv", "nrt", "yto", "waw",
    ];

    for region_id in current_vultr_region_ids {
        assert!(
            VultrDatacenterCode::parse_id(region_id).is_some(),
            "missing Vultr region id fixture: {region_id}"
        );
    }

    assert_eq!(VultrDatacenterCode::parse_id("mxp"), Some(VultrDatacenterCode::MXP));
    assert_eq!(VultrDatacenterCode::DFW.id(), "dfw");
    assert_eq!(VultrDatacenterCode::EWR.id(), "ewr");
    assert_eq!(VultrDatacenterCode::SJC.id(), "sjc");
    assert_eq!(VultrDatacenterCode::YTO.id(), "yto");
    assert_eq!(VultrDatacenterCode::parse_id("future-region"), None);
}

#[test]
fn datacenter_code_preserves_legacy_reallyme_aliases() {
    assert_eq!(VultrDatacenterCode::LON.id(), "lhr");
    assert_eq!(VultrDatacenterCode::NYC.id(), "ewr");
    assert_eq!(VultrDatacenterCode::SIG.id(), "sgp");
    assert_eq!(VultrDatacenterCode::DAL.id(), "dfw");
    assert_eq!(VultrDatacenterCode::SFO.id(), "sjc");
    assert_eq!(VultrDatacenterCode::YYZ.id(), "yto");
}

#[test]
fn plan_type_code_parses_current_vultr_filters() {
    assert_eq!(
        VultrPlanTypeCode::parse("voc-g").expect("valid optimized plan code"),
        VultrPlanTypeCode::VocG
    );
    assert_eq!(VultrPlanTypeCode::Vhp.as_api_code(), "vhp");
    assert!(VultrPlanTypeCode::All.family().is_none());
}
