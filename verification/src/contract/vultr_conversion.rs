//! Conversion between Vultr wire messages and validated Vultr domain values.
//!
//! As for the Hephaestus messages, an empty string or a zero means
//! "absent", and the first refused field decides the error.
use vstd::prelude::*;

use crate::contract::domain_conversion::text_or_empty;
use crate::contract::wire::{
    ProtoVultrInstance, ProtoVultrInstanceStatus, ProtoVultrInstanceTemplate,
    ProtoVultrInstanceTemplateView, ProtoVultrInstanceView, ProtoVultrPlan, ProtoVultrPlanType,
    ProtoVultrPlanView, ProtoVultrRegion, ProtoVultrRegionView, ProtoVultrVpc, ProtoVultrVpcView,
    ProtoVultrContainerArtifact, ProtoVultrContainerArtifactView, ProtoVultrContainerRegistry,
    ProtoVultrContainerRegistryView, ProtoVultrContainerRepository, ProtoVultrContainerRepositoryView,
};
use crate::text::{lemma_tokens_outcome_idempotent, trim, CharClass};
use crate::vultr::error::{lemma_vultr_token_idempotent, lemma_vultr_tokens_fixed, vultr_token, vultr_tokens, VultrError};
use crate::vultr::types::{
    cloud_init_fault, ssh_key_id_texts, vfs_id_texts, vpc_id_texts, VultrCloudInitUserData,
    VultrInstanceTemplate, VultrInstanceTemplateId, VultrIsoId, VultrLabel, VultrMarketplaceAppId,
    VultrMarketplaceImageId, VultrOperatingSystemId, VultrPlanId, VultrSnapshotId, VultrSshKeyId,
    VultrStartupScriptId, VultrVfsId, VultrVpcId, MAX_INSTANCE_TEMPLATE_ID_BYTES, MAX_ISO_ID_BYTES,
    MAX_LABEL_BYTES, MAX_PLAN_ID_BYTES, MAX_SNAPSHOT_ID_BYTES, MAX_SSH_KEY_ID_BYTES,
    MAX_STARTUP_SCRIPT_ID_BYTES, MAX_VFS_ID_BYTES, MAX_VPC_ID_BYTES, public_text_fault,
    VultrCountryCode, VultrInstance, VultrInstanceId, VultrInstanceNetwork, VultrInstanceStatus,
    VultrPlan, VultrPlanType, VultrPrivateIpAddress, VultrPublicIpAddress, VultrRegion,
    VultrRegionId, VultrVpc, MAX_COUNTRY_CODE_BYTES, MAX_INSTANCE_ID_BYTES, MAX_PRIVATE_IP_BYTES,
    MAX_PUBLIC_IP_BYTES, MAX_REGION_ID_BYTES, tag_texts, VultrContainerArtifact,
    VultrContainerArtifactDigest, VultrContainerRegistry, VultrContainerRegistryId,
    VultrContainerRegistryName, VultrContainerRegistryUrn, VultrContainerRepository,
    VultrContainerRepositoryName, VultrTag, MAX_ARTIFACT_DIGEST_BYTES, MAX_REGISTRY_ID_BYTES,
    MAX_REGISTRY_NAME_BYTES, MAX_REGISTRY_URN_BYTES, MAX_REPOSITORY_NAME_BYTES, MAX_TAG_BYTES,
};
use vstd::string::{StrSliceExecFns, StringExecFns};

verus! {

/// An optional Vultr token on the wire: the empty text stands for "absent"
/// and is kept; any other text must be a valid token and is trimmed.
pub open spec fn empty_or_vultr_token(s: Seq<char>, max: nat, k: CharClass) -> Result<Seq<char>, VultrError> {
    if s.len() == 0 {
        Ok(s)
    } else {
        vultr_token(s, max, k)
    }
}

/// Optional cloud-init user data on the wire: the empty text stands for
/// "absent"; any other text must be valid user data and is kept as given.
pub open spec fn empty_or_user_data(s: Seq<char>) -> Result<Seq<char>, VultrError> {
    if s.len() == 0 {
        Ok(s)
    } else {
        match cloud_init_fault(s) {
            Some(e) => Err(e),
            None => Ok(s),
        }
    }
}

/// The number behind an optional numeric identifier, zero when absent.
pub open spec fn number_or_zero<T: View<V = u32>>(v: Option<T>) -> u32 {
    match v {
        Some(x) => x@,
        None => 0,
    }
}

/// The wire content of a domain instance template.
pub open spec fn instance_template_view(v: VultrInstanceTemplate) -> ProtoVultrInstanceTemplateView {
    ProtoVultrInstanceTemplateView {
        id: v.spec_id()@,
        plan: v.spec_plan()@,
        label: text_or_empty(v.spec_label()),
        os_id: number_or_zero(v.spec_os_id()),
        iso_id: text_or_empty(v.spec_iso_id()),
        snapshot_id: text_or_empty(v.spec_snapshot_id()),
        marketplace_app_id: number_or_zero(v.spec_marketplace_app_id()),
        marketplace_image_id: number_or_zero(v.spec_marketplace_image_id()),
        script_id: text_or_empty(v.spec_script_id()),
        ssh_key_ids: ssh_key_id_texts(v.spec_ssh_key_ids()),
        vpc_ids: vpc_id_texts(v.spec_vpc_ids()),
        vfs_ids: vfs_id_texts(v.spec_vfs_ids()),
        user_data: text_or_empty(v.spec_user_data()),
    }
}

/// What a wire instance template yields: the optional fields and lists are
/// checked first, in wire order, then the template and plan identifiers;
/// the first refused field decides the error. Otherwise the wire content of
/// the domain value, with every token trimmed.
pub open spec fn instance_template_outcome(p: ProtoVultrInstanceTemplateView) -> Result<
    ProtoVultrInstanceTemplateView,
    VultrError,
> {
    let label = empty_or_vultr_token(p.label, MAX_LABEL_BYTES as nat, CharClass::SafeLabel);
    let iso_id = empty_or_vultr_token(p.iso_id, MAX_ISO_ID_BYTES as nat, CharClass::LowercaseToken);
    let snapshot_id = empty_or_vultr_token(p.snapshot_id, MAX_SNAPSHOT_ID_BYTES as nat, CharClass::LowercaseToken);
    let script_id = empty_or_vultr_token(p.script_id, MAX_STARTUP_SCRIPT_ID_BYTES as nat, CharClass::LowercaseToken);
    let ssh_key_ids = vultr_tokens(p.ssh_key_ids, MAX_SSH_KEY_ID_BYTES as nat, CharClass::LowercaseToken);
    let vpc_ids = vultr_tokens(p.vpc_ids, MAX_VPC_ID_BYTES as nat, CharClass::LowercaseToken);
    let vfs_ids = vultr_tokens(p.vfs_ids, MAX_VFS_ID_BYTES as nat, CharClass::LowercaseToken);
    let user_data = empty_or_user_data(p.user_data);
    let id = vultr_token(p.id, MAX_INSTANCE_TEMPLATE_ID_BYTES as nat, CharClass::LowercaseToken);
    let plan = vultr_token(p.plan, MAX_PLAN_ID_BYTES as nat, CharClass::LowercaseToken);
    if label is Err {
        Err(label->Err_0)
    } else if iso_id is Err {
        Err(iso_id->Err_0)
    } else if snapshot_id is Err {
        Err(snapshot_id->Err_0)
    } else if script_id is Err {
        Err(script_id->Err_0)
    } else if ssh_key_ids is Err {
        Err(ssh_key_ids->Err_0)
    } else if vpc_ids is Err {
        Err(vpc_ids->Err_0)
    } else if vfs_ids is Err {
        Err(vfs_ids->Err_0)
    } else if user_data is Err {
        Err(user_data->Err_0)
    } else if id is Err {
        Err(id->Err_0)
    } else if plan is Err {
        Err(plan->Err_0)
    } else {
        Ok(
            ProtoVultrInstanceTemplateView {
                id: id->Ok_0,
                plan: plan->Ok_0,
                label: label->Ok_0,
                os_id: p.os_id,
                iso_id: iso_id->Ok_0,
                snapshot_id: snapshot_id->Ok_0,
                marketplace_app_id: p.marketplace_app_id,
                marketplace_image_id: p.marketplace_image_id,
                script_id: script_id->Ok_0,
                ssh_key_ids: ssh_key_ids->Ok_0,
                vpc_ids: vpc_ids->Ok_0,
                vfs_ids: vfs_ids->Ok_0,
                user_data: p.user_data,
            },
        )
    }
}

/// Converts a wire label; the empty text is "absent".
fn label_from_proto(value: &String) -> (r: Result<Option<VultrLabel>, VultrError>)
    ensures
        match empty_or_vultr_token(value@, MAX_LABEL_BYTES as nat, CharClass::SafeLabel) {
            Ok(t) => r is Ok && text_or_empty(r->Ok_0) == t && (r->Ok_0 is None <==> value@.len() == 0),
            Err(e) => r == Err::<Option<VultrLabel>, VultrError>(e),
        },
{
    if value.as_str().is_empty() {
        Ok(None)
    } else {
        match VultrLabel::new(value.as_str()) {
            Ok(v) => Ok(Some(v)),
            Err(e) => Err(e),
        }
    }
}

/// Converts a wire iso id; the empty text is "absent".
fn iso_id_from_proto(value: &String) -> (r: Result<Option<VultrIsoId>, VultrError>)
    ensures
        match empty_or_vultr_token(value@, MAX_ISO_ID_BYTES as nat, CharClass::LowercaseToken) {
            Ok(t) => r is Ok && text_or_empty(r->Ok_0) == t && (r->Ok_0 is None <==> value@.len() == 0),
            Err(e) => r == Err::<Option<VultrIsoId>, VultrError>(e),
        },
{
    if value.as_str().is_empty() {
        Ok(None)
    } else {
        match VultrIsoId::new(value.as_str()) {
            Ok(v) => Ok(Some(v)),
            Err(e) => Err(e),
        }
    }
}

/// Converts a wire snapshot id; the empty text is "absent".
fn snapshot_id_from_proto(value: &String) -> (r: Result<Option<VultrSnapshotId>, VultrError>)
    ensures
        match empty_or_vultr_token(value@, MAX_SNAPSHOT_ID_BYTES as nat, CharClass::LowercaseToken) {
            Ok(t) => r is Ok && text_or_empty(r->Ok_0) == t && (r->Ok_0 is None <==> value@.len() == 0),
            Err(e) => r == Err::<Option<VultrSnapshotId>, VultrError>(e),
        },
{
    if value.as_str().is_empty() {
        Ok(None)
    } else {
        match VultrSnapshotId::new(value.as_str()) {
            Ok(v) => Ok(Some(v)),
            Err(e) => Err(e),
        }
    }
}

/// Converts a wire script id; the empty text is "absent".
fn script_id_from_proto(value: &String) -> (r: Result<Option<VultrStartupScriptId>, VultrError>)
    ensures
        match empty_or_vultr_token(value@, MAX_STARTUP_SCRIPT_ID_BYTES as nat, CharClass::LowercaseToken) {
            Ok(t) => r is Ok && text_or_empty(r->Ok_0) == t && (r->Ok_0 is None <==> value@.len() == 0),
            Err(e) => r == Err::<Option<VultrStartupScriptId>, VultrError>(e),
        },
{
    if value.as_str().is_empty() {
        Ok(None)
    } else {
        match VultrStartupScriptId::new(value.as_str()) {
            Ok(v) => Ok(Some(v)),
            Err(e) => Err(e),
        }
    }
}

/// Converts wire user data; the empty text is "absent".
fn user_data_from_proto(value: &String) -> (r: Result<Option<VultrCloudInitUserData>, VultrError>)
    ensures
        match empty_or_user_data(value@) {
            Ok(t) => r is Ok && text_or_empty(r->Ok_0) == t && (r->Ok_0 is None <==> value@.len() == 0),
            Err(e) => r == Err::<Option<VultrCloudInitUserData>, VultrError>(e),
        },
{
    if value.as_str().is_empty() {
        Ok(None)
    } else {
        match VultrCloudInitUserData::new(value.as_str()) {
            Ok(v) => Ok(Some(v)),
            Err(e) => Err(e),
        }
    }
}

/// Converts a wire instance template into a domain value, as
/// [`instance_template_outcome`] describes; absent optional values stay
/// absent.
pub fn vultr_instance_template_from_proto(value: ProtoVultrInstanceTemplate) -> (r: Result<
    VultrInstanceTemplate,
    VultrError,
>)
    ensures
        match instance_template_outcome(value@) {
            Ok(n) => r is Ok && {
                let v = r->Ok_0;
                &&& instance_template_view(v) == n
                &&& (v.spec_label() is None <==> value.label@.len() == 0)
                &&& (v.spec_os_id() is None <==> value.os_id == 0)
                &&& (v.spec_iso_id() is None <==> value.iso_id@.len() == 0)
                &&& (v.spec_snapshot_id() is None <==> value.snapshot_id@.len() == 0)
                &&& (v.spec_marketplace_app_id() is None <==> value.marketplace_app_id == 0)
                &&& (v.spec_marketplace_image_id() is None <==> value.marketplace_image_id == 0)
                &&& (v.spec_script_id() is None <==> value.script_id@.len() == 0)
                &&& (v.spec_user_data() is None <==> value.user_data@.len() == 0)
            },
            Err(e) => r == Err::<VultrInstanceTemplate, VultrError>(e),
        },
{
    let label = match label_from_proto(&value.label) {
        Ok(v) => v,
        Err(e) => return Err(e),
    };
    let os_id = if value.os_id == 0 {
        None
    } else {
        match VultrOperatingSystemId::new(value.os_id) {
            Ok(v) => Some(v),
            Err(e) => return Err(e),
        }
    };
    let iso_id = match iso_id_from_proto(&value.iso_id) {
        Ok(v) => v,
        Err(e) => return Err(e),
    };
    let snapshot_id = match snapshot_id_from_proto(&value.snapshot_id) {
        Ok(v) => v,
        Err(e) => return Err(e),
    };
    let marketplace_app_id = if value.marketplace_app_id == 0 {
        None
    } else {
        match VultrMarketplaceAppId::new(value.marketplace_app_id) {
            Ok(v) => Some(v),
            Err(e) => return Err(e),
        }
    };
    let marketplace_image_id = if value.marketplace_image_id == 0 {
        None
    } else {
        match VultrMarketplaceImageId::new(value.marketplace_image_id) {
            Ok(v) => Some(v),
            Err(e) => return Err(e),
        }
    };
    let script_id = match script_id_from_proto(&value.script_id) {
        Ok(v) => v,
        Err(e) => return Err(e),
    };
    let ssh_key_ids = match VultrSshKeyId::from_texts(&value.ssh_key_ids) {
        Ok(v) => v,
        Err(e) => return Err(e),
    };
    let vpc_ids = match VultrVpcId::from_texts(&value.vpc_ids) {
        Ok(v) => v,
        Err(e) => return Err(e),
    };
    let vfs_ids = match VultrVfsId::from_texts(&value.vfs_ids) {
        Ok(v) => v,
        Err(e) => return Err(e),
    };
    let user_data = match user_data_from_proto(&value.user_data) {
        Ok(v) => v,
        Err(e) => return Err(e),
    };
    let id = match VultrInstanceTemplateId::new(value.id.as_str()) {
        Ok(v) => v,
        Err(e) => return Err(e),
    };
    let plan = match VultrPlanId::new(value.plan.as_str()) {
        Ok(v) => v,
        Err(e) => return Err(e),
    };
    Ok(
        VultrInstanceTemplate::new(
            id,
            plan,
            label,
            os_id,
            iso_id,
            snapshot_id,
            marketplace_app_id,
            marketplace_image_id,
            script_id,
            ssh_key_ids,
            vpc_ids,
            vfs_ids,
            user_data,
        ),
    )
}

/// The text of an optional value given with its text, empty when absent.
fn text_of<T: View<V = Seq<char>>>(v: Option<&T>, text: Option<&str>) -> (r: String)
    requires
        v is Some <==> text is Some,
        v is Some ==> text->Some_0@ == v->Some_0@,
    ensures
        r@ == match v {
            Some(x) => x@,
            None => Seq::<char>::empty(),
        },
{
    match text {
        Some(t) => t.to_string(),
        None => String::new(),
    }
}

/// Converts a domain instance template into its wire message; absent
/// values are written as empty strings or zeros.
///
/// The message is accepted by [`vultr_instance_template_from_proto`]
/// unchanged, so converting it back yields a template with the same wire
/// content; present user data that is empty comes back absent.
pub fn proto_vultr_instance_template_from_domain(value: &VultrInstanceTemplate) -> (r: ProtoVultrInstanceTemplate)
    ensures
        r@ == instance_template_view(*value),
        instance_template_outcome(r@) == Ok::<ProtoVultrInstanceTemplateView, VultrError>(r@),
        value.spec_label() is None <==> r.label@.len() == 0,
        value.spec_os_id() is None <==> r.os_id == 0,
        value.spec_iso_id() is None <==> r.iso_id@.len() == 0,
        value.spec_snapshot_id() is None <==> r.snapshot_id@.len() == 0,
        value.spec_marketplace_app_id() is None <==> r.marketplace_app_id == 0,
        value.spec_marketplace_image_id() is None <==> r.marketplace_image_id == 0,
        value.spec_script_id() is None <==> r.script_id@.len() == 0,
{
    let label = value.label();
    let iso_id = value.iso_id();
    let snapshot_id = value.snapshot_id();
    let script_id = value.script_id();
    let user_data = value.user_data();
    let id = value.id();
    let plan = value.plan();
    proof {
        use_type_invariant(id);
        use_type_invariant(plan);
    }
    if let Some(x) = label {
        proof {
            use_type_invariant(x);
        }
    }
    if let Some(x) = iso_id {
        proof {
            use_type_invariant(x);
        }
    }
    if let Some(x) = snapshot_id {
        proof {
            use_type_invariant(x);
        }
    }
    if let Some(x) = script_id {
        proof {
            use_type_invariant(x);
        }
    }
    if let Some(x) = user_data {
        proof {
            use_type_invariant(x);
        }
    }
    let os_id = value.os_id();
    let marketplace_app_id = value.marketplace_app_id();
    let marketplace_image_id = value.marketplace_image_id();
    if let Some(x) = os_id {
        proof {
            use_type_invariant(x);
        }
    }
    if let Some(x) = marketplace_app_id {
        proof {
            use_type_invariant(x);
        }
    }
    if let Some(x) = marketplace_image_id {
        proof {
            use_type_invariant(x);
        }
    }
    let ssh_key_ids = VultrSshKeyId::to_texts(value.ssh_key_ids());
    let vpc_ids = VultrVpcId::to_texts(value.vpc_ids());
    let vfs_ids = VultrVfsId::to_texts(value.vfs_ids());
    proof {
        let items = ssh_key_id_texts(value.spec_ssh_key_ids());
        assert forall|i: int| 0 <= i < items.len() implies vultr_token(#[trigger] items[i], MAX_SSH_KEY_ID_BYTES as nat, CharClass::LowercaseToken) == Ok::<Seq<char>, VultrError>(items[i]) by {
            assert(value.spec_ssh_key_ids()[i].valid());
        }
        lemma_vultr_tokens_fixed(items, MAX_SSH_KEY_ID_BYTES as nat, CharClass::LowercaseToken);
        let items = vpc_id_texts(value.spec_vpc_ids());
        assert forall|i: int| 0 <= i < items.len() implies vultr_token(#[trigger] items[i], MAX_VPC_ID_BYTES as nat, CharClass::LowercaseToken) == Ok::<Seq<char>, VultrError>(items[i]) by {
            assert(value.spec_vpc_ids()[i].valid());
        }
        lemma_vultr_tokens_fixed(items, MAX_VPC_ID_BYTES as nat, CharClass::LowercaseToken);
        let items = vfs_id_texts(value.spec_vfs_ids());
        assert forall|i: int| 0 <= i < items.len() implies vultr_token(#[trigger] items[i], MAX_VFS_ID_BYTES as nat, CharClass::LowercaseToken) == Ok::<Seq<char>, VultrError>(items[i]) by {
            assert(value.spec_vfs_ids()[i].valid());
        }
        lemma_vultr_tokens_fixed(items, MAX_VFS_ID_BYTES as nat, CharClass::LowercaseToken);
    }
    ProtoVultrInstanceTemplate {
        id: id.as_str().to_string(),
        plan: plan.as_str().to_string(),
        label: text_of(label, match label { Some(x) => Some(x.as_str()), None => None }),
        os_id: match os_id { Some(x) => x.get(), None => 0 },
        iso_id: text_of(iso_id, match iso_id { Some(x) => Some(x.as_str()), None => None }),
        snapshot_id: text_of(snapshot_id, match snapshot_id { Some(x) => Some(x.as_str()), None => None }),
        marketplace_app_id: match marketplace_app_id { Some(x) => x.get(), None => 0 },
        marketplace_image_id: match marketplace_image_id { Some(x) => x.get(), None => 0 },
        script_id: text_of(script_id, match script_id { Some(x) => Some(x.as_str()), None => None }),
        ssh_key_ids,
        vpc_ids,
        vfs_ids,
        user_data: text_of(user_data, match user_data { Some(x) => Some(x.expose_as_str()), None => None }),
    }
}

/// An optional Vultr token that is accepted is accepted again, unchanged.
pub proof fn lemma_empty_or_vultr_token_idempotent(s: Seq<char>, max: nat, k: CharClass)
    requires
        empty_or_vultr_token(s, max, k) is Ok,
    ensures
        empty_or_vultr_token(empty_or_vultr_token(s, max, k)->Ok_0, max, k) == empty_or_vultr_token(s, max, k),
{
    if s.len() != 0 {
        lemma_vultr_token_idempotent(s, max, k);
    }
}

/// Converting an instance template from the wire is stable: the wire
/// content of an accepted message converts again to that same content.
/// With the contracts of [`vultr_instance_template_from_proto`] and
/// [`proto_vultr_instance_template_from_domain`], a template read from the
/// wire and written back reads back as the same template.
pub proof fn lemma_instance_template_outcome_idempotent(p: ProtoVultrInstanceTemplateView)
    requires
        instance_template_outcome(p) is Ok,
    ensures
        instance_template_outcome(instance_template_outcome(p)->Ok_0) == instance_template_outcome(p),
{
    lemma_empty_or_vultr_token_idempotent(p.label, MAX_LABEL_BYTES as nat, CharClass::SafeLabel);
    lemma_empty_or_vultr_token_idempotent(p.iso_id, MAX_ISO_ID_BYTES as nat, CharClass::LowercaseToken);
    lemma_empty_or_vultr_token_idempotent(p.snapshot_id, MAX_SNAPSHOT_ID_BYTES as nat, CharClass::LowercaseToken);
    lemma_empty_or_vultr_token_idempotent(p.script_id, MAX_STARTUP_SCRIPT_ID_BYTES as nat, CharClass::LowercaseToken);
    lemma_tokens_outcome_idempotent(p.ssh_key_ids, MAX_SSH_KEY_ID_BYTES as nat, CharClass::LowercaseToken);
    lemma_tokens_outcome_idempotent(p.vpc_ids, MAX_VPC_ID_BYTES as nat, CharClass::LowercaseToken);
    lemma_tokens_outcome_idempotent(p.vfs_ids, MAX_VFS_ID_BYTES as nat, CharClass::LowercaseToken);
    lemma_vultr_token_idempotent(p.id, MAX_INSTANCE_TEMPLATE_ID_BYTES as nat, CharClass::LowercaseToken);
    lemma_vultr_token_idempotent(p.plan, MAX_PLAN_ID_BYTES as nat, CharClass::LowercaseToken);
}

/// The domain plan family a wire plan family names; `Unspecified` is refused as
/// `UnknownPlanType`.
pub open spec fn plan_type_outcome(p: ProtoVultrPlanType) -> Result<VultrPlanType, VultrError> {
    match p {
        ProtoVultrPlanType::Unspecified => Err(VultrError::UnknownPlanType),
        ProtoVultrPlanType::CloudCompute => Ok(VultrPlanType::CloudCompute),
        ProtoVultrPlanType::DedicatedCloud => Ok(VultrPlanType::DedicatedCloud),
        ProtoVultrPlanType::HighFrequency => Ok(VultrPlanType::HighFrequency),
        ProtoVultrPlanType::HighPerformance => Ok(VultrPlanType::HighPerformance),
        ProtoVultrPlanType::OptimizedCloud => Ok(VultrPlanType::OptimizedCloud),
        ProtoVultrPlanType::BareMetal => Ok(VultrPlanType::BareMetal),
        ProtoVultrPlanType::CloudGpu => Ok(VultrPlanType::CloudGpu),
    }
}

/// The wire plan family of a domain plan family.
pub open spec fn proto_plan_type(d: VultrPlanType) -> ProtoVultrPlanType {
    match d {
        VultrPlanType::CloudCompute => ProtoVultrPlanType::CloudCompute,
        VultrPlanType::DedicatedCloud => ProtoVultrPlanType::DedicatedCloud,
        VultrPlanType::HighFrequency => ProtoVultrPlanType::HighFrequency,
        VultrPlanType::HighPerformance => ProtoVultrPlanType::HighPerformance,
        VultrPlanType::OptimizedCloud => ProtoVultrPlanType::OptimizedCloud,
        VultrPlanType::BareMetal => ProtoVultrPlanType::BareMetal,
        VultrPlanType::CloudGpu => ProtoVultrPlanType::CloudGpu,
    }
}

/// Converts the plan family carried by a wire message into a domain plan
/// family; `Unspecified` is refused as an unknown plan type.
pub fn vultr_plan_type_from_proto_i32(p: ProtoVultrPlanType) -> (r: Result<VultrPlanType, VultrError>)
    ensures
        r == plan_type_outcome(p),
{
    match p {
        ProtoVultrPlanType::Unspecified => Err(VultrError::UnknownPlanType),
        ProtoVultrPlanType::CloudCompute => Ok(VultrPlanType::CloudCompute),
        ProtoVultrPlanType::DedicatedCloud => Ok(VultrPlanType::DedicatedCloud),
        ProtoVultrPlanType::HighFrequency => Ok(VultrPlanType::HighFrequency),
        ProtoVultrPlanType::HighPerformance => Ok(VultrPlanType::HighPerformance),
        ProtoVultrPlanType::OptimizedCloud => Ok(VultrPlanType::OptimizedCloud),
        ProtoVultrPlanType::BareMetal => Ok(VultrPlanType::BareMetal),
        ProtoVultrPlanType::CloudGpu => Ok(VultrPlanType::CloudGpu),
    }
}

/// Converts a domain plan family into its wire plan family.
pub fn proto_vultr_plan_type_from_domain(d: VultrPlanType) -> (p: ProtoVultrPlanType)
    ensures
        p == proto_plan_type(d),
{
    match d {
        VultrPlanType::CloudCompute => ProtoVultrPlanType::CloudCompute,
        VultrPlanType::DedicatedCloud => ProtoVultrPlanType::DedicatedCloud,
        VultrPlanType::HighFrequency => ProtoVultrPlanType::HighFrequency,
        VultrPlanType::HighPerformance => ProtoVultrPlanType::HighPerformance,
        VultrPlanType::OptimizedCloud => ProtoVultrPlanType::OptimizedCloud,
        VultrPlanType::BareMetal => ProtoVultrPlanType::BareMetal,
        VultrPlanType::CloudGpu => ProtoVultrPlanType::CloudGpu,
    }
}

/// The domain instance status a wire instance status names; `Unspecified` is refused as
/// `UnknownInstanceStatus`.
pub open spec fn instance_status_outcome(p: ProtoVultrInstanceStatus) -> Result<VultrInstanceStatus, VultrError> {
    match p {
        ProtoVultrInstanceStatus::Unspecified => Err(VultrError::UnknownInstanceStatus),
        ProtoVultrInstanceStatus::Pending => Ok(VultrInstanceStatus::Pending),
        ProtoVultrInstanceStatus::Active => Ok(VultrInstanceStatus::Active),
        ProtoVultrInstanceStatus::Stopped => Ok(VultrInstanceStatus::Stopped),
        ProtoVultrInstanceStatus::Suspended => Ok(VultrInstanceStatus::Suspended),
    }
}

/// The wire instance status of a domain instance status.
pub open spec fn proto_instance_status(d: VultrInstanceStatus) -> ProtoVultrInstanceStatus {
    match d {
        VultrInstanceStatus::Pending => ProtoVultrInstanceStatus::Pending,
        VultrInstanceStatus::Active => ProtoVultrInstanceStatus::Active,
        VultrInstanceStatus::Stopped => ProtoVultrInstanceStatus::Stopped,
        VultrInstanceStatus::Suspended => ProtoVultrInstanceStatus::Suspended,
    }
}

/// Converts the instance status carried by a wire message into a domain
/// status; `Unspecified` is refused as an unknown instance status.
pub fn vultr_instance_status_from_proto_i32(p: ProtoVultrInstanceStatus) -> (r: Result<VultrInstanceStatus, VultrError>)
    ensures
        r == instance_status_outcome(p),
{
    match p {
        ProtoVultrInstanceStatus::Unspecified => Err(VultrError::UnknownInstanceStatus),
        ProtoVultrInstanceStatus::Pending => Ok(VultrInstanceStatus::Pending),
        ProtoVultrInstanceStatus::Active => Ok(VultrInstanceStatus::Active),
        ProtoVultrInstanceStatus::Stopped => Ok(VultrInstanceStatus::Stopped),
        ProtoVultrInstanceStatus::Suspended => Ok(VultrInstanceStatus::Suspended),
    }
}

/// Converts a domain instance status into its wire instance status.
pub fn proto_vultr_instance_status_from_domain(d: VultrInstanceStatus) -> (p: ProtoVultrInstanceStatus)
    ensures
        p == proto_instance_status(d),
{
    match d {
        VultrInstanceStatus::Pending => ProtoVultrInstanceStatus::Pending,
        VultrInstanceStatus::Active => ProtoVultrInstanceStatus::Active,
        VultrInstanceStatus::Stopped => ProtoVultrInstanceStatus::Stopped,
        VultrInstanceStatus::Suspended => ProtoVultrInstanceStatus::Suspended,
    }
}

/// The wire content of a Vultr region.
pub open spec fn region_view(v: VultrRegion) -> ProtoVultrRegionView {
    ProtoVultrRegionView { id: v.spec_id()@, city: v.spec_city(), country: v.spec_country()@, continent: v.spec_continent() }
}

/// What a wire Vultr region yields: the identifier, the country code, then
/// the city and continent texts; identifiers are trimmed, texts kept.
pub open spec fn region_outcome(p: ProtoVultrRegionView) -> Result<ProtoVultrRegionView, VultrError> {
    let id = vultr_token(p.id, MAX_REGION_ID_BYTES as nat, CharClass::LowercaseToken);
    let country = vultr_token(p.country, MAX_COUNTRY_CODE_BYTES as nat, CharClass::UppercaseToken);
    if id is Err {
        Err(id->Err_0)
    } else if country is Err {
        Err(country->Err_0)
    } else if public_text_fault(p.city, MAX_LABEL_BYTES as nat) is Some {
        Err(public_text_fault(p.city, MAX_LABEL_BYTES as nat)->Some_0)
    } else if public_text_fault(p.continent, MAX_LABEL_BYTES as nat) is Some {
        Err(public_text_fault(p.continent, MAX_LABEL_BYTES as nat)->Some_0)
    } else {
        Ok(ProtoVultrRegionView { id: id->Ok_0, city: p.city, country: country->Ok_0, continent: p.continent })
    }
}

/// Converts a wire Vultr region, as [`region_outcome`] describes.
pub fn vultr_region_from_proto(value: ProtoVultrRegion) -> (r: Result<VultrRegion, VultrError>)
    ensures
        match region_outcome(value@) {
            Ok(n) => r is Ok && region_view(r->Ok_0) == n,
            Err(e) => r == Err::<VultrRegion, VultrError>(e),
        },
{
    let id = match VultrRegionId::new(value.id.as_str()) {
        Ok(v) => v,
        Err(e) => return Err(e),
    };
    let country = match VultrCountryCode::new(value.country.as_str()) {
        Ok(v) => v,
        Err(e) => return Err(e),
    };
    VultrRegion::new(id, value.city, country, value.continent)
}

/// Converts a Vultr region into its wire message.
pub fn proto_vultr_region_from_domain(value: &VultrRegion) -> (r: ProtoVultrRegion)
    ensures
        r@ == region_view(*value),
{
    ProtoVultrRegion {
        id: value.id().as_str().to_string(),
        city: value.city().to_string(),
        country: value.country().as_str().to_string(),
        continent: value.continent().to_string(),
    }
}

/// The wire content of a Vultr plan.
pub open spec fn plan_view(v: VultrPlan) -> ProtoVultrPlanView {
    ProtoVultrPlanView {
        id: v.spec_id()@,
        plan_type: proto_plan_type(v.spec_plan_type()),
        vcpu_count: v.spec_vcpu_count(),
        ram_mb: v.spec_ram_mb(),
        disk_gb: v.spec_disk_gb(),
        monthly_cost_cents: v.spec_monthly_cost_cents(),
    }
}

/// What a wire Vultr plan yields: the identifier, the family, then the
/// rule that CPU, memory and disk are non-zero.
pub open spec fn plan_outcome(p: ProtoVultrPlanView) -> Result<ProtoVultrPlanView, VultrError> {
    let id = vultr_token(p.id, MAX_PLAN_ID_BYTES as nat, CharClass::LowercaseToken);
    let plan_type = plan_type_outcome(p.plan_type);
    if id is Err {
        Err(id->Err_0)
    } else if plan_type is Err {
        Err(plan_type->Err_0)
    } else if p.vcpu_count == 0 || p.ram_mb == 0 || p.disk_gb == 0 {
        Err(VultrError::InvalidNumber)
    } else {
        Ok(ProtoVultrPlanView { id: id->Ok_0, ..p })
    }
}

/// Converts a wire Vultr plan, as [`plan_outcome`] describes.
pub fn vultr_plan_from_proto(value: ProtoVultrPlan) -> (r: Result<VultrPlan, VultrError>)
    ensures
        match plan_outcome(value@) {
            Ok(n) => r is Ok && plan_view(r->Ok_0) == n,
            Err(e) => r == Err::<VultrPlan, VultrError>(e),
        },
{
    let id = match VultrPlanId::new(value.id.as_str()) {
        Ok(v) => v,
        Err(e) => return Err(e),
    };
    let plan_type = match vultr_plan_type_from_proto_i32(value.plan_type) {
        Ok(v) => v,
        Err(e) => return Err(e),
    };
    VultrPlan::new(id, plan_type, value.vcpu_count, value.ram_mb, value.disk_gb, value.monthly_cost_cents)
}

/// Converts a Vultr plan into its wire message.
pub fn proto_vultr_plan_from_domain(value: &VultrPlan) -> (r: ProtoVultrPlan)
    ensures
        r@ == plan_view(*value),
{
    ProtoVultrPlan {
        id: value.id().as_str().to_string(),
        plan_type: proto_vultr_plan_type_from_domain(value.plan_type()),
        vcpu_count: value.vcpu_count(),
        ram_mb: value.ram_mb(),
        disk_gb: value.disk_gb(),
        monthly_cost_cents: value.monthly_cost_cents(),
    }
}

/// The wire content of a Vultr VPC.
pub open spec fn vpc_view(v: VultrVpc) -> ProtoVultrVpcView {
    ProtoVultrVpcView {
        id: v.spec_id()@,
        region: v.spec_region()@,
        description: v.spec_description(),
        ip_block: v.spec_ip_block(),
        prefix_length: v.spec_prefix_length() as u32,
    }
}

/// What a wire Vultr VPC yields: the identifier, the region, a prefix
/// length beyond `u8`, then the description, address block and the prefix
/// bound of 32.
pub open spec fn vpc_outcome(p: ProtoVultrVpcView) -> Result<ProtoVultrVpcView, VultrError> {
    let id = vultr_token(p.id, MAX_VPC_ID_BYTES as nat, CharClass::LowercaseToken);
    let region = vultr_token(p.region, MAX_REGION_ID_BYTES as nat, CharClass::LowercaseToken);
    if id is Err {
        Err(id->Err_0)
    } else if region is Err {
        Err(region->Err_0)
    } else if p.prefix_length > u8::MAX {
        Err(VultrError::InvalidNumber)
    } else if public_text_fault(p.description, MAX_LABEL_BYTES as nat) is Some {
        Err(public_text_fault(p.description, MAX_LABEL_BYTES as nat)->Some_0)
    } else if public_text_fault(p.ip_block, MAX_LABEL_BYTES as nat) is Some {
        Err(public_text_fault(p.ip_block, MAX_LABEL_BYTES as nat)->Some_0)
    } else if p.prefix_length > 32 {
        Err(VultrError::InvalidNumber)
    } else {
        Ok(ProtoVultrVpcView { id: id->Ok_0, region: region->Ok_0, ..p })
    }
}

/// Converts a wire Vultr VPC, as [`vpc_outcome`] describes.
pub fn vultr_vpc_from_proto(value: ProtoVultrVpc) -> (r: Result<VultrVpc, VultrError>)
    ensures
        match vpc_outcome(value@) {
            Ok(n) => r is Ok && vpc_view(r->Ok_0) == n,
            Err(e) => r == Err::<VultrVpc, VultrError>(e),
        },
{
    let id = match VultrVpcId::new(value.id.as_str()) {
        Ok(v) => v,
        Err(e) => return Err(e),
    };
    let region = match VultrRegionId::new(value.region.as_str()) {
        Ok(v) => v,
        Err(e) => return Err(e),
    };
    if value.prefix_length > 255 {
        return Err(VultrError::InvalidNumber);
    }
    VultrVpc::new(id, region, value.description, value.ip_block, value.prefix_length as u8)
}

/// Converts a Vultr VPC into its wire message.
pub fn proto_vultr_vpc_from_domain(value: &VultrVpc) -> (r: ProtoVultrVpc)
    ensures
        r@ == vpc_view(*value),
{
    ProtoVultrVpc {
        id: value.id().as_str().to_string(),
        region: value.region().as_str().to_string(),
        description: value.description().to_string(),
        ip_block: value.ip_block().to_string(),
        prefix_length: value.prefix_length() as u32,
    }
}

/// The wire content of a Vultr instance; absent addresses are empty.
pub open spec fn instance_view(v: VultrInstance) -> ProtoVultrInstanceView {
    ProtoVultrInstanceView {
        id: v.spec_id()@,
        region: v.spec_region()@,
        plan: v.spec_plan()@,
        label: v.spec_label()@,
        status: proto_instance_status(v.spec_status()),
        main_ip: text_or_empty(v.spec_main_ip()),
        internal_ip: text_or_empty(v.spec_internal_ip()),
        vpc_ids: vpc_id_texts(v.spec_vpc_ids()),
        vpc_only: v.spec_vpc_only(),
    }
}

/// What a wire Vultr instance yields: the public and private addresses and
/// the VPC list first, then the identifier, region, plan, label and status;
/// tokens are trimmed.
pub open spec fn instance_outcome(p: ProtoVultrInstanceView) -> Result<ProtoVultrInstanceView, VultrError> {
    let main_ip = empty_or_vultr_token(p.main_ip, MAX_PUBLIC_IP_BYTES as nat, CharClass::IpAddress);
    let internal_ip = empty_or_vultr_token(p.internal_ip, MAX_PRIVATE_IP_BYTES as nat, CharClass::IpAddress);
    let vpc_ids = vultr_tokens(p.vpc_ids, MAX_VPC_ID_BYTES as nat, CharClass::LowercaseToken);
    let id = vultr_token(p.id, MAX_INSTANCE_ID_BYTES as nat, CharClass::LowercaseToken);
    let region = vultr_token(p.region, MAX_REGION_ID_BYTES as nat, CharClass::LowercaseToken);
    let plan = vultr_token(p.plan, MAX_PLAN_ID_BYTES as nat, CharClass::LowercaseToken);
    let label = vultr_token(p.label, MAX_LABEL_BYTES as nat, CharClass::SafeLabel);
    let status = instance_status_outcome(p.status);
    if main_ip is Err {
        Err(main_ip->Err_0)
    } else if internal_ip is Err {
        Err(internal_ip->Err_0)
    } else if vpc_ids is Err {
        Err(vpc_ids->Err_0)
    } else if id is Err {
        Err(id->Err_0)
    } else if region is Err {
        Err(region->Err_0)
    } else if plan is Err {
        Err(plan->Err_0)
    } else if label is Err {
        Err(label->Err_0)
    } else if status is Err {
        Err(status->Err_0)
    } else {
        Ok(
            ProtoVultrInstanceView {
                id: id->Ok_0,
                region: region->Ok_0,
                plan: plan->Ok_0,
                label: label->Ok_0,
                status: p.status,
                main_ip: main_ip->Ok_0,
                internal_ip: internal_ip->Ok_0,
                vpc_ids: vpc_ids->Ok_0,
                vpc_only: p.vpc_only,
            },
        )
    }
}

/// Converts a wire public address; the empty text is "absent".
fn main_ip_from_proto(value: &String) -> (r: Result<Option<VultrPublicIpAddress>, VultrError>)
    ensures
        match empty_or_vultr_token(value@, MAX_PUBLIC_IP_BYTES as nat, CharClass::IpAddress) {
            Ok(t) => r is Ok && text_or_empty(r->Ok_0) == t && (r->Ok_0 is None <==> value@.len() == 0),
            Err(e) => r == Err::<Option<VultrPublicIpAddress>, VultrError>(e),
        },
{
    if value.as_str().is_empty() {
        Ok(None)
    } else {
        match VultrPublicIpAddress::new(value.as_str()) {
            Ok(v) => Ok(Some(v)),
            Err(e) => Err(e),
        }
    }
}

/// Converts a wire private address; the empty text is "absent".
fn internal_ip_from_proto(value: &String) -> (r: Result<Option<VultrPrivateIpAddress>, VultrError>)
    ensures
        match empty_or_vultr_token(value@, MAX_PRIVATE_IP_BYTES as nat, CharClass::IpAddress) {
            Ok(t) => r is Ok && text_or_empty(r->Ok_0) == t && (r->Ok_0 is None <==> value@.len() == 0),
            Err(e) => r == Err::<Option<VultrPrivateIpAddress>, VultrError>(e),
        },
{
    if value.as_str().is_empty() {
        Ok(None)
    } else {
        match VultrPrivateIpAddress::new(value.as_str()) {
            Ok(v) => Ok(Some(v)),
            Err(e) => Err(e),
        }
    }
}

/// Converts a wire Vultr instance, as [`instance_outcome`] describes;
/// absent addresses stay absent.
pub fn vultr_instance_from_proto(value: ProtoVultrInstance) -> (r: Result<VultrInstance, VultrError>)
    ensures
        match instance_outcome(value@) {
            Ok(n) => r is Ok && instance_view(r->Ok_0) == n
                && (r->Ok_0.spec_main_ip() is None <==> value.main_ip@.len() == 0)
                && (r->Ok_0.spec_internal_ip() is None <==> value.internal_ip@.len() == 0),
            Err(e) => r == Err::<VultrInstance, VultrError>(e),
        },
{
    let main_ip = match main_ip_from_proto(&value.main_ip) {
        Ok(v) => v,
        Err(e) => return Err(e),
    };
    let internal_ip = match internal_ip_from_proto(&value.internal_ip) {
        Ok(v) => v,
        Err(e) => return Err(e),
    };
    let vpc_ids = match VultrVpcId::from_texts(&value.vpc_ids) {
        Ok(v) => v,
        Err(e) => return Err(e),
    };
    let id = match VultrInstanceId::new(value.id.as_str()) {
        Ok(v) => v,
        Err(e) => return Err(e),
    };
    let region = match VultrRegionId::new(value.region.as_str()) {
        Ok(v) => v,
        Err(e) => return Err(e),
    };
    let plan = match VultrPlanId::new(value.plan.as_str()) {
        Ok(v) => v,
        Err(e) => return Err(e),
    };
    let label = match VultrLabel::new(value.label.as_str()) {
        Ok(v) => v,
        Err(e) => return Err(e),
    };
    let status = match vultr_instance_status_from_proto_i32(value.status) {
        Ok(v) => v,
        Err(e) => return Err(e),
    };
    Ok(VultrInstance::new(id, region, plan, label, status, VultrInstanceNetwork::new(main_ip, internal_ip, vpc_ids, value.vpc_only)))
}

/// Converts a Vultr instance into its wire message; absent addresses are
/// written as empty strings.
pub fn proto_vultr_instance_from_domain(value: &VultrInstance) -> (r: ProtoVultrInstance)
    ensures
        r@ == instance_view(*value),
{
    let main_ip = value.main_ip();
    let internal_ip = value.internal_ip();
    ProtoVultrInstance {
        id: value.id().as_str().to_string(),
        region: value.region().as_str().to_string(),
        plan: value.plan().as_str().to_string(),
        label: value.label().as_str().to_string(),
        status: proto_vultr_instance_status_from_domain(value.status()),
        main_ip: text_of(main_ip, match main_ip { Some(x) => Some(x.as_str()), None => None }),
        internal_ip: text_of(internal_ip, match internal_ip { Some(x) => Some(x.as_str()), None => None }),
        vpc_ids: VultrVpcId::to_texts(value.vpc_ids()),
        vpc_only: value.vpc_only(),
    }
}

/// The wire content of a container registry.
pub open spec fn registry_view(v: VultrContainerRegistry) -> ProtoVultrContainerRegistryView {
    ProtoVultrContainerRegistryView {
        id: v.spec_id()@,
        name: v.spec_name()@,
        public: v.spec_public(),
        urn: v.spec_urn()@,
        storage_bytes_used: v.spec_storage_bytes_used(),
    }
}

/// What a wire container registry yields: the identifier, name and URN in
/// that order; tokens are trimmed.
pub open spec fn registry_outcome(p: ProtoVultrContainerRegistryView) -> Result<ProtoVultrContainerRegistryView, VultrError> {
    let id = vultr_token(p.id, MAX_REGISTRY_ID_BYTES as nat, CharClass::LowercaseToken);
    let name = vultr_token(p.name, MAX_REGISTRY_NAME_BYTES as nat, CharClass::SafeLabel);
    let urn = vultr_token(p.urn, MAX_REGISTRY_URN_BYTES as nat, CharClass::Urn);
    if id is Err {
        Err(id->Err_0)
    } else if name is Err {
        Err(name->Err_0)
    } else if urn is Err {
        Err(urn->Err_0)
    } else {
        Ok(ProtoVultrContainerRegistryView { id: id->Ok_0, name: name->Ok_0, urn: urn->Ok_0, ..p })
    }
}

/// Converts a wire container registry, as [`registry_outcome`] describes.
pub fn vultr_container_registry_from_proto(value: ProtoVultrContainerRegistry) -> (r: Result<
    VultrContainerRegistry,
    VultrError,
>)
    ensures
        match registry_outcome(value@) {
            Ok(n) => r is Ok && registry_view(r->Ok_0) == n,
            Err(e) => r == Err::<VultrContainerRegistry, VultrError>(e),
        },
{
    let id = match VultrContainerRegistryId::new(value.id.as_str()) {
        Ok(v) => v,
        Err(e) => return Err(e),
    };
    let name = match VultrContainerRegistryName::new(value.name.as_str()) {
        Ok(v) => v,
        Err(e) => return Err(e),
    };
    let urn = match VultrContainerRegistryUrn::new(value.urn.as_str()) {
        Ok(v) => v,
        Err(e) => return Err(e),
    };
    Ok(VultrContainerRegistry::new(id, name, value.public, urn, value.storage_bytes_used))
}

/// Converts a container registry into its wire message.
pub fn proto_vultr_container_registry_from_domain(value: &VultrContainerRegistry) -> (r: ProtoVultrContainerRegistry)
    ensures
        r@ == registry_view(*value),
{
    ProtoVultrContainerRegistry {
        id: value.id().as_str().to_string(),
        name: value.name().as_str().to_string(),
        public: value.public(),
        urn: value.urn().as_str().to_string(),
        storage_bytes_used: value.storage_bytes_used(),
    }
}

/// The wire content of a container repository.
pub open spec fn repository_view(v: VultrContainerRepository) -> ProtoVultrContainerRepositoryView {
    ProtoVultrContainerRepositoryView {
        registry_id: v.spec_registry_id()@,
        name: v.spec_name()@,
        description: v.spec_description(),
        pull_count: v.spec_pull_count(),
        artifact_count: v.spec_artifact_count(),
    }
}

/// What a wire container repository yields: the registry identifier, the
/// name, then a description that is not blank must be a valid public text;
/// tokens are trimmed, the description kept.
pub open spec fn repository_outcome(p: ProtoVultrContainerRepositoryView) -> Result<
    ProtoVultrContainerRepositoryView,
    VultrError,
> {
    let registry_id = vultr_token(p.registry_id, MAX_REGISTRY_ID_BYTES as nat, CharClass::LowercaseToken);
    let name = vultr_token(p.name, MAX_REPOSITORY_NAME_BYTES as nat, CharClass::RepositoryName);
    if registry_id is Err {
        Err(registry_id->Err_0)
    } else if name is Err {
        Err(name->Err_0)
    } else if trim(p.description).len() != 0 && public_text_fault(p.description, MAX_LABEL_BYTES as nat) is Some {
        Err(public_text_fault(p.description, MAX_LABEL_BYTES as nat)->Some_0)
    } else {
        Ok(ProtoVultrContainerRepositoryView { registry_id: registry_id->Ok_0, name: name->Ok_0, ..p })
    }
}

/// Converts a wire container repository, as [`repository_outcome`]
/// describes.
pub fn vultr_container_repository_from_proto(value: ProtoVultrContainerRepository) -> (r: Result<
    VultrContainerRepository,
    VultrError,
>)
    ensures
        match repository_outcome(value@) {
            Ok(n) => r is Ok && repository_view(r->Ok_0) == n,
            Err(e) => r == Err::<VultrContainerRepository, VultrError>(e),
        },
{
    let registry_id = match VultrContainerRegistryId::new(value.registry_id.as_str()) {
        Ok(v) => v,
        Err(e) => return Err(e),
    };
    let name = match VultrContainerRepositoryName::new(value.name.as_str()) {
        Ok(v) => v,
        Err(e) => return Err(e),
    };
    VultrContainerRepository::new(registry_id, name, value.description, value.pull_count, value.artifact_count)
}

/// Converts a container repository into its wire message.
pub fn proto_vultr_container_repository_from_domain(value: &VultrContainerRepository) -> (r:
    ProtoVultrContainerRepository)
    ensures
        r@ == repository_view(*value),
{
    ProtoVultrContainerRepository {
        registry_id: value.registry_id().as_str().to_string(),
        name: value.name().as_str().to_string(),
        description: value.description().to_string(),
        pull_count: value.pull_count(),
        artifact_count: value.artifact_count(),
    }
}

/// The wire content of a container artifact.
pub open spec fn artifact_view(v: VultrContainerArtifact) -> ProtoVultrContainerArtifactView {
    ProtoVultrContainerArtifactView {
        registry_id: v.spec_registry_id()@,
        repository: v.spec_repository()@,
        digest: v.spec_digest()@,
        tags: tag_texts(v.spec_tags()),
        size_bytes: v.spec_size_bytes(),
    }
}

/// What a wire container artifact yields: the tags first, then the registry
/// identifier, repository name and digest; tokens are trimmed.
pub open spec fn artifact_outcome(p: ProtoVultrContainerArtifactView) -> Result<
    ProtoVultrContainerArtifactView,
    VultrError,
> {
    let tags = vultr_tokens(p.tags, MAX_TAG_BYTES as nat, CharClass::Identifier);
    let registry_id = vultr_token(p.registry_id, MAX_REGISTRY_ID_BYTES as nat, CharClass::LowercaseToken);
    let repository = vultr_token(p.repository, MAX_REPOSITORY_NAME_BYTES as nat, CharClass::RepositoryName);
    let digest = vultr_token(p.digest, MAX_ARTIFACT_DIGEST_BYTES as nat, CharClass::Digest);
    if tags is Err {
        Err(tags->Err_0)
    } else if registry_id is Err {
        Err(registry_id->Err_0)
    } else if repository is Err {
        Err(repository->Err_0)
    } else if digest is Err {
        Err(digest->Err_0)
    } else {
        Ok(
            ProtoVultrContainerArtifactView {
                registry_id: registry_id->Ok_0,
                repository: repository->Ok_0,
                digest: digest->Ok_0,
                tags: tags->Ok_0,
                size_bytes: p.size_bytes,
            },
        )
    }
}

/// Converts a wire container artifact, as [`artifact_outcome`] describes.
pub fn vultr_container_artifact_from_proto(value: ProtoVultrContainerArtifact) -> (r: Result<
    VultrContainerArtifact,
    VultrError,
>)
    ensures
        match artifact_outcome(value@) {
            Ok(n) => r is Ok && artifact_view(r->Ok_0) == n,
            Err(e) => r == Err::<VultrContainerArtifact, VultrError>(e),
        },
{
    let tags = match VultrTag::from_texts(&value.tags) {
        Ok(v) => v,
        Err(e) => return Err(e),
    };
    let registry_id = match VultrContainerRegistryId::new(value.registry_id.as_str()) {
        Ok(v) => v,
        Err(e) => return Err(e),
    };
    let repository = match VultrContainerRepositoryName::new(value.repository.as_str()) {
        Ok(v) => v,
        Err(e) => return Err(e),
    };
    let digest = match VultrContainerArtifactDigest::new(value.digest.as_str()) {
        Ok(v) => v,
        Err(e) => return Err(e),
    };
    Ok(VultrContainerArtifact::new(registry_id, repository, digest, tags, value.size_bytes))
}

/// Converts a container artifact into its wire message.
pub fn proto_vultr_container_artifact_from_domain(value: &VultrContainerArtifact) -> (r: ProtoVultrContainerArtifact)
    ensures
        r@ == artifact_view(*value),
{
    ProtoVultrContainerArtifact {
        registry_id: value.registry_id().as_str().to_string(),
        repository: value.repository().as_str().to_string(),
        digest: value.digest().as_str().to_string(),
        tags: VultrTag::to_texts(value.tags()),
        size_bytes: value.size_bytes(),
    }
}

/// Converting a Vultr region from the wire is stable: the wire content of an
/// accepted message converts again to that same content.
pub proof fn lemma_region_outcome_idempotent(p: ProtoVultrRegionView)
    requires
        region_outcome(p) is Ok,
    ensures
        region_outcome(region_outcome(p)->Ok_0) == region_outcome(p),
{
    lemma_vultr_token_idempotent(p.id, MAX_REGION_ID_BYTES as nat, CharClass::LowercaseToken);
    lemma_vultr_token_idempotent(p.country, MAX_COUNTRY_CODE_BYTES as nat, CharClass::UppercaseToken);
}

/// Converting a Vultr plan from the wire is stable.
pub proof fn lemma_plan_outcome_idempotent(p: ProtoVultrPlanView)
    requires
        plan_outcome(p) is Ok,
    ensures
        plan_outcome(plan_outcome(p)->Ok_0) == plan_outcome(p),
{
    lemma_vultr_token_idempotent(p.id, MAX_PLAN_ID_BYTES as nat, CharClass::LowercaseToken);
}

/// Converting a Vultr VPC from the wire is stable.
pub proof fn lemma_vpc_outcome_idempotent(p: ProtoVultrVpcView)
    requires
        vpc_outcome(p) is Ok,
    ensures
        vpc_outcome(vpc_outcome(p)->Ok_0) == vpc_outcome(p),
{
    lemma_vultr_token_idempotent(p.id, MAX_VPC_ID_BYTES as nat, CharClass::LowercaseToken);
    lemma_vultr_token_idempotent(p.region, MAX_REGION_ID_BYTES as nat, CharClass::LowercaseToken);
}

/// Converting a Vultr instance from the wire is stable.
pub proof fn lemma_instance_outcome_idempotent(p: ProtoVultrInstanceView)
    requires
        instance_outcome(p) is Ok,
    ensures
        instance_outcome(instance_outcome(p)->Ok_0) == instance_outcome(p),
{
    lemma_empty_or_vultr_token_idempotent(p.main_ip, MAX_PUBLIC_IP_BYTES as nat, CharClass::IpAddress);
    lemma_empty_or_vultr_token_idempotent(p.internal_ip, MAX_PRIVATE_IP_BYTES as nat, CharClass::IpAddress);
    lemma_tokens_outcome_idempotent(p.vpc_ids, MAX_VPC_ID_BYTES as nat, CharClass::LowercaseToken);
    lemma_vultr_token_idempotent(p.id, MAX_INSTANCE_ID_BYTES as nat, CharClass::LowercaseToken);
    lemma_vultr_token_idempotent(p.region, MAX_REGION_ID_BYTES as nat, CharClass::LowercaseToken);
    lemma_vultr_token_idempotent(p.plan, MAX_PLAN_ID_BYTES as nat, CharClass::LowercaseToken);
    lemma_vultr_token_idempotent(p.label, MAX_LABEL_BYTES as nat, CharClass::SafeLabel);
}

/// Converting a container registry from the wire is stable.
pub proof fn lemma_registry_outcome_idempotent(p: ProtoVultrContainerRegistryView)
    requires
        registry_outcome(p) is Ok,
    ensures
        registry_outcome(registry_outcome(p)->Ok_0) == registry_outcome(p),
{
    lemma_vultr_token_idempotent(p.id, MAX_REGISTRY_ID_BYTES as nat, CharClass::LowercaseToken);
    lemma_vultr_token_idempotent(p.name, MAX_REGISTRY_NAME_BYTES as nat, CharClass::SafeLabel);
    lemma_vultr_token_idempotent(p.urn, MAX_REGISTRY_URN_BYTES as nat, CharClass::Urn);
}

/// Converting a container repository from the wire is stable.
pub proof fn lemma_repository_outcome_idempotent(p: ProtoVultrContainerRepositoryView)
    requires
        repository_outcome(p) is Ok,
    ensures
        repository_outcome(repository_outcome(p)->Ok_0) == repository_outcome(p),
{
    lemma_vultr_token_idempotent(p.registry_id, MAX_REGISTRY_ID_BYTES as nat, CharClass::LowercaseToken);
    lemma_vultr_token_idempotent(p.name, MAX_REPOSITORY_NAME_BYTES as nat, CharClass::RepositoryName);
}

/// Converting a container artifact from the wire is stable.
pub proof fn lemma_artifact_outcome_idempotent(p: ProtoVultrContainerArtifactView)
    requires
        artifact_outcome(p) is Ok,
    ensures
        artifact_outcome(artifact_outcome(p)->Ok_0) == artifact_outcome(p),
{
    lemma_tokens_outcome_idempotent(p.tags, MAX_TAG_BYTES as nat, CharClass::Identifier);
    lemma_vultr_token_idempotent(p.registry_id, MAX_REGISTRY_ID_BYTES as nat, CharClass::LowercaseToken);
    lemma_vultr_token_idempotent(p.repository, MAX_REPOSITORY_NAME_BYTES as nat, CharClass::RepositoryName);
    lemma_vultr_token_idempotent(p.digest, MAX_ARTIFACT_DIGEST_BYTES as nat, CharClass::Digest);
}

/// Reading a wire plan type gives the domain value of the same name, and
/// writing a domain value gives the wire value of its name; only
/// `Unspecified` is refused.
pub proof fn lemma_vultr_plan_type_names(p: ProtoVultrPlanType, d: VultrPlanType)
    ensures
        plan_type_outcome(p) is Err <==> p == ProtoVultrPlanType::Unspecified,
        plan_type_outcome(p) == Ok::<VultrPlanType, VultrError>(d) ==> crate::text::ascii_lowercase(crate::contract::wire::proto_vultr_plan_type_name(p)) == "vultr_plan_type_"@ + crate::vultr::types::plan_type_name(d),
        crate::text::ascii_lowercase(crate::contract::wire::proto_vultr_plan_type_name(proto_plan_type(d))) == "vultr_plan_type_"@ + crate::vultr::types::plan_type_name(d),
{
    reveal_strlit("vultr_plan_type_");
    reveal_strlit("VULTR_PLAN_TYPE_UNSPECIFIED");
    reveal_strlit("VULTR_PLAN_TYPE_CLOUD_COMPUTE");
    reveal_strlit("VULTR_PLAN_TYPE_DEDICATED_CLOUD");
    reveal_strlit("VULTR_PLAN_TYPE_HIGH_FREQUENCY");
    reveal_strlit("VULTR_PLAN_TYPE_HIGH_PERFORMANCE");
    reveal_strlit("VULTR_PLAN_TYPE_OPTIMIZED_CLOUD");
    reveal_strlit("VULTR_PLAN_TYPE_BARE_METAL");
    reveal_strlit("VULTR_PLAN_TYPE_CLOUD_GPU");
    reveal_strlit("cloud_compute");
    reveal_strlit("dedicated_cloud");
    reveal_strlit("high_frequency");
    reveal_strlit("high_performance");
    reveal_strlit("optimized_cloud");
    reveal_strlit("bare_metal");
    reveal_strlit("cloud_gpu");
}

/// Reading a wire instance status gives the domain value of the same name, and
/// writing a domain value gives the wire value of its name; only
/// `Unspecified` is refused.
pub proof fn lemma_vultr_instance_status_names(p: ProtoVultrInstanceStatus, d: VultrInstanceStatus)
    ensures
        instance_status_outcome(p) is Err <==> p == ProtoVultrInstanceStatus::Unspecified,
        instance_status_outcome(p) == Ok::<VultrInstanceStatus, VultrError>(d) ==> crate::text::ascii_lowercase(crate::contract::wire::proto_vultr_instance_status_name(p)) == "vultr_instance_status_"@ + crate::vultr::types::instance_status_name(d),
        crate::text::ascii_lowercase(crate::contract::wire::proto_vultr_instance_status_name(proto_instance_status(d))) == "vultr_instance_status_"@ + crate::vultr::types::instance_status_name(d),
{
    reveal_strlit("vultr_instance_status_");
    reveal_strlit("VULTR_INSTANCE_STATUS_UNSPECIFIED");
    reveal_strlit("VULTR_INSTANCE_STATUS_PENDING");
    reveal_strlit("VULTR_INSTANCE_STATUS_ACTIVE");
    reveal_strlit("VULTR_INSTANCE_STATUS_STOPPED");
    reveal_strlit("VULTR_INSTANCE_STATUS_SUSPENDED");
    reveal_strlit("pending");
    reveal_strlit("active");
    reveal_strlit("stopped");
    reveal_strlit("suspended");
}

} // verus!
