//! Strong Vultr identifiers and resource snapshots.
use vstd::prelude::*;

use crate::text::{
    ascii_lowercase, catalog_code, byte_len, chars_of, range_exceeds_bytes, same_text, starts_with, str_starts_with, trim,
    trim_bounds, view_result, zeroize_text, CharClass, Duplicate, lemma_tokens_outcome_prefix_fault,
    lemma_tokens_outcome_step, string_views, tokens_outcome, TextFault,
};
use crate::vultr::error::{lemma_vultr_token_idempotent, vultr_check_token, vultr_token, vultr_tokens, VultrError};
use vstd::string::{StrSliceExecFns, StringExecFns};

verus! {

/// Byte bound of a region id.
pub const MAX_REGION_ID_BYTES: usize = 16;
/// Byte bound of a country code.
pub const MAX_COUNTRY_CODE_BYTES: usize = 8;
/// Byte bound of a plan id.
pub const MAX_PLAN_ID_BYTES: usize = 64;
/// Byte bound of a vpc id.
pub const MAX_VPC_ID_BYTES: usize = 64;
/// Byte bound of an instance id.
pub const MAX_INSTANCE_ID_BYTES: usize = 64;
/// Byte bound of an instance template id.
pub const MAX_INSTANCE_TEMPLATE_ID_BYTES: usize = 64;
/// Byte bound of a ssh key id.
pub const MAX_SSH_KEY_ID_BYTES: usize = 64;
/// Byte bound of a firewall group id.
pub const MAX_FIREWALL_GROUP_ID_BYTES: usize = 64;
/// Byte bound of a startup script id.
pub const MAX_STARTUP_SCRIPT_ID_BYTES: usize = 64;
/// Byte bound of an ISO id.
pub const MAX_ISO_ID_BYTES: usize = 64;
/// Byte bound of a snapshot id.
pub const MAX_SNAPSHOT_ID_BYTES: usize = 64;
/// Byte bound of a vfs id.
pub const MAX_VFS_ID_BYTES: usize = 64;
/// Byte bound of a label.
pub const MAX_LABEL_BYTES: usize = 128;
/// Byte bound of a hostname.
pub const MAX_HOSTNAME_BYTES: usize = 253;
/// Byte bound of a public ip.
pub const MAX_PUBLIC_IP_BYTES: usize = 64;
/// Byte bound of a private ip.
pub const MAX_PRIVATE_IP_BYTES: usize = 64;
/// Byte bound of a tag.
pub const MAX_TAG_BYTES: usize = 64;
/// Byte bound of a cloud init user data.
pub const MAX_CLOUD_INIT_USER_DATA_BYTES: usize = 65536;
/// Byte bound of a registry id.
pub const MAX_REGISTRY_ID_BYTES: usize = 64;
/// Byte bound of a registry name.
pub const MAX_REGISTRY_NAME_BYTES: usize = 128;
/// Byte bound of a registry urn.
pub const MAX_REGISTRY_URN_BYTES: usize = 256;
/// Byte bound of a repository name.
pub const MAX_REPOSITORY_NAME_BYTES: usize = 255;
/// Byte bound of an artifact digest.
pub const MAX_ARTIFACT_DIGEST_BYTES: usize = 255;

/// Vultr region identifier such as `ams`, `ewr`, or `lhr`.
#[derive(Clone, PartialEq, Eq, PartialOrd, Ord, Debug)]
pub struct VultrRegionId(String);

impl View for VultrRegionId {
    type V = Seq<char>;

    closed spec fn view(&self) -> Seq<char> {
        self.0@
    }
}

impl Duplicate for VultrRegionId {
    fn duplicate(&self) -> (r: Self) {
        VultrRegionId(self.0.clone())
    }
}

impl VultrRegionId {
    /// Constructs a validated value.
    pub fn new(value: &str) -> (r: Result<Self, VultrError>)
        ensures
            view_result(r) == vultr_token(value@, MAX_REGION_ID_BYTES as nat, CharClass::LowercaseToken),
    {
        match vultr_check_token(value, MAX_REGION_ID_BYTES, CharClass::LowercaseToken) {
            Ok(text) => Ok(VultrRegionId(text)),
            Err(e) => Err(e),
        }
    }

    /// Returns the validated value.
    pub fn as_str(&self) -> (r: &str)
        ensures
            r@ == self@,
    {
        self.0.as_str()
    }
}

/// Vultr country code as returned by the regions API.
#[derive(Clone, PartialEq, Eq, PartialOrd, Ord, Debug)]
pub struct VultrCountryCode(String);

impl View for VultrCountryCode {
    type V = Seq<char>;

    closed spec fn view(&self) -> Seq<char> {
        self.0@
    }
}

impl Duplicate for VultrCountryCode {
    fn duplicate(&self) -> (r: Self) {
        VultrCountryCode(self.0.clone())
    }
}

impl VultrCountryCode {
    /// Constructs a validated value.
    pub fn new(value: &str) -> (r: Result<Self, VultrError>)
        ensures
            view_result(r) == vultr_token(value@, MAX_COUNTRY_CODE_BYTES as nat, CharClass::UppercaseToken),
    {
        match vultr_check_token(value, MAX_COUNTRY_CODE_BYTES, CharClass::UppercaseToken) {
            Ok(text) => Ok(VultrCountryCode(text)),
            Err(e) => Err(e),
        }
    }

    /// Returns the validated value.
    pub fn as_str(&self) -> (r: &str)
        ensures
            r@ == self@,
    {
        self.0.as_str()
    }
}

/// Vultr compute plan identifier.
#[derive(PartialEq, Eq, PartialOrd, Ord, Debug)]
pub struct VultrPlanId(String);

impl Clone for VultrPlanId {
    fn clone(&self) -> (r: Self)
        ensures
            r == *self,
    {
        proof {
            use_type_invariant(self);
        }
        VultrPlanId(self.0.clone())
    }
}

impl View for VultrPlanId {
    type V = Seq<char>;

    closed spec fn view(&self) -> Seq<char> {
        self.0@
    }
}

impl Duplicate for VultrPlanId {
    fn duplicate(&self) -> (r: Self) {
        self.clone()
    }
}

impl VultrPlanId {
    /// The text is a valid token: trimmed, bounded and of allowed
    /// characters.
    #[verifier::type_invariant]
    pub open spec fn valid(&self) -> bool {
        vultr_token(self@, MAX_PLAN_ID_BYTES as nat, CharClass::LowercaseToken) == Ok::<Seq<char>, VultrError>(self@)
    }

    /// Constructs a validated value.
    pub fn new(value: &str) -> (r: Result<Self, VultrError>)
        ensures
            view_result(r) == vultr_token(value@, MAX_PLAN_ID_BYTES as nat, CharClass::LowercaseToken),
    {
        proof {
            if vultr_token(value@, MAX_PLAN_ID_BYTES as nat, CharClass::LowercaseToken) is Ok {
                lemma_vultr_token_idempotent(value@, MAX_PLAN_ID_BYTES as nat, CharClass::LowercaseToken);
            }
        }
        match vultr_check_token(value, MAX_PLAN_ID_BYTES, CharClass::LowercaseToken) {
            Ok(text) => Ok(VultrPlanId(text)),
            Err(e) => Err(e),
        }
    }

    /// Returns the validated value.
    pub fn as_str(&self) -> (r: &str)
        ensures
            r@ == self@,
    {
        self.0.as_str()
    }
}

/// Vultr VPC or VPC 2.0 identifier.
#[derive(PartialEq, Eq, PartialOrd, Ord, Debug)]
pub struct VultrVpcId(String);

impl Clone for VultrVpcId {
    fn clone(&self) -> (r: Self)
        ensures
            r == *self,
    {
        proof {
            use_type_invariant(self);
        }
        VultrVpcId(self.0.clone())
    }
}

impl View for VultrVpcId {
    type V = Seq<char>;

    closed spec fn view(&self) -> Seq<char> {
        self.0@
    }
}

impl Duplicate for VultrVpcId {
    fn duplicate(&self) -> (r: Self) {
        self.clone()
    }
}

impl VultrVpcId {
    /// The text is a valid token: trimmed, bounded and of allowed
    /// characters.
    #[verifier::type_invariant]
    pub open spec fn valid(&self) -> bool {
        vultr_token(self@, MAX_VPC_ID_BYTES as nat, CharClass::LowercaseToken) == Ok::<Seq<char>, VultrError>(self@)
    }

    /// Constructs a validated value.
    pub fn new(value: &str) -> (r: Result<Self, VultrError>)
        ensures
            view_result(r) == vultr_token(value@, MAX_VPC_ID_BYTES as nat, CharClass::LowercaseToken),
    {
        proof {
            if vultr_token(value@, MAX_VPC_ID_BYTES as nat, CharClass::LowercaseToken) is Ok {
                lemma_vultr_token_idempotent(value@, MAX_VPC_ID_BYTES as nat, CharClass::LowercaseToken);
            }
        }
        match vultr_check_token(value, MAX_VPC_ID_BYTES, CharClass::LowercaseToken) {
            Ok(text) => Ok(VultrVpcId(text)),
            Err(e) => Err(e),
        }
    }

    /// Returns the validated value.
    pub fn as_str(&self) -> (r: &str)
        ensures
            r@ == self@,
    {
        self.0.as_str()
    }
}

impl VultrVpcId {
    /// The texts of `items`, in order.
    pub fn to_texts(items: &[Self]) -> (r: Vec<String>)
        ensures
            string_views(r@) == vpc_id_texts(items@),
            forall|j: int| 0 <= j < items@.len() ==> #[trigger] items@[j].valid(),
    {
        let mut out: Vec<String> = Vec::new();
        let mut i: usize = 0;
        while i < items.len()
            invariant
                i <= items@.len(),
                string_views(out@) =~= vpc_id_texts(items@.take(i as int)),
                forall|j: int| 0 <= j < i ==> #[trigger] items@[j].valid(),
            decreases items@.len() - i,
        {
            let ghost before = out@;
            let item = &items[i];
            proof {
                use_type_invariant(item);
            }
            out.push(item.as_str().to_string());
            proof {
                assert(items@.take(i as int + 1) =~= items@.take(i as int).push(items@[i as int]));
                assert(string_views(out@) =~= string_views(before).push(items@[i as int]@));
            }
            i += 1;
        }
        proof {
            assert(items@.take(i as int) =~= items@);
        }
        out
    }
}


/// The texts of a sequence of VPC identifiers.
pub open spec fn vpc_id_texts(s: Seq<VultrVpcId>) -> Seq<Seq<char>> {
    s.map_values(|x: VultrVpcId| x@)
}

impl VultrVpcId {
    /// Validates each text as one VPC identifier, in order; the first refused text
    /// decides the error.
    pub fn from_texts(items: &Vec<String>) -> (r: Result<Vec<Self>, VultrError>)
        ensures
            match vultr_tokens(string_views(items@), MAX_VPC_ID_BYTES as nat, CharClass::LowercaseToken) {
                Ok(ts) => r is Ok && vpc_id_texts(r->Ok_0@) == ts,
                Err(e) => r == Err::<Vec<Self>, VultrError>(e),
            },
    {
        let ghost sv = string_views(items@);
        let mut out: Vec<Self> = Vec::new();
        let mut i: usize = 0;
        proof {
            assert(sv.take(0) =~= Seq::<Seq<char>>::empty());
            assert(vpc_id_texts(out@) =~= Seq::<Seq<char>>::empty());
        }
        while i < items.len()
            invariant
                i <= items.len(),
                sv == string_views(items@),
                tokens_outcome(sv.take(i as int), MAX_VPC_ID_BYTES as nat, CharClass::LowercaseToken) == Ok::<
                    Seq<Seq<char>>,
                    TextFault,
                >(vpc_id_texts(out@)),
            decreases items.len() - i,
        {
            proof {
                lemma_tokens_outcome_step(sv, i as int, MAX_VPC_ID_BYTES as nat, CharClass::LowercaseToken);
                assert(sv[i as int] == items@[i as int]@);
            }
            match Self::new(items[i].as_str()) {
                Ok(x) => {
                    let ghost before = out@;
                    out.push(x);
                    proof {
                        assert(vpc_id_texts(out@) =~= vpc_id_texts(before).push(x@));
                    }
                },
                Err(e) => {
                    proof {
                        lemma_tokens_outcome_prefix_fault(sv, i as int + 1, MAX_VPC_ID_BYTES as nat, CharClass::LowercaseToken);
                    }
                    return Err(e);
                },
            }
            i += 1;
        }
        proof {
            assert(sv.take(i as int) =~= sv);
        }
        Ok(out)
    }
}


/// Vultr instance identifier.
#[derive(Clone, PartialEq, Eq, PartialOrd, Ord, Debug)]
pub struct VultrInstanceId(String);

impl View for VultrInstanceId {
    type V = Seq<char>;

    closed spec fn view(&self) -> Seq<char> {
        self.0@
    }
}

impl Duplicate for VultrInstanceId {
    fn duplicate(&self) -> (r: Self) {
        VultrInstanceId(self.0.clone())
    }
}

impl VultrInstanceId {
    /// Constructs a validated value.
    pub fn new(value: &str) -> (r: Result<Self, VultrError>)
        ensures
            view_result(r) == vultr_token(value@, MAX_INSTANCE_ID_BYTES as nat, CharClass::LowercaseToken),
    {
        match vultr_check_token(value, MAX_INSTANCE_ID_BYTES, CharClass::LowercaseToken) {
            Ok(text) => Ok(VultrInstanceId(text)),
            Err(e) => Err(e),
        }
    }

    /// Returns the validated value.
    pub fn as_str(&self) -> (r: &str)
        ensures
            r@ == self@,
    {
        self.0.as_str()
    }
}

/// Vultr instance-template identifier.
#[derive(PartialEq, Eq, PartialOrd, Ord, Debug)]
pub struct VultrInstanceTemplateId(String);

impl Clone for VultrInstanceTemplateId {
    fn clone(&self) -> (r: Self)
        ensures
            r == *self,
    {
        proof {
            use_type_invariant(self);
        }
        VultrInstanceTemplateId(self.0.clone())
    }
}

impl View for VultrInstanceTemplateId {
    type V = Seq<char>;

    closed spec fn view(&self) -> Seq<char> {
        self.0@
    }
}

impl Duplicate for VultrInstanceTemplateId {
    fn duplicate(&self) -> (r: Self) {
        self.clone()
    }
}

impl VultrInstanceTemplateId {
    /// The text is a valid token: trimmed, bounded and of allowed
    /// characters.
    #[verifier::type_invariant]
    pub open spec fn valid(&self) -> bool {
        vultr_token(self@, MAX_INSTANCE_TEMPLATE_ID_BYTES as nat, CharClass::LowercaseToken) == Ok::<Seq<char>, VultrError>(self@)
    }

    /// Constructs a validated value.
    pub fn new(value: &str) -> (r: Result<Self, VultrError>)
        ensures
            view_result(r) == vultr_token(value@, MAX_INSTANCE_TEMPLATE_ID_BYTES as nat, CharClass::LowercaseToken),
    {
        proof {
            if vultr_token(value@, MAX_INSTANCE_TEMPLATE_ID_BYTES as nat, CharClass::LowercaseToken) is Ok {
                lemma_vultr_token_idempotent(value@, MAX_INSTANCE_TEMPLATE_ID_BYTES as nat, CharClass::LowercaseToken);
            }
        }
        match vultr_check_token(value, MAX_INSTANCE_TEMPLATE_ID_BYTES, CharClass::LowercaseToken) {
            Ok(text) => Ok(VultrInstanceTemplateId(text)),
            Err(e) => Err(e),
        }
    }

    /// Returns the validated value.
    pub fn as_str(&self) -> (r: &str)
        ensures
            r@ == self@,
    {
        self.0.as_str()
    }
}

/// Vultr SSH key identifier.
#[derive(PartialEq, Eq, PartialOrd, Ord, Debug)]
pub struct VultrSshKeyId(String);

impl Clone for VultrSshKeyId {
    fn clone(&self) -> (r: Self)
        ensures
            r == *self,
    {
        proof {
            use_type_invariant(self);
        }
        VultrSshKeyId(self.0.clone())
    }
}

impl View for VultrSshKeyId {
    type V = Seq<char>;

    closed spec fn view(&self) -> Seq<char> {
        self.0@
    }
}

impl Duplicate for VultrSshKeyId {
    fn duplicate(&self) -> (r: Self) {
        self.clone()
    }
}

impl VultrSshKeyId {
    /// The text is a valid token: trimmed, bounded and of allowed
    /// characters.
    #[verifier::type_invariant]
    pub open spec fn valid(&self) -> bool {
        vultr_token(self@, MAX_SSH_KEY_ID_BYTES as nat, CharClass::LowercaseToken) == Ok::<Seq<char>, VultrError>(self@)
    }

    /// Constructs a validated value.
    pub fn new(value: &str) -> (r: Result<Self, VultrError>)
        ensures
            view_result(r) == vultr_token(value@, MAX_SSH_KEY_ID_BYTES as nat, CharClass::LowercaseToken),
    {
        proof {
            if vultr_token(value@, MAX_SSH_KEY_ID_BYTES as nat, CharClass::LowercaseToken) is Ok {
                lemma_vultr_token_idempotent(value@, MAX_SSH_KEY_ID_BYTES as nat, CharClass::LowercaseToken);
            }
        }
        match vultr_check_token(value, MAX_SSH_KEY_ID_BYTES, CharClass::LowercaseToken) {
            Ok(text) => Ok(VultrSshKeyId(text)),
            Err(e) => Err(e),
        }
    }

    /// Returns the validated value.
    pub fn as_str(&self) -> (r: &str)
        ensures
            r@ == self@,
    {
        self.0.as_str()
    }
}

impl VultrSshKeyId {
    /// The texts of `items`, in order.
    pub fn to_texts(items: &[Self]) -> (r: Vec<String>)
        ensures
            string_views(r@) == ssh_key_id_texts(items@),
            forall|j: int| 0 <= j < items@.len() ==> #[trigger] items@[j].valid(),
    {
        let mut out: Vec<String> = Vec::new();
        let mut i: usize = 0;
        while i < items.len()
            invariant
                i <= items@.len(),
                string_views(out@) =~= ssh_key_id_texts(items@.take(i as int)),
                forall|j: int| 0 <= j < i ==> #[trigger] items@[j].valid(),
            decreases items@.len() - i,
        {
            let ghost before = out@;
            let item = &items[i];
            proof {
                use_type_invariant(item);
            }
            out.push(item.as_str().to_string());
            proof {
                assert(items@.take(i as int + 1) =~= items@.take(i as int).push(items@[i as int]));
                assert(string_views(out@) =~= string_views(before).push(items@[i as int]@));
            }
            i += 1;
        }
        proof {
            assert(items@.take(i as int) =~= items@);
        }
        out
    }
}


/// The texts of a sequence of SSH key identifiers.
pub open spec fn ssh_key_id_texts(s: Seq<VultrSshKeyId>) -> Seq<Seq<char>> {
    s.map_values(|x: VultrSshKeyId| x@)
}

impl VultrSshKeyId {
    /// Validates each text as one SSH key identifier, in order; the first refused text
    /// decides the error.
    pub fn from_texts(items: &Vec<String>) -> (r: Result<Vec<Self>, VultrError>)
        ensures
            match vultr_tokens(string_views(items@), MAX_SSH_KEY_ID_BYTES as nat, CharClass::LowercaseToken) {
                Ok(ts) => r is Ok && ssh_key_id_texts(r->Ok_0@) == ts,
                Err(e) => r == Err::<Vec<Self>, VultrError>(e),
            },
    {
        let ghost sv = string_views(items@);
        let mut out: Vec<Self> = Vec::new();
        let mut i: usize = 0;
        proof {
            assert(sv.take(0) =~= Seq::<Seq<char>>::empty());
            assert(ssh_key_id_texts(out@) =~= Seq::<Seq<char>>::empty());
        }
        while i < items.len()
            invariant
                i <= items.len(),
                sv == string_views(items@),
                tokens_outcome(sv.take(i as int), MAX_SSH_KEY_ID_BYTES as nat, CharClass::LowercaseToken) == Ok::<
                    Seq<Seq<char>>,
                    TextFault,
                >(ssh_key_id_texts(out@)),
            decreases items.len() - i,
        {
            proof {
                lemma_tokens_outcome_step(sv, i as int, MAX_SSH_KEY_ID_BYTES as nat, CharClass::LowercaseToken);
                assert(sv[i as int] == items@[i as int]@);
            }
            match Self::new(items[i].as_str()) {
                Ok(x) => {
                    let ghost before = out@;
                    out.push(x);
                    proof {
                        assert(ssh_key_id_texts(out@) =~= ssh_key_id_texts(before).push(x@));
                    }
                },
                Err(e) => {
                    proof {
                        lemma_tokens_outcome_prefix_fault(sv, i as int + 1, MAX_SSH_KEY_ID_BYTES as nat, CharClass::LowercaseToken);
                    }
                    return Err(e);
                },
            }
            i += 1;
        }
        proof {
            assert(sv.take(i as int) =~= sv);
        }
        Ok(out)
    }
}


/// Vultr firewall group identifier.
#[derive(Clone, PartialEq, Eq, PartialOrd, Ord, Debug)]
pub struct VultrFirewallGroupId(String);

impl View for VultrFirewallGroupId {
    type V = Seq<char>;

    closed spec fn view(&self) -> Seq<char> {
        self.0@
    }
}

impl Duplicate for VultrFirewallGroupId {
    fn duplicate(&self) -> (r: Self) {
        VultrFirewallGroupId(self.0.clone())
    }
}

impl VultrFirewallGroupId {
    /// Constructs a validated value.
    pub fn new(value: &str) -> (r: Result<Self, VultrError>)
        ensures
            view_result(r) == vultr_token(value@, MAX_FIREWALL_GROUP_ID_BYTES as nat, CharClass::LowercaseToken),
    {
        match vultr_check_token(value, MAX_FIREWALL_GROUP_ID_BYTES, CharClass::LowercaseToken) {
            Ok(text) => Ok(VultrFirewallGroupId(text)),
            Err(e) => Err(e),
        }
    }

    /// Returns the validated value.
    pub fn as_str(&self) -> (r: &str)
        ensures
            r@ == self@,
    {
        self.0.as_str()
    }
}

/// Vultr startup script identifier.
#[derive(PartialEq, Eq, PartialOrd, Ord, Debug)]
pub struct VultrStartupScriptId(String);

impl Clone for VultrStartupScriptId {
    fn clone(&self) -> (r: Self)
        ensures
            r == *self,
    {
        proof {
            use_type_invariant(self);
        }
        VultrStartupScriptId(self.0.clone())
    }
}

impl View for VultrStartupScriptId {
    type V = Seq<char>;

    closed spec fn view(&self) -> Seq<char> {
        self.0@
    }
}

impl Duplicate for VultrStartupScriptId {
    fn duplicate(&self) -> (r: Self) {
        self.clone()
    }
}

impl VultrStartupScriptId {
    /// The text is a valid token: trimmed, bounded and of allowed
    /// characters.
    #[verifier::type_invariant]
    pub open spec fn valid(&self) -> bool {
        vultr_token(self@, MAX_STARTUP_SCRIPT_ID_BYTES as nat, CharClass::LowercaseToken) == Ok::<Seq<char>, VultrError>(self@)
    }

    /// Constructs a validated value.
    pub fn new(value: &str) -> (r: Result<Self, VultrError>)
        ensures
            view_result(r) == vultr_token(value@, MAX_STARTUP_SCRIPT_ID_BYTES as nat, CharClass::LowercaseToken),
    {
        proof {
            if vultr_token(value@, MAX_STARTUP_SCRIPT_ID_BYTES as nat, CharClass::LowercaseToken) is Ok {
                lemma_vultr_token_idempotent(value@, MAX_STARTUP_SCRIPT_ID_BYTES as nat, CharClass::LowercaseToken);
            }
        }
        match vultr_check_token(value, MAX_STARTUP_SCRIPT_ID_BYTES, CharClass::LowercaseToken) {
            Ok(text) => Ok(VultrStartupScriptId(text)),
            Err(e) => Err(e),
        }
    }

    /// Returns the validated value.
    pub fn as_str(&self) -> (r: &str)
        ensures
            r@ == self@,
    {
        self.0.as_str()
    }
}

/// Vultr ISO image identifier.
#[derive(PartialEq, Eq, PartialOrd, Ord, Debug)]
pub struct VultrIsoId(String);

impl Clone for VultrIsoId {
    fn clone(&self) -> (r: Self)
        ensures
            r == *self,
    {
        proof {
            use_type_invariant(self);
        }
        VultrIsoId(self.0.clone())
    }
}

impl View for VultrIsoId {
    type V = Seq<char>;

    closed spec fn view(&self) -> Seq<char> {
        self.0@
    }
}

impl Duplicate for VultrIsoId {
    fn duplicate(&self) -> (r: Self) {
        self.clone()
    }
}

impl VultrIsoId {
    /// The text is a valid token: trimmed, bounded and of allowed
    /// characters.
    #[verifier::type_invariant]
    pub open spec fn valid(&self) -> bool {
        vultr_token(self@, MAX_ISO_ID_BYTES as nat, CharClass::LowercaseToken) == Ok::<Seq<char>, VultrError>(self@)
    }

    /// Constructs a validated value.
    pub fn new(value: &str) -> (r: Result<Self, VultrError>)
        ensures
            view_result(r) == vultr_token(value@, MAX_ISO_ID_BYTES as nat, CharClass::LowercaseToken),
    {
        proof {
            if vultr_token(value@, MAX_ISO_ID_BYTES as nat, CharClass::LowercaseToken) is Ok {
                lemma_vultr_token_idempotent(value@, MAX_ISO_ID_BYTES as nat, CharClass::LowercaseToken);
            }
        }
        match vultr_check_token(value, MAX_ISO_ID_BYTES, CharClass::LowercaseToken) {
            Ok(text) => Ok(VultrIsoId(text)),
            Err(e) => Err(e),
        }
    }

    /// Returns the validated value.
    pub fn as_str(&self) -> (r: &str)
        ensures
            r@ == self@,
    {
        self.0.as_str()
    }
}

/// Vultr snapshot identifier.
#[derive(PartialEq, Eq, PartialOrd, Ord, Debug)]
pub struct VultrSnapshotId(String);

impl Clone for VultrSnapshotId {
    fn clone(&self) -> (r: Self)
        ensures
            r == *self,
    {
        proof {
            use_type_invariant(self);
        }
        VultrSnapshotId(self.0.clone())
    }
}

impl View for VultrSnapshotId {
    type V = Seq<char>;

    closed spec fn view(&self) -> Seq<char> {
        self.0@
    }
}

impl Duplicate for VultrSnapshotId {
    fn duplicate(&self) -> (r: Self) {
        self.clone()
    }
}

impl VultrSnapshotId {
    /// The text is a valid token: trimmed, bounded and of allowed
    /// characters.
    #[verifier::type_invariant]
    pub open spec fn valid(&self) -> bool {
        vultr_token(self@, MAX_SNAPSHOT_ID_BYTES as nat, CharClass::LowercaseToken) == Ok::<Seq<char>, VultrError>(self@)
    }

    /// Constructs a validated value.
    pub fn new(value: &str) -> (r: Result<Self, VultrError>)
        ensures
            view_result(r) == vultr_token(value@, MAX_SNAPSHOT_ID_BYTES as nat, CharClass::LowercaseToken),
    {
        proof {
            if vultr_token(value@, MAX_SNAPSHOT_ID_BYTES as nat, CharClass::LowercaseToken) is Ok {
                lemma_vultr_token_idempotent(value@, MAX_SNAPSHOT_ID_BYTES as nat, CharClass::LowercaseToken);
            }
        }
        match vultr_check_token(value, MAX_SNAPSHOT_ID_BYTES, CharClass::LowercaseToken) {
            Ok(text) => Ok(VultrSnapshotId(text)),
            Err(e) => Err(e),
        }
    }

    /// Returns the validated value.
    pub fn as_str(&self) -> (r: &str)
        ensures
            r@ == self@,
    {
        self.0.as_str()
    }
}

/// Vultr File Storage subscription identifier.
#[derive(PartialEq, Eq, PartialOrd, Ord, Debug)]
pub struct VultrVfsId(String);

impl Clone for VultrVfsId {
    fn clone(&self) -> (r: Self)
        ensures
            r == *self,
    {
        proof {
            use_type_invariant(self);
        }
        VultrVfsId(self.0.clone())
    }
}

impl View for VultrVfsId {
    type V = Seq<char>;

    closed spec fn view(&self) -> Seq<char> {
        self.0@
    }
}

impl Duplicate for VultrVfsId {
    fn duplicate(&self) -> (r: Self) {
        self.clone()
    }
}

impl VultrVfsId {
    /// The text is a valid token: trimmed, bounded and of allowed
    /// characters.
    #[verifier::type_invariant]
    pub open spec fn valid(&self) -> bool {
        vultr_token(self@, MAX_VFS_ID_BYTES as nat, CharClass::LowercaseToken) == Ok::<Seq<char>, VultrError>(self@)
    }

    /// Constructs a validated value.
    pub fn new(value: &str) -> (r: Result<Self, VultrError>)
        ensures
            view_result(r) == vultr_token(value@, MAX_VFS_ID_BYTES as nat, CharClass::LowercaseToken),
    {
        proof {
            if vultr_token(value@, MAX_VFS_ID_BYTES as nat, CharClass::LowercaseToken) is Ok {
                lemma_vultr_token_idempotent(value@, MAX_VFS_ID_BYTES as nat, CharClass::LowercaseToken);
            }
        }
        match vultr_check_token(value, MAX_VFS_ID_BYTES, CharClass::LowercaseToken) {
            Ok(text) => Ok(VultrVfsId(text)),
            Err(e) => Err(e),
        }
    }

    /// Returns the validated value.
    pub fn as_str(&self) -> (r: &str)
        ensures
            r@ == self@,
    {
        self.0.as_str()
    }
}

impl VultrVfsId {
    /// The texts of `items`, in order.
    pub fn to_texts(items: &[Self]) -> (r: Vec<String>)
        ensures
            string_views(r@) == vfs_id_texts(items@),
            forall|j: int| 0 <= j < items@.len() ==> #[trigger] items@[j].valid(),
    {
        let mut out: Vec<String> = Vec::new();
        let mut i: usize = 0;
        while i < items.len()
            invariant
                i <= items@.len(),
                string_views(out@) =~= vfs_id_texts(items@.take(i as int)),
                forall|j: int| 0 <= j < i ==> #[trigger] items@[j].valid(),
            decreases items@.len() - i,
        {
            let ghost before = out@;
            let item = &items[i];
            proof {
                use_type_invariant(item);
            }
            out.push(item.as_str().to_string());
            proof {
                assert(items@.take(i as int + 1) =~= items@.take(i as int).push(items@[i as int]));
                assert(string_views(out@) =~= string_views(before).push(items@[i as int]@));
            }
            i += 1;
        }
        proof {
            assert(items@.take(i as int) =~= items@);
        }
        out
    }
}


/// The texts of a sequence of VFS identifiers.
pub open spec fn vfs_id_texts(s: Seq<VultrVfsId>) -> Seq<Seq<char>> {
    s.map_values(|x: VultrVfsId| x@)
}

impl VultrVfsId {
    /// Validates each text as one VFS identifier, in order; the first refused text
    /// decides the error.
    pub fn from_texts(items: &Vec<String>) -> (r: Result<Vec<Self>, VultrError>)
        ensures
            match vultr_tokens(string_views(items@), MAX_VFS_ID_BYTES as nat, CharClass::LowercaseToken) {
                Ok(ts) => r is Ok && vfs_id_texts(r->Ok_0@) == ts,
                Err(e) => r == Err::<Vec<Self>, VultrError>(e),
            },
    {
        let ghost sv = string_views(items@);
        let mut out: Vec<Self> = Vec::new();
        let mut i: usize = 0;
        proof {
            assert(sv.take(0) =~= Seq::<Seq<char>>::empty());
            assert(vfs_id_texts(out@) =~= Seq::<Seq<char>>::empty());
        }
        while i < items.len()
            invariant
                i <= items.len(),
                sv == string_views(items@),
                tokens_outcome(sv.take(i as int), MAX_VFS_ID_BYTES as nat, CharClass::LowercaseToken) == Ok::<
                    Seq<Seq<char>>,
                    TextFault,
                >(vfs_id_texts(out@)),
            decreases items.len() - i,
        {
            proof {
                lemma_tokens_outcome_step(sv, i as int, MAX_VFS_ID_BYTES as nat, CharClass::LowercaseToken);
                assert(sv[i as int] == items@[i as int]@);
            }
            match Self::new(items[i].as_str()) {
                Ok(x) => {
                    let ghost before = out@;
                    out.push(x);
                    proof {
                        assert(vfs_id_texts(out@) =~= vfs_id_texts(before).push(x@));
                    }
                },
                Err(e) => {
                    proof {
                        lemma_tokens_outcome_prefix_fault(sv, i as int + 1, MAX_VFS_ID_BYTES as nat, CharClass::LowercaseToken);
                    }
                    return Err(e);
                },
            }
            i += 1;
        }
        proof {
            assert(sv.take(i as int) =~= sv);
        }
        Ok(out)
    }
}


/// Operator-visible Vultr label.
#[derive(PartialEq, Eq, PartialOrd, Ord, Debug)]
pub struct VultrLabel(String);

impl Clone for VultrLabel {
    fn clone(&self) -> (r: Self)
        ensures
            r == *self,
    {
        proof {
            use_type_invariant(self);
        }
        VultrLabel(self.0.clone())
    }
}

impl View for VultrLabel {
    type V = Seq<char>;

    closed spec fn view(&self) -> Seq<char> {
        self.0@
    }
}

impl Duplicate for VultrLabel {
    fn duplicate(&self) -> (r: Self) {
        self.clone()
    }
}

impl VultrLabel {
    /// The text is a valid token: trimmed, bounded and of allowed
    /// characters.
    #[verifier::type_invariant]
    pub open spec fn valid(&self) -> bool {
        vultr_token(self@, MAX_LABEL_BYTES as nat, CharClass::SafeLabel) == Ok::<Seq<char>, VultrError>(self@)
    }

    /// Constructs a validated value.
    pub fn new(value: &str) -> (r: Result<Self, VultrError>)
        ensures
            view_result(r) == vultr_token(value@, MAX_LABEL_BYTES as nat, CharClass::SafeLabel),
    {
        proof {
            if vultr_token(value@, MAX_LABEL_BYTES as nat, CharClass::SafeLabel) is Ok {
                lemma_vultr_token_idempotent(value@, MAX_LABEL_BYTES as nat, CharClass::SafeLabel);
            }
        }
        match vultr_check_token(value, MAX_LABEL_BYTES, CharClass::SafeLabel) {
            Ok(text) => Ok(VultrLabel(text)),
            Err(e) => Err(e),
        }
    }

    /// Returns the validated value.
    pub fn as_str(&self) -> (r: &str)
        ensures
            r@ == self@,
    {
        self.0.as_str()
    }
}

/// Vultr instance hostname.
#[derive(Clone, PartialEq, Eq, PartialOrd, Ord, Debug)]
pub struct VultrHostname(String);

impl View for VultrHostname {
    type V = Seq<char>;

    closed spec fn view(&self) -> Seq<char> {
        self.0@
    }
}

impl Duplicate for VultrHostname {
    fn duplicate(&self) -> (r: Self) {
        VultrHostname(self.0.clone())
    }
}

impl VultrHostname {
    /// Constructs a validated value.
    pub fn new(value: &str) -> (r: Result<Self, VultrError>)
        ensures
            view_result(r) == vultr_token(value@, MAX_HOSTNAME_BYTES as nat, CharClass::Hostname),
    {
        match vultr_check_token(value, MAX_HOSTNAME_BYTES, CharClass::Hostname) {
            Ok(text) => Ok(VultrHostname(text)),
            Err(e) => Err(e),
        }
    }

    /// Returns the validated value.
    pub fn as_str(&self) -> (r: &str)
        ensures
            r@ == self@,
    {
        self.0.as_str()
    }
}

/// Public IP address reported by Vultr for an instance.
#[derive(Clone, PartialEq, Eq, PartialOrd, Ord, Debug)]
pub struct VultrPublicIpAddress(String);

impl View for VultrPublicIpAddress {
    type V = Seq<char>;

    closed spec fn view(&self) -> Seq<char> {
        self.0@
    }
}

impl Duplicate for VultrPublicIpAddress {
    fn duplicate(&self) -> (r: Self) {
        VultrPublicIpAddress(self.0.clone())
    }
}

impl VultrPublicIpAddress {
    /// Constructs a validated value.
    pub fn new(value: &str) -> (r: Result<Self, VultrError>)
        ensures
            view_result(r) == vultr_token(value@, MAX_PUBLIC_IP_BYTES as nat, CharClass::IpAddress),
    {
        match vultr_check_token(value, MAX_PUBLIC_IP_BYTES, CharClass::IpAddress) {
            Ok(text) => Ok(VultrPublicIpAddress(text)),
            Err(e) => Err(e),
        }
    }

    /// Returns the validated value.
    pub fn as_str(&self) -> (r: &str)
        ensures
            r@ == self@,
    {
        self.0.as_str()
    }
}

/// Private IP address reported by Vultr for an instance.
#[derive(Clone, PartialEq, Eq, PartialOrd, Ord, Debug)]
pub struct VultrPrivateIpAddress(String);

impl View for VultrPrivateIpAddress {
    type V = Seq<char>;

    closed spec fn view(&self) -> Seq<char> {
        self.0@
    }
}

impl Duplicate for VultrPrivateIpAddress {
    fn duplicate(&self) -> (r: Self) {
        VultrPrivateIpAddress(self.0.clone())
    }
}

impl VultrPrivateIpAddress {
    /// Constructs a validated value.
    pub fn new(value: &str) -> (r: Result<Self, VultrError>)
        ensures
            view_result(r) == vultr_token(value@, MAX_PRIVATE_IP_BYTES as nat, CharClass::IpAddress),
    {
        match vultr_check_token(value, MAX_PRIVATE_IP_BYTES, CharClass::IpAddress) {
            Ok(text) => Ok(VultrPrivateIpAddress(text)),
            Err(e) => Err(e),
        }
    }

    /// Returns the validated value.
    pub fn as_str(&self) -> (r: &str)
        ensures
            r@ == self@,
    {
        self.0.as_str()
    }
}

/// Vultr resource tag.
#[derive(Clone, PartialEq, Eq, PartialOrd, Ord, Debug)]
pub struct VultrTag(String);

impl View for VultrTag {
    type V = Seq<char>;

    closed spec fn view(&self) -> Seq<char> {
        self.0@
    }
}

impl Duplicate for VultrTag {
    fn duplicate(&self) -> (r: Self) {
        VultrTag(self.0.clone())
    }
}

impl VultrTag {
    /// Constructs a validated value.
    pub fn new(value: &str) -> (r: Result<Self, VultrError>)
        ensures
            view_result(r) == vultr_token(value@, MAX_TAG_BYTES as nat, CharClass::Identifier),
    {
        match vultr_check_token(value, MAX_TAG_BYTES, CharClass::Identifier) {
            Ok(text) => Ok(VultrTag(text)),
            Err(e) => Err(e),
        }
    }

    /// Returns the validated value.
    pub fn as_str(&self) -> (r: &str)
        ensures
            r@ == self@,
    {
        self.0.as_str()
    }
}

impl VultrTag {
    /// The texts of `items`, in order.
    pub fn to_texts(items: &[Self]) -> (r: Vec<String>)
        ensures
            string_views(r@) == tag_texts(items@),
    {
        let mut out: Vec<String> = Vec::new();
        let mut i: usize = 0;
        while i < items.len()
            invariant
                i <= items@.len(),
                string_views(out@) =~= tag_texts(items@.take(i as int)),
            decreases items@.len() - i,
        {
            let ghost before = out@;
            out.push(items[i].as_str().to_string());
            proof {
                assert(items@.take(i as int + 1) =~= items@.take(i as int).push(items@[i as int]));
                assert(string_views(out@) =~= string_views(before).push(items@[i as int]@));
            }
            i += 1;
        }
        proof {
            assert(items@.take(i as int) =~= items@);
        }
        out
    }
}


/// The texts of a sequence of tags.
pub open spec fn tag_texts(s: Seq<VultrTag>) -> Seq<Seq<char>> {
    s.map_values(|x: VultrTag| x@)
}

impl VultrTag {
    /// Validates each text as one tag, in order; the first refused text
    /// decides the error.
    pub fn from_texts(items: &Vec<String>) -> (r: Result<Vec<Self>, VultrError>)
        ensures
            match vultr_tokens(string_views(items@), MAX_TAG_BYTES as nat, CharClass::Identifier) {
                Ok(ts) => r is Ok && tag_texts(r->Ok_0@) == ts,
                Err(e) => r == Err::<Vec<Self>, VultrError>(e),
            },
    {
        let ghost sv = string_views(items@);
        let mut out: Vec<Self> = Vec::new();
        let mut i: usize = 0;
        proof {
            assert(sv.take(0) =~= Seq::<Seq<char>>::empty());
            assert(tag_texts(out@) =~= Seq::<Seq<char>>::empty());
        }
        while i < items.len()
            invariant
                i <= items.len(),
                sv == string_views(items@),
                tokens_outcome(sv.take(i as int), MAX_TAG_BYTES as nat, CharClass::Identifier) == Ok::<
                    Seq<Seq<char>>,
                    TextFault,
                >(tag_texts(out@)),
            decreases items.len() - i,
        {
            proof {
                lemma_tokens_outcome_step(sv, i as int, MAX_TAG_BYTES as nat, CharClass::Identifier);
                assert(sv[i as int] == items@[i as int]@);
            }
            match Self::new(items[i].as_str()) {
                Ok(x) => {
                    let ghost before = out@;
                    out.push(x);
                    proof {
                        assert(tag_texts(out@) =~= tag_texts(before).push(x@));
                    }
                },
                Err(e) => {
                    proof {
                        lemma_tokens_outcome_prefix_fault(sv, i as int + 1, MAX_TAG_BYTES as nat, CharClass::Identifier);
                    }
                    return Err(e);
                },
            }
            i += 1;
        }
        proof {
            assert(sv.take(i as int) =~= sv);
        }
        Ok(out)
    }
}


/// Vultr container-registry identifier.
#[derive(Clone, PartialEq, Eq, PartialOrd, Ord, Debug)]
pub struct VultrContainerRegistryId(String);

impl View for VultrContainerRegistryId {
    type V = Seq<char>;

    closed spec fn view(&self) -> Seq<char> {
        self.0@
    }
}

impl Duplicate for VultrContainerRegistryId {
    fn duplicate(&self) -> (r: Self) {
        VultrContainerRegistryId(self.0.clone())
    }
}

impl VultrContainerRegistryId {
    /// Constructs a validated value.
    pub fn new(value: &str) -> (r: Result<Self, VultrError>)
        ensures
            view_result(r) == vultr_token(value@, MAX_REGISTRY_ID_BYTES as nat, CharClass::LowercaseToken),
    {
        match vultr_check_token(value, MAX_REGISTRY_ID_BYTES, CharClass::LowercaseToken) {
            Ok(text) => Ok(VultrContainerRegistryId(text)),
            Err(e) => Err(e),
        }
    }

    /// Returns the validated value.
    pub fn as_str(&self) -> (r: &str)
        ensures
            r@ == self@,
    {
        self.0.as_str()
    }
}

/// Vultr container-registry name.
#[derive(Clone, PartialEq, Eq, PartialOrd, Ord, Debug)]
pub struct VultrContainerRegistryName(String);

impl View for VultrContainerRegistryName {
    type V = Seq<char>;

    closed spec fn view(&self) -> Seq<char> {
        self.0@
    }
}

impl Duplicate for VultrContainerRegistryName {
    fn duplicate(&self) -> (r: Self) {
        VultrContainerRegistryName(self.0.clone())
    }
}

impl VultrContainerRegistryName {
    /// Constructs a validated value.
    pub fn new(value: &str) -> (r: Result<Self, VultrError>)
        ensures
            view_result(r) == vultr_token(value@, MAX_REGISTRY_NAME_BYTES as nat, CharClass::SafeLabel),
    {
        match vultr_check_token(value, MAX_REGISTRY_NAME_BYTES, CharClass::SafeLabel) {
            Ok(text) => Ok(VultrContainerRegistryName(text)),
            Err(e) => Err(e),
        }
    }

    /// Returns the validated value.
    pub fn as_str(&self) -> (r: &str)
        ensures
            r@ == self@,
    {
        self.0.as_str()
    }
}

/// Vultr container-registry URN.
#[derive(Clone, PartialEq, Eq, PartialOrd, Ord, Debug)]
pub struct VultrContainerRegistryUrn(String);

impl View for VultrContainerRegistryUrn {
    type V = Seq<char>;

    closed spec fn view(&self) -> Seq<char> {
        self.0@
    }
}

impl Duplicate for VultrContainerRegistryUrn {
    fn duplicate(&self) -> (r: Self) {
        VultrContainerRegistryUrn(self.0.clone())
    }
}

impl VultrContainerRegistryUrn {
    /// Constructs a validated value.
    pub fn new(value: &str) -> (r: Result<Self, VultrError>)
        ensures
            view_result(r) == vultr_token(value@, MAX_REGISTRY_URN_BYTES as nat, CharClass::Urn),
    {
        match vultr_check_token(value, MAX_REGISTRY_URN_BYTES, CharClass::Urn) {
            Ok(text) => Ok(VultrContainerRegistryUrn(text)),
            Err(e) => Err(e),
        }
    }

    /// Returns the validated value.
    pub fn as_str(&self) -> (r: &str)
        ensures
            r@ == self@,
    {
        self.0.as_str()
    }
}

/// Vultr container-repository image name.
#[derive(Clone, PartialEq, Eq, PartialOrd, Ord, Debug)]
pub struct VultrContainerRepositoryName(String);

impl View for VultrContainerRepositoryName {
    type V = Seq<char>;

    closed spec fn view(&self) -> Seq<char> {
        self.0@
    }
}

impl Duplicate for VultrContainerRepositoryName {
    fn duplicate(&self) -> (r: Self) {
        VultrContainerRepositoryName(self.0.clone())
    }
}

impl VultrContainerRepositoryName {
    /// Constructs a validated value.
    pub fn new(value: &str) -> (r: Result<Self, VultrError>)
        ensures
            view_result(r) == vultr_token(value@, MAX_REPOSITORY_NAME_BYTES as nat, CharClass::RepositoryName),
    {
        match vultr_check_token(value, MAX_REPOSITORY_NAME_BYTES, CharClass::RepositoryName) {
            Ok(text) => Ok(VultrContainerRepositoryName(text)),
            Err(e) => Err(e),
        }
    }

    /// Returns the validated value.
    pub fn as_str(&self) -> (r: &str)
        ensures
            r@ == self@,
    {
        self.0.as_str()
    }
}

/// Vultr container-artifact digest.
#[derive(Clone, PartialEq, Eq, PartialOrd, Ord, Debug)]
pub struct VultrContainerArtifactDigest(String);

impl View for VultrContainerArtifactDigest {
    type V = Seq<char>;

    closed spec fn view(&self) -> Seq<char> {
        self.0@
    }
}

impl Duplicate for VultrContainerArtifactDigest {
    fn duplicate(&self) -> (r: Self) {
        VultrContainerArtifactDigest(self.0.clone())
    }
}

impl VultrContainerArtifactDigest {
    /// Constructs a validated value.
    pub fn new(value: &str) -> (r: Result<Self, VultrError>)
        ensures
            view_result(r) == vultr_token(value@, MAX_ARTIFACT_DIGEST_BYTES as nat, CharClass::Digest),
    {
        match vultr_check_token(value, MAX_ARTIFACT_DIGEST_BYTES, CharClass::Digest) {
            Ok(text) => Ok(VultrContainerArtifactDigest(text)),
            Err(e) => Err(e),
        }
    }

    /// Returns the validated value.
    pub fn as_str(&self) -> (r: &str)
        ensures
            r@ == self@,
    {
        self.0.as_str()
    }
}

/// Why cloud-init user data is refused, if it is: it must hold more than
/// whitespace, be at most [`MAX_CLOUD_INIT_USER_DATA_BYTES`] bytes, and begin
/// with `#cloud-config` and a newline or with `#!/`.
pub open spec fn cloud_init_fault(s: Seq<char>) -> Option<VultrError> {
    if trim(s).len() == 0 {
        Some(VultrError::Empty)
    } else if byte_len(s) > MAX_CLOUD_INIT_USER_DATA_BYTES {
        Some(VultrError::TooLong)
    } else if !starts_with(s, "#cloud-config\n"@) && !starts_with(s, "#!/"@) {
        Some(VultrError::InvalidCharacter)
    } else {
        None
    }
}

/// Cloud-init user-data supplied to Vultr during instance creation.
///
/// Bootstrap payloads often include registry credentials, private-network
/// keys, or application environment, so the type offers no `Debug`.
#[derive(PartialEq, Eq)]
pub struct VultrCloudInitUserData(String);

impl Clone for VultrCloudInitUserData {
    fn clone(&self) -> (r: Self)
        ensures
            r == *self,
    {
        proof {
            use_type_invariant(self);
        }
        VultrCloudInitUserData(self.0.clone())
    }
}

impl View for VultrCloudInitUserData {
    type V = Seq<char>;

    closed spec fn view(&self) -> Seq<char> {
        self.0@
    }
}

impl Drop for VultrCloudInitUserData {
    /// Overwrites the user data with zeros when the value is released.
    fn drop(&mut self)
        opens_invariants none
        no_unwind
    {
        zeroize_text(&mut self.0);
    }
}

impl Duplicate for VultrCloudInitUserData {
    fn duplicate(&self) -> (r: Self) {
        self.clone()
    }
}

impl VultrCloudInitUserData {
    /// The user data is valid, or wiped.
    #[verifier::type_invariant]
    pub open spec fn valid(&self) -> bool {
        self@.len() == 0 || cloud_init_fault(self@) is None
    }

    /// Returns the debug rendering of this value, which never shows the
    /// secret text.
    pub fn debug_text(&self) -> (r: &'static str)
        ensures
            r@ == "VultrCloudInitUserData(\"<redacted>\")"@,
    {
        "VultrCloudInitUserData(\"<redacted>\")"
    }

    /// Overwrites the secret text with zeros and leaves the value empty.
    pub fn zeroize(&mut self)
        ensures
            final(self)@ == Seq::<char>::empty(),
    {
        zeroize_text(&mut self.0);
    }

    /// Constructs validated cloud-init user-data, kept exactly as given.
    pub fn new(value: &str) -> (r: Result<Self, VultrError>)
        ensures
            match cloud_init_fault(value@) {
                Some(e) => r == Err::<Self, VultrError>(e),
                None => r is Ok && r->Ok_0@ == value@,
            },
    {
        let chars = chars_of(value);
        let (start, end) = trim_bounds(&chars);
        if start == end {
            return Err(VultrError::Empty);
        }
        let n = chars.len();
        assert(chars@.subrange(0, n as int) =~= value@);
        if range_exceeds_bytes(&chars, 0, n, MAX_CLOUD_INIT_USER_DATA_BYTES) {
            return Err(VultrError::TooLong);
        }
        if !str_starts_with(value, "#cloud-config\n") && !str_starts_with(value, "#!/") {
            return Err(VultrError::InvalidCharacter);
        }
        Ok(VultrCloudInitUserData(value.to_owned()))
    }

    /// Returns the raw cloud-init user-data.
    pub fn expose_as_str(&self) -> (r: &str)
        ensures
            r@ == self@,
    {
        self.0.as_str()
    }
}

/// Vultr operating system identifier.
#[derive(Debug, Clone, Copy, PartialEq, Eq, Hash)]
pub struct VultrOperatingSystemId(u32);

impl View for VultrOperatingSystemId {
    type V = u32;

    closed spec fn view(&self) -> u32 {
        self.0
    }
}

impl VultrOperatingSystemId {
    /// The identifier is non-zero.
    #[verifier::type_invariant]
    pub open spec fn valid(&self) -> bool {
        self@ != 0
    }

    /// Constructs a validated Vultr operating system identifier; zero is refused.
    pub fn new(value: u32) -> (r: Result<Self, VultrError>)
        ensures
            value == 0 ==> r == Err::<Self, VultrError>(VultrError::InvalidNumber),
            value != 0 ==> r is Ok && r->Ok_0@ == value,
    {
        if value == 0 {
            return Err(VultrError::InvalidNumber);
        }
        Ok(VultrOperatingSystemId(value))
    }

    /// Returns the Vultr API numeric OS identifier.
    pub fn get(self) -> (r: u32)
        ensures
            r == self@,
    {
        self.0
    }
}

/// Vultr Marketplace application identifier.
#[derive(Debug, Clone, Copy, PartialEq, Eq, Hash)]
pub struct VultrMarketplaceAppId(u32);

impl View for VultrMarketplaceAppId {
    type V = u32;

    closed spec fn view(&self) -> u32 {
        self.0
    }
}

impl VultrMarketplaceAppId {
    /// The identifier is non-zero.
    #[verifier::type_invariant]
    pub open spec fn valid(&self) -> bool {
        self@ != 0
    }

    /// Constructs a validated Marketplace application identifier; zero is refused.
    pub fn new(value: u32) -> (r: Result<Self, VultrError>)
        ensures
            value == 0 ==> r == Err::<Self, VultrError>(VultrError::InvalidNumber),
            value != 0 ==> r is Ok && r->Ok_0@ == value,
    {
        if value == 0 {
            return Err(VultrError::InvalidNumber);
        }
        Ok(VultrMarketplaceAppId(value))
    }

    /// Returns the provider numeric identifier.
    pub fn get(self) -> (r: u32)
        ensures
            r == self@,
    {
        self.0
    }
}

/// Vultr Marketplace image identifier.
#[derive(Debug, Clone, Copy, PartialEq, Eq, Hash)]
pub struct VultrMarketplaceImageId(u32);

impl View for VultrMarketplaceImageId {
    type V = u32;

    closed spec fn view(&self) -> u32 {
        self.0
    }
}

impl VultrMarketplaceImageId {
    /// The identifier is non-zero.
    #[verifier::type_invariant]
    pub open spec fn valid(&self) -> bool {
        self@ != 0
    }

    /// Constructs a validated Marketplace image identifier; zero is refused.
    pub fn new(value: u32) -> (r: Result<Self, VultrError>)
        ensures
            value == 0 ==> r == Err::<Self, VultrError>(VultrError::InvalidNumber),
            value != 0 ==> r is Ok && r->Ok_0@ == value,
    {
        if value == 0 {
            return Err(VultrError::InvalidNumber);
        }
        Ok(VultrMarketplaceImageId(value))
    }

    /// Returns the provider numeric identifier.
    pub fn get(self) -> (r: u32)
        ensures
            r == self@,
    {
        self.0
    }
}

/// Vultr instance lifecycle status.
#[derive(Debug, Clone, Copy, PartialEq, Eq, Hash, Structural)]
pub enum VultrInstanceStatus {
    /// The instance is being provisioned or changed.
    Pending,
    /// The instance is running.
    Active,
    /// The instance is stopped.
    Stopped,
    /// The instance is suspended by provider policy.
    Suspended,
}

/// The status that a Vultr API status text names.
pub open spec fn instance_status_outcome(s: Seq<char>) -> Result<VultrInstanceStatus, VultrError> {
    if s == "pending"@ {
        Ok(VultrInstanceStatus::Pending)
    } else if s == "active"@ {
        Ok(VultrInstanceStatus::Active)
    } else if s == "stopped"@ {
        Ok(VultrInstanceStatus::Stopped)
    } else if s == "suspended"@ {
        Ok(VultrInstanceStatus::Suspended)
    } else {
        Err(VultrError::UnknownInstanceStatus)
    }
}

impl VultrInstanceStatus {
    /// Parses a Vultr API status into a stable enum.
    pub fn parse(value: &str) -> (r: Result<Self, VultrError>)
        ensures
            r == instance_status_outcome(value@),
    {
        if same_text(value, "pending") {
            return Ok(VultrInstanceStatus::Pending);
        }
        if same_text(value, "active") {
            return Ok(VultrInstanceStatus::Active);
        }
        if same_text(value, "stopped") {
            return Ok(VultrInstanceStatus::Stopped);
        }
        if same_text(value, "suspended") {
            return Ok(VultrInstanceStatus::Suspended);
        }
        Err(VultrError::UnknownInstanceStatus)
    }
}

/// Vultr plan family.
#[derive(Debug, Clone, Copy, PartialEq, Eq, Hash, Structural)]
pub enum VultrPlanType {
    /// Regular cloud compute.
    CloudCompute,
    /// Dedicated cloud.
    DedicatedCloud,
    /// High frequency compute.
    HighFrequency,
    /// High performance compute.
    HighPerformance,
    /// Optimized cloud.
    OptimizedCloud,
    /// Bare metal.
    BareMetal,
    /// Cloud GPU.
    CloudGpu,
}

/// The plan family that a Vultr plan type code names.
pub open spec fn plan_type_outcome(s: Seq<char>) -> Result<VultrPlanType, VultrError> {
    if s == "vc2"@ {
        Ok(VultrPlanType::CloudCompute)
    } else if s == "vdc"@ {
        Ok(VultrPlanType::DedicatedCloud)
    } else if s == "vhf"@ {
        Ok(VultrPlanType::HighFrequency)
    } else if s == "vhp"@ {
        Ok(VultrPlanType::HighPerformance)
    } else if s == "voc"@ {
        Ok(VultrPlanType::OptimizedCloud)
    } else if s == "voc-g"@ {
        Ok(VultrPlanType::OptimizedCloud)
    } else if s == "voc-c"@ {
        Ok(VultrPlanType::OptimizedCloud)
    } else if s == "voc-m"@ {
        Ok(VultrPlanType::OptimizedCloud)
    } else if s == "voc-s"@ {
        Ok(VultrPlanType::OptimizedCloud)
    } else if s == "vbm"@ {
        Ok(VultrPlanType::BareMetal)
    } else if s == "dedicated"@ {
        Ok(VultrPlanType::BareMetal)
    } else if s == "vcg"@ {
        Ok(VultrPlanType::CloudGpu)
    } else {
        Err(VultrError::UnknownPlanType)
    }
}

impl VultrPlanType {
    /// Parses a Vultr plan type code.
    pub fn parse(value: &str) -> (r: Result<Self, VultrError>)
        ensures
            r == plan_type_outcome(value@),
    {
        if same_text(value, "vc2") {
            return Ok(VultrPlanType::CloudCompute);
        }
        if same_text(value, "vdc") {
            return Ok(VultrPlanType::DedicatedCloud);
        }
        if same_text(value, "vhf") {
            return Ok(VultrPlanType::HighFrequency);
        }
        if same_text(value, "vhp") {
            return Ok(VultrPlanType::HighPerformance);
        }
        if same_text(value, "voc") {
            return Ok(VultrPlanType::OptimizedCloud);
        }
        if same_text(value, "voc-g") {
            return Ok(VultrPlanType::OptimizedCloud);
        }
        if same_text(value, "voc-c") {
            return Ok(VultrPlanType::OptimizedCloud);
        }
        if same_text(value, "voc-m") {
            return Ok(VultrPlanType::OptimizedCloud);
        }
        if same_text(value, "voc-s") {
            return Ok(VultrPlanType::OptimizedCloud);
        }
        if same_text(value, "vbm") {
            return Ok(VultrPlanType::BareMetal);
        }
        if same_text(value, "dedicated") {
            return Ok(VultrPlanType::BareMetal);
        }
        if same_text(value, "vcg") {
            return Ok(VultrPlanType::CloudGpu);
        }
        Err(VultrError::UnknownPlanType)
    }
}

/// Vultr plan type code accepted by current Vultr plan filters.
#[derive(Debug, Clone, Copy, PartialEq, Eq, Hash, Structural)]
pub enum VultrPlanTypeCode {
    /// All available instance plan types.
    All,
    /// Regular cloud compute.
    Vc2,
    /// Dedicated cloud.
    Vdc,
    /// High frequency compute.
    Vhf,
    /// High performance compute.
    Vhp,
    /// All optimized cloud types.
    Voc,
    /// General purpose optimized cloud.
    VocG,
    /// CPU optimized cloud.
    VocC,
    /// Memory optimized cloud.
    VocM,
    /// Storage optimized cloud.
    VocS,
    /// Bare metal.
    Vbm,
    /// Cloud GPU.
    Vcg,
}

/// The plan type code that a filter text names.
pub open spec fn plan_type_code_outcome(s: Seq<char>) -> Result<VultrPlanTypeCode, VultrError> {
    if s == "all"@ {
        Ok(VultrPlanTypeCode::All)
    } else if s == "vc2"@ {
        Ok(VultrPlanTypeCode::Vc2)
    } else if s == "vdc"@ {
        Ok(VultrPlanTypeCode::Vdc)
    } else if s == "vhf"@ {
        Ok(VultrPlanTypeCode::Vhf)
    } else if s == "vhp"@ {
        Ok(VultrPlanTypeCode::Vhp)
    } else if s == "voc"@ {
        Ok(VultrPlanTypeCode::Voc)
    } else if s == "voc-g"@ {
        Ok(VultrPlanTypeCode::VocG)
    } else if s == "voc-c"@ {
        Ok(VultrPlanTypeCode::VocC)
    } else if s == "voc-m"@ {
        Ok(VultrPlanTypeCode::VocM)
    } else if s == "voc-s"@ {
        Ok(VultrPlanTypeCode::VocS)
    } else if s == "vbm"@ {
        Ok(VultrPlanTypeCode::Vbm)
    } else if s == "vcg"@ {
        Ok(VultrPlanTypeCode::Vcg)
    } else {
        Err(VultrError::UnknownPlanType)
    }
}

/// The API filter text of each plan type code.
pub open spec fn plan_type_api_code(c: VultrPlanTypeCode) -> Seq<char> {
    match c {
        VultrPlanTypeCode::All => "all"@,
        VultrPlanTypeCode::Vc2 => "vc2"@,
        VultrPlanTypeCode::Vdc => "vdc"@,
        VultrPlanTypeCode::Vhf => "vhf"@,
        VultrPlanTypeCode::Vhp => "vhp"@,
        VultrPlanTypeCode::Voc => "voc"@,
        VultrPlanTypeCode::VocG => "voc-g"@,
        VultrPlanTypeCode::VocC => "voc-c"@,
        VultrPlanTypeCode::VocM => "voc-m"@,
        VultrPlanTypeCode::VocS => "voc-s"@,
        VultrPlanTypeCode::Vbm => "vbm"@,
        VultrPlanTypeCode::Vcg => "vcg"@,
    }
}

/// The plan family of each plan type code; `All` has none.
pub open spec fn plan_type_family(c: VultrPlanTypeCode) -> Option<VultrPlanType> {
    match c {
        VultrPlanTypeCode::All => None,
        VultrPlanTypeCode::Vc2 => Some(VultrPlanType::CloudCompute),
        VultrPlanTypeCode::Vdc => Some(VultrPlanType::DedicatedCloud),
        VultrPlanTypeCode::Vhf => Some(VultrPlanType::HighFrequency),
        VultrPlanTypeCode::Vhp => Some(VultrPlanType::HighPerformance),
        VultrPlanTypeCode::Voc | VultrPlanTypeCode::VocG | VultrPlanTypeCode::VocC
        | VultrPlanTypeCode::VocM | VultrPlanTypeCode::VocS => Some(VultrPlanType::OptimizedCloud),
        VultrPlanTypeCode::Vbm => Some(VultrPlanType::BareMetal),
        VultrPlanTypeCode::Vcg => Some(VultrPlanType::CloudGpu),
    }
}

impl VultrPlanTypeCode {
    /// Parses a Vultr plan type code.
    pub fn parse(value: &str) -> (r: Result<Self, VultrError>)
        ensures
            r == plan_type_code_outcome(value@),
    {
        if same_text(value, "all") {
            return Ok(VultrPlanTypeCode::All);
        }
        if same_text(value, "vc2") {
            return Ok(VultrPlanTypeCode::Vc2);
        }
        if same_text(value, "vdc") {
            return Ok(VultrPlanTypeCode::Vdc);
        }
        if same_text(value, "vhf") {
            return Ok(VultrPlanTypeCode::Vhf);
        }
        if same_text(value, "vhp") {
            return Ok(VultrPlanTypeCode::Vhp);
        }
        if same_text(value, "voc") {
            return Ok(VultrPlanTypeCode::Voc);
        }
        if same_text(value, "voc-g") {
            return Ok(VultrPlanTypeCode::VocG);
        }
        if same_text(value, "voc-c") {
            return Ok(VultrPlanTypeCode::VocC);
        }
        if same_text(value, "voc-m") {
            return Ok(VultrPlanTypeCode::VocM);
        }
        if same_text(value, "voc-s") {
            return Ok(VultrPlanTypeCode::VocS);
        }
        if same_text(value, "vbm") {
            return Ok(VultrPlanTypeCode::Vbm);
        }
        if same_text(value, "vcg") {
            return Ok(VultrPlanTypeCode::Vcg);
        }
        Err(VultrError::UnknownPlanType)
    }

    /// Returns the Vultr API filter code.
    pub fn as_api_code(self) -> (r: &'static str)
        ensures
            r@ == plan_type_api_code(self),
    {
        match self {
            VultrPlanTypeCode::All => "all",
            VultrPlanTypeCode::Vc2 => "vc2",
            VultrPlanTypeCode::Vdc => "vdc",
            VultrPlanTypeCode::Vhf => "vhf",
            VultrPlanTypeCode::Vhp => "vhp",
            VultrPlanTypeCode::Voc => "voc",
            VultrPlanTypeCode::VocG => "voc-g",
            VultrPlanTypeCode::VocC => "voc-c",
            VultrPlanTypeCode::VocM => "voc-m",
            VultrPlanTypeCode::VocS => "voc-s",
            VultrPlanTypeCode::Vbm => "vbm",
            VultrPlanTypeCode::Vcg => "vcg",
        }
    }

    /// Returns the broader plan family represented by this type code.
    pub fn family(self) -> (r: Option<VultrPlanType>)
        ensures
            r == plan_type_family(self),
    {
        match self {
            VultrPlanTypeCode::All => None,
            VultrPlanTypeCode::Vc2 => Some(VultrPlanType::CloudCompute),
            VultrPlanTypeCode::Vdc => Some(VultrPlanType::DedicatedCloud),
            VultrPlanTypeCode::Vhf => Some(VultrPlanType::HighFrequency),
            VultrPlanTypeCode::Vhp => Some(VultrPlanType::HighPerformance),
            VultrPlanTypeCode::Voc | VultrPlanTypeCode::VocG | VultrPlanTypeCode::VocC
            | VultrPlanTypeCode::VocM | VultrPlanTypeCode::VocS => Some(VultrPlanType::OptimizedCloud),
            VultrPlanTypeCode::Vbm => Some(VultrPlanType::BareMetal),
            VultrPlanTypeCode::Vcg => Some(VultrPlanType::CloudGpu),
        }
    }
}

/// The family of a plan type code: only `all` has none, and every other
/// code's API text parses as a plan type to its family.
pub proof fn lemma_plan_type_code_family(c: VultrPlanTypeCode)
    ensures
        plan_type_family(c) is None <==> c == VultrPlanTypeCode::All,
        c != VultrPlanTypeCode::All ==> plan_type_outcome(plan_type_api_code(c)) == Ok::<
            VultrPlanType,
            VultrError,
        >(plan_type_family(c)->Some_0),
{
    reveal_strlit("all");
    reveal_strlit("vc2");
    reveal_strlit("vdc");
    reveal_strlit("vhf");
    reveal_strlit("vhp");
    reveal_strlit("voc");
    reveal_strlit("voc-g");
    reveal_strlit("voc-c");
    reveal_strlit("voc-m");
    reveal_strlit("voc-s");
    reveal_strlit("vbm");
    reveal_strlit("vcg");
    assert("all"@.len() == 3 && "all"@[0] == 'a' && "all"@[1] == 'l' && "all"@[2] == 'l');
    assert("vc2"@.len() == 3 && "vc2"@[0] == 'v' && "vc2"@[1] == 'c' && "vc2"@[2] == '2');
    assert("vdc"@.len() == 3 && "vdc"@[0] == 'v' && "vdc"@[1] == 'd' && "vdc"@[2] == 'c');
    assert("vhf"@.len() == 3 && "vhf"@[0] == 'v' && "vhf"@[1] == 'h' && "vhf"@[2] == 'f');
    assert("vhp"@.len() == 3 && "vhp"@[0] == 'v' && "vhp"@[1] == 'h' && "vhp"@[2] == 'p');
    assert("voc"@.len() == 3 && "voc"@[0] == 'v' && "voc"@[1] == 'o' && "voc"@[2] == 'c');
    assert("voc-g"@.len() == 5 && "voc-g"@[0] == 'v' && "voc-g"@[1] == 'o' && "voc-g"@[2] == 'c' && "voc-g"@[3] == '-' && "voc-g"@[4] == 'g');
    assert("voc-c"@.len() == 5 && "voc-c"@[0] == 'v' && "voc-c"@[1] == 'o' && "voc-c"@[2] == 'c' && "voc-c"@[3] == '-' && "voc-c"@[4] == 'c');
    assert("voc-m"@.len() == 5 && "voc-m"@[0] == 'v' && "voc-m"@[1] == 'o' && "voc-m"@[2] == 'c' && "voc-m"@[3] == '-' && "voc-m"@[4] == 'm');
    assert("voc-s"@.len() == 5 && "voc-s"@[0] == 'v' && "voc-s"@[1] == 'o' && "voc-s"@[2] == 'c' && "voc-s"@[3] == '-' && "voc-s"@[4] == 's');
    assert("vbm"@.len() == 3 && "vbm"@[0] == 'v' && "vbm"@[1] == 'b' && "vbm"@[2] == 'm');
    assert("vcg"@.len() == 3 && "vcg"@[0] == 'v' && "vcg"@[1] == 'c' && "vcg"@[2] == 'g');
    reveal_strlit("dedicated");
    assert("dedicated"@.len() == 9 && "dedicated"@[0] == 'd');
}

/// Parsing the API code of a plan type code gives that code back.
pub proof fn lemma_plan_type_code_round_trip(c: VultrPlanTypeCode)
    ensures
        plan_type_code_outcome(plan_type_api_code(c)) == Ok::<VultrPlanTypeCode, VultrError>(c),
{
    reveal_strlit("all");
    reveal_strlit("vc2");
    reveal_strlit("vdc");
    reveal_strlit("vhf");
    reveal_strlit("vhp");
    reveal_strlit("voc");
    reveal_strlit("voc-g");
    reveal_strlit("voc-c");
    reveal_strlit("voc-m");
    reveal_strlit("voc-s");
    reveal_strlit("vbm");
    reveal_strlit("vcg");
    assert("all"@.len() == 3 && "all"@[0] == 'a' && "all"@[1] == 'l' && "all"@[2] == 'l');
    assert("vc2"@.len() == 3 && "vc2"@[0] == 'v' && "vc2"@[1] == 'c' && "vc2"@[2] == '2');
    assert("vdc"@.len() == 3 && "vdc"@[0] == 'v' && "vdc"@[1] == 'd' && "vdc"@[2] == 'c');
    assert("vhf"@.len() == 3 && "vhf"@[0] == 'v' && "vhf"@[1] == 'h' && "vhf"@[2] == 'f');
    assert("vhp"@.len() == 3 && "vhp"@[0] == 'v' && "vhp"@[1] == 'h' && "vhp"@[2] == 'p');
    assert("voc"@.len() == 3 && "voc"@[0] == 'v' && "voc"@[1] == 'o' && "voc"@[2] == 'c');
    assert("voc-g"@.len() == 5 && "voc-g"@[0] == 'v' && "voc-g"@[1] == 'o' && "voc-g"@[2] == 'c' && "voc-g"@[3] == '-' && "voc-g"@[4] == 'g');
    assert("voc-c"@.len() == 5 && "voc-c"@[0] == 'v' && "voc-c"@[1] == 'o' && "voc-c"@[2] == 'c' && "voc-c"@[3] == '-' && "voc-c"@[4] == 'c');
    assert("voc-m"@.len() == 5 && "voc-m"@[0] == 'v' && "voc-m"@[1] == 'o' && "voc-m"@[2] == 'c' && "voc-m"@[3] == '-' && "voc-m"@[4] == 'm');
    assert("voc-s"@.len() == 5 && "voc-s"@[0] == 'v' && "voc-s"@[1] == 'o' && "voc-s"@[2] == 'c' && "voc-s"@[3] == '-' && "voc-s"@[4] == 's');
    assert("vbm"@.len() == 3 && "vbm"@[0] == 'v' && "vbm"@[1] == 'b' && "vbm"@[2] == 'm');
    assert("vcg"@.len() == 3 && "vcg"@[0] == 'v' && "vcg"@[1] == 'c' && "vcg"@[2] == 'g');
}

/// Vultr datacenter airport codes known to ReallyMe policy at compile time.
///
/// Vultr can add regions independently of our release cycle, so API responses
/// must continue to use [`VultrRegionId`] as the source of truth. This enum is
/// only for curated UI choices and policy defaults.
#[allow(clippy::upper_case_acronyms)]
#[derive(Debug, Clone, Copy, PartialEq, Eq, Hash, Structural)]
pub enum VultrDatacenterCode {
    /// AMS.
    AMS,
    /// ATL.
    ATL,
    /// BLR.
    BLR,
    /// BOM.
    BOM,
    /// CDG.
    CDG,
    /// DEL.
    DEL,
    /// DFW.
    DFW,
    /// DAL legacy ReallyMe alias for the Dallas/Fort Worth datacenter.
    DAL,
    /// EWR.
    EWR,
    /// FRA.
    FRA,
    /// HNL.
    HNL,
    /// IAD.
    IAD,
    /// ICN.
    ICN,
    /// ITM.
    ITM,
    /// JNB.
    JNB,
    /// LAX.
    LAX,
    /// LHR.
    LHR,
    /// LON legacy ReallyMe alias for the London datacenter.
    LON,
    /// MAD.
    MAD,
    /// MAN.
    MAN,
    /// MEL.
    MEL,
    /// MEX.
    MEX,
    /// MIA.
    MIA,
    /// MXP.
    MXP,
    /// NRT.
    NRT,
    /// NYC legacy ReallyMe alias for the New Jersey datacenter.
    NYC,
    /// ORD.
    ORD,
    /// SAO.
    SAO,
    /// SCL.
    SCL,
    /// SEA.
    SEA,
    /// SGP.
    SGP,
    /// SIG legacy ReallyMe alias for the Singapore datacenter.
    SIG,
    /// SJC.
    SJC,
    /// SFO legacy ReallyMe alias for the Silicon Valley datacenter.
    SFO,
    /// STO.
    STO,
    /// SYD.
    SYD,
    /// TLV.
    TLV,
    /// WAW.
    WAW,
    /// YTO.
    YTO,
    /// YYZ legacy ReallyMe alias for the Toronto datacenter.
    YYZ,
}

/// The datacenter code that a Vultr region id names, if it is curated.
pub open spec fn datacenter_code_of(s: Seq<char>) -> Option<VultrDatacenterCode> {
    if s == "ams"@ {
        Some(VultrDatacenterCode::AMS)
    } else if s == "atl"@ {
        Some(VultrDatacenterCode::ATL)
    } else if s == "blr"@ {
        Some(VultrDatacenterCode::BLR)
    } else if s == "bom"@ {
        Some(VultrDatacenterCode::BOM)
    } else if s == "cdg"@ {
        Some(VultrDatacenterCode::CDG)
    } else if s == "del"@ {
        Some(VultrDatacenterCode::DEL)
    } else if s == "dfw"@ {
        Some(VultrDatacenterCode::DFW)
    } else if s == "ewr"@ {
        Some(VultrDatacenterCode::EWR)
    } else if s == "fra"@ {
        Some(VultrDatacenterCode::FRA)
    } else if s == "hnl"@ {
        Some(VultrDatacenterCode::HNL)
    } else if s == "iad"@ {
        Some(VultrDatacenterCode::IAD)
    } else if s == "icn"@ {
        Some(VultrDatacenterCode::ICN)
    } else if s == "itm"@ {
        Some(VultrDatacenterCode::ITM)
    } else if s == "jnb"@ {
        Some(VultrDatacenterCode::JNB)
    } else if s == "lax"@ {
        Some(VultrDatacenterCode::LAX)
    } else if s == "lhr"@ {
        Some(VultrDatacenterCode::LHR)
    } else if s == "mad"@ {
        Some(VultrDatacenterCode::MAD)
    } else if s == "man"@ {
        Some(VultrDatacenterCode::MAN)
    } else if s == "mel"@ {
        Some(VultrDatacenterCode::MEL)
    } else if s == "mex"@ {
        Some(VultrDatacenterCode::MEX)
    } else if s == "mia"@ {
        Some(VultrDatacenterCode::MIA)
    } else if s == "mxp"@ {
        Some(VultrDatacenterCode::MXP)
    } else if s == "nrt"@ {
        Some(VultrDatacenterCode::NRT)
    } else if s == "nyc"@ {
        Some(VultrDatacenterCode::NYC)
    } else if s == "ord"@ {
        Some(VultrDatacenterCode::ORD)
    } else if s == "sao"@ {
        Some(VultrDatacenterCode::SAO)
    } else if s == "scl"@ {
        Some(VultrDatacenterCode::SCL)
    } else if s == "sea"@ {
        Some(VultrDatacenterCode::SEA)
    } else if s == "sgp"@ {
        Some(VultrDatacenterCode::SGP)
    } else if s == "sjc"@ {
        Some(VultrDatacenterCode::SJC)
    } else if s == "sto"@ {
        Some(VultrDatacenterCode::STO)
    } else if s == "syd"@ {
        Some(VultrDatacenterCode::SYD)
    } else if s == "tlv"@ {
        Some(VultrDatacenterCode::TLV)
    } else if s == "waw"@ {
        Some(VultrDatacenterCode::WAW)
    } else if s == "yto"@ {
        Some(VultrDatacenterCode::YTO)
    } else {
        None
    }
}

/// The Vultr region id of each datacenter code; legacy aliases name the
/// region they stand for.
pub open spec fn datacenter_region_id(c: VultrDatacenterCode) -> Seq<char> {
    match c {
        VultrDatacenterCode::AMS => "ams"@,
        VultrDatacenterCode::ATL => "atl"@,
        VultrDatacenterCode::BLR => "blr"@,
        VultrDatacenterCode::BOM => "bom"@,
        VultrDatacenterCode::CDG => "cdg"@,
        VultrDatacenterCode::DEL => "del"@,
        VultrDatacenterCode::DFW => "dfw"@,
        VultrDatacenterCode::DAL => "dfw"@,
        VultrDatacenterCode::EWR => "ewr"@,
        VultrDatacenterCode::FRA => "fra"@,
        VultrDatacenterCode::HNL => "hnl"@,
        VultrDatacenterCode::IAD => "iad"@,
        VultrDatacenterCode::ICN => "icn"@,
        VultrDatacenterCode::ITM => "itm"@,
        VultrDatacenterCode::JNB => "jnb"@,
        VultrDatacenterCode::LAX => "lax"@,
        VultrDatacenterCode::LHR => "lhr"@,
        VultrDatacenterCode::LON => "lhr"@,
        VultrDatacenterCode::MAD => "mad"@,
        VultrDatacenterCode::MAN => "man"@,
        VultrDatacenterCode::MEL => "mel"@,
        VultrDatacenterCode::MEX => "mex"@,
        VultrDatacenterCode::MIA => "mia"@,
        VultrDatacenterCode::MXP => "mxp"@,
        VultrDatacenterCode::NRT => "nrt"@,
        VultrDatacenterCode::NYC => "ewr"@,
        VultrDatacenterCode::ORD => "ord"@,
        VultrDatacenterCode::SAO => "sao"@,
        VultrDatacenterCode::SCL => "scl"@,
        VultrDatacenterCode::SEA => "sea"@,
        VultrDatacenterCode::SGP => "sgp"@,
        VultrDatacenterCode::SIG => "sgp"@,
        VultrDatacenterCode::SJC => "sjc"@,
        VultrDatacenterCode::SFO => "sjc"@,
        VultrDatacenterCode::STO => "sto"@,
        VultrDatacenterCode::SYD => "syd"@,
        VultrDatacenterCode::TLV => "tlv"@,
        VultrDatacenterCode::WAW => "waw"@,
        VultrDatacenterCode::YTO => "yto"@,
        VultrDatacenterCode::YYZ => "yto"@,
    }
}

impl VultrDatacenterCode {
    /// Parses a Vultr region id into a curated datacenter code.
    pub fn parse_id(value: &str) -> (r: Option<Self>)
        ensures
            r == datacenter_code_of(value@),
    {
        if same_text(value, "ams") {
            return Some(VultrDatacenterCode::AMS);
        }
        if same_text(value, "atl") {
            return Some(VultrDatacenterCode::ATL);
        }
        if same_text(value, "blr") {
            return Some(VultrDatacenterCode::BLR);
        }
        if same_text(value, "bom") {
            return Some(VultrDatacenterCode::BOM);
        }
        if same_text(value, "cdg") {
            return Some(VultrDatacenterCode::CDG);
        }
        if same_text(value, "del") {
            return Some(VultrDatacenterCode::DEL);
        }
        if same_text(value, "dfw") {
            return Some(VultrDatacenterCode::DFW);
        }
        if same_text(value, "ewr") {
            return Some(VultrDatacenterCode::EWR);
        }
        if same_text(value, "fra") {
            return Some(VultrDatacenterCode::FRA);
        }
        if same_text(value, "hnl") {
            return Some(VultrDatacenterCode::HNL);
        }
        if same_text(value, "iad") {
            return Some(VultrDatacenterCode::IAD);
        }
        if same_text(value, "icn") {
            return Some(VultrDatacenterCode::ICN);
        }
        if same_text(value, "itm") {
            return Some(VultrDatacenterCode::ITM);
        }
        if same_text(value, "jnb") {
            return Some(VultrDatacenterCode::JNB);
        }
        if same_text(value, "lax") {
            return Some(VultrDatacenterCode::LAX);
        }
        if same_text(value, "lhr") {
            return Some(VultrDatacenterCode::LHR);
        }
        if same_text(value, "mad") {
            return Some(VultrDatacenterCode::MAD);
        }
        if same_text(value, "man") {
            return Some(VultrDatacenterCode::MAN);
        }
        if same_text(value, "mel") {
            return Some(VultrDatacenterCode::MEL);
        }
        if same_text(value, "mex") {
            return Some(VultrDatacenterCode::MEX);
        }
        if same_text(value, "mia") {
            return Some(VultrDatacenterCode::MIA);
        }
        if same_text(value, "mxp") {
            return Some(VultrDatacenterCode::MXP);
        }
        if same_text(value, "nrt") {
            return Some(VultrDatacenterCode::NRT);
        }
        if same_text(value, "nyc") {
            return Some(VultrDatacenterCode::NYC);
        }
        if same_text(value, "ord") {
            return Some(VultrDatacenterCode::ORD);
        }
        if same_text(value, "sao") {
            return Some(VultrDatacenterCode::SAO);
        }
        if same_text(value, "scl") {
            return Some(VultrDatacenterCode::SCL);
        }
        if same_text(value, "sea") {
            return Some(VultrDatacenterCode::SEA);
        }
        if same_text(value, "sgp") {
            return Some(VultrDatacenterCode::SGP);
        }
        if same_text(value, "sjc") {
            return Some(VultrDatacenterCode::SJC);
        }
        if same_text(value, "sto") {
            return Some(VultrDatacenterCode::STO);
        }
        if same_text(value, "syd") {
            return Some(VultrDatacenterCode::SYD);
        }
        if same_text(value, "tlv") {
            return Some(VultrDatacenterCode::TLV);
        }
        if same_text(value, "waw") {
            return Some(VultrDatacenterCode::WAW);
        }
        if same_text(value, "yto") {
            return Some(VultrDatacenterCode::YTO);
        }
        None
    }

    /// Returns the Vultr region id used by the API.
    pub fn id(self) -> (r: &'static str)
        ensures
            r@ == datacenter_region_id(self),
    {
        match self {
            VultrDatacenterCode::AMS => "ams",
            VultrDatacenterCode::ATL => "atl",
            VultrDatacenterCode::BLR => "blr",
            VultrDatacenterCode::BOM => "bom",
            VultrDatacenterCode::CDG => "cdg",
            VultrDatacenterCode::DEL => "del",
            VultrDatacenterCode::DFW => "dfw",
            VultrDatacenterCode::DAL => "dfw",
            VultrDatacenterCode::EWR => "ewr",
            VultrDatacenterCode::FRA => "fra",
            VultrDatacenterCode::HNL => "hnl",
            VultrDatacenterCode::IAD => "iad",
            VultrDatacenterCode::ICN => "icn",
            VultrDatacenterCode::ITM => "itm",
            VultrDatacenterCode::JNB => "jnb",
            VultrDatacenterCode::LAX => "lax",
            VultrDatacenterCode::LHR => "lhr",
            VultrDatacenterCode::LON => "lhr",
            VultrDatacenterCode::MAD => "mad",
            VultrDatacenterCode::MAN => "man",
            VultrDatacenterCode::MEL => "mel",
            VultrDatacenterCode::MEX => "mex",
            VultrDatacenterCode::MIA => "mia",
            VultrDatacenterCode::MXP => "mxp",
            VultrDatacenterCode::NRT => "nrt",
            VultrDatacenterCode::NYC => "ewr",
            VultrDatacenterCode::ORD => "ord",
            VultrDatacenterCode::SAO => "sao",
            VultrDatacenterCode::SCL => "scl",
            VultrDatacenterCode::SEA => "sea",
            VultrDatacenterCode::SGP => "sgp",
            VultrDatacenterCode::SIG => "sgp",
            VultrDatacenterCode::SJC => "sjc",
            VultrDatacenterCode::SFO => "sjc",
            VultrDatacenterCode::STO => "sto",
            VultrDatacenterCode::SYD => "syd",
            VultrDatacenterCode::TLV => "tlv",
            VultrDatacenterCode::WAW => "waw",
            VultrDatacenterCode::YTO => "yto",
            VultrDatacenterCode::YYZ => "yto",
        }
    }
}

/// Whether a datacenter code is one of the legacy ReallyMe aliases, which
/// name the region of another code.
pub open spec fn datacenter_code_is_legacy_alias(c: VultrDatacenterCode) -> bool {
    c == VultrDatacenterCode::DAL || c == VultrDatacenterCode::LON || c == VultrDatacenterCode::NYC
        || c == VultrDatacenterCode::SIG || c == VultrDatacenterCode::SFO || c == VultrDatacenterCode::YYZ
}

/// The codes of the region ids that the datacenter parser knows.
proof fn lemma_datacenter_id_codes()
    ensures
        "ams"@.len() == 3 && catalog_code("ams"@) == 6385011,
        "atl"@.len() == 3 && catalog_code("atl"@) == 6386796,
        "blr"@.len() == 3 && catalog_code("blr"@) == 6450290,
        "bom"@.len() == 3 && catalog_code("bom"@) == 6451053,
        "cdg"@.len() == 3 && catalog_code("cdg"@) == 6513767,
        "del"@.len() == 3 && catalog_code("del"@) == 6579564,
        "dfw"@.len() == 3 && catalog_code("dfw"@) == 6579831,
        "ewr"@.len() == 3 && catalog_code("ewr"@) == 6649714,
        "fra"@.len() == 3 && catalog_code("fra"@) == 6713953,
        "hnl"@.len() == 3 && catalog_code("hnl"@) == 6844012,
        "iad"@.len() == 3 && catalog_code("iad"@) == 6906212,
        "icn"@.len() == 3 && catalog_code("icn"@) == 6906734,
        "itm"@.len() == 3 && catalog_code("itm"@) == 6911085,
        "jnb"@.len() == 3 && catalog_code("jnb"@) == 6975074,
        "lax"@.len() == 3 && catalog_code("lax"@) == 7102840,
        "lhr"@.len() == 3 && catalog_code("lhr"@) == 7104626,
        "mad"@.len() == 3 && catalog_code("mad"@) == 7168356,
        "man"@.len() == 3 && catalog_code("man"@) == 7168366,
        "mel"@.len() == 3 && catalog_code("mel"@) == 7169388,
        "mex"@.len() == 3 && catalog_code("mex"@) == 7169400,
        "mia"@.len() == 3 && catalog_code("mia"@) == 7170401,
        "mxp"@.len() == 3 && catalog_code("mxp"@) == 7174256,
        "nrt"@.len() == 3 && catalog_code("nrt"@) == 7238260,
        "nyc"@.len() == 3 && catalog_code("nyc"@) == 7240035,
        "ord"@.len() == 3 && catalog_code("ord"@) == 7303780,
        "sao"@.len() == 3 && catalog_code("sao"@) == 7561583,
        "scl"@.len() == 3 && catalog_code("scl"@) == 7562092,
        "sea"@.len() == 3 && catalog_code("sea"@) == 7562593,
        "sgp"@.len() == 3 && catalog_code("sgp"@) == 7563120,
        "sjc"@.len() == 3 && catalog_code("sjc"@) == 7563875,
        "sto"@.len() == 3 && catalog_code("sto"@) == 7566447,
        "syd"@.len() == 3 && catalog_code("syd"@) == 7567716,
        "tlv"@.len() == 3 && catalog_code("tlv"@) == 7629942,
        "waw"@.len() == 3 && catalog_code("waw"@) == 7823735,
        "yto"@.len() == 3 && catalog_code("yto"@) == 7959663,
{
    reveal_strlit("ams");
    reveal_strlit("atl");
    reveal_strlit("blr");
    reveal_strlit("bom");
    reveal_strlit("cdg");
    reveal_strlit("del");
    reveal_strlit("dfw");
    reveal_strlit("ewr");
    reveal_strlit("fra");
    reveal_strlit("hnl");
    reveal_strlit("iad");
    reveal_strlit("icn");
    reveal_strlit("itm");
    reveal_strlit("jnb");
    reveal_strlit("lax");
    reveal_strlit("lhr");
    reveal_strlit("mad");
    reveal_strlit("man");
    reveal_strlit("mel");
    reveal_strlit("mex");
    reveal_strlit("mia");
    reveal_strlit("mxp");
    reveal_strlit("nrt");
    reveal_strlit("nyc");
    reveal_strlit("ord");
    reveal_strlit("sao");
    reveal_strlit("scl");
    reveal_strlit("sea");
    reveal_strlit("sgp");
    reveal_strlit("sjc");
    reveal_strlit("sto");
    reveal_strlit("syd");
    reveal_strlit("tlv");
    reveal_strlit("waw");
    reveal_strlit("yto");
}

/// Every datacenter code that is not a legacy alias parses back from its
/// region id.
pub proof fn lemma_datacenter_code_parses_back(c: VultrDatacenterCode)
    requires
        !datacenter_code_is_legacy_alias(c),
    ensures
        datacenter_code_of(datacenter_region_id(c)) == Some(c),
{
    lemma_datacenter_id_codes();
}

/// A parsed region id names the code parsed from it: its region id is the
/// text parsed, except for the legacy `nyc` alias.
pub proof fn lemma_datacenter_parse_names_id(s: Seq<char>)
    ensures
        datacenter_code_of(s) matches Some(d) ==> datacenter_region_id(d) == s || (s == "nyc"@
            && d == VultrDatacenterCode::NYC),
{
}

/// The region id of every datacenter code parses back to a code with the
/// same region id.
pub proof fn lemma_datacenter_id_round_trip(c: VultrDatacenterCode)
    ensures
        datacenter_code_of(datacenter_region_id(c)) is Some,
        datacenter_region_id(datacenter_code_of(datacenter_region_id(c))->Some_0)
            == datacenter_region_id(c),
{
    reveal_strlit("ams");
    reveal_strlit("atl");
    reveal_strlit("blr");
    reveal_strlit("bom");
    reveal_strlit("cdg");
    reveal_strlit("del");
    reveal_strlit("dfw");
    reveal_strlit("ewr");
    reveal_strlit("fra");
    reveal_strlit("hnl");
    reveal_strlit("iad");
    reveal_strlit("icn");
    reveal_strlit("itm");
    reveal_strlit("jnb");
    reveal_strlit("lax");
    reveal_strlit("lhr");
    reveal_strlit("mad");
    reveal_strlit("man");
    reveal_strlit("mel");
    reveal_strlit("mex");
    reveal_strlit("mia");
    reveal_strlit("mxp");
    reveal_strlit("nrt");
    reveal_strlit("nyc");
    reveal_strlit("ord");
    reveal_strlit("sao");
    reveal_strlit("scl");
    reveal_strlit("sea");
    reveal_strlit("sgp");
    reveal_strlit("sjc");
    reveal_strlit("sto");
    reveal_strlit("syd");
    reveal_strlit("tlv");
    reveal_strlit("waw");
    reveal_strlit("yto");
    assert("ams"@.len() == 3 && "ams"@[0] == 'a' && "ams"@[1] == 'm' && "ams"@[2] == 's');
    assert("atl"@.len() == 3 && "atl"@[0] == 'a' && "atl"@[1] == 't' && "atl"@[2] == 'l');
    assert("blr"@.len() == 3 && "blr"@[0] == 'b' && "blr"@[1] == 'l' && "blr"@[2] == 'r');
    assert("bom"@.len() == 3 && "bom"@[0] == 'b' && "bom"@[1] == 'o' && "bom"@[2] == 'm');
    assert("cdg"@.len() == 3 && "cdg"@[0] == 'c' && "cdg"@[1] == 'd' && "cdg"@[2] == 'g');
    assert("del"@.len() == 3 && "del"@[0] == 'd' && "del"@[1] == 'e' && "del"@[2] == 'l');
    assert("dfw"@.len() == 3 && "dfw"@[0] == 'd' && "dfw"@[1] == 'f' && "dfw"@[2] == 'w');
    assert("ewr"@.len() == 3 && "ewr"@[0] == 'e' && "ewr"@[1] == 'w' && "ewr"@[2] == 'r');
    assert("fra"@.len() == 3 && "fra"@[0] == 'f' && "fra"@[1] == 'r' && "fra"@[2] == 'a');
    assert("hnl"@.len() == 3 && "hnl"@[0] == 'h' && "hnl"@[1] == 'n' && "hnl"@[2] == 'l');
    assert("iad"@.len() == 3 && "iad"@[0] == 'i' && "iad"@[1] == 'a' && "iad"@[2] == 'd');
    assert("icn"@.len() == 3 && "icn"@[0] == 'i' && "icn"@[1] == 'c' && "icn"@[2] == 'n');
    assert("itm"@.len() == 3 && "itm"@[0] == 'i' && "itm"@[1] == 't' && "itm"@[2] == 'm');
    assert("jnb"@.len() == 3 && "jnb"@[0] == 'j' && "jnb"@[1] == 'n' && "jnb"@[2] == 'b');
    assert("lax"@.len() == 3 && "lax"@[0] == 'l' && "lax"@[1] == 'a' && "lax"@[2] == 'x');
    assert("lhr"@.len() == 3 && "lhr"@[0] == 'l' && "lhr"@[1] == 'h' && "lhr"@[2] == 'r');
    assert("mad"@.len() == 3 && "mad"@[0] == 'm' && "mad"@[1] == 'a' && "mad"@[2] == 'd');
    assert("man"@.len() == 3 && "man"@[0] == 'm' && "man"@[1] == 'a' && "man"@[2] == 'n');
    assert("mel"@.len() == 3 && "mel"@[0] == 'm' && "mel"@[1] == 'e' && "mel"@[2] == 'l');
    assert("mex"@.len() == 3 && "mex"@[0] == 'm' && "mex"@[1] == 'e' && "mex"@[2] == 'x');
    assert("mia"@.len() == 3 && "mia"@[0] == 'm' && "mia"@[1] == 'i' && "mia"@[2] == 'a');
    assert("mxp"@.len() == 3 && "mxp"@[0] == 'm' && "mxp"@[1] == 'x' && "mxp"@[2] == 'p');
    assert("nrt"@.len() == 3 && "nrt"@[0] == 'n' && "nrt"@[1] == 'r' && "nrt"@[2] == 't');
    assert("nyc"@.len() == 3 && "nyc"@[0] == 'n' && "nyc"@[1] == 'y' && "nyc"@[2] == 'c');
    assert("ord"@.len() == 3 && "ord"@[0] == 'o' && "ord"@[1] == 'r' && "ord"@[2] == 'd');
    assert("sao"@.len() == 3 && "sao"@[0] == 's' && "sao"@[1] == 'a' && "sao"@[2] == 'o');
    assert("scl"@.len() == 3 && "scl"@[0] == 's' && "scl"@[1] == 'c' && "scl"@[2] == 'l');
    assert("sea"@.len() == 3 && "sea"@[0] == 's' && "sea"@[1] == 'e' && "sea"@[2] == 'a');
    assert("sgp"@.len() == 3 && "sgp"@[0] == 's' && "sgp"@[1] == 'g' && "sgp"@[2] == 'p');
    assert("sjc"@.len() == 3 && "sjc"@[0] == 's' && "sjc"@[1] == 'j' && "sjc"@[2] == 'c');
    assert("sto"@.len() == 3 && "sto"@[0] == 's' && "sto"@[1] == 't' && "sto"@[2] == 'o');
    assert("syd"@.len() == 3 && "syd"@[0] == 's' && "syd"@[1] == 'y' && "syd"@[2] == 'd');
    assert("tlv"@.len() == 3 && "tlv"@[0] == 't' && "tlv"@[1] == 'l' && "tlv"@[2] == 'v');
    assert("waw"@.len() == 3 && "waw"@[0] == 'w' && "waw"@[1] == 'a' && "waw"@[2] == 'w');
    assert("yto"@.len() == 3 && "yto"@[0] == 'y' && "yto"@[1] == 't' && "yto"@[2] == 'o');
}

/// Why a public text is refused, if it is: trimmed it must be non-empty, at
/// most `max` bytes, and made of label characters.
pub open spec fn public_text_fault(s: Seq<char>, max: nat) -> Option<VultrError> {
    match vultr_token(s, max, CharClass::SafeLabel) {
        Ok(_) => None,
        Err(e) => Some(e),
    }
}

/// Validates a public text, as [`public_text_fault`] describes.
pub fn validate_public_text(value: &str, max_bytes: usize) -> (r: Result<(), VultrError>)
    requires
        max_bytes <= usize::MAX - 4,
    ensures
        match public_text_fault(value@, max_bytes as nat) {
            Some(e) => r == Err::<(), VultrError>(e),
            None => r is Ok,
        },
{
    match vultr_check_token(value, max_bytes, CharClass::SafeLabel) {
        Ok(_) => Ok(()),
        Err(e) => Err(e),
    }
}

/// Vultr region snapshot returned by the provider API.
#[derive(Debug, Clone, PartialEq, Eq)]
pub struct VultrRegion {
    id: VultrRegionId,
    datacenter_code: Option<VultrDatacenterCode>,
    city: String,
    country: VultrCountryCode,
    continent: String,
}

impl VultrRegion {
    /// The id.
    pub closed spec fn spec_id(&self) -> VultrRegionId {
        self.id
    }

    /// The datacenter code.
    pub closed spec fn spec_datacenter_code(&self) -> Option<VultrDatacenterCode> {
        self.datacenter_code
    }

    /// The city.
    pub closed spec fn spec_city(&self) -> Seq<char> {
        self.city@
    }

    /// The country.
    pub closed spec fn spec_country(&self) -> VultrCountryCode {
        self.country
    }

    /// The continent.
    pub closed spec fn spec_continent(&self) -> Seq<char> {
        self.continent@
    }

    /// Constructs a region snapshot after boundary validation; the curated
    /// datacenter code is derived from the region id.
    pub fn new(id: VultrRegionId, city: String, country: VultrCountryCode, continent: String) -> (r: Result<Self, VultrError>)
        ensures
            match public_text_fault(city@, MAX_LABEL_BYTES as nat) {
                Some(e) => r == Err::<Self, VultrError>(e),
                None => match public_text_fault(continent@, MAX_LABEL_BYTES as nat) {
                    Some(e) => r == Err::<Self, VultrError>(e),
                    None => r is Ok && {
                        let v = r->Ok_0;
                        &&& v.spec_id() == id
                        &&& v.spec_datacenter_code() == datacenter_code_of(id@)
                        &&& v.spec_city() == city@
                        &&& v.spec_country() == country
                        &&& v.spec_continent() == continent@
                    },
                },
            },
    {
        validate_public_text(city.as_str(), MAX_LABEL_BYTES)?;
        validate_public_text(continent.as_str(), MAX_LABEL_BYTES)?;
        let datacenter_code = VultrDatacenterCode::parse_id(id.as_str());
        Ok(VultrRegion { id, datacenter_code, city, country, continent })
    }

    /// Returns the region identifier.
    pub fn id(&self) -> (r: &VultrRegionId)
        ensures
            *r == self.spec_id(),
    {
        &self.id
    }

    /// Returns the curated airport-code value when this region is known to
    /// ReallyMe policy.
    pub fn datacenter_code(&self) -> (r: Option<VultrDatacenterCode>)
        ensures
            r == self.spec_datacenter_code(),
    {
        self.datacenter_code
    }

    /// Returns the region city.
    pub fn city(&self) -> (r: &str)
        ensures
            r@ == self.spec_city(),
    {
        self.city.as_str()
    }

    /// Returns the region country code.
    pub fn country(&self) -> (r: &VultrCountryCode)
        ensures
            *r == self.spec_country(),
    {
        &self.country
    }

    /// Returns the region continent.
    pub fn continent(&self) -> (r: &str)
        ensures
            r@ == self.spec_continent(),
    {
        self.continent.as_str()
    }

}

/// Vultr plan snapshot returned by the provider API.
#[derive(Debug, Clone, PartialEq, Eq)]
pub struct VultrPlan {
    id: VultrPlanId,
    plan_type: VultrPlanType,
    vcpu_count: u32,
    ram_mb: u32,
    disk_gb: u32,
    monthly_cost_cents: u32,
}

impl VultrPlan {
    /// The id.
    pub closed spec fn spec_id(&self) -> VultrPlanId {
        self.id
    }

    /// The plan type.
    pub closed spec fn spec_plan_type(&self) -> VultrPlanType {
        self.plan_type
    }

    /// The vcpu count.
    pub closed spec fn spec_vcpu_count(&self) -> u32 {
        self.vcpu_count
    }

    /// The ram mb.
    pub closed spec fn spec_ram_mb(&self) -> u32 {
        self.ram_mb
    }

    /// The disk gb.
    pub closed spec fn spec_disk_gb(&self) -> u32 {
        self.disk_gb
    }

    /// The monthly cost cents.
    pub closed spec fn spec_monthly_cost_cents(&self) -> u32 {
        self.monthly_cost_cents
    }

    /// Constructs a plan snapshot; a zero CPU count, RAM size or disk size is
    /// refused.
    pub fn new(
        id: VultrPlanId,
        plan_type: VultrPlanType,
        vcpu_count: u32,
        ram_mb: u32,
        disk_gb: u32,
        monthly_cost_cents: u32,
    ) -> (r: Result<Self, VultrError>)
        ensures
            vcpu_count == 0 || ram_mb == 0 || disk_gb == 0 ==> r == Err::<Self, VultrError>(VultrError::InvalidNumber),
            !(vcpu_count == 0 || ram_mb == 0 || disk_gb == 0) ==> r is Ok && {
                let v = r->Ok_0;
                &&& v.spec_id() == id
                &&& v.spec_plan_type() == plan_type
                &&& v.spec_vcpu_count() == vcpu_count
                &&& v.spec_ram_mb() == ram_mb
                &&& v.spec_disk_gb() == disk_gb
                &&& v.spec_monthly_cost_cents() == monthly_cost_cents
            },
    {
        if vcpu_count == 0 || ram_mb == 0 || disk_gb == 0 {
            return Err(VultrError::InvalidNumber);
        }
        Ok(VultrPlan { id, plan_type, vcpu_count, ram_mb, disk_gb, monthly_cost_cents })
    }

    /// Returns the plan identifier.
    pub fn id(&self) -> (r: &VultrPlanId)
        ensures
            *r == self.spec_id(),
    {
        &self.id
    }

    /// Returns the plan family.
    pub fn plan_type(&self) -> (r: VultrPlanType)
        ensures
            r == self.spec_plan_type(),
    {
        self.plan_type
    }

    /// Returns the virtual CPU count.
    pub fn vcpu_count(&self) -> (r: u32)
        ensures
            r == self.spec_vcpu_count(),
    {
        self.vcpu_count
    }

    /// Returns the RAM in megabytes.
    pub fn ram_mb(&self) -> (r: u32)
        ensures
            r == self.spec_ram_mb(),
    {
        self.ram_mb
    }

    /// Returns the disk size in gigabytes.
    pub fn disk_gb(&self) -> (r: u32)
        ensures
            r == self.spec_disk_gb(),
    {
        self.disk_gb
    }

    /// Returns the monthly cost in cents.
    pub fn monthly_cost_cents(&self) -> (r: u32)
        ensures
            r == self.spec_monthly_cost_cents(),
    {
        self.monthly_cost_cents
    }

}

/// Vultr VPC snapshot returned by the provider API.
#[derive(Debug, Clone, PartialEq, Eq)]
pub struct VultrVpc {
    id: VultrVpcId,
    region: VultrRegionId,
    description: String,
    ip_block: String,
    prefix_length: u8,
}

impl VultrVpc {
    /// The id.
    pub closed spec fn spec_id(&self) -> VultrVpcId {
        self.id
    }

    /// The region.
    pub closed spec fn spec_region(&self) -> VultrRegionId {
        self.region
    }

    /// The description.
    pub closed spec fn spec_description(&self) -> Seq<char> {
        self.description@
    }

    /// The ip block.
    pub closed spec fn spec_ip_block(&self) -> Seq<char> {
        self.ip_block@
    }

    /// The prefix length.
    pub closed spec fn spec_prefix_length(&self) -> u8 {
        self.prefix_length
    }

    /// Constructs a VPC snapshot after boundary validation; the prefix
    /// length must be at most 32.
    pub fn new(
        id: VultrVpcId,
        region: VultrRegionId,
        description: String,
        ip_block: String,
        prefix_length: u8,
    ) -> (r: Result<Self, VultrError>)
        ensures
            match public_text_fault(description@, MAX_LABEL_BYTES as nat) {
                Some(e) => r == Err::<Self, VultrError>(e),
                None => match public_text_fault(ip_block@, MAX_LABEL_BYTES as nat) {
                    Some(e) => r == Err::<Self, VultrError>(e),
                    None => if prefix_length > 32 {
                        r == Err::<Self, VultrError>(VultrError::InvalidNumber)
                    } else {
                        r is Ok && {
                            let v = r->Ok_0;
                            &&& v.spec_id() == id
                            &&& v.spec_region() == region
                            &&& v.spec_description() == description@
                            &&& v.spec_ip_block() == ip_block@
                            &&& v.spec_prefix_length() == prefix_length
                        }
                    },
                },
            },
    {
        validate_public_text(description.as_str(), MAX_LABEL_BYTES)?;
        validate_public_text(ip_block.as_str(), MAX_LABEL_BYTES)?;
        if prefix_length > 32 {
            return Err(VultrError::InvalidNumber);
        }
        Ok(VultrVpc { id, region, description, ip_block, prefix_length })
    }

    /// Returns the VPC identifier.
    pub fn id(&self) -> (r: &VultrVpcId)
        ensures
            *r == self.spec_id(),
    {
        &self.id
    }

    /// Returns the VPC region.
    pub fn region(&self) -> (r: &VultrRegionId)
        ensures
            *r == self.spec_region(),
    {
        &self.region
    }

    /// Returns the VPC description.
    pub fn description(&self) -> (r: &str)
        ensures
            r@ == self.spec_description(),
    {
        self.description.as_str()
    }

    /// Returns the private IPv4 block.
    pub fn ip_block(&self) -> (r: &str)
        ensures
            r@ == self.spec_ip_block(),
    {
        self.ip_block.as_str()
    }

    /// Returns the CIDR prefix length.
    pub fn prefix_length(&self) -> (r: u8)
        ensures
            r == self.spec_prefix_length(),
    {
        self.prefix_length
    }

}

/// Vultr instance-template snapshot returned by the provider API.
#[derive(Clone, PartialEq, Eq)]
pub struct VultrInstanceTemplate {
    id: VultrInstanceTemplateId,
    plan: VultrPlanId,
    label: Option<VultrLabel>,
    os_id: Option<VultrOperatingSystemId>,
    iso_id: Option<VultrIsoId>,
    snapshot_id: Option<VultrSnapshotId>,
    marketplace_app_id: Option<VultrMarketplaceAppId>,
    marketplace_image_id: Option<VultrMarketplaceImageId>,
    script_id: Option<VultrStartupScriptId>,
    ssh_key_ids: Vec<VultrSshKeyId>,
    vpc_ids: Vec<VultrVpcId>,
    vfs_ids: Vec<VultrVfsId>,
    user_data: Option<VultrCloudInitUserData>,
}

impl VultrInstanceTemplate {
    /// The id.
    pub closed spec fn spec_id(&self) -> VultrInstanceTemplateId {
        self.id
    }

    /// The plan.
    pub closed spec fn spec_plan(&self) -> VultrPlanId {
        self.plan
    }

    /// The label.
    pub closed spec fn spec_label(&self) -> Option<VultrLabel> {
        self.label
    }

    /// The os id.
    pub closed spec fn spec_os_id(&self) -> Option<VultrOperatingSystemId> {
        self.os_id
    }

    /// The iso id.
    pub closed spec fn spec_iso_id(&self) -> Option<VultrIsoId> {
        self.iso_id
    }

    /// The snapshot id.
    pub closed spec fn spec_snapshot_id(&self) -> Option<VultrSnapshotId> {
        self.snapshot_id
    }

    /// The marketplace app id.
    pub closed spec fn spec_marketplace_app_id(&self) -> Option<VultrMarketplaceAppId> {
        self.marketplace_app_id
    }

    /// The marketplace image id.
    pub closed spec fn spec_marketplace_image_id(&self) -> Option<VultrMarketplaceImageId> {
        self.marketplace_image_id
    }

    /// The script id.
    pub closed spec fn spec_script_id(&self) -> Option<VultrStartupScriptId> {
        self.script_id
    }

    /// The ssh key ids.
    pub closed spec fn spec_ssh_key_ids(&self) -> Seq<VultrSshKeyId> {
        self.ssh_key_ids@
    }

    /// The vpc ids.
    pub closed spec fn spec_vpc_ids(&self) -> Seq<VultrVpcId> {
        self.vpc_ids@
    }

    /// The vfs ids.
    pub closed spec fn spec_vfs_ids(&self) -> Seq<VultrVfsId> {
        self.vfs_ids@
    }

    /// The user data.
    pub closed spec fn spec_user_data(&self) -> Option<VultrCloudInitUserData> {
        self.user_data
    }

    /// Constructs an instance-template snapshot.
    #[allow(clippy::too_many_arguments)]
    pub fn new(
        id: VultrInstanceTemplateId,
        plan: VultrPlanId,
        label: Option<VultrLabel>,
        os_id: Option<VultrOperatingSystemId>,
        iso_id: Option<VultrIsoId>,
        snapshot_id: Option<VultrSnapshotId>,
        marketplace_app_id: Option<VultrMarketplaceAppId>,
        marketplace_image_id: Option<VultrMarketplaceImageId>,
        script_id: Option<VultrStartupScriptId>,
        ssh_key_ids: Vec<VultrSshKeyId>,
        vpc_ids: Vec<VultrVpcId>,
        vfs_ids: Vec<VultrVfsId>,
        user_data: Option<VultrCloudInitUserData>,
    ) -> (r: Self)
        ensures
            r.spec_id() == id,
            r.spec_plan() == plan,
            r.spec_label() == label,
            r.spec_os_id() == os_id,
            r.spec_iso_id() == iso_id,
            r.spec_snapshot_id() == snapshot_id,
            r.spec_marketplace_app_id() == marketplace_app_id,
            r.spec_marketplace_image_id() == marketplace_image_id,
            r.spec_script_id() == script_id,
            r.spec_ssh_key_ids() == ssh_key_ids@,
            r.spec_vpc_ids() == vpc_ids@,
            r.spec_vfs_ids() == vfs_ids@,
            r.spec_user_data() == user_data,
    {
        VultrInstanceTemplate { id, plan, label, os_id, iso_id, snapshot_id, marketplace_app_id, marketplace_image_id, script_id, ssh_key_ids, vpc_ids, vfs_ids, user_data }
    }

    /// Returns the template identifier.
    pub fn id(&self) -> (r: &VultrInstanceTemplateId)
        ensures
            *r == self.spec_id(),
    {
        &self.id
    }

    /// Returns the plan identifier.
    pub fn plan(&self) -> (r: &VultrPlanId)
        ensures
            *r == self.spec_plan(),
    {
        &self.plan
    }

    /// Returns the operator-visible label when set.
    pub fn label(&self) -> (r: Option<&VultrLabel>)
        ensures
            r == match self.spec_label() {
                Some(v) => Some(&v),
                None => None::<&VultrLabel>,
            },
    {
        self.label.as_ref()
    }

    /// Returns the operating-system identifier when set.
    pub fn os_id(&self) -> (r: Option<VultrOperatingSystemId>)
        ensures
            r == self.spec_os_id(),
    {
        self.os_id
    }

    /// Returns the ISO identifier when set.
    pub fn iso_id(&self) -> (r: Option<&VultrIsoId>)
        ensures
            r == match self.spec_iso_id() {
                Some(v) => Some(&v),
                None => None::<&VultrIsoId>,
            },
    {
        self.iso_id.as_ref()
    }

    /// Returns the snapshot identifier when set.
    pub fn snapshot_id(&self) -> (r: Option<&VultrSnapshotId>)
        ensures
            r == match self.spec_snapshot_id() {
                Some(v) => Some(&v),
                None => None::<&VultrSnapshotId>,
            },
    {
        self.snapshot_id.as_ref()
    }

    /// Returns the Marketplace application identifier when set.
    pub fn marketplace_app_id(&self) -> (r: Option<VultrMarketplaceAppId>)
        ensures
            r == self.spec_marketplace_app_id(),
    {
        self.marketplace_app_id
    }

    /// Returns the Marketplace image identifier when set.
    pub fn marketplace_image_id(&self) -> (r: Option<VultrMarketplaceImageId>)
        ensures
            r == self.spec_marketplace_image_id(),
    {
        self.marketplace_image_id
    }

    /// Returns the startup script identifier when set.
    pub fn script_id(&self) -> (r: Option<&VultrStartupScriptId>)
        ensures
            r == match self.spec_script_id() {
                Some(v) => Some(&v),
                None => None::<&VultrStartupScriptId>,
            },
    {
        self.script_id.as_ref()
    }

    /// Returns installed SSH key ids.
    pub fn ssh_key_ids(&self) -> (r: &[VultrSshKeyId])
        ensures
            r@ == self.spec_ssh_key_ids(),
    {
        self.ssh_key_ids.as_slice()
    }

    /// Returns attached VPC ids.
    pub fn vpc_ids(&self) -> (r: &[VultrVpcId])
        ensures
            r@ == self.spec_vpc_ids(),
    {
        self.vpc_ids.as_slice()
    }

    /// Returns attached Vultr File Storage ids.
    pub fn vfs_ids(&self) -> (r: &[VultrVfsId])
        ensures
            r@ == self.spec_vfs_ids(),
    {
        self.vfs_ids.as_slice()
    }

    /// Returns cloud-init user-data when set.
    pub fn user_data(&self) -> (r: Option<&VultrCloudInitUserData>)
        ensures
            r == match self.spec_user_data() {
                Some(v) => Some(&v),
                None => None::<&VultrCloudInitUserData>,
            },
    {
        self.user_data.as_ref()
    }

}

/// Vultr container-registry subscription snapshot.
#[derive(Debug, Clone, PartialEq, Eq)]
pub struct VultrContainerRegistry {
    id: VultrContainerRegistryId,
    name: VultrContainerRegistryName,
    public: bool,
    urn: VultrContainerRegistryUrn,
    storage_bytes_used: u64,
}

impl VultrContainerRegistry {
    /// The id.
    pub closed spec fn spec_id(&self) -> VultrContainerRegistryId {
        self.id
    }

    /// The name.
    pub closed spec fn spec_name(&self) -> VultrContainerRegistryName {
        self.name
    }

    /// The public.
    pub closed spec fn spec_public(&self) -> bool {
        self.public
    }

    /// The urn.
    pub closed spec fn spec_urn(&self) -> VultrContainerRegistryUrn {
        self.urn
    }

    /// The storage bytes used.
    pub closed spec fn spec_storage_bytes_used(&self) -> u64 {
        self.storage_bytes_used
    }

    /// Constructs a registry snapshot.
    pub fn new(
        id: VultrContainerRegistryId,
        name: VultrContainerRegistryName,
        public: bool,
        urn: VultrContainerRegistryUrn,
        storage_bytes_used: u64,
    ) -> (r: Self)
        ensures
            r.spec_id() == id,
            r.spec_name() == name,
            r.spec_public() == public,
            r.spec_urn() == urn,
            r.spec_storage_bytes_used() == storage_bytes_used,
    {
        VultrContainerRegistry { id, name, public, urn, storage_bytes_used }
    }

    /// Returns the registry identifier.
    pub fn id(&self) -> (r: &VultrContainerRegistryId)
        ensures
            *r == self.spec_id(),
    {
        &self.id
    }

    /// Returns the registry name.
    pub fn name(&self) -> (r: &VultrContainerRegistryName)
        ensures
            *r == self.spec_name(),
    {
        &self.name
    }

    /// Returns whether the registry is publicly readable.
    pub fn public(&self) -> (r: bool)
        ensures
            r == self.spec_public(),
    {
        self.public
    }

    /// Returns the provider URN.
    pub fn urn(&self) -> (r: &VultrContainerRegistryUrn)
        ensures
            *r == self.spec_urn(),
    {
        &self.urn
    }

    /// Returns provider-reported storage bytes used.
    pub fn storage_bytes_used(&self) -> (r: u64)
        ensures
            r == self.spec_storage_bytes_used(),
    {
        self.storage_bytes_used
    }

}

/// One repository inside a Vultr container registry.
#[derive(Debug, Clone, PartialEq, Eq)]
pub struct VultrContainerRepository {
    registry_id: VultrContainerRegistryId,
    name: VultrContainerRepositoryName,
    description: String,
    pull_count: u64,
    artifact_count: u32,
}

impl VultrContainerRepository {
    /// The registry id.
    pub closed spec fn spec_registry_id(&self) -> VultrContainerRegistryId {
        self.registry_id
    }

    /// The name.
    pub closed spec fn spec_name(&self) -> VultrContainerRepositoryName {
        self.name
    }

    /// The description.
    pub closed spec fn spec_description(&self) -> Seq<char> {
        self.description@
    }

    /// The pull count.
    pub closed spec fn spec_pull_count(&self) -> u64 {
        self.pull_count
    }

    /// The artifact count.
    pub closed spec fn spec_artifact_count(&self) -> u32 {
        self.artifact_count
    }

    /// Constructs a repository snapshot; a description that is more than
    /// whitespace must be a valid public text.
    pub fn new(
        registry_id: VultrContainerRegistryId,
        name: VultrContainerRepositoryName,
        description: String,
        pull_count: u64,
        artifact_count: u32,
    ) -> (r: Result<Self, VultrError>)
        ensures
            trim(description@).len() != 0 && public_text_fault(description@, MAX_LABEL_BYTES as nat) is Some
                ==> r == Err::<Self, VultrError>(public_text_fault(description@, MAX_LABEL_BYTES as nat)->Some_0),
            !(trim(description@).len() != 0 && public_text_fault(description@, MAX_LABEL_BYTES as nat) is Some)
                ==> r is Ok && {
                let v = r->Ok_0;
                &&& v.spec_registry_id() == registry_id
                &&& v.spec_name() == name
                &&& v.spec_description() == description@
                &&& v.spec_pull_count() == pull_count
                &&& v.spec_artifact_count() == artifact_count
            },
    {
        let chars = chars_of(description.as_str());
        let (start, end) = trim_bounds(&chars);
        if start != end {
            validate_public_text(description.as_str(), MAX_LABEL_BYTES)?;
        }
        Ok(VultrContainerRepository { registry_id, name, description, pull_count, artifact_count })
    }

    /// Returns the parent registry identifier.
    pub fn registry_id(&self) -> (r: &VultrContainerRegistryId)
        ensures
            *r == self.spec_registry_id(),
    {
        &self.registry_id
    }

    /// Returns the repository image name.
    pub fn name(&self) -> (r: &VultrContainerRepositoryName)
        ensures
            *r == self.spec_name(),
    {
        &self.name
    }

    /// Returns the operator-visible description when set.
    pub fn description(&self) -> (r: &str)
        ensures
            r@ == self.spec_description(),
    {
        self.description.as_str()
    }

    /// Returns the pull count.
    pub fn pull_count(&self) -> (r: u64)
        ensures
            r == self.spec_pull_count(),
    {
        self.pull_count
    }

    /// Returns the artifact count.
    pub fn artifact_count(&self) -> (r: u32)
        ensures
            r == self.spec_artifact_count(),
    {
        self.artifact_count
    }

}

/// One image artifact or digest inside a Vultr repository.
#[derive(Debug, Clone, PartialEq, Eq)]
pub struct VultrContainerArtifact {
    registry_id: VultrContainerRegistryId,
    repository: VultrContainerRepositoryName,
    digest: VultrContainerArtifactDigest,
    tags: Vec<VultrTag>,
    size_bytes: u64,
}

impl VultrContainerArtifact {
    /// The registry id.
    pub closed spec fn spec_registry_id(&self) -> VultrContainerRegistryId {
        self.registry_id
    }

    /// The repository.
    pub closed spec fn spec_repository(&self) -> VultrContainerRepositoryName {
        self.repository
    }

    /// The digest.
    pub closed spec fn spec_digest(&self) -> VultrContainerArtifactDigest {
        self.digest
    }

    /// The tags.
    pub closed spec fn spec_tags(&self) -> Seq<VultrTag> {
        self.tags@
    }

    /// The size bytes.
    pub closed spec fn spec_size_bytes(&self) -> u64 {
        self.size_bytes
    }

    /// Constructs an artifact snapshot.
    pub fn new(
        registry_id: VultrContainerRegistryId,
        repository: VultrContainerRepositoryName,
        digest: VultrContainerArtifactDigest,
        tags: Vec<VultrTag>,
        size_bytes: u64,
    ) -> (r: Self)
        ensures
            r.spec_registry_id() == registry_id,
            r.spec_repository() == repository,
            r.spec_digest() == digest,
            r.spec_tags() == tags@,
            r.spec_size_bytes() == size_bytes,
    {
        VultrContainerArtifact { registry_id, repository, digest, tags, size_bytes }
    }

    /// Returns the parent registry identifier.
    pub fn registry_id(&self) -> (r: &VultrContainerRegistryId)
        ensures
            *r == self.spec_registry_id(),
    {
        &self.registry_id
    }

    /// Returns the parent repository name.
    pub fn repository(&self) -> (r: &VultrContainerRepositoryName)
        ensures
            *r == self.spec_repository(),
    {
        &self.repository
    }

    /// Returns the OCI digest.
    pub fn digest(&self) -> (r: &VultrContainerArtifactDigest)
        ensures
            *r == self.spec_digest(),
    {
        &self.digest
    }

    /// Returns tags currently pointing at the artifact.
    pub fn tags(&self) -> (r: &[VultrTag])
        ensures
            r@ == self.spec_tags(),
    {
        self.tags.as_slice()
    }

    /// Returns provider-reported size in bytes.
    pub fn size_bytes(&self) -> (r: u64)
        ensures
            r == self.spec_size_bytes(),
    {
        self.size_bytes
    }

}

/// Private-network and address data attached to a Vultr instance.
#[derive(Debug, Clone, PartialEq, Eq)]
pub struct VultrInstanceNetwork {
    main_ip: Option<VultrPublicIpAddress>,
    internal_ip: Option<VultrPrivateIpAddress>,
    vpc_ids: Vec<VultrVpcId>,
    vpc_only: bool,
}

impl VultrInstanceNetwork {
    /// The main ip.
    pub closed spec fn spec_main_ip(&self) -> Option<VultrPublicIpAddress> {
        self.main_ip
    }

    /// The internal ip.
    pub closed spec fn spec_internal_ip(&self) -> Option<VultrPrivateIpAddress> {
        self.internal_ip
    }

    /// The vpc ids.
    pub closed spec fn spec_vpc_ids(&self) -> Seq<VultrVpcId> {
        self.vpc_ids@
    }

    /// The vpc only.
    pub closed spec fn spec_vpc_only(&self) -> bool {
        self.vpc_only
    }

    /// Constructs an instance network snapshot.
    pub fn new(
        main_ip: Option<VultrPublicIpAddress>,
        internal_ip: Option<VultrPrivateIpAddress>,
        vpc_ids: Vec<VultrVpcId>,
        vpc_only: bool,
    ) -> (r: Self)
        ensures
            r.spec_main_ip() == main_ip,
            r.spec_internal_ip() == internal_ip,
            r.spec_vpc_ids() == vpc_ids@,
            r.spec_vpc_only() == vpc_only,
    {
        VultrInstanceNetwork { main_ip, internal_ip, vpc_ids, vpc_only }
    }

    /// Returns the public IP address once Vultr has assigned one.
    pub fn main_ip(&self) -> (r: Option<&VultrPublicIpAddress>)
        ensures
            r == match self.spec_main_ip() {
                Some(v) => Some(&v),
                None => None::<&VultrPublicIpAddress>,
            },
    {
        self.main_ip.as_ref()
    }

    /// Returns the private IP address once Vultr has assigned one.
    pub fn internal_ip(&self) -> (r: Option<&VultrPrivateIpAddress>)
        ensures
            r == match self.spec_internal_ip() {
                Some(v) => Some(&v),
                None => None::<&VultrPrivateIpAddress>,
            },
    {
        self.internal_ip.as_ref()
    }

    /// Returns VPC attachments known for the instance.
    pub fn vpc_ids(&self) -> (r: &[VultrVpcId])
        ensures
            r@ == self.spec_vpc_ids(),
    {
        self.vpc_ids.as_slice()
    }

    /// Returns whether the instance is private-network only.
    pub fn vpc_only(&self) -> (r: bool)
        ensures
            r == self.spec_vpc_only(),
    {
        self.vpc_only
    }

}

/// Vultr instance snapshot returned by the provider API.
#[derive(Debug, Clone, PartialEq, Eq)]
pub struct VultrInstance {
    id: VultrInstanceId,
    region: VultrRegionId,
    plan: VultrPlanId,
    label: VultrLabel,
    status: VultrInstanceStatus,
    main_ip: Option<VultrPublicIpAddress>,
    internal_ip: Option<VultrPrivateIpAddress>,
    vpc_ids: Vec<VultrVpcId>,
    vpc_only: bool,
}

impl VultrInstance {
    /// The id.
    pub closed spec fn spec_id(&self) -> VultrInstanceId {
        self.id
    }

    /// The region.
    pub closed spec fn spec_region(&self) -> VultrRegionId {
        self.region
    }

    /// The plan.
    pub closed spec fn spec_plan(&self) -> VultrPlanId {
        self.plan
    }

    /// The label.
    pub closed spec fn spec_label(&self) -> VultrLabel {
        self.label
    }

    /// The status.
    pub closed spec fn spec_status(&self) -> VultrInstanceStatus {
        self.status
    }

    /// The main ip.
    pub closed spec fn spec_main_ip(&self) -> Option<VultrPublicIpAddress> {
        self.main_ip
    }

    /// The internal ip.
    pub closed spec fn spec_internal_ip(&self) -> Option<VultrPrivateIpAddress> {
        self.internal_ip
    }

    /// The vpc ids.
    pub closed spec fn spec_vpc_ids(&self) -> Seq<VultrVpcId> {
        self.vpc_ids@
    }

    /// The vpc only.
    pub closed spec fn spec_vpc_only(&self) -> bool {
        self.vpc_only
    }

    /// Constructs an instance snapshot; the network fields are taken from
    /// `network`.
    pub fn new(
        id: VultrInstanceId,
        region: VultrRegionId,
        plan: VultrPlanId,
        label: VultrLabel,
        status: VultrInstanceStatus,
        network: VultrInstanceNetwork,
    ) -> (r: Self)
        ensures
            r.spec_id() == id,
            r.spec_region() == region,
            r.spec_plan() == plan,
            r.spec_label() == label,
            r.spec_status() == status,
            r.spec_main_ip() == network.spec_main_ip(),
            r.spec_internal_ip() == network.spec_internal_ip(),
            r.spec_vpc_ids() == network.spec_vpc_ids(),
            r.spec_vpc_only() == network.spec_vpc_only(),
    {
        VultrInstance {
            id,
            region,
            plan,
            label,
            status,
            main_ip: network.main_ip,
            internal_ip: network.internal_ip,
            vpc_ids: network.vpc_ids,
            vpc_only: network.vpc_only,
        }
    }

    /// Returns the instance identifier.
    pub fn id(&self) -> (r: &VultrInstanceId)
        ensures
            *r == self.spec_id(),
    {
        &self.id
    }

    /// Returns the instance region.
    pub fn region(&self) -> (r: &VultrRegionId)
        ensures
            *r == self.spec_region(),
    {
        &self.region
    }

    /// Returns the instance plan.
    pub fn plan(&self) -> (r: &VultrPlanId)
        ensures
            *r == self.spec_plan(),
    {
        &self.plan
    }

    /// Returns the operator-visible label.
    pub fn label(&self) -> (r: &VultrLabel)
        ensures
            *r == self.spec_label(),
    {
        &self.label
    }

    /// Returns the provider lifecycle status.
    pub fn status(&self) -> (r: VultrInstanceStatus)
        ensures
            r == self.spec_status(),
    {
        self.status
    }

    /// Returns the public IP address once Vultr has assigned one.
    pub fn main_ip(&self) -> (r: Option<&VultrPublicIpAddress>)
        ensures
            r == match self.spec_main_ip() {
                Some(v) => Some(&v),
                None => None::<&VultrPublicIpAddress>,
            },
    {
        self.main_ip.as_ref()
    }

    /// Returns the private IP address once Vultr has assigned one.
    pub fn internal_ip(&self) -> (r: Option<&VultrPrivateIpAddress>)
        ensures
            r == match self.spec_internal_ip() {
                Some(v) => Some(&v),
                None => None::<&VultrPrivateIpAddress>,
            },
    {
        self.internal_ip.as_ref()
    }

    /// Returns VPC attachments known for the instance.
    pub fn vpc_ids(&self) -> (r: &[VultrVpcId])
        ensures
            r@ == self.spec_vpc_ids(),
    {
        self.vpc_ids.as_slice()
    }

    /// Returns whether the instance is private-network only.
    pub fn vpc_only(&self) -> (r: bool)
        ensures
            r == self.spec_vpc_only(),
    {
        self.vpc_only
    }

}

/// The snake-case name of a plan type, as the serialized form writes it.
pub open spec fn plan_type_name(v: VultrPlanType) -> Seq<char> {
    match v {
        VultrPlanType::CloudCompute => "cloud_compute"@,
        VultrPlanType::DedicatedCloud => "dedicated_cloud"@,
        VultrPlanType::HighFrequency => "high_frequency"@,
        VultrPlanType::HighPerformance => "high_performance"@,
        VultrPlanType::OptimizedCloud => "optimized_cloud"@,
        VultrPlanType::BareMetal => "bare_metal"@,
        VultrPlanType::CloudGpu => "cloud_gpu"@,
    }
}

/// The snake-case name of a instance status, as the serialized form writes it.
pub open spec fn instance_status_name(v: VultrInstanceStatus) -> Seq<char> {
    match v {
        VultrInstanceStatus::Pending => "pending"@,
        VultrInstanceStatus::Active => "active"@,
        VultrInstanceStatus::Stopped => "stopped"@,
        VultrInstanceStatus::Suspended => "suspended"@,
    }
}

/// A Vultr status text parses to the status of that name, and only the
/// name of a status parses.
pub proof fn lemma_instance_status_parses_its_name(s: Seq<char>, st: VultrInstanceStatus)
    ensures
        instance_status_outcome(s) == Ok::<VultrInstanceStatus, VultrError>(st) <==> s == instance_status_name(st),
        instance_status_outcome(s) is Err <==> (forall|t: VultrInstanceStatus| s != #[trigger] instance_status_name(t)),
{
    reveal_strlit("pending");
    reveal_strlit("active");
    reveal_strlit("stopped");
    reveal_strlit("suspended");
    if instance_status_outcome(s) is Ok {
        let t = instance_status_outcome(s)->Ok_0;
        assert(s == instance_status_name(t));
    }
    if s == instance_status_name(st) {
        assert("pending"@[0] != "active"@[0] && "pending"@[0] != "suspended"@[0]);
        assert("active"@[0] != "stopped"@[0] && "active"@[0] != "suspended"@[0]);
        assert("stopped"@[1] != "suspended"@[1]);
    }
}

/// The name of a datacenter code, as the variant spells it.
pub open spec fn datacenter_code_name(c: VultrDatacenterCode) -> Seq<char> {
    match c {
        VultrDatacenterCode::AMS => "AMS"@,
        VultrDatacenterCode::ATL => "ATL"@,
        VultrDatacenterCode::BLR => "BLR"@,
        VultrDatacenterCode::BOM => "BOM"@,
        VultrDatacenterCode::CDG => "CDG"@,
        VultrDatacenterCode::DEL => "DEL"@,
        VultrDatacenterCode::DFW => "DFW"@,
        VultrDatacenterCode::DAL => "DAL"@,
        VultrDatacenterCode::EWR => "EWR"@,
        VultrDatacenterCode::FRA => "FRA"@,
        VultrDatacenterCode::HNL => "HNL"@,
        VultrDatacenterCode::IAD => "IAD"@,
        VultrDatacenterCode::ICN => "ICN"@,
        VultrDatacenterCode::ITM => "ITM"@,
        VultrDatacenterCode::JNB => "JNB"@,
        VultrDatacenterCode::LAX => "LAX"@,
        VultrDatacenterCode::LHR => "LHR"@,
        VultrDatacenterCode::LON => "LON"@,
        VultrDatacenterCode::MAD => "MAD"@,
        VultrDatacenterCode::MAN => "MAN"@,
        VultrDatacenterCode::MEL => "MEL"@,
        VultrDatacenterCode::MEX => "MEX"@,
        VultrDatacenterCode::MIA => "MIA"@,
        VultrDatacenterCode::MXP => "MXP"@,
        VultrDatacenterCode::NRT => "NRT"@,
        VultrDatacenterCode::NYC => "NYC"@,
        VultrDatacenterCode::ORD => "ORD"@,
        VultrDatacenterCode::SAO => "SAO"@,
        VultrDatacenterCode::SCL => "SCL"@,
        VultrDatacenterCode::SEA => "SEA"@,
        VultrDatacenterCode::SGP => "SGP"@,
        VultrDatacenterCode::SIG => "SIG"@,
        VultrDatacenterCode::SJC => "SJC"@,
        VultrDatacenterCode::SFO => "SFO"@,
        VultrDatacenterCode::STO => "STO"@,
        VultrDatacenterCode::SYD => "SYD"@,
        VultrDatacenterCode::TLV => "TLV"@,
        VultrDatacenterCode::WAW => "WAW"@,
        VultrDatacenterCode::YTO => "YTO"@,
        VultrDatacenterCode::YYZ => "YYZ"@,
    }
}

/// A datacenter code that is not a legacy alias has the region id of its
/// own name, in lowercase; each legacy alias has the region id of the code
/// that replaced it.
pub proof fn lemma_datacenter_code_names(c: VultrDatacenterCode)
    ensures
        !datacenter_code_is_legacy_alias(c) ==> datacenter_region_id(c) == ascii_lowercase(datacenter_code_name(c)),
        c == VultrDatacenterCode::DAL ==> datacenter_region_id(c) == datacenter_region_id(VultrDatacenterCode::DFW),
        c == VultrDatacenterCode::LON ==> datacenter_region_id(c) == datacenter_region_id(VultrDatacenterCode::LHR),
        c == VultrDatacenterCode::NYC ==> datacenter_region_id(c) == datacenter_region_id(VultrDatacenterCode::EWR),
        c == VultrDatacenterCode::SIG ==> datacenter_region_id(c) == datacenter_region_id(VultrDatacenterCode::SGP),
        c == VultrDatacenterCode::SFO ==> datacenter_region_id(c) == datacenter_region_id(VultrDatacenterCode::SJC),
        c == VultrDatacenterCode::YYZ ==> datacenter_region_id(c) == datacenter_region_id(VultrDatacenterCode::YTO),
{
    reveal_strlit("AMS");
    reveal_strlit("ATL");
    reveal_strlit("BLR");
    reveal_strlit("BOM");
    reveal_strlit("CDG");
    reveal_strlit("DEL");
    reveal_strlit("DFW");
    reveal_strlit("DAL");
    reveal_strlit("EWR");
    reveal_strlit("FRA");
    reveal_strlit("HNL");
    reveal_strlit("IAD");
    reveal_strlit("ICN");
    reveal_strlit("ITM");
    reveal_strlit("JNB");
    reveal_strlit("LAX");
    reveal_strlit("LHR");
    reveal_strlit("LON");
    reveal_strlit("MAD");
    reveal_strlit("MAN");
    reveal_strlit("MEL");
    reveal_strlit("MEX");
    reveal_strlit("MIA");
    reveal_strlit("MXP");
    reveal_strlit("NRT");
    reveal_strlit("NYC");
    reveal_strlit("ORD");
    reveal_strlit("SAO");
    reveal_strlit("SCL");
    reveal_strlit("SEA");
    reveal_strlit("SGP");
    reveal_strlit("SIG");
    reveal_strlit("SJC");
    reveal_strlit("SFO");
    reveal_strlit("STO");
    reveal_strlit("SYD");
    reveal_strlit("TLV");
    reveal_strlit("WAW");
    reveal_strlit("YTO");
    reveal_strlit("YYZ");
    reveal_strlit("ams");
    reveal_strlit("atl");
    reveal_strlit("blr");
    reveal_strlit("bom");
    reveal_strlit("cdg");
    reveal_strlit("del");
    reveal_strlit("dfw");
    reveal_strlit("ewr");
    reveal_strlit("fra");
    reveal_strlit("hnl");
    reveal_strlit("iad");
    reveal_strlit("icn");
    reveal_strlit("itm");
    reveal_strlit("jnb");
    reveal_strlit("lax");
    reveal_strlit("lhr");
    reveal_strlit("mad");
    reveal_strlit("man");
    reveal_strlit("mel");
    reveal_strlit("mex");
    reveal_strlit("mia");
    reveal_strlit("mxp");
    reveal_strlit("nrt");
    reveal_strlit("ord");
    reveal_strlit("sao");
    reveal_strlit("scl");
    reveal_strlit("sea");
    reveal_strlit("sgp");
    reveal_strlit("sjc");
    reveal_strlit("sto");
    reveal_strlit("syd");
    reveal_strlit("tlv");
    reveal_strlit("waw");
    reveal_strlit("yto");
    match c {
        VultrDatacenterCode::AMS => {
            assert(ascii_lowercase("AMS"@) =~= "ams"@);
        },
        VultrDatacenterCode::ATL => {
            assert(ascii_lowercase("ATL"@) =~= "atl"@);
        },
        VultrDatacenterCode::BLR => {
            assert(ascii_lowercase("BLR"@) =~= "blr"@);
        },
        VultrDatacenterCode::BOM => {
            assert(ascii_lowercase("BOM"@) =~= "bom"@);
        },
        VultrDatacenterCode::CDG => {
            assert(ascii_lowercase("CDG"@) =~= "cdg"@);
        },
        VultrDatacenterCode::DEL => {
            assert(ascii_lowercase("DEL"@) =~= "del"@);
        },
        VultrDatacenterCode::DFW => {
            assert(ascii_lowercase("DFW"@) =~= "dfw"@);
        },
        VultrDatacenterCode::EWR => {
            assert(ascii_lowercase("EWR"@) =~= "ewr"@);
        },
        VultrDatacenterCode::FRA => {
            assert(ascii_lowercase("FRA"@) =~= "fra"@);
        },
        VultrDatacenterCode::HNL => {
            assert(ascii_lowercase("HNL"@) =~= "hnl"@);
        },
        VultrDatacenterCode::IAD => {
            assert(ascii_lowercase("IAD"@) =~= "iad"@);
        },
        VultrDatacenterCode::ICN => {
            assert(ascii_lowercase("ICN"@) =~= "icn"@);
        },
        VultrDatacenterCode::ITM => {
            assert(ascii_lowercase("ITM"@) =~= "itm"@);
        },
        VultrDatacenterCode::JNB => {
            assert(ascii_lowercase("JNB"@) =~= "jnb"@);
        },
        VultrDatacenterCode::LAX => {
            assert(ascii_lowercase("LAX"@) =~= "lax"@);
        },
        VultrDatacenterCode::LHR => {
            assert(ascii_lowercase("LHR"@) =~= "lhr"@);
        },
        VultrDatacenterCode::MAD => {
            assert(ascii_lowercase("MAD"@) =~= "mad"@);
        },
        VultrDatacenterCode::MAN => {
            assert(ascii_lowercase("MAN"@) =~= "man"@);
        },
        VultrDatacenterCode::MEL => {
            assert(ascii_lowercase("MEL"@) =~= "mel"@);
        },
        VultrDatacenterCode::MEX => {
            assert(ascii_lowercase("MEX"@) =~= "mex"@);
        },
        VultrDatacenterCode::MIA => {
            assert(ascii_lowercase("MIA"@) =~= "mia"@);
        },
        VultrDatacenterCode::MXP => {
            assert(ascii_lowercase("MXP"@) =~= "mxp"@);
        },
        VultrDatacenterCode::NRT => {
            assert(ascii_lowercase("NRT"@) =~= "nrt"@);
        },
        VultrDatacenterCode::ORD => {
            assert(ascii_lowercase("ORD"@) =~= "ord"@);
        },
        VultrDatacenterCode::SAO => {
            assert(ascii_lowercase("SAO"@) =~= "sao"@);
        },
        VultrDatacenterCode::SCL => {
            assert(ascii_lowercase("SCL"@) =~= "scl"@);
        },
        VultrDatacenterCode::SEA => {
            assert(ascii_lowercase("SEA"@) =~= "sea"@);
        },
        VultrDatacenterCode::SGP => {
            assert(ascii_lowercase("SGP"@) =~= "sgp"@);
        },
        VultrDatacenterCode::SJC => {
            assert(ascii_lowercase("SJC"@) =~= "sjc"@);
        },
        VultrDatacenterCode::STO => {
            assert(ascii_lowercase("STO"@) =~= "sto"@);
        },
        VultrDatacenterCode::SYD => {
            assert(ascii_lowercase("SYD"@) =~= "syd"@);
        },
        VultrDatacenterCode::TLV => {
            assert(ascii_lowercase("TLV"@) =~= "tlv"@);
        },
        VultrDatacenterCode::WAW => {
            assert(ascii_lowercase("WAW"@) =~= "waw"@);
        },
        VultrDatacenterCode::YTO => {
            assert(ascii_lowercase("YTO"@) =~= "yto"@);
        },
        _ => {},
    }
}

/// The name of a plan filter code, as the serialized form writes it (the
/// variant's name in kebab case).
pub open spec fn plan_type_code_name(c: VultrPlanTypeCode) -> Seq<char> {
    match c {
        VultrPlanTypeCode::All => "all"@,
        VultrPlanTypeCode::Vc2 => "vc2"@,
        VultrPlanTypeCode::Vdc => "vdc"@,
        VultrPlanTypeCode::Vhf => "vhf"@,
        VultrPlanTypeCode::Vhp => "vhp"@,
        VultrPlanTypeCode::Voc => "voc"@,
        VultrPlanTypeCode::VocG => "voc-g"@,
        VultrPlanTypeCode::VocC => "voc-c"@,
        VultrPlanTypeCode::VocM => "voc-m"@,
        VultrPlanTypeCode::VocS => "voc-s"@,
        VultrPlanTypeCode::Vbm => "vbm"@,
        VultrPlanTypeCode::Vcg => "vcg"@,
    }
}

/// A plan filter code's API text is its name, and a text parses to the code
/// of that name and to no other.
pub proof fn lemma_plan_type_code_names(s: Seq<char>, c: VultrPlanTypeCode)
    ensures
        plan_type_api_code(c) == plan_type_code_name(c),
        plan_type_code_outcome(s) == Ok::<VultrPlanTypeCode, VultrError>(c) <==> s == plan_type_code_name(c),
{
    reveal_strlit("all");
    reveal_strlit("vc2");
    reveal_strlit("vdc");
    reveal_strlit("vhf");
    reveal_strlit("vhp");
    reveal_strlit("voc");
    reveal_strlit("voc-g");
    reveal_strlit("voc-c");
    reveal_strlit("voc-m");
    reveal_strlit("voc-s");
    reveal_strlit("vbm");
    reveal_strlit("vcg");
    if plan_type_code_outcome(s) is Ok {
        let d = plan_type_code_outcome(s)->Ok_0;
        assert(s == plan_type_code_name(d));
    }
    lemma_plan_type_code_round_trip(c);
}

} // verus!
