//! Conversion between wire messages and validated Hephaestus domain values.
//!
//! A conversion from the wire validates every field through the domain
//! constructors, in field order, and stops at the first refusal. An empty
//! string or a zero means "absent", a missing sub-message is refused where
//! the domain needs it, and an `Unspecified` enumeration value is refused.
//! A conversion to the wire writes absent values as empty strings or zeros.
use vstd::prelude::*;

use crate::contract::report_conversion::{
    agent_report_view, proto_agent_report_from_domain, seq_or_empty,
};
use crate::contract::wire::{
    dns_record_wire_views, ProtoAgentBootReport, ProtoAgentBootReportResult, ProtoAgentBootReportView,
    ProtoDnsDesiredState, ProtoDnsDesiredStateView, ProtoRegionDefinition, ProtoRegionDefinitionView,
    ProtoDnsRecord, ProtoDnsRecordKind, ProtoDnsRecordView, ProtoDnsRecordVisibility,
    ProtoNodeActualState, ProtoNodeActualStateStatus, ProtoNodeActualStateView,
    ProtoProvisioningEventKind, ProtoProvisioningEventSnapshot, ProtoProvisioningEventSnapshotView,
    ProtoServerEnvironmentTag, ProtoServerInventoryRow, ProtoServerInventoryRowView, ProtoServerRole,
};
use crate::hephaestus::dns::{
    dns_name_outcome, dns_target_outcome, lemma_dns_name_normalization_idempotent,
    HephaestusDnsDesiredState, HephaestusDnsRecord,
    HephaestusDnsRecordKind, HephaestusDnsRecordName, HephaestusDnsRecordTarget,
    HephaestusDnsRecordVisibility, MAX_DNS_RECORDS,
};
use crate::hephaestus::health::{ProvisioningEventKind, ProvisioningEventSnapshot};
use crate::hephaestus::inventory::{HephaestusServerEnvironmentTag, HephaestusServerInventoryRow};
use crate::hephaestus::health::{
    domain_token, domain_tokens, lemma_domain_token_idempotent, lemma_domain_tokens_fixed, HephaestusDomainError,
};
use crate::hephaestus::node::{
    app_texts, ip_address_fault, service_texts, timestamps_ordered, HephaestusAgentBootReport,
    HephaestusAgentBootReportResult, HephaestusServerBootTiming, HephaestusClusterId,
    HephaestusInfrastructureClassId, HephaestusNodeActualState, HephaestusNodeActualStateStatus,
    HephaestusPrivateIpAddress, HephaestusProviderServerId, HephaestusPublicIpAddress,
    HephaestusServerApp, HephaestusServerCatalog, HephaestusServerId, HephaestusServerIdentity,
    HephaestusServerNetwork, HephaestusServerRole, HephaestusServerService, MAX_CLUSTER_ID_BYTES,
    MAX_INFRASTRUCTURE_CLASS_ID_BYTES, MAX_PROVIDER_SERVER_ID_BYTES, MAX_SERVER_APPS,
    MAX_SERVER_APP_BYTES, MAX_SERVER_ID_BYTES, MAX_SERVER_SERVICES, MAX_SERVER_SERVICE_BYTES,
};
use crate::hephaestus::region::{
    has_duplicate_text, lemma_has_duplicate_site_texts, site_texts, HephaestusRegionDefinition,
    HephaestusRegionId, HephaestusSiteId, MAX_REGION_ID_BYTES, MAX_REGION_SITES, MAX_SITE_ID_BYTES,
};
use crate::text::{
    each_outcome, lemma_each_outcome_idempotent, lemma_each_outcome_len,
    lemma_each_outcome_prefix_fault, lemma_each_outcome_step, lemma_tokens_outcome_idempotent,
    lemma_trim_idempotent, trim_end, trim_start, CharClass,
};
use vstd::string::{StrSliceExecFns, StringExecFns};

verus! {

/// An optional token on the wire: the empty text stands for "absent" and
/// is kept; any other text must be a valid token and is trimmed.
pub open spec fn empty_or_token(s: Seq<char>, max: nat, k: CharClass) -> Result<
    Seq<char>,
    HephaestusDomainError,
> {
    if s.len() == 0 {
        Ok(s)
    } else {
        domain_token(s, max, k)
    }
}

/// An optional IP address on the wire: the empty text stands for "absent";
/// any other text must be a valid address and is kept as given.
pub open spec fn empty_or_ip(s: Seq<char>) -> Result<Seq<char>, HephaestusDomainError> {
    if s.len() == 0 {
        Ok(s)
    } else {
        match ip_address_fault(s) {
            Some(e) => Err(e),
            None => Ok(s),
        }
    }
}

/// An address text that passed validation is not empty and is accepted
/// from the wire unchanged.
pub(crate) proof fn lemma_valid_ip_text_accepted(s: Seq<char>)
    requires
        ip_address_fault(s) is None,
    ensures
        s.len() > 0,
        empty_or_ip(s) == Ok::<Seq<char>, HephaestusDomainError>(s),
{
    if s.len() == 0 {
        assert(trim_start(s) == s);
        assert(trim_end(s) == s);
    }
}

/// The domain role a wire role names; `Unspecified` is refused.
pub open spec fn server_role_outcome(p: ProtoServerRole) -> Result<HephaestusServerRole, HephaestusDomainError> {
    match p {
        ProtoServerRole::Unspecified => Err(HephaestusDomainError::InvalidNumber),
        ProtoServerRole::Api => Ok(HephaestusServerRole::Api),
        ProtoServerRole::Worker => Ok(HephaestusServerRole::Worker),
        ProtoServerRole::Db => Ok(HephaestusServerRole::Db),
        ProtoServerRole::Search => Ok(HephaestusServerRole::Search),
        ProtoServerRole::Edge => Ok(HephaestusServerRole::Edge),
        ProtoServerRole::Unknown => Ok(HephaestusServerRole::Unknown),
    }
}

/// The wire role of a domain role.
pub open spec fn proto_server_role(r: HephaestusServerRole) -> ProtoServerRole {
    match r {
        HephaestusServerRole::Api => ProtoServerRole::Api,
        HephaestusServerRole::Worker => ProtoServerRole::Worker,
        HephaestusServerRole::Db => ProtoServerRole::Db,
        HephaestusServerRole::Search => ProtoServerRole::Search,
        HephaestusServerRole::Edge => ProtoServerRole::Edge,
        HephaestusServerRole::Unknown => ProtoServerRole::Unknown,
    }
}

/// The domain status a wire status names; `Unspecified` is refused.
pub open spec fn node_status_outcome(p: ProtoNodeActualStateStatus) -> Result<
    HephaestusNodeActualStateStatus,
    HephaestusDomainError,
> {
    match p {
        ProtoNodeActualStateStatus::Unspecified => Err(HephaestusDomainError::InvalidNumber),
        ProtoNodeActualStateStatus::Ready => Ok(HephaestusNodeActualStateStatus::Ready),
        ProtoNodeActualStateStatus::Stale => Ok(HephaestusNodeActualStateStatus::Stale),
        ProtoNodeActualStateStatus::Offline => Ok(HephaestusNodeActualStateStatus::Offline),
    }
}

/// The wire status of a domain status.
pub open spec fn proto_node_status(s: HephaestusNodeActualStateStatus) -> ProtoNodeActualStateStatus {
    match s {
        HephaestusNodeActualStateStatus::Ready => ProtoNodeActualStateStatus::Ready,
        HephaestusNodeActualStateStatus::Stale => ProtoNodeActualStateStatus::Stale,
        HephaestusNodeActualStateStatus::Offline => ProtoNodeActualStateStatus::Offline,
    }
}

/// Converts a wire role into a domain role; `Unspecified` is refused.
pub fn server_role_from_proto(p: ProtoServerRole) -> (r: Result<HephaestusServerRole, HephaestusDomainError>)
    ensures
        r == server_role_outcome(p),
{
    match p {
        ProtoServerRole::Unspecified => Err(HephaestusDomainError::InvalidNumber),
        ProtoServerRole::Api => Ok(HephaestusServerRole::Api),
        ProtoServerRole::Worker => Ok(HephaestusServerRole::Worker),
        ProtoServerRole::Db => Ok(HephaestusServerRole::Db),
        ProtoServerRole::Search => Ok(HephaestusServerRole::Search),
        ProtoServerRole::Edge => Ok(HephaestusServerRole::Edge),
        ProtoServerRole::Unknown => Ok(HephaestusServerRole::Unknown),
    }
}

/// Converts a domain role into its wire role.
pub fn proto_server_role_from_domain(r: HephaestusServerRole) -> (p: ProtoServerRole)
    ensures
        p == proto_server_role(r),
{
    match r {
        HephaestusServerRole::Api => ProtoServerRole::Api,
        HephaestusServerRole::Worker => ProtoServerRole::Worker,
        HephaestusServerRole::Db => ProtoServerRole::Db,
        HephaestusServerRole::Search => ProtoServerRole::Search,
        HephaestusServerRole::Edge => ProtoServerRole::Edge,
        HephaestusServerRole::Unknown => ProtoServerRole::Unknown,
    }
}

/// Converts a wire status into a domain status; `Unspecified` is refused.
pub fn node_actual_state_status_from_proto(p: ProtoNodeActualStateStatus) -> (r: Result<
    HephaestusNodeActualStateStatus,
    HephaestusDomainError,
>)
    ensures
        r == node_status_outcome(p),
{
    match p {
        ProtoNodeActualStateStatus::Unspecified => Err(HephaestusDomainError::InvalidNumber),
        ProtoNodeActualStateStatus::Ready => Ok(HephaestusNodeActualStateStatus::Ready),
        ProtoNodeActualStateStatus::Stale => Ok(HephaestusNodeActualStateStatus::Stale),
        ProtoNodeActualStateStatus::Offline => Ok(HephaestusNodeActualStateStatus::Offline),
    }
}

/// Converts a domain status into its wire status.
pub fn proto_node_actual_state_status_from_domain(s: HephaestusNodeActualStateStatus) -> (p:
    ProtoNodeActualStateStatus)
    ensures
        p == proto_node_status(s),
{
    match s {
        HephaestusNodeActualStateStatus::Ready => ProtoNodeActualStateStatus::Ready,
        HephaestusNodeActualStateStatus::Stale => ProtoNodeActualStateStatus::Stale,
        HephaestusNodeActualStateStatus::Offline => ProtoNodeActualStateStatus::Offline,
    }
}

/// The text of an optional value, empty when absent.
pub open spec fn text_or_empty<T: View<V = Seq<char>>>(v: Option<T>) -> Seq<char> {
    match v {
        Some(x) => x@,
        None => Seq::empty(),
    }
}

/// The wire content of a domain actual state.
pub open spec fn node_actual_state_view(v: HephaestusNodeActualState) -> ProtoNodeActualStateView {
    ProtoNodeActualStateView {
        server_id: v.spec_identity().spec_server_id()@,
        provider_server_id: v.spec_identity().spec_provider_server_id()@,
        site_id: v.spec_identity().spec_site_id()@,
        public_ip: text_or_empty(v.spec_network().spec_public_ip()),
        private_ip: text_or_empty(v.spec_network().spec_private_ip()),
        boot_time_unix_secs: v.spec_boot_time_unix_secs(),
        last_seen_unix_secs: v.spec_last_seen_unix_secs(),
        status: proto_node_status(v.spec_status()),
        cluster_id: text_or_empty(v.spec_catalog().cluster_id),
        role: proto_server_role(v.spec_catalog().role),
        apps: app_texts(v.spec_catalog().apps),
        services: service_texts(v.spec_catalog().services),
        infrastructure_class_id: v.spec_infrastructure_class_id()@,
    }
}

/// What a wire actual state yields: the first refused field, in wire
/// order, decides the error (the catalog's list bounds are checked after
/// its lists, the timestamps last); otherwise the wire content of the
/// domain value, with every token trimmed.
pub open spec fn node_actual_state_outcome(p: ProtoNodeActualStateView) -> Result<
    ProtoNodeActualStateView,
    HephaestusDomainError,
> {
    let server_id = domain_token(p.server_id, MAX_SERVER_ID_BYTES as nat, CharClass::Identifier);
    let provider_server_id = domain_token(
        p.provider_server_id,
        MAX_PROVIDER_SERVER_ID_BYTES as nat,
        CharClass::Identifier,
    );
    let site_id = domain_token(p.site_id, MAX_SITE_ID_BYTES as nat, CharClass::Identifier);
    let public_ip = empty_or_ip(p.public_ip);
    let private_ip = empty_or_ip(p.private_ip);
    let cluster_id = empty_or_token(p.cluster_id, MAX_CLUSTER_ID_BYTES as nat, CharClass::Identifier);
    let role = server_role_outcome(p.role);
    let apps = domain_tokens(p.apps, MAX_SERVER_APP_BYTES as nat, CharClass::Identifier);
    let services = domain_tokens(p.services, MAX_SERVER_SERVICE_BYTES as nat, CharClass::ServiceIdentifier);
    let class_id = domain_token(
        p.infrastructure_class_id,
        MAX_INFRASTRUCTURE_CLASS_ID_BYTES as nat,
        CharClass::Identifier,
    );
    let status = node_status_outcome(p.status);
    if server_id is Err {
        Err(server_id->Err_0)
    } else if provider_server_id is Err {
        Err(provider_server_id->Err_0)
    } else if site_id is Err {
        Err(site_id->Err_0)
    } else if public_ip is Err {
        Err(public_ip->Err_0)
    } else if private_ip is Err {
        Err(private_ip->Err_0)
    } else if cluster_id is Err {
        Err(cluster_id->Err_0)
    } else if role is Err {
        Err(role->Err_0)
    } else if apps is Err {
        Err(apps->Err_0)
    } else if services is Err {
        Err(services->Err_0)
    } else if p.apps.len() > MAX_SERVER_APPS || p.services.len() > MAX_SERVER_SERVICES {
        Err(HephaestusDomainError::TooLong)
    } else if class_id is Err {
        Err(class_id->Err_0)
    } else if status is Err {
        Err(status->Err_0)
    } else if !timestamps_ordered(p.boot_time_unix_secs, p.last_seen_unix_secs) {
        Err(HephaestusDomainError::InvalidNumber)
    } else {
        Ok(
            ProtoNodeActualStateView {
                server_id: server_id->Ok_0,
                provider_server_id: provider_server_id->Ok_0,
                site_id: site_id->Ok_0,
                public_ip: p.public_ip,
                private_ip: p.private_ip,
                boot_time_unix_secs: p.boot_time_unix_secs,
                last_seen_unix_secs: p.last_seen_unix_secs,
                status: p.status,
                cluster_id: cluster_id->Ok_0,
                role: p.role,
                apps: apps->Ok_0,
                services: services->Ok_0,
                infrastructure_class_id: class_id->Ok_0,
            },
        )
    }
}

/// Converts a wire public address; the empty text is "absent".
fn public_ip_from_proto(value: &String) -> (r: Result<Option<HephaestusPublicIpAddress>, HephaestusDomainError>)
    ensures
        match empty_or_ip(value@) {
            Ok(t) => r is Ok && text_or_empty(r->Ok_0) == t && (r->Ok_0 is None <==> value@.len() == 0),
            Err(e) => r == Err::<Option<HephaestusPublicIpAddress>, HephaestusDomainError>(e),
        },
{
    if value.as_str().is_empty() {
        Ok(None)
    } else {
        match HephaestusPublicIpAddress::new(value.as_str()) {
            Ok(ip) => Ok(Some(ip)),
            Err(e) => Err(e),
        }
    }
}

/// Converts a wire private address; the empty text is "absent".
pub(crate) fn private_ip_from_proto(value: &String) -> (r: Result<Option<HephaestusPrivateIpAddress>, HephaestusDomainError>)
    ensures
        match empty_or_ip(value@) {
            Ok(t) => r is Ok && text_or_empty(r->Ok_0) == t && (r->Ok_0 is None <==> value@.len() == 0),
            Err(e) => r == Err::<Option<HephaestusPrivateIpAddress>, HephaestusDomainError>(e),
        },
{
    if value.as_str().is_empty() {
        Ok(None)
    } else {
        match HephaestusPrivateIpAddress::new(value.as_str()) {
            Ok(ip) => Ok(Some(ip)),
            Err(e) => Err(e),
        }
    }
}

/// Converts a wire cluster identifier; the empty text is "absent".
fn cluster_id_from_proto(value: &String) -> (r: Result<Option<HephaestusClusterId>, HephaestusDomainError>)
    ensures
        match empty_or_token(value@, MAX_CLUSTER_ID_BYTES as nat, CharClass::Identifier) {
            Ok(t) => r is Ok && text_or_empty(r->Ok_0) == t && (r->Ok_0 is None <==> value@.len() == 0),
            Err(e) => r == Err::<Option<HephaestusClusterId>, HephaestusDomainError>(e),
        },
{
    if value.as_str().is_empty() {
        Ok(None)
    } else {
        match HephaestusClusterId::new(value.as_str()) {
            Ok(id) => Ok(Some(id)),
            Err(e) => Err(e),
        }
    }
}

/// The text of an optional domain string, empty when absent.
fn optional_text<T: View<V = Seq<char>>>(v: Option<&T>, text: Option<&str>) -> (r: String)
    requires
        v is Some <==> text is Some,
        v is Some ==> text->Some_0@ == v->Some_0@,
    ensures
        r@ == match v {
            Some(x) => x@,
            None => Seq::<char>::empty(),
        },
{
    match text {
        Some(t) => t.to_string(),
        None => String::new(),
    }
}

/// Converts a wire actual-state message into a validated domain value, as
/// [`node_actual_state_outcome`] describes; absent addresses and cluster
/// stay absent, and no agent key is attached.
pub fn node_actual_state_from_proto(value: ProtoNodeActualState) -> (r: Result<
    HephaestusNodeActualState,
    HephaestusDomainError,
>)
    ensures
        match node_actual_state_outcome(value@) {
            Ok(n) => r is Ok && {
                let v = r->Ok_0;
                &&& node_actual_state_view(v) == n
                &&& (v.spec_network().spec_public_ip() is None <==> value.public_ip@.len() == 0)
                &&& (v.spec_network().spec_private_ip() is None <==> value.private_ip@.len() == 0)
                &&& (v.spec_catalog().cluster_id is None <==> value.cluster_id@.len() == 0)
                &&& v.spec_agent_public_key() is None
                &&& v.spec_agent_public_key_fingerprint() is None
            },
            Err(e) => r == Err::<HephaestusNodeActualState, HephaestusDomainError>(e),
        },
{
    let server_id = match HephaestusServerId::new(value.server_id.as_str()) {
        Ok(v) => v,
        Err(e) => return Err(e),
    };
    let provider_server_id = match HephaestusProviderServerId::new(value.provider_server_id.as_str()) {
        Ok(v) => v,
        Err(e) => return Err(e),
    };
    let site_id = match HephaestusSiteId::new(value.site_id.as_str()) {
        Ok(v) => v,
        Err(e) => return Err(e),
    };
    let public_ip = match public_ip_from_proto(&value.public_ip) {
        Ok(v) => v,
        Err(e) => return Err(e),
    };
    let private_ip = match private_ip_from_proto(&value.private_ip) {
        Ok(v) => v,
        Err(e) => return Err(e),
    };
    let cluster_id = match cluster_id_from_proto(&value.cluster_id) {
        Ok(v) => v,
        Err(e) => return Err(e),
    };
    let role = match server_role_from_proto(value.role) {
        Ok(v) => v,
        Err(e) => return Err(e),
    };
    let apps = match HephaestusServerApp::from_texts(&value.apps) {
        Ok(v) => v,
        Err(e) => return Err(e),
    };
    let services = match HephaestusServerService::from_texts(&value.services) {
        Ok(v) => v,
        Err(e) => return Err(e),
    };
    let ghost apps_view = apps@;
    let ghost services_view = services@;
    proof {
        assert(app_texts(apps_view).len() == apps_view.len());
        assert(service_texts(services_view).len() == services_view.len());
        lemma_domain_tokens_len(value@.apps, MAX_SERVER_APP_BYTES as nat, CharClass::Identifier);
        lemma_domain_tokens_len(value@.services, MAX_SERVER_SERVICE_BYTES as nat, CharClass::ServiceIdentifier);
    }
    let catalog = match HephaestusServerCatalog::new(cluster_id, role, apps, services) {
        Ok(v) => v,
        Err(e) => return Err(e),
    };
    let class_id = match HephaestusInfrastructureClassId::new(value.infrastructure_class_id.as_str()) {
        Ok(v) => v,
        Err(e) => return Err(e),
    };
    let status = match node_actual_state_status_from_proto(value.status) {
        Ok(v) => v,
        Err(e) => return Err(e),
    };
    HephaestusNodeActualState::new(
        HephaestusServerIdentity::new(server_id, provider_server_id, site_id),
        HephaestusServerNetwork::new(public_ip, private_ip),
        catalog,
        class_id,
        value.boot_time_unix_secs,
        value.last_seen_unix_secs,
        status,
    )
}

/// A list of token texts that is accepted keeps its length.
pub proof fn lemma_domain_tokens_len(items: Seq<Seq<char>>, max: nat, k: CharClass)
    requires
        domain_tokens(items, max, k) is Ok,
    ensures
        domain_tokens(items, max, k)->Ok_0.len() == items.len(),
    decreases items.len(),
{
    if items.len() > 0 {
        lemma_domain_tokens_len(items.drop_last(), max, k);
    }
}

/// Converts a domain actual state into its wire message; absent values are
/// written as empty strings.
///
/// The message is accepted by [`node_actual_state_from_proto`] unchanged,
/// so converting it back yields a state with the same wire content and the
/// same absent values; the agent key, which the message does not carry,
/// comes back absent.
pub fn proto_node_actual_state_from_domain(value: &HephaestusNodeActualState) -> (r: ProtoNodeActualState)
    ensures
        r@ == node_actual_state_view(*value),
        node_actual_state_outcome(r@) == Ok::<ProtoNodeActualStateView, HephaestusDomainError>(r@),
        value.spec_network().spec_public_ip() is None <==> r.public_ip@.len() == 0,
        value.spec_network().spec_private_ip() is None <==> r.private_ip@.len() == 0,
        value.spec_catalog().cluster_id is None <==> r.cluster_id@.len() == 0,
{
    let public_ip = value.public_ip();
    let private_ip = value.private_ip();
    let cluster_id = value.cluster_id();
    let server_id = value.server_id();
    let provider_server_id = value.provider_server_id();
    let site_id = value.site_id();
    let class_id = value.infrastructure_class_id();
    let catalog = value.catalog();
    proof {
        use_type_invariant(value);
        use_type_invariant(catalog);
        use_type_invariant(server_id);
        use_type_invariant(provider_server_id);
        use_type_invariant(site_id);
        use_type_invariant(class_id);
    }
    if let Some(ip) = public_ip {
        proof {
            use_type_invariant(ip);
            lemma_valid_ip_text_accepted(ip@);
        }
    }
    if let Some(ip) = private_ip {
        proof {
            use_type_invariant(ip);
            lemma_valid_ip_text_accepted(ip@);
        }
    }
    if let Some(c) = cluster_id {
        proof {
            use_type_invariant(c);
        }
    }
    let apps = HephaestusServerApp::to_texts(value.apps());
    let services = HephaestusServerService::to_texts(value.services());
    let r = ProtoNodeActualState {
        server_id: server_id.as_str().to_string(),
        provider_server_id: provider_server_id.as_str().to_string(),
        site_id: site_id.as_str().to_string(),
        public_ip: optional_text(public_ip, match public_ip { Some(ip) => Some(ip.as_str()), None => None }),
        private_ip: optional_text(private_ip, match private_ip { Some(ip) => Some(ip.as_str()), None => None }),
        boot_time_unix_secs: value.boot_time_unix_secs(),
        last_seen_unix_secs: value.last_seen_unix_secs(),
        status: proto_node_actual_state_status_from_domain(value.status()),
        cluster_id: optional_text(cluster_id, match cluster_id { Some(c) => Some(c.as_str()), None => None }),
        role: proto_server_role_from_domain(value.role()),
        apps,
        services,
        infrastructure_class_id: class_id.as_str().to_string(),
    };
    proof {
        let items = app_texts(value.spec_catalog().apps);
        assert forall|i: int| 0 <= i < items.len() implies domain_token(#[trigger] items[i], MAX_SERVER_APP_BYTES as nat, CharClass::Identifier) == Ok::<Seq<char>, HephaestusDomainError>(items[i]) by {
            assert(value.spec_catalog().apps[i].valid());
        }
        lemma_domain_tokens_fixed(items, MAX_SERVER_APP_BYTES as nat, CharClass::Identifier);
        let items = service_texts(value.spec_catalog().services);
        assert forall|i: int| 0 <= i < items.len() implies domain_token(#[trigger] items[i], MAX_SERVER_SERVICE_BYTES as nat, CharClass::ServiceIdentifier) == Ok::<Seq<char>, HephaestusDomainError>(items[i]) by {
            assert(value.spec_catalog().services[i].valid());
        }
        lemma_domain_tokens_fixed(items, MAX_SERVER_SERVICE_BYTES as nat, CharClass::ServiceIdentifier);
    }
    r
}

/// The wire environment tag of a domain environment tag.
pub open spec fn proto_environment_tag(d: HephaestusServerEnvironmentTag) -> ProtoServerEnvironmentTag {
    match d {
        HephaestusServerEnvironmentTag::Unspecified => ProtoServerEnvironmentTag::Unspecified,
        HephaestusServerEnvironmentTag::Dev => ProtoServerEnvironmentTag::Dev,
        HephaestusServerEnvironmentTag::Prod => ProtoServerEnvironmentTag::Prod,
    }
}

/// Converts a domain environment tag into its wire environment tag.
pub fn proto_environment_tag_from_domain(d: HephaestusServerEnvironmentTag) -> (p: ProtoServerEnvironmentTag)
    ensures
        p == proto_environment_tag(d),
{
    match d {
        HephaestusServerEnvironmentTag::Unspecified => ProtoServerEnvironmentTag::Unspecified,
        HephaestusServerEnvironmentTag::Dev => ProtoServerEnvironmentTag::Dev,
        HephaestusServerEnvironmentTag::Prod => ProtoServerEnvironmentTag::Prod,
    }
}

/// The wire provisioning event kind of a domain provisioning event kind.
pub open spec fn proto_provisioning_event_kind(d: ProvisioningEventKind) -> ProtoProvisioningEventKind {
    match d {
        ProvisioningEventKind::Requested => ProtoProvisioningEventKind::Requested,
        ProvisioningEventKind::InstanceCreateStarted => ProtoProvisioningEventKind::InstanceCreateStarted,
        ProvisioningEventKind::InstanceCreateSucceeded => ProtoProvisioningEventKind::InstanceCreateSucceeded,
        ProvisioningEventKind::InstanceCreateFailed => ProtoProvisioningEventKind::InstanceCreateFailed,
        ProvisioningEventKind::DnsReconcileStarted => ProtoProvisioningEventKind::DnsReconcileStarted,
        ProvisioningEventKind::DnsReconcileSucceeded => ProtoProvisioningEventKind::DnsReconcileSucceeded,
        ProvisioningEventKind::DnsReconcileFailed => ProtoProvisioningEventKind::DnsReconcileFailed,
        ProvisioningEventKind::HealthCheckStarted => ProtoProvisioningEventKind::HealthCheckStarted,
        ProvisioningEventKind::HealthCheckSucceeded => ProtoProvisioningEventKind::HealthCheckSucceeded,
        ProvisioningEventKind::HealthCheckFailed => ProtoProvisioningEventKind::HealthCheckFailed,
        ProvisioningEventKind::BootReported => ProtoProvisioningEventKind::BootReported,
        ProvisioningEventKind::Ready => ProtoProvisioningEventKind::Ready,
    }
}

/// Converts a domain provisioning event kind into its wire provisioning event kind.
pub fn proto_provisioning_event_kind_from_domain(d: ProvisioningEventKind) -> (p: ProtoProvisioningEventKind)
    ensures
        p == proto_provisioning_event_kind(d),
{
    match d {
        ProvisioningEventKind::Requested => ProtoProvisioningEventKind::Requested,
        ProvisioningEventKind::InstanceCreateStarted => ProtoProvisioningEventKind::InstanceCreateStarted,
        ProvisioningEventKind::InstanceCreateSucceeded => ProtoProvisioningEventKind::InstanceCreateSucceeded,
        ProvisioningEventKind::InstanceCreateFailed => ProtoProvisioningEventKind::InstanceCreateFailed,
        ProvisioningEventKind::DnsReconcileStarted => ProtoProvisioningEventKind::DnsReconcileStarted,
        ProvisioningEventKind::DnsReconcileSucceeded => ProtoProvisioningEventKind::DnsReconcileSucceeded,
        ProvisioningEventKind::DnsReconcileFailed => ProtoProvisioningEventKind::DnsReconcileFailed,
        ProvisioningEventKind::HealthCheckStarted => ProtoProvisioningEventKind::HealthCheckStarted,
        ProvisioningEventKind::HealthCheckSucceeded => ProtoProvisioningEventKind::HealthCheckSucceeded,
        ProvisioningEventKind::HealthCheckFailed => ProtoProvisioningEventKind::HealthCheckFailed,
        ProvisioningEventKind::BootReported => ProtoProvisioningEventKind::BootReported,
        ProvisioningEventKind::Ready => ProtoProvisioningEventKind::Ready,
    }
}

/// The wire content of a DNS record.
pub open spec fn dns_record_view(v: HephaestusDnsRecord) -> ProtoDnsRecordView {
    ProtoDnsRecordView {
        name: v.spec_name()@,
        kind: proto_dns_kind(v.spec_kind()),
        target: v.spec_target()@,
        visibility: proto_dns_visibility(v.spec_visibility()),
    }
}

/// The wire contents of a sequence of DNS records.
pub open spec fn dns_record_views(s: Seq<HephaestusDnsRecord>) -> Seq<ProtoDnsRecordView> {
    s.map_values(|d: HephaestusDnsRecord| dns_record_view(d))
}

/// The wire content of a provisioning event; an absent detail is empty.
pub open spec fn provisioning_event_view(v: ProvisioningEventSnapshot) -> ProtoProvisioningEventSnapshotView {
    ProtoProvisioningEventSnapshotView {
        kind: proto_provisioning_event_kind(v.spec_kind()),
        detail: seq_or_empty(v.spec_detail()),
    }
}

/// The wire content of an inventory row: absent texts are empty, unknown
/// times zero, an unknown status `Unspecified`; the latest provisioning
/// event and agent report are sent when known.
pub open spec fn inventory_row_view(v: HephaestusServerInventoryRow) -> ProtoServerInventoryRowView {
    ProtoServerInventoryRowView {
        server_id: v.spec_identity().spec_server_id()@,
        provider_server_id: v.spec_identity().spec_provider_server_id()@,
        site_id: v.spec_identity().spec_site_id()@,
        infrastructure_class_id: v.spec_infrastructure_class_id()@,
        cluster_id: text_or_empty(v.spec_catalog().cluster_id),
        role: proto_server_role(v.spec_catalog().role),
        apps: app_texts(v.spec_catalog().apps),
        services: service_texts(v.spec_catalog().services),
        actual_apps: app_texts(v.spec_actual_apps()),
        assigned_region_id: text_or_empty(v.spec_assigned_region_id()),
        environment_tag: proto_environment_tag(v.spec_environment_tag()),
        planned_private_ip: text_or_empty(v.spec_planned_private_ip()),
        public_ip: text_or_empty(v.spec_public_ip()),
        private_ip: text_or_empty(v.spec_private_ip()),
        boot_time_unix_secs: match v.spec_boot_time_unix_secs() {
            Some(t) => t,
            None => 0,
        },
        last_seen_unix_secs: match v.spec_last_seen_unix_secs() {
            Some(t) => t,
            None => 0,
        },
        actual_status: match v.spec_actual_status() {
            Some(s) => proto_node_status(s),
            None => ProtoNodeActualStateStatus::Unspecified,
        },
        latest_provisioning_event: match v.spec_latest_provisioning_event() {
            Some(e) => Some(provisioning_event_view(e)),
            None => None,
        },
        dns_records: dns_record_views(v.spec_dns_records()),
        latest_agent_report: match v.spec_latest_agent_report() {
            Some(r) => Some(agent_report_view(r)),
            None => None,
        },
    }
}

/// Converts a DNS record into its wire message.
pub fn proto_dns_record_from_domain(value: &HephaestusDnsRecord) -> (r: ProtoDnsRecord)
    ensures
        r@ == dns_record_view(*value),
{
    ProtoDnsRecord {
        name: value.name().as_str().to_string(),
        kind: proto_dns_kind_from_domain(value.kind()),
        target: value.target().as_str().to_string(),
        visibility: proto_dns_visibility_from_domain(value.visibility()),
    }
}

/// Converts a provisioning event into its wire message; an absent detail
/// is written as the empty string.
pub fn proto_provisioning_event_snapshot_from_domain(value: &ProvisioningEventSnapshot) -> (r:
    ProtoProvisioningEventSnapshot)
    ensures
        r@ == provisioning_event_view(*value),
{
    ProtoProvisioningEventSnapshot {
        kind: proto_provisioning_event_kind_from_domain(value.kind()),
        detail: match value.detail() {
            Some(d) => d.to_string(),
            None => String::new(),
        },
    }
}

/// Converts an inventory row into its wire message, as
/// [`inventory_row_view`] describes.
pub fn proto_server_inventory_row_from_domain(value: &HephaestusServerInventoryRow) -> (r:
    ProtoServerInventoryRow)
    ensures
        r@ == inventory_row_view(*value),
{
    let records_in = value.dns_records();
    let mut dns_records: Vec<ProtoDnsRecord> = Vec::new();
    let mut i: usize = 0;
    while i < records_in.len()
        invariant
            i <= records_in@.len(),
            dns_records@.map_values(|x: ProtoDnsRecord| x@) =~= dns_record_views(records_in@.take(i as int)),
        decreases records_in@.len() - i,
    {
        let ghost before = dns_records@;
        dns_records.push(proto_dns_record_from_domain(&records_in[i]));
        proof {
            assert(records_in@.take(i as int + 1) =~= records_in@.take(i as int).push(records_in@[i as int]));
            assert(dns_records@.map_values(|x: ProtoDnsRecord| x@) =~= before.map_values(
                |x: ProtoDnsRecord| x@,
            ).push(dns_record_view(records_in@[i as int])));
        }
        i += 1;
    }
    proof {
        assert(records_in@.take(i as int) =~= records_in@);
    }
    let catalog = value.catalog();
    let cluster_id = catalog.cluster_id();
    let region = value.assigned_region_id();
    let planned = value.planned_private_ip();
    let public_ip = value.public_ip();
    let private_ip = value.private_ip();
    ProtoServerInventoryRow {
        server_id: value.identity().server_id().as_str().to_string(),
        provider_server_id: value.identity().provider_server_id().as_str().to_string(),
        site_id: value.identity().site_id().as_str().to_string(),
        infrastructure_class_id: value.infrastructure_class_id().as_str().to_string(),
        cluster_id: optional_text(cluster_id, match cluster_id { Some(c) => Some(c.as_str()), None => None }),
        role: proto_server_role_from_domain(catalog.role()),
        apps: HephaestusServerApp::to_texts(catalog.apps()),
        services: HephaestusServerService::to_texts(catalog.services()),
        actual_apps: HephaestusServerApp::to_texts(value.actual_apps()),
        assigned_region_id: optional_text(region, match region { Some(x) => Some(x.as_str()), None => None }),
        environment_tag: proto_environment_tag_from_domain(value.environment_tag()),
        planned_private_ip: optional_text(planned, match planned { Some(x) => Some(x.as_str()), None => None }),
        public_ip: optional_text(public_ip, match public_ip { Some(x) => Some(x.as_str()), None => None }),
        private_ip: optional_text(private_ip, match private_ip { Some(x) => Some(x.as_str()), None => None }),
        boot_time_unix_secs: match value.boot_time_unix_secs() {
            Some(t) => t,
            None => 0,
        },
        last_seen_unix_secs: match value.last_seen_unix_secs() {
            Some(t) => t,
            None => 0,
        },
        actual_status: match value.actual_status() {
            Some(s) => proto_node_actual_state_status_from_domain(s),
            None => ProtoNodeActualStateStatus::Unspecified,
        },
        latest_provisioning_event: match value.latest_provisioning_event() {
            Some(e) => Some(proto_provisioning_event_snapshot_from_domain(e)),
            None => None,
        },
        dns_records,
        latest_agent_report: match value.latest_agent_report() {
            Some(report) => Some(proto_agent_report_from_domain(report)),
            None => None,
        },
    }
}

/// A list of domain tokens that is accepted is accepted again, unchanged.
pub proof fn lemma_domain_tokens_idempotent(items: Seq<Seq<char>>, max: nat, k: CharClass)
    requires
        domain_tokens(items, max, k) is Ok,
    ensures
        domain_tokens(domain_tokens(items, max, k)->Ok_0, max, k) == domain_tokens(items, max, k),
{
    lemma_tokens_outcome_idempotent(items, max, k);
}

/// An optional token that is accepted is accepted again, unchanged.
pub proof fn lemma_empty_or_token_idempotent(s: Seq<char>, max: nat, k: CharClass)
    requires
        empty_or_token(s, max, k) is Ok,
    ensures
        empty_or_token(empty_or_token(s, max, k)->Ok_0, max, k) == empty_or_token(s, max, k),
{
    if s.len() != 0 {
        lemma_domain_token_idempotent(s, max, k);
    }
}

/// Converting an actual state from the wire is stable: the wire content of
/// an accepted message converts again to that same content. With the
/// contracts of [`node_actual_state_from_proto`] and
/// [`proto_node_actual_state_from_domain`], a state read from the wire and
/// written back reads back as the same state.
pub proof fn lemma_node_actual_state_outcome_idempotent(p: ProtoNodeActualStateView)
    requires
        node_actual_state_outcome(p) is Ok,
    ensures
        node_actual_state_outcome(node_actual_state_outcome(p)->Ok_0) == node_actual_state_outcome(p),
{
    lemma_domain_token_idempotent(p.server_id, MAX_SERVER_ID_BYTES as nat, CharClass::Identifier);
    lemma_domain_token_idempotent(p.provider_server_id, MAX_PROVIDER_SERVER_ID_BYTES as nat, CharClass::Identifier);
    lemma_domain_token_idempotent(p.site_id, MAX_SITE_ID_BYTES as nat, CharClass::Identifier);
    lemma_empty_or_token_idempotent(p.cluster_id, MAX_CLUSTER_ID_BYTES as nat, CharClass::Identifier);
    lemma_domain_tokens_idempotent(p.apps, MAX_SERVER_APP_BYTES as nat, CharClass::Identifier);
    lemma_domain_tokens_idempotent(p.services, MAX_SERVER_SERVICE_BYTES as nat, CharClass::ServiceIdentifier);
    lemma_domain_tokens_len(p.apps, MAX_SERVER_APP_BYTES as nat, CharClass::Identifier);
    lemma_domain_tokens_len(p.services, MAX_SERVER_SERVICE_BYTES as nat, CharClass::ServiceIdentifier);
    lemma_domain_token_idempotent(
        p.infrastructure_class_id,
        MAX_INFRASTRUCTURE_CLASS_ID_BYTES as nat,
        CharClass::Identifier,
    );
}

/// The domain record kind a wire record kind names; `Unspecified` is refused.
pub open spec fn dns_kind_outcome(p: ProtoDnsRecordKind) -> Result<HephaestusDnsRecordKind, HephaestusDomainError> {
    match p {
        ProtoDnsRecordKind::Unspecified => Err(HephaestusDomainError::InvalidNumber),
        ProtoDnsRecordKind::A => Ok(HephaestusDnsRecordKind::A),
        ProtoDnsRecordKind::Aaaa => Ok(HephaestusDnsRecordKind::Aaaa),
    }
}

/// The wire record kind of a domain record kind.
pub open spec fn proto_dns_kind(d: HephaestusDnsRecordKind) -> ProtoDnsRecordKind {
    match d {
        HephaestusDnsRecordKind::A => ProtoDnsRecordKind::A,
        HephaestusDnsRecordKind::Aaaa => ProtoDnsRecordKind::Aaaa,
    }
}

/// Converts a wire record kind into a domain record kind; `Unspecified` is refused.
pub fn dns_kind_from_proto(p: ProtoDnsRecordKind) -> (r: Result<HephaestusDnsRecordKind, HephaestusDomainError>)
    ensures
        r == dns_kind_outcome(p),
{
    match p {
        ProtoDnsRecordKind::Unspecified => Err(HephaestusDomainError::InvalidNumber),
        ProtoDnsRecordKind::A => Ok(HephaestusDnsRecordKind::A),
        ProtoDnsRecordKind::Aaaa => Ok(HephaestusDnsRecordKind::Aaaa),
    }
}

/// Converts a domain record kind into its wire record kind.
pub fn proto_dns_kind_from_domain(d: HephaestusDnsRecordKind) -> (p: ProtoDnsRecordKind)
    ensures
        p == proto_dns_kind(d),
{
    match d {
        HephaestusDnsRecordKind::A => ProtoDnsRecordKind::A,
        HephaestusDnsRecordKind::Aaaa => ProtoDnsRecordKind::Aaaa,
    }
}

/// The domain record visibility a wire record visibility names; `Unspecified` is refused.
pub open spec fn dns_visibility_outcome(p: ProtoDnsRecordVisibility) -> Result<HephaestusDnsRecordVisibility, HephaestusDomainError> {
    match p {
        ProtoDnsRecordVisibility::Unspecified => Err(HephaestusDomainError::InvalidNumber),
        ProtoDnsRecordVisibility::Public => Ok(HephaestusDnsRecordVisibility::Public),
        ProtoDnsRecordVisibility::Internal => Ok(HephaestusDnsRecordVisibility::Internal),
    }
}

/// The wire record visibility of a domain record visibility.
pub open spec fn proto_dns_visibility(d: HephaestusDnsRecordVisibility) -> ProtoDnsRecordVisibility {
    match d {
        HephaestusDnsRecordVisibility::Public => ProtoDnsRecordVisibility::Public,
        HephaestusDnsRecordVisibility::Internal => ProtoDnsRecordVisibility::Internal,
    }
}

/// Converts a wire record visibility into a domain record visibility; `Unspecified` is refused.
pub fn dns_visibility_from_proto(p: ProtoDnsRecordVisibility) -> (r: Result<HephaestusDnsRecordVisibility, HephaestusDomainError>)
    ensures
        r == dns_visibility_outcome(p),
{
    match p {
        ProtoDnsRecordVisibility::Unspecified => Err(HephaestusDomainError::InvalidNumber),
        ProtoDnsRecordVisibility::Public => Ok(HephaestusDnsRecordVisibility::Public),
        ProtoDnsRecordVisibility::Internal => Ok(HephaestusDnsRecordVisibility::Internal),
    }
}

/// Converts a domain record visibility into its wire record visibility.
pub fn proto_dns_visibility_from_domain(d: HephaestusDnsRecordVisibility) -> (p: ProtoDnsRecordVisibility)
    ensures
        p == proto_dns_visibility(d),
{
    match d {
        HephaestusDnsRecordVisibility::Public => ProtoDnsRecordVisibility::Public,
        HephaestusDnsRecordVisibility::Internal => ProtoDnsRecordVisibility::Internal,
    }
}

/// The wire outcome of a domain boot-report result.
pub open spec fn proto_boot_report_result(v: HephaestusAgentBootReportResult) -> ProtoAgentBootReportResult {
    match v {
        HephaestusAgentBootReportResult::Accepted => ProtoAgentBootReportResult::Accepted,
        HephaestusAgentBootReportResult::RejectedUnknownServer => ProtoAgentBootReportResult::RejectedUnknownServer,
        HephaestusAgentBootReportResult::RejectedAuthentication => ProtoAgentBootReportResult::RejectedAuthentication,
    }
}

/// Converts a domain boot-report result into its wire value.
pub fn proto_agent_boot_report_result_from_domain(v: HephaestusAgentBootReportResult) -> (r: ProtoAgentBootReportResult)
    ensures
        r == proto_boot_report_result(v),
{
    match v {
        HephaestusAgentBootReportResult::Accepted => ProtoAgentBootReportResult::Accepted,
        HephaestusAgentBootReportResult::RejectedUnknownServer => ProtoAgentBootReportResult::RejectedUnknownServer,
        HephaestusAgentBootReportResult::RejectedAuthentication => ProtoAgentBootReportResult::RejectedAuthentication,
    }
}

/// The wire content of a Region definition.
pub open spec fn region_definition_view(v: HephaestusRegionDefinition) -> ProtoRegionDefinitionView {
    ProtoRegionDefinitionView { region_id: v.spec_region_id()@, site_ids: site_texts(v.spec_site_ids()) }
}

/// What a wire Region definition yields: the Region identifier, then each
/// Site identifier, then the Site-list rule (non-empty, bounded, no Site
/// twice); texts are trimmed.
pub open spec fn region_definition_outcome(p: ProtoRegionDefinitionView) -> Result<
    ProtoRegionDefinitionView,
    HephaestusDomainError,
> {
    let region_id = domain_token(p.region_id, MAX_REGION_ID_BYTES as nat, CharClass::Identifier);
    let site_ids = domain_tokens(p.site_ids, MAX_SITE_ID_BYTES as nat, CharClass::Identifier);
    if region_id is Err {
        Err(region_id->Err_0)
    } else if site_ids is Err {
        Err(site_ids->Err_0)
    } else if p.site_ids.len() == 0 {
        Err(HephaestusDomainError::Empty)
    } else if p.site_ids.len() > MAX_REGION_SITES {
        Err(HephaestusDomainError::TooLong)
    } else if has_duplicate_text(site_ids->Ok_0) {
        Err(HephaestusDomainError::InvalidCharacter)
    } else {
        Ok(ProtoRegionDefinitionView { region_id: region_id->Ok_0, site_ids: site_ids->Ok_0 })
    }
}

/// Converts a wire Region definition, as [`region_definition_outcome`]
/// describes.
pub fn region_definition_from_proto(value: ProtoRegionDefinition) -> (r: Result<
    HephaestusRegionDefinition,
    HephaestusDomainError,
>)
    ensures
        match region_definition_outcome(value@) {
            Ok(n) => r is Ok && region_definition_view(r->Ok_0) == n,
            Err(e) => r == Err::<HephaestusRegionDefinition, HephaestusDomainError>(e),
        },
{
    let region_id = match HephaestusRegionId::new(value.region_id.as_str()) {
        Ok(v) => v,
        Err(e) => return Err(e),
    };
    let site_ids = match HephaestusSiteId::from_texts(&value.site_ids) {
        Ok(v) => v,
        Err(e) => return Err(e),
    };
    proof {
        lemma_domain_tokens_len(value@.site_ids, MAX_SITE_ID_BYTES as nat, CharClass::Identifier);
        assert(site_texts(site_ids@).len() == site_ids@.len());
        lemma_has_duplicate_site_texts(site_ids@);
    }
    HephaestusRegionDefinition::new(region_id, site_ids)
}

/// Converts a Region definition into its wire message.
pub fn proto_region_definition_from_domain(value: &HephaestusRegionDefinition) -> (r: ProtoRegionDefinition)
    ensures
        r@ == region_definition_view(*value),
{
    ProtoRegionDefinition {
        region_id: value.region_id().as_str().to_string(),
        site_ids: HephaestusSiteId::to_texts(value.site_ids()),
    }
}

/// The wire content of a boot report; absent addresses are empty.
pub open spec fn boot_report_view(v: HephaestusAgentBootReport) -> ProtoAgentBootReportView {
    ProtoAgentBootReportView {
        server_id: v.spec_identity().spec_server_id()@,
        provider_server_id: v.spec_identity().spec_provider_server_id()@,
        site_id: v.spec_identity().spec_site_id()@,
        public_ip: text_or_empty(v.spec_network().spec_public_ip()),
        private_ip: text_or_empty(v.spec_network().spec_private_ip()),
        boot_time_unix_secs: v.spec_timing().spec_boot_time_unix_secs(),
        generated_at_unix_secs: v.spec_timing().spec_generated_at_unix_secs(),
    }
}

/// What a wire boot report yields: the public and private addresses, then
/// the server, provider and Site identifiers, then the times; identifiers
/// are trimmed.
pub open spec fn boot_report_outcome(p: ProtoAgentBootReportView) -> Result<ProtoAgentBootReportView, HephaestusDomainError> {
    let public_ip = empty_or_ip(p.public_ip);
    let private_ip = empty_or_ip(p.private_ip);
    let server_id = domain_token(p.server_id, MAX_SERVER_ID_BYTES as nat, CharClass::Identifier);
    let provider_server_id = domain_token(p.provider_server_id, MAX_PROVIDER_SERVER_ID_BYTES as nat, CharClass::Identifier);
    let site_id = domain_token(p.site_id, MAX_SITE_ID_BYTES as nat, CharClass::Identifier);
    if public_ip is Err {
        Err(public_ip->Err_0)
    } else if private_ip is Err {
        Err(private_ip->Err_0)
    } else if server_id is Err {
        Err(server_id->Err_0)
    } else if provider_server_id is Err {
        Err(provider_server_id->Err_0)
    } else if site_id is Err {
        Err(site_id->Err_0)
    } else if !timestamps_ordered(p.boot_time_unix_secs, p.generated_at_unix_secs) {
        Err(HephaestusDomainError::InvalidNumber)
    } else {
        Ok(
            ProtoAgentBootReportView {
                server_id: server_id->Ok_0,
                provider_server_id: provider_server_id->Ok_0,
                site_id: site_id->Ok_0,
                public_ip: p.public_ip,
                private_ip: p.private_ip,
                boot_time_unix_secs: p.boot_time_unix_secs,
                generated_at_unix_secs: p.generated_at_unix_secs,
            },
        )
    }
}

/// Converts a wire boot report, as [`boot_report_outcome`] describes;
/// absent addresses stay absent.
pub fn agent_boot_report_from_proto(value: ProtoAgentBootReport) -> (r: Result<
    HephaestusAgentBootReport,
    HephaestusDomainError,
>)
    ensures
        match boot_report_outcome(value@) {
            Ok(n) => r is Ok && boot_report_view(r->Ok_0) == n
                && (r->Ok_0.spec_network().spec_public_ip() is None <==> value.public_ip@.len() == 0)
                && (r->Ok_0.spec_network().spec_private_ip() is None <==> value.private_ip@.len() == 0),
            Err(e) => r == Err::<HephaestusAgentBootReport, HephaestusDomainError>(e),
        },
{
    let public_ip = match public_ip_from_proto(&value.public_ip) {
        Ok(v) => v,
        Err(e) => return Err(e),
    };
    let private_ip = match private_ip_from_proto(&value.private_ip) {
        Ok(v) => v,
        Err(e) => return Err(e),
    };
    let server_id = match HephaestusServerId::new(value.server_id.as_str()) {
        Ok(v) => v,
        Err(e) => return Err(e),
    };
    let provider_server_id = match HephaestusProviderServerId::new(value.provider_server_id.as_str()) {
        Ok(v) => v,
        Err(e) => return Err(e),
    };
    let site_id = match HephaestusSiteId::new(value.site_id.as_str()) {
        Ok(v) => v,
        Err(e) => return Err(e),
    };
    let timing = match HephaestusServerBootTiming::new(value.boot_time_unix_secs, value.generated_at_unix_secs) {
        Ok(v) => v,
        Err(e) => return Err(e),
    };
    HephaestusAgentBootReport::new(
        HephaestusServerIdentity::new(server_id, provider_server_id, site_id),
        HephaestusServerNetwork::new(public_ip, private_ip),
        timing,
    )
}

/// Converts a boot report into its wire message.
///
/// The message is accepted by [`agent_boot_report_from_proto`] unchanged,
/// so converting it back yields a report with the same wire content and the
/// same absent addresses.
pub fn proto_agent_boot_report_from_domain(value: &HephaestusAgentBootReport) -> (r: ProtoAgentBootReport)
    ensures
        r@ == boot_report_view(*value),
        boot_report_outcome(r@) == Ok::<ProtoAgentBootReportView, HephaestusDomainError>(r@),
        value.spec_network().spec_public_ip() is None <==> r.public_ip@.len() == 0,
        value.spec_network().spec_private_ip() is None <==> r.private_ip@.len() == 0,
{
    let public_ip = value.public_ip();
    let private_ip = value.private_ip();
    let server_id = value.server_id();
    let provider_server_id = value.provider_server_id();
    let site_id = value.site_id();
    let boot_time_unix_secs = value.boot_time_unix_secs();
    proof {
        use_type_invariant(server_id);
        use_type_invariant(provider_server_id);
        use_type_invariant(site_id);
    }
    if let Some(ip) = public_ip {
        proof {
            use_type_invariant(ip);
            lemma_valid_ip_text_accepted(ip@);
        }
    }
    if let Some(ip) = private_ip {
        proof {
            use_type_invariant(ip);
            lemma_valid_ip_text_accepted(ip@);
        }
    }
    ProtoAgentBootReport {
        server_id: value.server_id().as_str().to_string(),
        provider_server_id: value.provider_server_id().as_str().to_string(),
        site_id: value.site_id().as_str().to_string(),
        public_ip: optional_text(public_ip, match public_ip { Some(ip) => Some(ip.as_str()), None => None }),
        private_ip: optional_text(private_ip, match private_ip { Some(ip) => Some(ip.as_str()), None => None }),
        boot_time_unix_secs: value.boot_time_unix_secs(),
        generated_at_unix_secs: value.generated_at_unix_secs(),
    }
}

/// What a wire DNS record yields: the name, kind, target and visibility in
/// that order; the name is normalized and the target trimmed.
pub open spec fn dns_record_outcome(p: ProtoDnsRecordView) -> Result<ProtoDnsRecordView, HephaestusDomainError> {
    let name = dns_name_outcome(p.name);
    let kind = dns_kind_outcome(p.kind);
    let target = dns_target_outcome(p.target);
    let visibility = dns_visibility_outcome(p.visibility);
    if name is Err {
        Err(name->Err_0)
    } else if kind is Err {
        Err(kind->Err_0)
    } else if target is Err {
        Err(target->Err_0)
    } else if visibility is Err {
        Err(visibility->Err_0)
    } else {
        Ok(ProtoDnsRecordView { name: name->Ok_0, kind: p.kind, target: target->Ok_0, visibility: p.visibility })
    }
}

/// [`dns_record_outcome`] as a function value, for lists.
pub open spec fn dns_record_outcome_fn() -> spec_fn(ProtoDnsRecordView) -> Result<ProtoDnsRecordView, HephaestusDomainError> {
    |p: ProtoDnsRecordView| dns_record_outcome(p)
}

/// Converts a wire DNS record, as [`dns_record_outcome`] describes.
pub fn dns_record_from_proto(p: &ProtoDnsRecord) -> (r: Result<HephaestusDnsRecord, HephaestusDomainError>)
    ensures
        match dns_record_outcome(p@) {
            Ok(n) => r is Ok && dns_record_view(r->Ok_0) == n,
            Err(e) => r == Err::<HephaestusDnsRecord, HephaestusDomainError>(e),
        },
{
    let name = match HephaestusDnsRecordName::new(p.name.as_str()) {
        Ok(v) => v,
        Err(e) => return Err(e),
    };
    let kind = match dns_kind_from_proto(p.kind) {
        Ok(v) => v,
        Err(e) => return Err(e),
    };
    let target = match HephaestusDnsRecordTarget::new(p.target.as_str()) {
        Ok(v) => v,
        Err(e) => return Err(e),
    };
    let visibility = match dns_visibility_from_proto(p.visibility) {
        Ok(v) => v,
        Err(e) => return Err(e),
    };
    Ok(HephaestusDnsRecord::new(name, kind, target, visibility))
}

/// The wire content of a desired DNS state.
pub open spec fn dns_desired_state_view(v: HephaestusDnsDesiredState) -> ProtoDnsDesiredStateView {
    ProtoDnsDesiredStateView { records: dns_record_views(v.spec_records()) }
}

/// What a wire desired DNS state yields: each record in order, then the
/// record bound.
pub open spec fn dns_desired_state_outcome(p: ProtoDnsDesiredStateView) -> Result<
    ProtoDnsDesiredStateView,
    HephaestusDomainError,
> {
    let records = each_outcome(p.records, dns_record_outcome_fn());
    if records is Err {
        Err(records->Err_0)
    } else if p.records.len() > MAX_DNS_RECORDS {
        Err(HephaestusDomainError::TooLong)
    } else {
        Ok(ProtoDnsDesiredStateView { records: records->Ok_0 })
    }
}

/// Converts a wire desired DNS state, as [`dns_desired_state_outcome`]
/// describes.
pub fn dns_desired_state_from_proto(value: ProtoDnsDesiredState) -> (r: Result<
    HephaestusDnsDesiredState,
    HephaestusDomainError,
>)
    ensures
        match dns_desired_state_outcome(value@) {
            Ok(n) => r is Ok && dns_desired_state_view(r->Ok_0) == n,
            Err(e) => r == Err::<HephaestusDnsDesiredState, HephaestusDomainError>(e),
        },
{
    let items = &value.records;
    let ghost pv = dns_record_wire_views(items@);
    let mut out: Vec<HephaestusDnsRecord> = Vec::new();
    let mut i: usize = 0;
    proof {
        assert(pv.take(0) =~= Seq::<ProtoDnsRecordView>::empty());
        assert(dns_record_views(out@) =~= Seq::<ProtoDnsRecordView>::empty());
    }
    while i < items.len()
        invariant
            i <= items@.len(),
            pv == dns_record_wire_views(items@),
            pv == value@.records,
            each_outcome(pv.take(i as int), dns_record_outcome_fn()) == Ok::<
                Seq<ProtoDnsRecordView>,
                HephaestusDomainError,
            >(dns_record_views(out@)),
        decreases items@.len() - i,
    {
        proof {
            lemma_each_outcome_step(pv, i as int, dns_record_outcome_fn());
            assert(pv[i as int] == items@[i as int]@);
        }
        match dns_record_from_proto(&items[i]) {
            Ok(d) => {
                let ghost before = out@;
                out.push(d);
                proof {
                    assert(dns_record_views(out@) =~= dns_record_views(before).push(dns_record_view(d)));
                }
            },
            Err(e) => {
                proof {
                    lemma_each_outcome_prefix_fault(pv, i as int + 1, dns_record_outcome_fn());
                }
                return Err(e);
            },
        }
        i += 1;
    }
    proof {
        assert(pv.take(i as int) =~= pv);
        lemma_each_outcome_len(pv, dns_record_outcome_fn());
        assert(dns_record_views(out@).len() == out@.len());
    }
    HephaestusDnsDesiredState::new(out)
}

/// Converts a desired DNS state into its wire message.
pub fn proto_dns_desired_state_from_domain(value: &HephaestusDnsDesiredState) -> (r: ProtoDnsDesiredState)
    ensures
        r@ == dns_desired_state_view(*value),
{
    let records_in = value.records();
    let mut records: Vec<ProtoDnsRecord> = Vec::new();
    let mut i: usize = 0;
    while i < records_in.len()
        invariant
            i <= records_in@.len(),
            dns_record_wire_views(records@) =~= dns_record_views(records_in@.take(i as int)),
        decreases records_in@.len() - i,
    {
        let ghost before = records@;
        records.push(proto_dns_record_from_domain(&records_in[i]));
        proof {
            assert(records_in@.take(i as int + 1) =~= records_in@.take(i as int).push(records_in@[i as int]));
            assert(dns_record_wire_views(records@) =~= dns_record_wire_views(before).push(
                dns_record_view(records_in@[i as int]),
            ));
        }
        i += 1;
    }
    proof {
        assert(records_in@.take(i as int) =~= records_in@);
    }
    ProtoDnsDesiredState { records }
}

/// Converting a Region definition from the wire is stable: the wire content
/// of an accepted message converts again to that same content.
pub proof fn lemma_region_definition_outcome_idempotent(p: ProtoRegionDefinitionView)
    requires
        region_definition_outcome(p) is Ok,
    ensures
        region_definition_outcome(region_definition_outcome(p)->Ok_0) == region_definition_outcome(p),
{
    lemma_domain_token_idempotent(p.region_id, MAX_REGION_ID_BYTES as nat, CharClass::Identifier);
    lemma_domain_tokens_idempotent(p.site_ids, MAX_SITE_ID_BYTES as nat, CharClass::Identifier);
    lemma_domain_tokens_len(p.site_ids, MAX_SITE_ID_BYTES as nat, CharClass::Identifier);
}

/// Converting a boot report from the wire is stable: the wire content of an
/// accepted message converts again to that same content.
pub proof fn lemma_boot_report_outcome_idempotent(p: ProtoAgentBootReportView)
    requires
        boot_report_outcome(p) is Ok,
    ensures
        boot_report_outcome(boot_report_outcome(p)->Ok_0) == boot_report_outcome(p),
{
    lemma_domain_token_idempotent(p.server_id, MAX_SERVER_ID_BYTES as nat, CharClass::Identifier);
    lemma_domain_token_idempotent(p.provider_server_id, MAX_PROVIDER_SERVER_ID_BYTES as nat, CharClass::Identifier);
    lemma_domain_token_idempotent(p.site_id, MAX_SITE_ID_BYTES as nat, CharClass::Identifier);
}

/// A DNS record that is accepted is accepted again, unchanged.
pub proof fn lemma_dns_record_outcome_idempotent(p: ProtoDnsRecordView)
    requires
        dns_record_outcome(p) is Ok,
    ensures
        dns_record_outcome(dns_record_outcome(p)->Ok_0) == dns_record_outcome(p),
{
    lemma_dns_name_normalization_idempotent(p.name);
    lemma_trim_idempotent(p.target);
}

/// Converting a desired DNS state from the wire is stable: the wire content
/// of an accepted message converts again to that same content.
pub proof fn lemma_dns_desired_state_outcome_idempotent(p: ProtoDnsDesiredStateView)
    requires
        dns_desired_state_outcome(p) is Ok,
    ensures
        dns_desired_state_outcome(dns_desired_state_outcome(p)->Ok_0) == dns_desired_state_outcome(p),
{
    assert forall|x: ProtoDnsRecordView| #[trigger] dns_record_outcome_fn()(x) is Ok implies dns_record_outcome_fn()(
        dns_record_outcome_fn()(x)->Ok_0,
    ) == dns_record_outcome_fn()(x) by {
        lemma_dns_record_outcome_idempotent(x);
    }
    lemma_each_outcome_idempotent(p.records, dns_record_outcome_fn());
    lemma_each_outcome_len(p.records, dns_record_outcome_fn());
}

/// Reading a wire server role gives the domain value of the same name, and
/// writing a domain value gives the wire value of its name; only
/// `Unspecified` is refused.
pub proof fn lemma_server_role_names(p: ProtoServerRole, d: HephaestusServerRole)
    ensures
        server_role_outcome(p) is Err <==> p == ProtoServerRole::Unspecified,
        server_role_outcome(p) == Ok::<HephaestusServerRole, HephaestusDomainError>(d) ==> crate::text::ascii_lowercase(crate::contract::wire::proto_server_role_name(p)) == "hephaestus_server_role_"@ + crate::hephaestus::node::server_role_name(d),
        crate::text::ascii_lowercase(crate::contract::wire::proto_server_role_name(proto_server_role(d))) == "hephaestus_server_role_"@ + crate::hephaestus::node::server_role_name(d),
{
    reveal_strlit("hephaestus_server_role_");
    reveal_strlit("HEPHAESTUS_SERVER_ROLE_UNSPECIFIED");
    reveal_strlit("HEPHAESTUS_SERVER_ROLE_API");
    reveal_strlit("HEPHAESTUS_SERVER_ROLE_WORKER");
    reveal_strlit("HEPHAESTUS_SERVER_ROLE_DB");
    reveal_strlit("HEPHAESTUS_SERVER_ROLE_SEARCH");
    reveal_strlit("HEPHAESTUS_SERVER_ROLE_EDGE");
    reveal_strlit("HEPHAESTUS_SERVER_ROLE_UNKNOWN");
    reveal_strlit("api");
    reveal_strlit("worker");
    reveal_strlit("db");
    reveal_strlit("search");
    reveal_strlit("edge");
    reveal_strlit("unknown");
}

/// Reading a wire node status gives the domain value of the same name, and
/// writing a domain value gives the wire value of its name; only
/// `Unspecified` is refused.
pub proof fn lemma_node_actual_state_status_names(p: ProtoNodeActualStateStatus, d: HephaestusNodeActualStateStatus)
    ensures
        node_status_outcome(p) is Err <==> p == ProtoNodeActualStateStatus::Unspecified,
        node_status_outcome(p) == Ok::<HephaestusNodeActualStateStatus, HephaestusDomainError>(d) ==> crate::text::ascii_lowercase(crate::contract::wire::proto_node_actual_state_status_name(p)) == "hephaestus_node_actual_state_status_"@ + crate::hephaestus::node::node_status_name(d),
        crate::text::ascii_lowercase(crate::contract::wire::proto_node_actual_state_status_name(proto_node_status(d))) == "hephaestus_node_actual_state_status_"@ + crate::hephaestus::node::node_status_name(d),
{
    reveal_strlit("hephaestus_node_actual_state_status_");
    reveal_strlit("HEPHAESTUS_NODE_ACTUAL_STATE_STATUS_UNSPECIFIED");
    reveal_strlit("HEPHAESTUS_NODE_ACTUAL_STATE_STATUS_READY");
    reveal_strlit("HEPHAESTUS_NODE_ACTUAL_STATE_STATUS_STALE");
    reveal_strlit("HEPHAESTUS_NODE_ACTUAL_STATE_STATUS_OFFLINE");
    reveal_strlit("ready");
    reveal_strlit("stale");
    reveal_strlit("offline");
}

/// Reading a wire DNS record kind gives the domain value of the same name, and
/// writing a domain value gives the wire value of its name; only
/// `Unspecified` is refused.
pub proof fn lemma_dns_record_kind_names(p: ProtoDnsRecordKind, d: HephaestusDnsRecordKind)
    ensures
        dns_kind_outcome(p) is Err <==> p == ProtoDnsRecordKind::Unspecified,
        dns_kind_outcome(p) == Ok::<HephaestusDnsRecordKind, HephaestusDomainError>(d) ==> crate::text::ascii_lowercase(crate::contract::wire::proto_dns_record_kind_name(p)) == "hephaestus_dns_record_kind_"@ + crate::hephaestus::dns::dns_record_kind_name(d),
        crate::text::ascii_lowercase(crate::contract::wire::proto_dns_record_kind_name(proto_dns_kind(d))) == "hephaestus_dns_record_kind_"@ + crate::hephaestus::dns::dns_record_kind_name(d),
{
    reveal_strlit("hephaestus_dns_record_kind_");
    reveal_strlit("HEPHAESTUS_DNS_RECORD_KIND_UNSPECIFIED");
    reveal_strlit("HEPHAESTUS_DNS_RECORD_KIND_A");
    reveal_strlit("HEPHAESTUS_DNS_RECORD_KIND_AAAA");
    reveal_strlit("a");
    reveal_strlit("aaaa");
}

/// Reading a wire DNS record visibility gives the domain value of the same name, and
/// writing a domain value gives the wire value of its name; only
/// `Unspecified` is refused.
pub proof fn lemma_dns_record_visibility_names(p: ProtoDnsRecordVisibility, d: HephaestusDnsRecordVisibility)
    ensures
        dns_visibility_outcome(p) is Err <==> p == ProtoDnsRecordVisibility::Unspecified,
        dns_visibility_outcome(p) == Ok::<HephaestusDnsRecordVisibility, HephaestusDomainError>(d) ==> crate::text::ascii_lowercase(crate::contract::wire::proto_dns_record_visibility_name(p)) == "hephaestus_dns_record_visibility_"@ + crate::hephaestus::dns::dns_record_visibility_name(d),
        crate::text::ascii_lowercase(crate::contract::wire::proto_dns_record_visibility_name(proto_dns_visibility(d))) == "hephaestus_dns_record_visibility_"@ + crate::hephaestus::dns::dns_record_visibility_name(d),
{
    reveal_strlit("hephaestus_dns_record_visibility_");
    reveal_strlit("HEPHAESTUS_DNS_RECORD_VISIBILITY_UNSPECIFIED");
    reveal_strlit("HEPHAESTUS_DNS_RECORD_VISIBILITY_PUBLIC");
    reveal_strlit("HEPHAESTUS_DNS_RECORD_VISIBILITY_INTERNAL");
    reveal_strlit("public");
    reveal_strlit("internal");
}

/// Writing a domain environment tag gives the wire value of the same name.
pub proof fn lemma_server_environment_tag_names(d: HephaestusServerEnvironmentTag)
    ensures
        crate::text::ascii_lowercase(crate::contract::wire::proto_server_environment_tag_name(proto_environment_tag(d))) == "hephaestus_server_environment_tag_"@ + crate::hephaestus::inventory::environment_tag_name(d),
{
    reveal_strlit("hephaestus_server_environment_tag_");
    reveal_strlit("HEPHAESTUS_SERVER_ENVIRONMENT_TAG_UNSPECIFIED");
    reveal_strlit("HEPHAESTUS_SERVER_ENVIRONMENT_TAG_DEV");
    reveal_strlit("HEPHAESTUS_SERVER_ENVIRONMENT_TAG_PROD");
    reveal_strlit("unspecified");
    reveal_strlit("dev");
    reveal_strlit("prod");
}

/// Writing a domain provisioning event kind gives the wire value of the same name.
pub proof fn lemma_provisioning_event_kind_names(d: ProvisioningEventKind)
    ensures
        crate::text::ascii_lowercase(crate::contract::wire::proto_provisioning_event_kind_name(proto_provisioning_event_kind(d))) == "provisioning_event_kind_"@ + crate::hephaestus::health::provisioning_event_kind_name(d),
{
    reveal_strlit("provisioning_event_kind_");
    reveal_strlit("PROVISIONING_EVENT_KIND_UNSPECIFIED");
    reveal_strlit("PROVISIONING_EVENT_KIND_REQUESTED");
    reveal_strlit("PROVISIONING_EVENT_KIND_INSTANCE_CREATE_STARTED");
    reveal_strlit("PROVISIONING_EVENT_KIND_INSTANCE_CREATE_SUCCEEDED");
    reveal_strlit("PROVISIONING_EVENT_KIND_INSTANCE_CREATE_FAILED");
    reveal_strlit("PROVISIONING_EVENT_KIND_DNS_RECONCILE_STARTED");
    reveal_strlit("PROVISIONING_EVENT_KIND_DNS_RECONCILE_SUCCEEDED");
    reveal_strlit("PROVISIONING_EVENT_KIND_DNS_RECONCILE_FAILED");
    reveal_strlit("PROVISIONING_EVENT_KIND_HEALTH_CHECK_STARTED");
    reveal_strlit("PROVISIONING_EVENT_KIND_HEALTH_CHECK_SUCCEEDED");
    reveal_strlit("PROVISIONING_EVENT_KIND_HEALTH_CHECK_FAILED");
    reveal_strlit("PROVISIONING_EVENT_KIND_BOOT_REPORTED");
    reveal_strlit("PROVISIONING_EVENT_KIND_READY");
    reveal_strlit("requested");
    reveal_strlit("instance_create_started");
    reveal_strlit("instance_create_succeeded");
    reveal_strlit("instance_create_failed");
    reveal_strlit("dns_reconcile_started");
    reveal_strlit("dns_reconcile_succeeded");
    reveal_strlit("dns_reconcile_failed");
    reveal_strlit("health_check_started");
    reveal_strlit("health_check_succeeded");
    reveal_strlit("health_check_failed");
    reveal_strlit("boot_reported");
    reveal_strlit("ready");
}

/// Writing a domain boot report result gives the wire value of the same name.
pub proof fn lemma_agent_boot_report_result_names(d: HephaestusAgentBootReportResult)
    ensures
        crate::text::ascii_lowercase(crate::contract::wire::proto_agent_boot_report_result_name(proto_boot_report_result(d))) == "hephaestus_agent_boot_report_result_"@ + crate::hephaestus::node::boot_report_result_name(d),
{
    reveal_strlit("hephaestus_agent_boot_report_result_");
    reveal_strlit("HEPHAESTUS_AGENT_BOOT_REPORT_RESULT_UNSPECIFIED");
    reveal_strlit("HEPHAESTUS_AGENT_BOOT_REPORT_RESULT_ACCEPTED");
    reveal_strlit("HEPHAESTUS_AGENT_BOOT_REPORT_RESULT_REJECTED_UNKNOWN_SERVER");
    reveal_strlit("HEPHAESTUS_AGENT_BOOT_REPORT_RESULT_REJECTED_AUTHENTICATION");
    reveal_strlit("accepted");
    reveal_strlit("rejected_unknown_server");
    reveal_strlit("rejected_authentication");
}

} // verus!
