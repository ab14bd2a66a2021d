//! Node enrollment, registration and actual-state request and response
//! types of the Hephaestus contract.
use vstd::prelude::*;

use crate::hephaestus::inventory::HephaestusServerInventoryRow;
use crate::hephaestus::node::{
    HephaestusAgentBootReport, HephaestusAgentBootReportResult, HephaestusAgentBootSecret,
    HephaestusAgentPublicKey, HephaestusAgentPublicKeyFingerprint, HephaestusAgentRuntimeToken,
    HephaestusNodeActualState, HephaestusServerId,
};
use vstd::string::StringExecFns;

verus! {

/// Boot-report submission of a node agent. It has no `Debug`, so that the
/// boot secret never reaches logs.
#[derive(Clone, PartialEq, Eq)]
pub struct SubmitAgentBootReportRequest {
    report: HephaestusAgentBootReport,
    boot_secret: HephaestusAgentBootSecret,
    agent_public_key: Option<HephaestusAgentPublicKey>,
    agent_public_key_fingerprint: Option<HephaestusAgentPublicKeyFingerprint>,
}

impl SubmitAgentBootReportRequest {
    /// The report.
    pub closed spec fn spec_report(&self) -> HephaestusAgentBootReport {
        self.report
    }

    /// The boot secret.
    pub closed spec fn spec_boot_secret(&self) -> HephaestusAgentBootSecret {
        self.boot_secret
    }

    /// The agent public key.
    pub closed spec fn spec_agent_public_key(&self) -> Option<HephaestusAgentPublicKey> {
        self.agent_public_key
    }

    /// The agent public key fingerprint.
    pub closed spec fn spec_agent_public_key_fingerprint(&self) -> Option<HephaestusAgentPublicKeyFingerprint> {
        self.agent_public_key_fingerprint
    }

    /// Constructs a boot-report submission request.
    pub fn new(report: HephaestusAgentBootReport, boot_secret: HephaestusAgentBootSecret) -> (r: Self)
        ensures
            r.spec_report() == report,
            r.spec_boot_secret() == boot_secret,
            r.spec_agent_public_key() is None,
            r.spec_agent_public_key_fingerprint() is None,
    {
        SubmitAgentBootReportRequest {
            report,
            boot_secret,
            agent_public_key: None,
            agent_public_key_fingerprint: None,
        }
    }

    /// Constructs a boot-report submission with node-agent public identity.
    pub fn new_with_agent_public_identity(
        report: HephaestusAgentBootReport,
        boot_secret: HephaestusAgentBootSecret,
        agent_public_key: HephaestusAgentPublicKey,
        agent_public_key_fingerprint: HephaestusAgentPublicKeyFingerprint,
    ) -> (r: Self)
        ensures
            r.spec_report() == report,
            r.spec_boot_secret() == boot_secret,
            r.spec_agent_public_key() == Some(agent_public_key),
            r.spec_agent_public_key_fingerprint() == Some(agent_public_key_fingerprint),
    {
        SubmitAgentBootReportRequest {
            report,
            boot_secret,
            agent_public_key: Some(agent_public_key),
            agent_public_key_fingerprint: Some(agent_public_key_fingerprint),
        }
    }

    /// Returns the submitted boot report.
    pub fn report(&self) -> (r: &HephaestusAgentBootReport)
        ensures
            *r == self.spec_report(),
    {
        &self.report
    }

    /// Returns the submitted boot secret.
    pub fn boot_secret(&self) -> (r: &HephaestusAgentBootSecret)
        ensures
            *r == self.spec_boot_secret(),
    {
        &self.boot_secret
    }

    /// Returns the submitted node-agent public key, if this is first registration.
    pub fn agent_public_key(&self) -> (r: Option<&HephaestusAgentPublicKey>)
        ensures
            r == match self.spec_agent_public_key() {
                Some(v) => Some(&v),
                None => None::<&HephaestusAgentPublicKey>,
            },
    {
        self.agent_public_key.as_ref()
    }

    /// Returns the submitted public-key fingerprint, if this is first registration.
    pub fn agent_public_key_fingerprint(&self) -> (r: Option<&HephaestusAgentPublicKeyFingerprint>)
        ensures
            r == match self.spec_agent_public_key_fingerprint() {
                Some(v) => Some(&v),
                None => None::<&HephaestusAgentPublicKeyFingerprint>,
            },
    {
        self.agent_public_key_fingerprint.as_ref()
    }

}

/// Agent first-boot registration request. It has no `Debug`, so that the
/// bootstrap token never reaches logs.
#[derive(Clone, PartialEq, Eq)]
pub struct RegisterAgentRequest {
    report: HephaestusAgentBootReport,
    bootstrap_token: HephaestusAgentBootSecret,
    agent_version: String,
    agent_public_key: HephaestusAgentPublicKey,
    agent_public_key_fingerprint: HephaestusAgentPublicKeyFingerprint,
    agent_registration_signature: String,
}

impl RegisterAgentRequest {
    /// The report.
    pub closed spec fn spec_report(&self) -> HephaestusAgentBootReport {
        self.report
    }

    /// The bootstrap token.
    pub closed spec fn spec_bootstrap_token(&self) -> HephaestusAgentBootSecret {
        self.bootstrap_token
    }

    /// The agent version.
    pub closed spec fn spec_agent_version(&self) -> Seq<char> {
        self.agent_version@
    }

    /// The agent public key.
    pub closed spec fn spec_agent_public_key(&self) -> HephaestusAgentPublicKey {
        self.agent_public_key
    }

    /// The agent public key fingerprint.
    pub closed spec fn spec_agent_public_key_fingerprint(&self) -> HephaestusAgentPublicKeyFingerprint {
        self.agent_public_key_fingerprint
    }

    /// The agent registration signature.
    pub closed spec fn spec_agent_registration_signature(&self) -> Seq<char> {
        self.agent_registration_signature@
    }

    /// Constructs an agent first-boot registration request.
    pub fn new(
        report: HephaestusAgentBootReport,
        bootstrap_token: HephaestusAgentBootSecret,
        agent_version: String,
        agent_public_key: HephaestusAgentPublicKey,
        agent_public_key_fingerprint: HephaestusAgentPublicKeyFingerprint,
        agent_registration_signature: String,
    ) -> (r: Self)
        ensures
            r.spec_report() == report,
            r.spec_bootstrap_token() == bootstrap_token,
            r.spec_agent_version() == agent_version@,
            r.spec_agent_public_key() == agent_public_key,
            r.spec_agent_public_key_fingerprint() == agent_public_key_fingerprint,
            r.spec_agent_registration_signature() == agent_registration_signature@,
    {
        RegisterAgentRequest { report, bootstrap_token, agent_version, agent_public_key, agent_public_key_fingerprint, agent_registration_signature }
    }

    /// Returns the submitted first-boot report.
    pub fn report(&self) -> (r: &HephaestusAgentBootReport)
        ensures
            *r == self.spec_report(),
    {
        &self.report
    }

    /// Returns the one-time bootstrap token.
    pub fn bootstrap_token(&self) -> (r: &HephaestusAgentBootSecret)
        ensures
            *r == self.spec_bootstrap_token(),
    {
        &self.bootstrap_token
    }

    /// Returns the registering agent version.
    pub fn agent_version(&self) -> (r: &str)
        ensures
            r@ == self.spec_agent_version(),
    {
        self.agent_version.as_str()
    }

    /// Returns the node-generated public key.
    pub fn agent_public_key(&self) -> (r: &HephaestusAgentPublicKey)
        ensures
            *r == self.spec_agent_public_key(),
    {
        &self.agent_public_key
    }

    /// Returns the submitted public-key fingerprint.
    pub fn agent_public_key_fingerprint(&self) -> (r: &HephaestusAgentPublicKeyFingerprint)
        ensures
            *r == self.spec_agent_public_key_fingerprint(),
    {
        &self.agent_public_key_fingerprint
    }

    /// Returns the registration proof-of-possession signature.
    pub fn agent_registration_signature(&self) -> (r: &str)
        ensures
            r@ == self.spec_agent_registration_signature(),
    {
        self.agent_registration_signature.as_str()
    }

}

/// One `name=value` line of the registration payload.
pub open spec fn payload_field(name: Seq<char>, value: Seq<char>) -> Seq<char> {
    name + seq!['='] + value + seq!['\n']
}

/// The exact text that agents sign during first-boot registration: a
/// version line, then the server id, provider server id, site id, private IP
/// (empty when unknown), agent version, public key and key fingerprint, one
/// `name=value` line each.
pub open spec fn registration_payload(
    server_id: Seq<char>,
    provider_server_id: Seq<char>,
    site_id: Seq<char>,
    private_ip: Seq<char>,
    agent_version: Seq<char>,
    agent_public_key: Seq<char>,
    agent_public_key_fingerprint: Seq<char>,
) -> Seq<char> {
    "reallyme:hephaestus-agent-register:v1\n"@ + payload_field("server_id"@, server_id)
        + payload_field("provider_server_id"@, provider_server_id) + payload_field(
        "site_id"@,
        site_id,
    ) + payload_field("private_ip"@, private_ip) + payload_field("agent_version"@, agent_version)
        + payload_field("agent_public_key"@, agent_public_key) + payload_field(
        "agent_public_key_fingerprint"@,
        agent_public_key_fingerprint,
    )
}

/// Appends one `name=value` line.
fn push_payload_field(payload: &mut String, name: &str, value: &str)
    ensures
        final(payload)@ == old(payload)@ + payload_field(name@, value@),
{
    payload.append(name);
    payload.append("=");
    payload.append(value);
    payload.append("\n");
    proof {
        reveal_strlit("=");
        reveal_strlit("\n");
        assert(final(payload)@ =~= old(payload)@ + payload_field(name@, value@));
    }
}

/// Builds the exact byte payload signed by agents during first-boot
/// registration.
///
/// The payload intentionally excludes the bootstrap token. The signature proves
/// possession of the submitted private key, while the bootstrap token remains a
/// separate one-time authorization secret.
pub fn agent_registration_signature_payload(
    report: &HephaestusAgentBootReport,
    agent_version: &str,
    agent_public_key: &HephaestusAgentPublicKey,
    agent_public_key_fingerprint: &HephaestusAgentPublicKeyFingerprint,
) -> (r: String)
    ensures
        r@ == registration_payload(
            report.spec_identity().spec_server_id()@,
            report.spec_identity().spec_provider_server_id()@,
            report.spec_identity().spec_site_id()@,
            match report.spec_network().spec_private_ip() {
                Some(ip) => ip@,
                None => Seq::empty(),
            },
            agent_version@,
            agent_public_key@,
            agent_public_key_fingerprint@,
        ),
{
    let mut payload = String::new();
    payload.append("reallyme:hephaestus-agent-register:v1\n");
    push_payload_field(&mut payload, "server_id", report.server_id().as_str());
    push_payload_field(&mut payload, "provider_server_id", report.provider_server_id().as_str());
    push_payload_field(&mut payload, "site_id", report.site_id().as_str());
    let private_ip = match report.private_ip() {
        Some(value) => value.as_str(),
        None => "",
    };
    proof {
        reveal_strlit("");
    }
    push_payload_field(&mut payload, "private_ip", private_ip);
    push_payload_field(&mut payload, "agent_version", agent_version);
    push_payload_field(&mut payload, "agent_public_key", agent_public_key.as_str());
    push_payload_field(&mut payload, "agent_public_key_fingerprint", agent_public_key_fingerprint.as_str());
    proof {
        assert(Seq::<char>::empty() + "reallyme:hephaestus-agent-register:v1\n"@ =~= "reallyme:hephaestus-agent-register:v1\n"@);
    }
    payload
}

/// Agent registration response. It has no `Debug`, so that the runtime token
/// never reaches logs.
#[derive(Clone, PartialEq, Eq)]
pub struct RegisterAgentResponse {
    result: HephaestusAgentBootReportResult,
    actual_state: Option<HephaestusNodeActualState>,
    runtime_token: Option<HephaestusAgentRuntimeToken>,
    desired_generation: u64,
    poll_after_seconds: u32,
}

impl RegisterAgentResponse {
    /// The result.
    pub closed spec fn spec_result(&self) -> HephaestusAgentBootReportResult {
        self.result
    }

    /// The actual state.
    pub closed spec fn spec_actual_state(&self) -> Option<HephaestusNodeActualState> {
        self.actual_state
    }

    /// The runtime token.
    pub closed spec fn spec_runtime_token(&self) -> Option<HephaestusAgentRuntimeToken> {
        self.runtime_token
    }

    /// The desired generation.
    pub closed spec fn spec_desired_generation(&self) -> u64 {
        self.desired_generation
    }

    /// The poll after seconds.
    pub closed spec fn spec_poll_after_seconds(&self) -> u32 {
        self.poll_after_seconds
    }

    /// Constructs an agent registration response.
    pub fn new(
        result: HephaestusAgentBootReportResult,
        actual_state: Option<HephaestusNodeActualState>,
        runtime_token: Option<HephaestusAgentRuntimeToken>,
        desired_generation: u64,
        poll_after_seconds: u32,
    ) -> (r: Self)
        ensures
            r.spec_result() == result,
            r.spec_actual_state() == actual_state,
            r.spec_runtime_token() == runtime_token,
            r.spec_desired_generation() == desired_generation,
            r.spec_poll_after_seconds() == poll_after_seconds,
    {
        RegisterAgentResponse { result, actual_state, runtime_token, desired_generation, poll_after_seconds }
    }

    /// Returns the stable registration result.
    pub fn result(&self) -> (r: HephaestusAgentBootReportResult)
        ensures
            r == self.spec_result(),
    {
        self.result
    }

    /// Returns the accepted node state, if registration was accepted.
    pub fn actual_state(&self) -> (r: Option<&HephaestusNodeActualState>)
        ensures
            r == match self.spec_actual_state() {
                Some(v) => Some(&v),
                None => None::<&HephaestusNodeActualState>,
            },
    {
        self.actual_state.as_ref()
    }

    /// Returns the runtime token issued to the node, if registration was accepted.
    pub fn runtime_token(&self) -> (r: Option<&HephaestusAgentRuntimeToken>)
        ensures
            r == match self.spec_runtime_token() {
                Some(v) => Some(&v),
                None => None::<&HephaestusAgentRuntimeToken>,
            },
    {
        self.runtime_token.as_ref()
    }

    /// Returns the desired generation observed at registration time.
    pub fn desired_generation(&self) -> (r: u64)
        ensures
            r == self.spec_desired_generation(),
    {
        self.desired_generation
    }

    /// Returns the server-advised polling cadence.
    pub fn poll_after_seconds(&self) -> (r: u32)
        ensures
            r == self.spec_poll_after_seconds(),
    {
        self.poll_after_seconds
    }

}

/// Boot-report submission response.
#[derive(Debug, Clone, PartialEq, Eq)]
pub struct SubmitAgentBootReportResponse {
    result: HephaestusAgentBootReportResult,
    actual_state: Option<HephaestusNodeActualState>,
}

impl SubmitAgentBootReportResponse {
    /// The result.
    pub closed spec fn spec_result(&self) -> HephaestusAgentBootReportResult {
        self.result
    }

    /// The actual state.
    pub closed spec fn spec_actual_state(&self) -> Option<HephaestusNodeActualState> {
        self.actual_state
    }

    /// Constructs a boot-report submission response.
    pub fn new(
        result: HephaestusAgentBootReportResult,
        actual_state: Option<HephaestusNodeActualState>,
    ) -> (r: Self)
        ensures
            r.spec_result() == result,
            r.spec_actual_state() == actual_state,
    {
        SubmitAgentBootReportResponse { result, actual_state }
    }

    /// Returns the stable boot-report result.
    pub fn result(&self) -> (r: HephaestusAgentBootReportResult)
        ensures
            r == self.spec_result(),
    {
        self.result
    }

    /// Returns the resulting actual node state when accepted.
    pub fn actual_state(&self) -> (r: Option<&HephaestusNodeActualState>)
        ensures
            r == match self.spec_actual_state() {
                Some(v) => Some(&v),
                None => None::<&HephaestusNodeActualState>,
            },
    {
        self.actual_state.as_ref()
    }

}

/// Node-actual-state listing request.
#[derive(Debug, Clone, Copy, Default, PartialEq, Eq)]
pub struct ListNodeActualStatesRequest;

/// Node-actual-state listing response.
#[derive(Debug, Clone, PartialEq, Eq)]
pub struct ListNodeActualStatesResponse {
    nodes: Vec<HephaestusNodeActualState>,
}

impl ListNodeActualStatesResponse {
    /// The nodes.
    pub closed spec fn spec_nodes(&self) -> Seq<HephaestusNodeActualState> {
        self.nodes@
    }

    /// Constructs a node-actual-state listing response.
    pub fn new(
        nodes: Vec<HephaestusNodeActualState>,
    ) -> (r: Self)
        ensures
            r.spec_nodes() == nodes@,
    {
        ListNodeActualStatesResponse { nodes }
    }

    /// Returns the current actual node states.
    pub fn nodes(&self) -> (r: &[HephaestusNodeActualState])
        ensures
            r@ == self.spec_nodes(),
    {
        self.nodes.as_slice()
    }

}

/// Actual-state lookup request.
#[derive(Debug, Clone, PartialEq, Eq)]
pub struct GetNodeActualStateByServerIdRequest {
    server_id: HephaestusServerId,
}

impl GetNodeActualStateByServerIdRequest {
    /// The server id.
    pub closed spec fn spec_server_id(&self) -> HephaestusServerId {
        self.server_id
    }

    /// Constructs an actual-state lookup request.
    pub fn new(
        server_id: HephaestusServerId,
    ) -> (r: Self)
        ensures
            r.spec_server_id() == server_id,
    {
        GetNodeActualStateByServerIdRequest { server_id }
    }

    /// Returns the internal server identifier.
    pub fn server_id(&self) -> (r: &HephaestusServerId)
        ensures
            *r == self.spec_server_id(),
    {
        &self.server_id
    }

}

/// Actual-state lookup response.
#[derive(Debug, Clone, PartialEq, Eq)]
pub struct GetNodeActualStateByServerIdResponse {
    state: Option<HephaestusNodeActualState>,
}

impl GetNodeActualStateByServerIdResponse {
    /// The state.
    pub closed spec fn spec_state(&self) -> Option<HephaestusNodeActualState> {
        self.state
    }

    /// Constructs an actual-state lookup response.
    pub fn new(
        state: Option<HephaestusNodeActualState>,
    ) -> (r: Self)
        ensures
            r.spec_state() == state,
    {
        GetNodeActualStateByServerIdResponse { state }
    }

    /// Returns the actual node state when known.
    pub fn state(&self) -> (r: Option<&HephaestusNodeActualState>)
        ensures
            r == match self.spec_state() {
                Some(v) => Some(&v),
                None => None::<&HephaestusNodeActualState>,
            },
    {
        self.state.as_ref()
    }

}

/// Server-inventory listing request.
#[derive(Debug, Clone, Copy, Default, PartialEq, Eq)]
pub struct ListServerInventoryRequest;

/// Server-inventory listing response.
#[derive(Debug, Clone, PartialEq, Eq)]
pub struct ListServerInventoryResponse {
    rows: Vec<HephaestusServerInventoryRow>,
}

impl ListServerInventoryResponse {
    /// The rows.
    pub closed spec fn spec_rows(&self) -> Seq<HephaestusServerInventoryRow> {
        self.rows@
    }

    /// Constructs a server-inventory listing response.
    pub fn new(
        rows: Vec<HephaestusServerInventoryRow>,
    ) -> (r: Self)
        ensures
            r.spec_rows() == rows@,
    {
        ListServerInventoryResponse { rows }
    }

    /// Returns the derived server inventory rows.
    pub fn rows(&self) -> (r: &[HephaestusServerInventoryRow])
        ensures
            r@ == self.spec_rows(),
    {
        self.rows.as_slice()
    }

}

} // verus!
