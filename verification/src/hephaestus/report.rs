//! Agent-to-controller report types for Hephaestus-managed nodes.
use vstd::prelude::*;

use crate::hephaestus::health::{lemma_domain_token_idempotent, domain_check_token, domain_token, domain_tokens, HephaestusDomainError};
use crate::hephaestus::node::{
    ip_address_decision, HephaestusPrivateIpAddress, HephaestusProviderServerId,
    HephaestusServerApp, HephaestusServerId,
};
use crate::text::{
    first_fault, ip_address_parses, lemma_first_fault_at, lemma_first_fault_none, optional_text,
    parses_as_ip_address, string_views, view_result, CharClass, Duplicate, duplicate_option,
    duplicate_vec, replicate_vec, Replicate,
    lemma_tokens_outcome_prefix_fault, lemma_tokens_outcome_step, tokens_outcome,
    TextFault,
};
use vstd::string::{StrSliceExecFns, StringExecFns};
use crate::vultr::bootstrap::{DockerContainerName, DockerImageReference};

verus! {

/// Byte bound of a log line.
pub const MAX_LOG_LINE_BYTES: usize = 512;
/// Bound on the log lines kept per container.
pub const MAX_LOG_LINES_PER_CONTAINER: usize = 32;
/// Bound on the containers of one report.
pub const MAX_CONTAINERS_PER_REPORT: usize = 128;
/// Bound on the log lines kept per host service.
pub const MAX_LOG_LINES_PER_HOST_SERVICE: usize = 32;
/// Bound on the host services of one report.
pub const MAX_HOST_SERVICES_PER_REPORT: usize = 128;
/// Bound on the apps of one report.
pub const MAX_APPS_PER_REPORT: usize = 128;
/// Byte bound of a host service unit name.
pub const MAX_HOST_SERVICE_UNIT_NAME_BYTES: usize = 128;
/// Bound on the Tailscale IPs of one report.
pub const MAX_TAILSCALE_IPS_PER_REPORT: usize = 8;
/// Bound on the Tailscale tags of one report.
pub const MAX_TAILSCALE_TAGS_PER_REPORT: usize = 32;
/// Bound on the Tailscale Services of one report.
pub const MAX_TAILSCALE_SERVICES_PER_REPORT: usize = 32;
/// Byte bound of a Tailscale hostname, MagicDNS name, tag or Service.
pub const MAX_TAILSCALE_IDENTITY_BYTES: usize = 253;
/// Byte bound of a runtime version string.
pub const MAX_RUNTIME_VERSION_BYTES: usize = 128;
/// Bound on the service probes of one report.
pub const MAX_SERVICE_PROBES_PER_REPORT: usize = 64;
/// Byte bound of a probe or service name.
pub const MAX_PROBE_NAME_BYTES: usize = 64;
/// Byte bound of a probe target.
pub const MAX_PROBE_TARGET_BYTES: usize = 256;
/// The largest CPU usage in basis points: 100%.
pub const MAX_CPU_USAGE_BASIS_POINTS: u16 = 10000;

/// Stable container lifecycle state seen by the local client.
#[derive(Debug, Clone, Copy, PartialEq, Eq, Structural)]
pub enum HephaestusContainerState {
    /// Docker has created the container but it is not yet running.
    Created,
    /// The container is currently running.
    Running,
    /// The container is restarting after failure or operator action.
    Restarting,
    /// Docker is removing the container.
    Removing,
    /// The container is paused.
    Paused,
    /// The container has exited.
    Exited,
    /// The container is in a dead terminal state.
    Dead,
    /// The runtime could not map the observed state.
    Unknown,
}

/// Stable container health state seen by the local client.
#[derive(Debug, Clone, Copy, PartialEq, Eq, Structural)]
pub enum HephaestusContainerHealthState {
    /// Container health checks currently pass.
    Healthy,
    /// Container health checks currently fail.
    Unhealthy,
    /// Container health checks are still warming up.
    Starting,
    /// No container health check is configured.
    NotConfigured,
    /// The runtime could not map the observed health state.
    Unknown,
}

/// Stable reason the local client recommends restarting a container.
#[derive(Debug, Clone, Copy, PartialEq, Eq, Structural)]
pub enum HephaestusContainerRestartReason {
    /// No restart is currently recommended.
    NotRequired,
    /// Container health checks are failing.
    Unhealthy,
    /// Docker reports the container is currently restarting.
    Restarting,
    /// Docker reports the container has exited.
    Exited,
    /// Docker reports the container is dead.
    Dead,
    /// The runtime could not map the observed container state safely.
    Unknown,
}

/// Stable host-installed service lifecycle state seen by the local client.
#[derive(Debug, Clone, Copy, PartialEq, Eq, Structural)]
pub enum HephaestusHostServiceState {
    /// The service is active and running.
    Active,
    /// The service is currently reloading.
    Reloading,
    /// The service is inactive and not running.
    Inactive,
    /// The service has failed.
    Failed,
    /// The service is activating.
    Activating,
    /// The service is deactivating.
    Deactivating,
    /// The runtime could not map the observed state.
    Unknown,
}

/// Stable unattended-upgrades state observed by the agent.
#[derive(Debug, Clone, Copy, PartialEq, Eq, Structural)]
pub enum HephaestusUnattendedUpgradesState {
    /// unattended-upgrades is installed and active.
    Active,
    /// unattended-upgrades is installed but inactive.
    Inactive,
    /// unattended-upgrades has failed.
    Failed,
    /// unattended-upgrades is absent on this host.
    NotInstalled,
    /// The agent could not determine state.
    Unknown,
}

/// Stable service probe kind.
#[derive(Debug, Clone, Copy, PartialEq, Eq, Structural)]
pub enum HephaestusServiceProbeKind {
    /// HTTP GET probe.
    Http,
    /// TCP connect probe.
    Tcp,
}

/// Stable service probe result.
#[derive(Debug, Clone, Copy, PartialEq, Eq, Structural)]
pub enum HephaestusServiceProbeStatus {
    /// Probe succeeded.
    Passed,
    /// Probe failed.
    Failed,
    /// Probe was configured but intentionally skipped.
    Skipped,
}

/// Validated systemd unit or host-service identifier.
#[derive(PartialEq, Eq, PartialOrd, Ord, Debug)]
pub struct HephaestusHostServiceUnitName(String);

impl Clone for HephaestusHostServiceUnitName {
    fn clone(&self) -> (r: Self)
        ensures
            r == *self,
    {
        proof {
            use_type_invariant(self);
        }
        HephaestusHostServiceUnitName(self.0.clone())
    }
}

impl View for HephaestusHostServiceUnitName {
    type V = Seq<char>;

    closed spec fn view(&self) -> Seq<char> {
        self.0@
    }
}

impl Duplicate for HephaestusHostServiceUnitName {
    fn duplicate(&self) -> (r: Self) {
        self.clone()
    }
}

impl HephaestusHostServiceUnitName {
    /// The text is a valid token: trimmed, bounded and of allowed
    /// characters.
    #[verifier::type_invariant]
    pub open spec fn valid(&self) -> bool {
        domain_token(self@, MAX_HOST_SERVICE_UNIT_NAME_BYTES as nat, CharClass::UnitName) == Ok::<Seq<char>, HephaestusDomainError>(self@)
    }

    /// Constructs a validated host service unit name.
    pub fn new(value: &str) -> (r: Result<Self, HephaestusDomainError>)
        ensures
            view_result(r) == domain_token(value@, MAX_HOST_SERVICE_UNIT_NAME_BYTES as nat, CharClass::UnitName),
    {
        proof {
            if domain_token(value@, MAX_HOST_SERVICE_UNIT_NAME_BYTES as nat, CharClass::UnitName) is Ok {
                lemma_domain_token_idempotent(value@, MAX_HOST_SERVICE_UNIT_NAME_BYTES as nat, CharClass::UnitName);
            }
        }
        match domain_check_token(value, MAX_HOST_SERVICE_UNIT_NAME_BYTES, CharClass::UnitName) {
            Ok(text) => Ok(HephaestusHostServiceUnitName(text)),
            Err(e) => Err(e),
        }
    }

    /// Returns the validated host service unit name.
    pub fn as_str(&self) -> (r: &str)
        ensures
            r@ == self@,
    {
        self.0.as_str()
    }
}

/// One bounded log line captured by the local client: printable ASCII, spaces
/// and tabs.
#[derive(PartialEq, Eq, Debug)]
pub struct HephaestusAgentReportLine(String);

impl Clone for HephaestusAgentReportLine {
    fn clone(&self) -> (r: Self)
        ensures
            r == *self,
    {
        proof {
            use_type_invariant(self);
        }
        HephaestusAgentReportLine(self.0.clone())
    }
}

impl View for HephaestusAgentReportLine {
    type V = Seq<char>;

    closed spec fn view(&self) -> Seq<char> {
        self.0@
    }
}

impl Duplicate for HephaestusAgentReportLine {
    fn duplicate(&self) -> (r: Self) {
        self.clone()
    }
}

impl HephaestusAgentReportLine {
    /// The text is a valid token: trimmed, bounded and of allowed
    /// characters.
    #[verifier::type_invariant]
    pub open spec fn valid(&self) -> bool {
        domain_token(self@, MAX_LOG_LINE_BYTES as nat, CharClass::LogLine) == Ok::<Seq<char>, HephaestusDomainError>(self@)
    }

    /// Constructs a validated log line.
    pub fn new(value: &str) -> (r: Result<Self, HephaestusDomainError>)
        ensures
            view_result(r) == domain_token(value@, MAX_LOG_LINE_BYTES as nat, CharClass::LogLine),
    {
        proof {
            if domain_token(value@, MAX_LOG_LINE_BYTES as nat, CharClass::LogLine) is Ok {
                lemma_domain_token_idempotent(value@, MAX_LOG_LINE_BYTES as nat, CharClass::LogLine);
            }
        }
        match domain_check_token(value, MAX_LOG_LINE_BYTES, CharClass::LogLine) {
            Ok(text) => Ok(HephaestusAgentReportLine(text)),
            Err(e) => Err(e),
        }
    }

    /// Returns the bounded log line.
    pub fn as_str(&self) -> (r: &str)
        ensures
            r@ == self@,
    {
        self.0.as_str()
    }
}

impl HephaestusAgentReportLine {
    /// The texts of `items`, in order.
    pub fn to_texts(items: &[Self]) -> (r: Vec<String>)
        ensures
            string_views(r@) == log_line_texts(items@),
            forall|j: int| 0 <= j < items@.len() ==> #[trigger] items@[j].valid(),
    {
        let mut out: Vec<String> = Vec::new();
        let mut i: usize = 0;
        while i < items.len()
            invariant
                i <= items@.len(),
                string_views(out@) =~= log_line_texts(items@.take(i as int)),
                forall|j: int| 0 <= j < i ==> #[trigger] items@[j].valid(),
            decreases items@.len() - i,
        {
            let ghost before = out@;
            let item = &items[i];
            proof {
                use_type_invariant(item);
            }
            out.push(item.as_str().to_string());
            proof {
                assert(items@.take(i as int + 1) =~= items@.take(i as int).push(items@[i as int]));
                assert(string_views(out@) =~= string_views(before).push(items@[i as int]@));
            }
            i += 1;
        }
        proof {
            assert(items@.take(i as int) =~= items@);
        }
        out
    }
}


/// The texts of a sequence of log lines.
pub open spec fn log_line_texts(s: Seq<HephaestusAgentReportLine>) -> Seq<Seq<char>> {
    s.map_values(|x: HephaestusAgentReportLine| x@)
}

impl HephaestusAgentReportLine {
    /// Validates each text as one log line, in order; the first refused text
    /// decides the error.
    pub fn from_texts(items: &Vec<String>) -> (r: Result<Vec<Self>, HephaestusDomainError>)
        ensures
            match domain_tokens(string_views(items@), MAX_LOG_LINE_BYTES as nat, CharClass::LogLine) {
                Ok(ts) => r is Ok && log_line_texts(r->Ok_0@) == ts,
                Err(e) => r == Err::<Vec<Self>, HephaestusDomainError>(e),
            },
    {
        let ghost sv = string_views(items@);
        let mut out: Vec<Self> = Vec::new();
        let mut i: usize = 0;
        proof {
            assert(sv.take(0) =~= Seq::<Seq<char>>::empty());
            assert(log_line_texts(out@) =~= Seq::<Seq<char>>::empty());
        }
        while i < items.len()
            invariant
                i <= items.len(),
                sv == string_views(items@),
                tokens_outcome(sv.take(i as int), MAX_LOG_LINE_BYTES as nat, CharClass::LogLine) == Ok::<
                    Seq<Seq<char>>,
                    TextFault,
                >(log_line_texts(out@)),
            decreases items.len() - i,
        {
            proof {
                lemma_tokens_outcome_step(sv, i as int, MAX_LOG_LINE_BYTES as nat, CharClass::LogLine);
                assert(sv[i as int] == items@[i as int]@);
            }
            match Self::new(items[i].as_str()) {
                Ok(x) => {
                    let ghost before = out@;
                    out.push(x);
                    proof {
                        assert(log_line_texts(out@) =~= log_line_texts(before).push(x@));
                    }
                },
                Err(e) => {
                    proof {
                        lemma_tokens_outcome_prefix_fault(sv, i as int + 1, MAX_LOG_LINE_BYTES as nat, CharClass::LogLine);
                    }
                    return Err(e);
                },
            }
            i += 1;
        }
        proof {
            assert(sv.take(i as int) =~= sv);
        }
        Ok(out)
    }
}


/// The fault of a Tailscale hostname, MagicDNS name, tag or Service name.
pub open spec fn tailnet_identity_fault(s: Seq<char>) -> Option<HephaestusDomainError> {
    match domain_token(s, MAX_TAILSCALE_IDENTITY_BYTES as nat, CharClass::Identifier) {
        Ok(_) => None,
        Err(e) => Some(e),
    }
}

/// [`tailnet_identity_fault`] as a function value, for scans over lists.
pub open spec fn tailnet_identity_fault_fn() -> spec_fn(Seq<char>) -> Option<HephaestusDomainError> {
    |s: Seq<char>| tailnet_identity_fault(s)
}

/// The fault of an IP literal: it is taken as it stands, untrimmed, and must
/// parse as an IPv4 or IPv6 address.
pub open spec fn ip_literal_fault(s: Seq<char>) -> Option<HephaestusDomainError> {
    if parses_as_ip_address(s) {
        None
    } else {
        Some(HephaestusDomainError::InvalidCharacter)
    }
}

/// [`ip_literal_fault`] as a function value, for scans over lists.
pub open spec fn ip_literal_fault_fn() -> spec_fn(Seq<char>) -> Option<HephaestusDomainError> {
    |s: Seq<char>| ip_literal_fault(s)
}

/// The fault of an optional Tailscale identity.
pub open spec fn optional_identity_fault(v: Option<Seq<char>>) -> Option<HephaestusDomainError> {
    match v {
        Some(s) => tailnet_identity_fault(s),
        None => None,
    }
}

/// The fault of a runtime version string.
pub open spec fn runtime_version_fault(s: Seq<char>) -> Option<HephaestusDomainError> {
    match domain_token(s, MAX_RUNTIME_VERSION_BYTES as nat, CharClass::PrintableText) {
        Ok(_) => None,
        Err(e) => Some(e),
    }
}

/// The fault of an optional runtime version string.
pub open spec fn optional_version_fault(v: Option<Seq<char>>) -> Option<HephaestusDomainError> {
    match v {
        Some(s) => runtime_version_fault(s),
        None => None,
    }
}

/// The fault of a probe or service name.
pub open spec fn probe_identity_fault(s: Seq<char>) -> Option<HephaestusDomainError> {
    match domain_token(s, MAX_PROBE_NAME_BYTES as nat, CharClass::ProbeName) {
        Ok(_) => None,
        Err(e) => Some(e),
    }
}

/// The fault of a probe target.
pub open spec fn probe_target_fault(s: Seq<char>) -> Option<HephaestusDomainError> {
    match domain_token(s, MAX_PROBE_TARGET_BYTES as nat, CharClass::PrintableText) {
        Ok(_) => None,
        Err(e) => Some(e),
    }
}

/// The `Result` that reports an optional fault.
pub open spec fn fault_result(f: Option<HephaestusDomainError>) -> Result<(), HephaestusDomainError> {
    match f {
        Some(e) => Err(e),
        None => Ok(()),
    }
}

/// Checks a token and keeps only whether it passed.
fn check_only(value: &str, max: usize, k: CharClass) -> (r: Result<(), HephaestusDomainError>)
    requires
        max <= usize::MAX - 4,
    ensures
        r == match domain_token(value@, max as nat, k) {
            Ok(_) => Ok::<(), HephaestusDomainError>(()),
            Err(e) => Err(e),
        },
{
    match domain_check_token(value, max, k) {
        Ok(_) => Ok(()),
        Err(e) => Err(e),
    }
}

/// Validates a Tailscale identity.
fn validate_tailnet_identity(value: &str) -> (r: Result<(), HephaestusDomainError>)
    ensures
        r == fault_result(tailnet_identity_fault(value@)),
{
    check_only(value, MAX_TAILSCALE_IDENTITY_BYTES, CharClass::Identifier)
}

/// Validates an IP literal.
fn validate_ip_literal(value: &str) -> (r: Result<(), HephaestusDomainError>)
    ensures
        r == fault_result(ip_literal_fault(value@)),
{
    ip_address_decision(false, ip_address_parses(value))
}

/// Validates a runtime version string.
fn validate_runtime_version(value: &str) -> (r: Result<(), HephaestusDomainError>)
    ensures
        r == fault_result(runtime_version_fault(value@)),
{
    check_only(value, MAX_RUNTIME_VERSION_BYTES, CharClass::PrintableText)
}

/// Validates a probe or service name.
fn validate_probe_identity(value: &str) -> (r: Result<(), HephaestusDomainError>)
    ensures
        r == fault_result(probe_identity_fault(value@)),
{
    check_only(value, MAX_PROBE_NAME_BYTES, CharClass::ProbeName)
}

/// Validates a probe target.
fn validate_probe_target(value: &str) -> (r: Result<(), HephaestusDomainError>)
    ensures
        r == fault_result(probe_target_fault(value@)),
{
    check_only(value, MAX_PROBE_TARGET_BYTES, CharClass::PrintableText)
}

/// Validates each Tailscale identity of a list, stopping at the first fault.
fn validate_each_identity(values: &Vec<String>) -> (r: Result<(), HephaestusDomainError>)
    ensures
        r == fault_result(first_fault(string_views(values@), tailnet_identity_fault_fn())),
{
    let ghost items = string_views(values@);
    let mut i: usize = 0;
    while i < values.len()
        invariant
            i <= values@.len(),
            items == string_views(values@),
            items.len() == values@.len(),
            forall|j: int| 0 <= j < i ==> tailnet_identity_fault_fn()(#[trigger] items[j]) is None,
        decreases values@.len() - i,
    {
        assert(items[i as int] == values@[i as int]@);
        match validate_tailnet_identity(values[i].as_str()) {
            Ok(()) => {
                i = i + 1;
            },
            Err(e) => {
                proof {
                    lemma_first_fault_at(items, tailnet_identity_fault_fn(), i as int);
                }
                return Err(e);
            },
        }
    }
    proof {
        lemma_first_fault_none(items, tailnet_identity_fault_fn());
    }
    Ok(())
}

/// Validates each IP literal of a list, stopping at the first fault.
fn validate_each_ip(values: &Vec<String>) -> (r: Result<(), HephaestusDomainError>)
    ensures
        r == fault_result(first_fault(string_views(values@), ip_literal_fault_fn())),
{
    let ghost items = string_views(values@);
    let mut i: usize = 0;
    while i < values.len()
        invariant
            i <= values@.len(),
            items == string_views(values@),
            items.len() == values@.len(),
            forall|j: int| 0 <= j < i ==> ip_literal_fault_fn()(#[trigger] items[j]) is None,
        decreases values@.len() - i,
    {
        assert(items[i as int] == values@[i as int]@);
        match validate_ip_literal(values[i].as_str()) {
            Ok(()) => {
                i = i + 1;
            },
            Err(e) => {
                proof {
                    lemma_first_fault_at(items, ip_literal_fault_fn(), i as int);
                }
                return Err(e);
            },
        }
    }
    proof {
        lemma_first_fault_none(items, ip_literal_fault_fn());
    }
    Ok(())
}

/// Host resource snapshot reported by the local client.
#[derive(Debug, Clone, Copy, PartialEq, Eq)]
pub struct HephaestusHostResourceReport {
    cpu_usage_basis_points: u16,
    memory_total_bytes: u64,
    memory_used_bytes: u64,
    disk_total_bytes: u64,
    disk_used_bytes: u64,
}

/// Whether a resource snapshot is in range: usage at most 100% and used
/// memory and disk within their totals.
pub open spec fn host_resources_valid(cpu: u16, memory_total: u64, memory_used: u64, disk_total: u64, disk_used: u64) -> bool {
    cpu <= MAX_CPU_USAGE_BASIS_POINTS && memory_used <= memory_total && disk_used <= disk_total
}

impl HephaestusHostResourceReport {
    /// The usage figures are in range.
    #[verifier::type_invariant]
    pub open spec fn valid(&self) -> bool {
        host_resources_valid(
            self.spec_cpu_usage_basis_points(),
            self.spec_memory_total_bytes(),
            self.spec_memory_used_bytes(),
            self.spec_disk_total_bytes(),
            self.spec_disk_used_bytes(),
        )
    }

    /// The cpu usage basis points.
    pub closed spec fn spec_cpu_usage_basis_points(&self) -> u16 {
        self.cpu_usage_basis_points
    }

    /// The memory total bytes.
    pub closed spec fn spec_memory_total_bytes(&self) -> u64 {
        self.memory_total_bytes
    }

    /// The memory used bytes.
    pub closed spec fn spec_memory_used_bytes(&self) -> u64 {
        self.memory_used_bytes
    }

    /// The disk total bytes.
    pub closed spec fn spec_disk_total_bytes(&self) -> u64 {
        self.disk_total_bytes
    }

    /// The disk used bytes.
    pub closed spec fn spec_disk_used_bytes(&self) -> u64 {
        self.disk_used_bytes
    }

    /// Constructs a validated host resource snapshot.
    pub fn new(
        cpu_usage_basis_points: u16,
        memory_total_bytes: u64,
        memory_used_bytes: u64,
        disk_total_bytes: u64,
        disk_used_bytes: u64,
    ) -> (r: Result<Self, HephaestusDomainError>)
        ensures
            host_resources_valid(
                cpu_usage_basis_points,
                memory_total_bytes,
                memory_used_bytes,
                disk_total_bytes,
                disk_used_bytes,
            ) <==> r is Ok,
            !host_resources_valid(
                cpu_usage_basis_points,
                memory_total_bytes,
                memory_used_bytes,
                disk_total_bytes,
                disk_used_bytes,
            ) ==> r == Err::<Self, HephaestusDomainError>(HephaestusDomainError::InvalidNumber),
            r is Ok ==> {
                &&& r->Ok_0.spec_cpu_usage_basis_points() == cpu_usage_basis_points
                &&& r->Ok_0.spec_memory_total_bytes() == memory_total_bytes
                &&& r->Ok_0.spec_memory_used_bytes() == memory_used_bytes
                &&& r->Ok_0.spec_disk_total_bytes() == disk_total_bytes
                &&& r->Ok_0.spec_disk_used_bytes() == disk_used_bytes
            },
    {
        if cpu_usage_basis_points > MAX_CPU_USAGE_BASIS_POINTS || memory_used_bytes
            > memory_total_bytes || disk_used_bytes > disk_total_bytes {
            return Err(HephaestusDomainError::InvalidNumber);
        }
        Ok(HephaestusHostResourceReport {
            cpu_usage_basis_points,
            memory_total_bytes,
            memory_used_bytes,
            disk_total_bytes,
            disk_used_bytes,
        })
    }

    /// Returns CPU usage in basis points, where `10_000` is 100%.
    pub fn cpu_usage_basis_points(&self) -> (r: u16)
        ensures
            r == self.spec_cpu_usage_basis_points(),
    {
        self.cpu_usage_basis_points
    }

    /// Returns total host memory in bytes.
    pub fn memory_total_bytes(&self) -> (r: u64)
        ensures
            r == self.spec_memory_total_bytes(),
    {
        self.memory_total_bytes
    }

    /// Returns currently used host memory in bytes.
    pub fn memory_used_bytes(&self) -> (r: u64)
        ensures
            r == self.spec_memory_used_bytes(),
    {
        self.memory_used_bytes
    }

    /// Returns total disk capacity in bytes for the observed root filesystem.
    pub fn disk_total_bytes(&self) -> (r: u64)
        ensures
            r == self.spec_disk_total_bytes(),
    {
        self.disk_total_bytes
    }

    /// Returns used disk capacity in bytes for the observed root filesystem.
    pub fn disk_used_bytes(&self) -> (r: u64)
        ensures
            r == self.spec_disk_used_bytes(),
    {
        self.disk_used_bytes
    }

}

/// The first fault of a Tailscale identity report: too many IPs, tags or
/// Services; then the hostname, the MagicDNS name, each IP, each tag and
/// each Service, in that order.
pub open spec fn tailscale_report_fault(
    hostname: Option<Seq<char>>,
    magic_dns_name: Option<Seq<char>>,
    ips: Seq<Seq<char>>,
    tags: Seq<Seq<char>>,
    services: Seq<Seq<char>>,
) -> Option<HephaestusDomainError> {
    if ips.len() > MAX_TAILSCALE_IPS_PER_REPORT || tags.len() > MAX_TAILSCALE_TAGS_PER_REPORT
        || services.len() > MAX_TAILSCALE_SERVICES_PER_REPORT {
        Some(HephaestusDomainError::TooLong)
    } else if optional_identity_fault(hostname) is Some {
        optional_identity_fault(hostname)
    } else if optional_identity_fault(magic_dns_name) is Some {
        optional_identity_fault(magic_dns_name)
    } else if first_fault(ips, ip_literal_fault_fn()) is Some {
        first_fault(ips, ip_literal_fault_fn())
    } else if first_fault(tags, tailnet_identity_fault_fn()) is Some {
        first_fault(tags, tailnet_identity_fault_fn())
    } else {
        first_fault(services, tailnet_identity_fault_fn())
    }
}

/// Node-local Tailscale identity observed by the agent. Values are kept as
/// they were observed.
#[derive(Debug, PartialEq, Eq)]
pub struct HephaestusTailscaleReport {
    hostname: Option<String>,
    magic_dns_name: Option<String>,
    ips: Vec<String>,
    tags: Vec<String>,
    services: Vec<String>,
}

impl Clone for HephaestusTailscaleReport {
    fn clone(&self) -> (r: Self)
        ensures
            r.spec_hostname() == self.spec_hostname(),
            r.spec_magic_dns_name() == self.spec_magic_dns_name(),
            r.spec_ips() == self.spec_ips(),
            r.spec_tags() == self.spec_tags(),
            r.spec_services() == self.spec_services(),
    {
        proof {
            use_type_invariant(self);
        }
        HephaestusTailscaleReport {
            hostname: duplicate_option(&self.hostname),
            magic_dns_name: duplicate_option(&self.magic_dns_name),
            ips: duplicate_vec(&self.ips),
            tags: duplicate_vec(&self.tags),
            services: duplicate_vec(&self.services),
        }
    }
}

impl HephaestusTailscaleReport {
    /// Every identity and address passed validation.
    #[verifier::type_invariant]
    pub open spec fn valid(&self) -> bool {
        tailscale_report_fault(
            self.spec_hostname(),
            self.spec_magic_dns_name(),
            self.spec_ips(),
            self.spec_tags(),
            self.spec_services(),
        ) is None
    }

    /// The hostname.
    pub closed spec fn spec_hostname(&self) -> Option<Seq<char>> {
        optional_text(self.hostname)
    }

    /// The magic dns name.
    pub closed spec fn spec_magic_dns_name(&self) -> Option<Seq<char>> {
        optional_text(self.magic_dns_name)
    }

    /// The ips.
    pub closed spec fn spec_ips(&self) -> Seq<Seq<char>> {
        string_views(self.ips@)
    }

    /// The tags.
    pub closed spec fn spec_tags(&self) -> Seq<Seq<char>> {
        string_views(self.tags@)
    }

    /// The services.
    pub closed spec fn spec_services(&self) -> Seq<Seq<char>> {
        string_views(self.services@)
    }

    /// Constructs a bounded Tailscale identity report.
    pub fn new(
        hostname: Option<String>,
        magic_dns_name: Option<String>,
        ips: Vec<String>,
        tags: Vec<String>,
        services: Vec<String>,
    ) -> (r: Result<Self, HephaestusDomainError>)
        ensures
            match tailscale_report_fault(
                optional_text(hostname),
                optional_text(magic_dns_name),
                string_views(ips@),
                string_views(tags@),
                string_views(services@),
            ) {
                Some(e) => r == Err::<Self, HephaestusDomainError>(e),
                None => {
                    &&& r is Ok
                    &&& r->Ok_0.spec_hostname() == optional_text(hostname)
                    &&& r->Ok_0.spec_magic_dns_name() == optional_text(magic_dns_name)
                    &&& r->Ok_0.spec_ips() == string_views(ips@)
                    &&& r->Ok_0.spec_tags() == string_views(tags@)
                    &&& r->Ok_0.spec_services() == string_views(services@)
                },
            },
    {
        if ips.len() > MAX_TAILSCALE_IPS_PER_REPORT || tags.len() > MAX_TAILSCALE_TAGS_PER_REPORT
            || services.len() > MAX_TAILSCALE_SERVICES_PER_REPORT {
            return Err(HephaestusDomainError::TooLong);
        }
        if let Some(value) = &hostname {
            validate_tailnet_identity(value.as_str())?;
        }
        if let Some(value) = &magic_dns_name {
            validate_tailnet_identity(value.as_str())?;
        }
        validate_each_ip(&ips)?;
        validate_each_identity(&tags)?;
        validate_each_identity(&services)?;
        Ok(HephaestusTailscaleReport { hostname, magic_dns_name, ips, tags, services })
    }

    /// Returns an empty Tailscale report for hosts that have not joined yet.
    pub fn empty() -> (r: Self)
        ensures
            r.spec_hostname() is None,
            r.spec_magic_dns_name() is None,
            r.spec_ips().len() == 0,
            r.spec_tags().len() == 0,
            r.spec_services().len() == 0,
    {
        HephaestusTailscaleReport {
            hostname: None,
            magic_dns_name: None,
            ips: Vec::new(),
            tags: Vec::new(),
            services: Vec::new(),
        }
    }

    /// Returns the observed Tailscale hostname.
    pub fn hostname(&self) -> (r: Option<&str>)
        ensures
            match r {
                Some(s) => self.spec_hostname() == Some(s@),
                None => self.spec_hostname() is None,
            },
    {
        match &self.hostname {
            Some(s) => Some(s.as_str()),
            None => None,
        }
    }

    /// Returns the observed MagicDNS name.
    pub fn magic_dns_name(&self) -> (r: Option<&str>)
        ensures
            match r {
                Some(s) => self.spec_magic_dns_name() == Some(s@),
                None => self.spec_magic_dns_name() is None,
            },
    {
        match &self.magic_dns_name {
            Some(s) => Some(s.as_str()),
            None => None,
        }
    }

    /// Returns observed Tailscale IPs.
    pub fn ips(&self) -> (r: &[String])
        ensures
            string_views(r@) == self.spec_ips(),
    {
        self.ips.as_slice()
    }

    /// Returns observed Tailscale tags.
    pub fn tags(&self) -> (r: &[String])
        ensures
            string_views(r@) == self.spec_tags(),
    {
        self.tags.as_slice()
    }

    /// Returns observed advertised Tailscale Services.
    pub fn services(&self) -> (r: &[String])
        ensures
            string_views(r@) == self.spec_services(),
    {
        self.services.as_slice()
    }

}

/// Docker and Compose versions observed by the agent, kept as observed.
#[derive(Debug, PartialEq, Eq)]
pub struct HephaestusRuntimeVersionReport {
    docker_version: Option<String>,
    docker_compose_version: Option<String>,
}

impl Clone for HephaestusRuntimeVersionReport {
    fn clone(&self) -> (r: Self)
        ensures
            r == *self,
    {
        proof {
            use_type_invariant(self);
        }
        HephaestusRuntimeVersionReport {
            docker_version: duplicate_option(&self.docker_version),
            docker_compose_version: duplicate_option(&self.docker_compose_version),
        }
    }
}

/// The first fault of a runtime version report.
pub open spec fn runtime_versions_fault(docker_version: Option<Seq<char>>, docker_compose_version: Option<Seq<char>>) -> Option<HephaestusDomainError> {
    if optional_version_fault(docker_version) is Some {
        optional_version_fault(docker_version)
    } else {
        optional_version_fault(docker_compose_version)
    }
}

impl HephaestusRuntimeVersionReport {
    /// Both versions passed validation.
    #[verifier::type_invariant]
    pub open spec fn valid(&self) -> bool {
        runtime_versions_fault(self.spec_docker_version(), self.spec_docker_compose_version()) is None
    }

    /// The docker version.
    pub closed spec fn spec_docker_version(&self) -> Option<Seq<char>> {
        optional_text(self.docker_version)
    }

    /// The docker compose version.
    pub closed spec fn spec_docker_compose_version(&self) -> Option<Seq<char>> {
        optional_text(self.docker_compose_version)
    }

    /// Constructs a bounded runtime version report.
    pub fn new(docker_version: Option<String>, docker_compose_version: Option<String>) -> (r: Result<
        Self,
        HephaestusDomainError,
    >)
        ensures
            match runtime_versions_fault(
                optional_text(docker_version),
                optional_text(docker_compose_version),
            ) {
                Some(e) => r == Err::<Self, HephaestusDomainError>(e),
                None => {
                    &&& r is Ok
                    &&& r->Ok_0.spec_docker_version() == optional_text(docker_version)
                    &&& r->Ok_0.spec_docker_compose_version() == optional_text(
                        docker_compose_version,
                    )
                },
            },
    {
        if let Some(value) = &docker_version {
            validate_runtime_version(value.as_str())?;
        }
        if let Some(value) = &docker_compose_version {
            validate_runtime_version(value.as_str())?;
        }
        Ok(HephaestusRuntimeVersionReport { docker_version, docker_compose_version })
    }

    /// Returns an empty version report.
    pub fn empty() -> (r: Self)
        ensures
            r.spec_docker_version() is None,
            r.spec_docker_compose_version() is None,
    {
        HephaestusRuntimeVersionReport { docker_version: None, docker_compose_version: None }
    }

    /// Returns the Docker Engine version.
    pub fn docker_version(&self) -> (r: Option<&str>)
        ensures
            match r {
                Some(s) => self.spec_docker_version() == Some(s@),
                None => self.spec_docker_version() is None,
            },
    {
        match &self.docker_version {
            Some(s) => Some(s.as_str()),
            None => None,
        }
    }

    /// Returns the Docker Compose plugin version.
    pub fn docker_compose_version(&self) -> (r: Option<&str>)
        ensures
            match r {
                Some(s) => self.spec_docker_compose_version() == Some(s@),
                None => self.spec_docker_compose_version() is None,
            },
    {
        match &self.docker_compose_version {
            Some(s) => Some(s.as_str()),
            None => None,
        }
    }

}

/// Host patch/reboot posture observed by the agent.
#[derive(Debug, Clone, Copy, PartialEq, Eq)]
pub struct HephaestusPatchStateReport {
    reboot_required: bool,
    unattended_upgrades_state: HephaestusUnattendedUpgradesState,
}

impl HephaestusPatchStateReport {
    /// The reboot required.
    pub closed spec fn spec_reboot_required(&self) -> bool {
        self.reboot_required
    }

    /// The unattended upgrades state.
    pub closed spec fn spec_unattended_upgrades_state(&self) -> HephaestusUnattendedUpgradesState {
        self.unattended_upgrades_state
    }

    /// Constructs a patch-state report.
    pub fn new(reboot_required: bool, unattended_upgrades_state: HephaestusUnattendedUpgradesState) -> (r: Self)
        ensures
            r.spec_reboot_required() == reboot_required,
            r.spec_unattended_upgrades_state() == unattended_upgrades_state,
    {
        HephaestusPatchStateReport { reboot_required, unattended_upgrades_state }
    }

    /// Returns an unknown patch-state report.
    pub fn unknown() -> (r: Self)
        ensures
            !r.spec_reboot_required(),
            r.spec_unattended_upgrades_state() == HephaestusUnattendedUpgradesState::Unknown,
    {
        HephaestusPatchStateReport {
            reboot_required: false,
            unattended_upgrades_state: HephaestusUnattendedUpgradesState::Unknown,
        }
    }

    /// Returns whether a reboot is required.
    pub fn reboot_required(&self) -> (r: bool)
        ensures
            r == self.spec_reboot_required(),
    {
        self.reboot_required
    }

    /// Returns unattended-upgrades health.
    pub fn unattended_upgrades_state(&self) -> (r: HephaestusUnattendedUpgradesState)
        ensures
            r == self.spec_unattended_upgrades_state(),
    {
        self.unattended_upgrades_state
    }

}

/// Bounded cAdvisor metrics summary.
#[derive(Debug, Clone, Copy, PartialEq, Eq)]
pub struct HephaestusCadvisorSummary {
    reachable: bool,
    container_metric_lines: u32,
    has_cpu_metrics: bool,
    has_memory_metrics: bool,
}

impl HephaestusCadvisorSummary {
    /// The reachable.
    pub closed spec fn spec_reachable(&self) -> bool {
        self.reachable
    }

    /// The container metric lines.
    pub closed spec fn spec_container_metric_lines(&self) -> u32 {
        self.container_metric_lines
    }

    /// The has cpu metrics.
    pub closed spec fn spec_has_cpu_metrics(&self) -> bool {
        self.has_cpu_metrics
    }

    /// The has memory metrics.
    pub closed spec fn spec_has_memory_metrics(&self) -> bool {
        self.has_memory_metrics
    }

    /// Constructs a cAdvisor summary.
    pub fn new(reachable: bool, container_metric_lines: u32, has_cpu_metrics: bool, has_memory_metrics: bool) -> (r: Self)
        ensures
            r.spec_reachable() == reachable,
            r.spec_container_metric_lines() == container_metric_lines,
            r.spec_has_cpu_metrics() == has_cpu_metrics,
            r.spec_has_memory_metrics() == has_memory_metrics,
    {
        HephaestusCadvisorSummary { reachable, container_metric_lines, has_cpu_metrics, has_memory_metrics }
    }

    /// Returns an unreachable cAdvisor summary.
    pub fn unreachable() -> (r: Self)
        ensures
            !r.spec_reachable(),
            r.spec_container_metric_lines() == 0,
            !r.spec_has_cpu_metrics(),
            !r.spec_has_memory_metrics(),
    {
        Self::new(false, 0, false, false)
    }

    /// Returns whether cAdvisor was reachable.
    pub fn reachable(self) -> (r: bool)
        ensures
            r == self.spec_reachable(),
    {
        self.reachable
    }

    /// Returns observed container metric lines.
    pub fn container_metric_lines(self) -> (r: u32)
        ensures
            r == self.spec_container_metric_lines(),
    {
        self.container_metric_lines
    }

    /// Returns whether cAdvisor CPU metrics were observed.
    pub fn has_cpu_metrics(self) -> (r: bool)
        ensures
            r == self.spec_has_cpu_metrics(),
    {
        self.has_cpu_metrics
    }

    /// Returns whether cAdvisor memory metrics were observed.
    pub fn has_memory_metrics(self) -> (r: bool)
        ensures
            r == self.spec_has_memory_metrics(),
    {
        self.has_memory_metrics
    }

}

/// Bounded node-exporter metrics summary.
#[derive(Debug, Clone, Copy, PartialEq, Eq)]
pub struct HephaestusNodeExporterSummary {
    reachable: bool,
    metric_lines: u32,
    has_cpu_metrics: bool,
    has_memory_metrics: bool,
    has_filesystem_metrics: bool,
}

impl HephaestusNodeExporterSummary {
    /// The reachable.
    pub closed spec fn spec_reachable(&self) -> bool {
        self.reachable
    }

    /// The metric lines.
    pub closed spec fn spec_metric_lines(&self) -> u32 {
        self.metric_lines
    }

    /// The has cpu metrics.
    pub closed spec fn spec_has_cpu_metrics(&self) -> bool {
        self.has_cpu_metrics
    }

    /// The has memory metrics.
    pub closed spec fn spec_has_memory_metrics(&self) -> bool {
        self.has_memory_metrics
    }

    /// The has filesystem metrics.
    pub closed spec fn spec_has_filesystem_metrics(&self) -> bool {
        self.has_filesystem_metrics
    }

    /// Constructs a node-exporter summary.
    pub fn new(reachable: bool, metric_lines: u32, has_cpu_metrics: bool, has_memory_metrics: bool, has_filesystem_metrics: bool) -> (r: Self)
        ensures
            r.spec_reachable() == reachable,
            r.spec_metric_lines() == metric_lines,
            r.spec_has_cpu_metrics() == has_cpu_metrics,
            r.spec_has_memory_metrics() == has_memory_metrics,
            r.spec_has_filesystem_metrics() == has_filesystem_metrics,
    {
        HephaestusNodeExporterSummary { reachable, metric_lines, has_cpu_metrics, has_memory_metrics, has_filesystem_metrics }
    }

    /// Returns an unreachable node-exporter summary.
    pub fn unreachable() -> (r: Self)
        ensures
            !r.spec_reachable(),
            r.spec_metric_lines() == 0,
            !r.spec_has_cpu_metrics(),
            !r.spec_has_memory_metrics(),
            !r.spec_has_filesystem_metrics(),
    {
        Self::new(false, 0, false, false, false)
    }

    /// Returns whether node-exporter was reachable.
    pub fn reachable(self) -> (r: bool)
        ensures
            r == self.spec_reachable(),
    {
        self.reachable
    }

    /// Returns observed metric lines.
    pub fn metric_lines(self) -> (r: u32)
        ensures
            r == self.spec_metric_lines(),
    {
        self.metric_lines
    }

    /// Returns whether CPU metrics were observed.
    pub fn has_cpu_metrics(self) -> (r: bool)
        ensures
            r == self.spec_has_cpu_metrics(),
    {
        self.has_cpu_metrics
    }

    /// Returns whether memory metrics were observed.
    pub fn has_memory_metrics(self) -> (r: bool)
        ensures
            r == self.spec_has_memory_metrics(),
    {
        self.has_memory_metrics
    }

    /// Returns whether filesystem metrics were observed.
    pub fn has_filesystem_metrics(self) -> (r: bool)
        ensures
            r == self.spec_has_filesystem_metrics(),
    {
        self.has_filesystem_metrics
    }

}

/// Local observability endpoint summaries.
#[derive(Debug, Clone, Copy, PartialEq, Eq)]
pub struct HephaestusObservabilityReport {
    cadvisor: HephaestusCadvisorSummary,
    node_exporter: HephaestusNodeExporterSummary,
}

impl HephaestusObservabilityReport {
    /// The cadvisor.
    pub closed spec fn spec_cadvisor(&self) -> HephaestusCadvisorSummary {
        self.cadvisor
    }

    /// The node exporter.
    pub closed spec fn spec_node_exporter(&self) -> HephaestusNodeExporterSummary {
        self.node_exporter
    }

    /// Constructs an observability report.
    pub fn new(cadvisor: HephaestusCadvisorSummary, node_exporter: HephaestusNodeExporterSummary) -> (r: Self)
        ensures
            r.spec_cadvisor() == cadvisor,
            r.spec_node_exporter() == node_exporter,
    {
        HephaestusObservabilityReport { cadvisor, node_exporter }
    }

    /// Returns an empty observability report.
    pub fn empty() -> (r: Self)
        ensures
            !r.spec_cadvisor().spec_reachable(),
            r.spec_cadvisor().spec_container_metric_lines() == 0,
            !r.spec_cadvisor().spec_has_cpu_metrics(),
            !r.spec_cadvisor().spec_has_memory_metrics(),
            !r.spec_node_exporter().spec_reachable(),
            r.spec_node_exporter().spec_metric_lines() == 0,
            !r.spec_node_exporter().spec_has_cpu_metrics(),
            !r.spec_node_exporter().spec_has_memory_metrics(),
            !r.spec_node_exporter().spec_has_filesystem_metrics(),
    {
        Self::new(HephaestusCadvisorSummary::unreachable(), HephaestusNodeExporterSummary::unreachable())
    }

    /// Returns the cAdvisor summary.
    pub fn cadvisor(self) -> (r: HephaestusCadvisorSummary)
        ensures
            r == self.spec_cadvisor(),
    {
        self.cadvisor
    }

    /// Returns the node-exporter summary.
    pub fn node_exporter(self) -> (r: HephaestusNodeExporterSummary)
        ensures
            r == self.spec_node_exporter(),
    {
        self.node_exporter
    }

}

/// One container snapshot with bounded recent log lines.
#[derive(Debug, PartialEq, Eq)]
pub struct HephaestusContainerReport {
    name: DockerContainerName,
    image: DockerImageReference,
    state: HephaestusContainerState,
    health: HephaestusContainerHealthState,
    recent_logs: Vec<HephaestusAgentReportLine>,
    restart_required: bool,
    restart_reason: HephaestusContainerRestartReason,
}

impl Replicate for HephaestusContainerReport {
    open spec fn agrees_with(&self, other: &Self) -> bool {
        self.spec_name() == other.spec_name()
            && self.spec_image() == other.spec_image()
            && self.spec_state() == other.spec_state()
            && self.spec_health() == other.spec_health()
            && self.spec_recent_logs() == other.spec_recent_logs()
            && self.spec_restart_required() == other.spec_restart_required()
            && self.spec_restart_reason() == other.spec_restart_reason()
    }

    fn replicate(&self) -> (r: Self) {
        self.clone()
    }
}

impl Clone for HephaestusContainerReport {
    fn clone(&self) -> (r: Self)
        ensures
            r.agrees_with(self),
    {
        proof {
            use_type_invariant(self);
        }
        HephaestusContainerReport {
            name: self.name.clone(),
            image: self.image.clone(),
            state: self.state,
            health: self.health,
            recent_logs: duplicate_vec(&self.recent_logs),
            restart_required: self.restart_required,
            restart_reason: self.restart_reason,
        }
    }
}

/// The fault of a container snapshot: too many log lines, or a restart
/// reason given while no restart is recommended.
pub open spec fn container_report_fault(log_count: nat, restart_required: bool, restart_reason: HephaestusContainerRestartReason) -> Option<HephaestusDomainError> {
    if log_count > MAX_LOG_LINES_PER_CONTAINER {
        Some(HephaestusDomainError::TooLong)
    } else if !restart_required && restart_reason != HephaestusContainerRestartReason::NotRequired {
        Some(HephaestusDomainError::InvalidNumber)
    } else {
        None
    }
}

impl HephaestusContainerReport {
    /// The log lines are bounded and a restart reason comes with a restart.
    #[verifier::type_invariant]
    pub open spec fn valid(&self) -> bool {
        container_report_fault(self.spec_recent_logs().len(), self.spec_restart_required(), self.spec_restart_reason()) is None
    }

    /// The name.
    pub closed spec fn spec_name(&self) -> DockerContainerName {
        self.name
    }

    /// The image.
    pub closed spec fn spec_image(&self) -> DockerImageReference {
        self.image
    }

    /// The state.
    pub closed spec fn spec_state(&self) -> HephaestusContainerState {
        self.state
    }

    /// The health.
    pub closed spec fn spec_health(&self) -> HephaestusContainerHealthState {
        self.health
    }

    /// The recent logs.
    pub closed spec fn spec_recent_logs(&self) -> Seq<HephaestusAgentReportLine> {
        self.recent_logs@
    }

    /// The restart required.
    pub closed spec fn spec_restart_required(&self) -> bool {
        self.restart_required
    }

    /// The restart reason.
    pub closed spec fn spec_restart_reason(&self) -> HephaestusContainerRestartReason {
        self.restart_reason
    }

    /// Constructs a container report.
    pub fn new(
        name: DockerContainerName,
        image: DockerImageReference,
        state: HephaestusContainerState,
        health: HephaestusContainerHealthState,
        recent_logs: Vec<HephaestusAgentReportLine>,
        restart_required: bool,
        restart_reason: HephaestusContainerRestartReason,
    ) -> (r: Result<Self, HephaestusDomainError>)
        ensures
            match container_report_fault(recent_logs@.len(), restart_required, restart_reason) {
                Some(e) => r == Err::<Self, HephaestusDomainError>(e),
                None => {
                    &&& r is Ok
                    &&& r->Ok_0.spec_name() == name
                    &&& r->Ok_0.spec_image() == image
                    &&& r->Ok_0.spec_state() == state
                    &&& r->Ok_0.spec_health() == health
                    &&& r->Ok_0.spec_recent_logs() == recent_logs@
                    &&& r->Ok_0.spec_restart_required() == restart_required
                    &&& r->Ok_0.spec_restart_reason() == restart_reason
                },
            },
    {
        if recent_logs.len() > MAX_LOG_LINES_PER_CONTAINER {
            return Err(HephaestusDomainError::TooLong);
        }
        let no_reason = match restart_reason {
            HephaestusContainerRestartReason::NotRequired => true,
            _ => false,
        };
        if !restart_required && !no_reason {
            return Err(HephaestusDomainError::InvalidNumber);
        }
        Ok(HephaestusContainerReport {
            name,
            image,
            state,
            health,
            recent_logs,
            restart_required,
            restart_reason,
        })
    }

    /// Returns the container name.
    pub fn name(&self) -> (r: &DockerContainerName)
        ensures
            *r == self.spec_name(),
    {
        &self.name
    }

    /// Returns the container image reference.
    pub fn image(&self) -> (r: &DockerImageReference)
        ensures
            *r == self.spec_image(),
    {
        &self.image
    }

    /// Returns the mapped container lifecycle state.
    pub fn state(&self) -> (r: HephaestusContainerState)
        ensures
            r == self.spec_state(),
    {
        self.state
    }

    /// Returns the mapped container health state.
    pub fn health(&self) -> (r: HephaestusContainerHealthState)
        ensures
            r == self.spec_health(),
    {
        self.health
    }

    /// Returns recent bounded log lines captured for the container.
    pub fn recent_logs(&self) -> (r: &[HephaestusAgentReportLine])
        ensures
            r@ == self.spec_recent_logs(),
    {
        self.recent_logs.as_slice()
    }

    /// Returns whether the agent recommends restarting the container.
    pub fn restart_required(&self) -> (r: bool)
        ensures
            r == self.spec_restart_required(),
    {
        self.restart_required
    }

    /// Returns the stable restart recommendation reason.
    pub fn restart_reason(&self) -> (r: HephaestusContainerRestartReason)
        ensures
            r == self.spec_restart_reason(),
    {
        self.restart_reason
    }

}

/// One host-installed service snapshot with bounded recent log lines.
#[derive(Debug, PartialEq, Eq)]
pub struct HephaestusHostServiceReport {
    unit_name: HephaestusHostServiceUnitName,
    state: HephaestusHostServiceState,
    recent_logs: Vec<HephaestusAgentReportLine>,
}

impl Replicate for HephaestusHostServiceReport {
    open spec fn agrees_with(&self, other: &Self) -> bool {
        self.spec_unit_name() == other.spec_unit_name()
            && self.spec_state() == other.spec_state()
            && self.spec_recent_logs() == other.spec_recent_logs()
    }

    fn replicate(&self) -> (r: Self) {
        self.clone()
    }
}

impl Clone for HephaestusHostServiceReport {
    fn clone(&self) -> (r: Self)
        ensures
            r.agrees_with(self),
    {
        proof {
            use_type_invariant(self);
        }
        HephaestusHostServiceReport {
            unit_name: self.unit_name.clone(),
            state: self.state,
            recent_logs: duplicate_vec(&self.recent_logs),
        }
    }
}

impl HephaestusHostServiceReport {
    /// The log lines are bounded.
    #[verifier::type_invariant]
    pub open spec fn valid(&self) -> bool {
        self.spec_recent_logs().len() <= MAX_LOG_LINES_PER_HOST_SERVICE
    }

    /// The unit name.
    pub closed spec fn spec_unit_name(&self) -> HephaestusHostServiceUnitName {
        self.unit_name
    }

    /// The state.
    pub closed spec fn spec_state(&self) -> HephaestusHostServiceState {
        self.state
    }

    /// The recent logs.
    pub closed spec fn spec_recent_logs(&self) -> Seq<HephaestusAgentReportLine> {
        self.recent_logs@
    }

    /// Constructs a host service report.
    pub fn new(
        unit_name: HephaestusHostServiceUnitName,
        state: HephaestusHostServiceState,
        recent_logs: Vec<HephaestusAgentReportLine>,
    ) -> (r: Result<Self, HephaestusDomainError>)
        ensures
            recent_logs@.len() > MAX_LOG_LINES_PER_HOST_SERVICE ==> r == Err::<
                Self,
                HephaestusDomainError,
            >(HephaestusDomainError::TooLong),
            recent_logs@.len() <= MAX_LOG_LINES_PER_HOST_SERVICE ==> {
                &&& r is Ok
                &&& r->Ok_0.spec_unit_name() == unit_name
                &&& r->Ok_0.spec_state() == state
                &&& r->Ok_0.spec_recent_logs() == recent_logs@
            },
    {
        if recent_logs.len() > MAX_LOG_LINES_PER_HOST_SERVICE {
            return Err(HephaestusDomainError::TooLong);
        }
        Ok(HephaestusHostServiceReport { unit_name, state, recent_logs })
    }

    /// Returns the host service unit name.
    pub fn unit_name(&self) -> (r: &HephaestusHostServiceUnitName)
        ensures
            *r == self.spec_unit_name(),
    {
        &self.unit_name
    }

    /// Returns the mapped host service lifecycle state.
    pub fn state(&self) -> (r: HephaestusHostServiceState)
        ensures
            r == self.spec_state(),
    {
        self.state
    }

    /// Returns recent bounded log lines captured for the host service.
    pub fn recent_logs(&self) -> (r: &[HephaestusAgentReportLine])
        ensures
            r@ == self.spec_recent_logs(),
    {
        self.recent_logs.as_slice()
    }

}

/// One bounded local service probe result. Names and target are kept as
/// given.
#[derive(Debug, PartialEq, Eq)]
pub struct HephaestusServiceProbeReport {
    probe_name: String,
    service_name: String,
    kind: HephaestusServiceProbeKind,
    target: String,
    status: HephaestusServiceProbeStatus,
    http_status_code: Option<u16>,
}

impl Duplicate for HephaestusServiceProbeReport {
    fn duplicate(&self) -> (r: Self) {
        self.clone()
    }
}

impl Clone for HephaestusServiceProbeReport {
    fn clone(&self) -> (r: Self)
        ensures
            r == *self,
    {
        proof {
            use_type_invariant(self);
        }
        HephaestusServiceProbeReport {
            probe_name: self.probe_name.clone(),
            service_name: self.service_name.clone(),
            kind: self.kind,
            target: self.target.clone(),
            status: self.status,
            http_status_code: self.http_status_code,
        }
    }
}

/// The first fault of a probe result: the probe name, the service name, the
/// target, then an HTTP status code on a TCP probe.
pub open spec fn service_probe_fault(
    probe_name: Seq<char>,
    service_name: Seq<char>,
    kind: HephaestusServiceProbeKind,
    target: Seq<char>,
    http_status_code: Option<u16>,
) -> Option<HephaestusDomainError> {
    if probe_identity_fault(probe_name) is Some {
        probe_identity_fault(probe_name)
    } else if probe_identity_fault(service_name) is Some {
        probe_identity_fault(service_name)
    } else if probe_target_fault(target) is Some {
        probe_target_fault(target)
    } else if kind == HephaestusServiceProbeKind::Tcp && http_status_code is Some {
        Some(HephaestusDomainError::InvalidNumber)
    } else {
        None
    }
}

impl HephaestusServiceProbeReport {
    /// The names and target passed validation, and a TCP probe has no HTTP status code.
    #[verifier::type_invariant]
    pub open spec fn valid(&self) -> bool {
        service_probe_fault(
            self.spec_probe_name(),
            self.spec_service_name(),
            self.spec_kind(),
            self.spec_target(),
            self.spec_http_status_code(),
        ) is None
    }

    /// The probe name.
    pub closed spec fn spec_probe_name(&self) -> Seq<char> {
        self.probe_name@
    }

    /// The service name.
    pub closed spec fn spec_service_name(&self) -> Seq<char> {
        self.service_name@
    }

    /// The kind.
    pub closed spec fn spec_kind(&self) -> HephaestusServiceProbeKind {
        self.kind
    }

    /// The target.
    pub closed spec fn spec_target(&self) -> Seq<char> {
        self.target@
    }

    /// The status.
    pub closed spec fn spec_status(&self) -> HephaestusServiceProbeStatus {
        self.status
    }

    /// The http status code.
    pub closed spec fn spec_http_status_code(&self) -> Option<u16> {
        self.http_status_code
    }

    /// Constructs a service probe report.
    pub fn new(
        probe_name: String,
        service_name: String,
        kind: HephaestusServiceProbeKind,
        target: String,
        status: HephaestusServiceProbeStatus,
        http_status_code: Option<u16>,
    ) -> (r: Result<Self, HephaestusDomainError>)
        ensures
            match service_probe_fault(probe_name@, service_name@, kind, target@, http_status_code) {
                Some(e) => r == Err::<Self, HephaestusDomainError>(e),
                None => {
                    &&& r is Ok
                    &&& r->Ok_0.spec_probe_name() == probe_name@
                    &&& r->Ok_0.spec_service_name() == service_name@
                    &&& r->Ok_0.spec_kind() == kind
                    &&& r->Ok_0.spec_target() == target@
                    &&& r->Ok_0.spec_status() == status
                    &&& r->Ok_0.spec_http_status_code() == http_status_code
                },
            },
    {
        validate_probe_identity(probe_name.as_str())?;
        validate_probe_identity(service_name.as_str())?;
        validate_probe_target(target.as_str())?;
        let tcp = match kind {
            HephaestusServiceProbeKind::Tcp => true,
            HephaestusServiceProbeKind::Http => false,
        };
        if tcp && http_status_code.is_some() {
            return Err(HephaestusDomainError::InvalidNumber);
        }
        Ok(HephaestusServiceProbeReport {
            probe_name,
            service_name,
            kind,
            target,
            status,
            http_status_code,
        })
    }

    /// Returns the stable probe name.
    pub fn probe_name(&self) -> (r: &str)
        ensures
            r@ == self.spec_probe_name(),
    {
        self.probe_name.as_str()
    }

    /// Returns the service name.
    pub fn service_name(&self) -> (r: &str)
        ensures
            r@ == self.spec_service_name(),
    {
        self.service_name.as_str()
    }

    /// Returns the probe kind.
    pub fn kind(&self) -> (r: HephaestusServiceProbeKind)
        ensures
            r == self.spec_kind(),
    {
        self.kind
    }

    /// Returns the non-secret probe target.
    pub fn target(&self) -> (r: &str)
        ensures
            r@ == self.spec_target(),
    {
        self.target.as_str()
    }

    /// Returns the probe status.
    pub fn status(&self) -> (r: HephaestusServiceProbeStatus)
        ensures
            r == self.spec_status(),
    {
        self.status
    }

    /// Returns the HTTP status code for HTTP probes.
    pub fn http_status_code(&self) -> (r: Option<u16>)
        ensures
            r == self.spec_http_status_code(),
    {
        self.http_status_code
    }

}

/// Complete bounded observation of node-local workloads and services.
#[derive(Debug, PartialEq, Eq)]
pub struct HephaestusObservedServiceSet {
    containers: Vec<HephaestusContainerReport>,
    host_services: Vec<HephaestusHostServiceReport>,
    actual_apps: Vec<HephaestusServerApp>,
}

impl Clone for HephaestusObservedServiceSet {
    fn clone(&self) -> (r: Self)
        ensures
            r.spec_containers().len() == self.spec_containers().len(),
            forall|i: int| 0 <= i < self.spec_containers().len() ==> #[trigger] r.spec_containers()[i].agrees_with(&self.spec_containers()[i]),
            r.spec_host_services().len() == self.spec_host_services().len(),
            forall|i: int| 0 <= i < self.spec_host_services().len() ==> #[trigger] r.spec_host_services()[i].agrees_with(&self.spec_host_services()[i]),
            r.spec_actual_apps() == self.spec_actual_apps(),
    {
        proof {
            use_type_invariant(self);
        }
        HephaestusObservedServiceSet {
            containers: replicate_vec(&self.containers),
            host_services: replicate_vec(&self.host_services),
            actual_apps: duplicate_vec(&self.actual_apps),
        }
    }
}

/// Whether an observation set is within its bounds.
pub open spec fn observed_services_in_bounds(containers: nat, host_services: nat, actual_apps: nat) -> bool {
    containers <= MAX_CONTAINERS_PER_REPORT && host_services <= MAX_HOST_SERVICES_PER_REPORT
        && actual_apps <= MAX_APPS_PER_REPORT
}

impl HephaestusObservedServiceSet {
    /// The observation is within its bounds.
    #[verifier::type_invariant]
    pub open spec fn valid(&self) -> bool {
        observed_services_in_bounds(
            self.spec_containers().len(),
            self.spec_host_services().len(),
            self.spec_actual_apps().len(),
        )
    }

    /// The containers.
    pub closed spec fn spec_containers(&self) -> Seq<HephaestusContainerReport> {
        self.containers@
    }

    /// The host services.
    pub closed spec fn spec_host_services(&self) -> Seq<HephaestusHostServiceReport> {
        self.host_services@
    }

    /// The actual apps.
    pub closed spec fn spec_actual_apps(&self) -> Seq<HephaestusServerApp> {
        self.actual_apps@
    }

    /// Constructs a validated service observation set.
    pub fn new(
        containers: Vec<HephaestusContainerReport>,
        host_services: Vec<HephaestusHostServiceReport>,
        actual_apps: Vec<HephaestusServerApp>,
    ) -> (r: Result<Self, HephaestusDomainError>)
        ensures
            !observed_services_in_bounds(containers@.len(), host_services@.len(), actual_apps@.len())
                ==> r == Err::<Self, HephaestusDomainError>(HephaestusDomainError::TooLong),
            observed_services_in_bounds(containers@.len(), host_services@.len(), actual_apps@.len())
                ==> {
                &&& r is Ok
                &&& r->Ok_0.spec_containers() == containers@
                &&& r->Ok_0.spec_host_services() == host_services@
                &&& r->Ok_0.spec_actual_apps() == actual_apps@
            },
    {
        if containers.len() > MAX_CONTAINERS_PER_REPORT {
            return Err(HephaestusDomainError::TooLong);
        }
        if host_services.len() > MAX_HOST_SERVICES_PER_REPORT {
            return Err(HephaestusDomainError::TooLong);
        }
        if actual_apps.len() > MAX_APPS_PER_REPORT {
            return Err(HephaestusDomainError::TooLong);
        }
        Ok(HephaestusObservedServiceSet { containers, host_services, actual_apps })
    }

    /// Returns container snapshots captured by the client.
    pub fn containers(&self) -> (r: &[HephaestusContainerReport])
        ensures
            r@ == self.spec_containers(),
    {
        self.containers.as_slice()
    }

    /// Returns host-installed service snapshots captured by the client.
    pub fn host_services(&self) -> (r: &[HephaestusHostServiceReport])
        ensures
            r@ == self.spec_host_services(),
    {
        self.host_services.as_slice()
    }

    /// Returns actual ReallyMe apps discovered by the local client.
    pub fn actual_apps(&self) -> (r: &[HephaestusServerApp])
        ensures
            r@ == self.spec_actual_apps(),
    {
        self.actual_apps.as_slice()
    }

}

/// Complete agent report accepted by Hephaestus.
#[derive(Debug, PartialEq, Eq)]
pub struct HephaestusAgentReport {
    server_id: HephaestusServerId,
    provider_server_id: HephaestusProviderServerId,
    private_ip: Option<HephaestusPrivateIpAddress>,
    generated_at_unix_secs: u64,
    resources: HephaestusHostResourceReport,
    observed_services: HephaestusObservedServiceSet,
    tailscale: HephaestusTailscaleReport,
    runtime_versions: HephaestusRuntimeVersionReport,
    patch_state: HephaestusPatchStateReport,
    observability: HephaestusObservabilityReport,
    service_probes: Vec<HephaestusServiceProbeReport>,
}

impl Replicate for HephaestusAgentReport {
    open spec fn agrees_with(&self, other: &Self) -> bool {
        &&& self.spec_server_id() == other.spec_server_id()
        &&& self.spec_provider_server_id() == other.spec_provider_server_id()
        &&& self.spec_private_ip() == other.spec_private_ip()
        &&& self.spec_generated_at_unix_secs() == other.spec_generated_at_unix_secs()
        &&& self.spec_resources() == other.spec_resources()
        &&& self.spec_patch_state() == other.spec_patch_state()
        &&& self.spec_observability() == other.spec_observability()
        &&& self.spec_service_probes() == other.spec_service_probes()
        &&& self.spec_observed_services().spec_containers().len() == other.spec_observed_services().spec_containers().len()
        &&& forall|i: int| 0 <= i < other.spec_observed_services().spec_containers().len()
            ==> #[trigger] self.spec_observed_services().spec_containers()[i].agrees_with(
                &other.spec_observed_services().spec_containers()[i],
            )
        &&& self.spec_observed_services().spec_host_services().len() == other.spec_observed_services().spec_host_services().len()
        &&& forall|i: int| 0 <= i < other.spec_observed_services().spec_host_services().len()
            ==> #[trigger] self.spec_observed_services().spec_host_services()[i].agrees_with(
                &other.spec_observed_services().spec_host_services()[i],
            )
        &&& self.spec_observed_services().spec_actual_apps() == other.spec_observed_services().spec_actual_apps()
        &&& self.spec_tailscale().spec_hostname() == other.spec_tailscale().spec_hostname()
        &&& self.spec_tailscale().spec_magic_dns_name() == other.spec_tailscale().spec_magic_dns_name()
        &&& self.spec_tailscale().spec_ips() == other.spec_tailscale().spec_ips()
        &&& self.spec_tailscale().spec_tags() == other.spec_tailscale().spec_tags()
        &&& self.spec_tailscale().spec_services() == other.spec_tailscale().spec_services()
        &&& self.spec_runtime_versions().spec_docker_version() == other.spec_runtime_versions().spec_docker_version()
        &&& self.spec_runtime_versions().spec_docker_compose_version() == other.spec_runtime_versions().spec_docker_compose_version()
    }

    fn replicate(&self) -> (r: Self) {
        self.clone()
    }
}

impl Clone for HephaestusAgentReport {
    fn clone(&self) -> (r: Self)
        ensures
            r.agrees_with(self),
    {
        proof {
            use_type_invariant(self);
        }
        HephaestusAgentReport {
            server_id: self.server_id.clone(),
            provider_server_id: self.provider_server_id.clone(),
            private_ip: duplicate_option(&self.private_ip),
            generated_at_unix_secs: self.generated_at_unix_secs,
            resources: self.resources,
            observed_services: self.observed_services.clone(),
            tailscale: self.tailscale.clone(),
            runtime_versions: self.runtime_versions.clone(),
            patch_state: self.patch_state,
            observability: self.observability,
            service_probes: duplicate_vec(&self.service_probes),
        }
    }
}

impl HephaestusAgentReport {
    /// The report time is non-zero and the probes are bounded.
    #[verifier::type_invariant]
    pub open spec fn valid(&self) -> bool {
        self.spec_generated_at_unix_secs() != 0 && self.spec_service_probes().len() <= MAX_SERVICE_PROBES_PER_REPORT
    }

    /// The server id.
    pub closed spec fn spec_server_id(&self) -> HephaestusServerId {
        self.server_id
    }

    /// The provider server id.
    pub closed spec fn spec_provider_server_id(&self) -> HephaestusProviderServerId {
        self.provider_server_id
    }

    /// The private ip.
    pub closed spec fn spec_private_ip(&self) -> Option<HephaestusPrivateIpAddress> {
        self.private_ip
    }

    /// The generated at unix secs.
    pub closed spec fn spec_generated_at_unix_secs(&self) -> u64 {
        self.generated_at_unix_secs
    }

    /// The resources.
    pub closed spec fn spec_resources(&self) -> HephaestusHostResourceReport {
        self.resources
    }

    /// The observed services.
    pub closed spec fn spec_observed_services(&self) -> HephaestusObservedServiceSet {
        self.observed_services
    }

    /// The tailscale.
    pub closed spec fn spec_tailscale(&self) -> HephaestusTailscaleReport {
        self.tailscale
    }

    /// The runtime versions.
    pub closed spec fn spec_runtime_versions(&self) -> HephaestusRuntimeVersionReport {
        self.runtime_versions
    }

    /// The patch state.
    pub closed spec fn spec_patch_state(&self) -> HephaestusPatchStateReport {
        self.patch_state
    }

    /// The observability.
    pub closed spec fn spec_observability(&self) -> HephaestusObservabilityReport {
        self.observability
    }

    /// The service probes.
    pub closed spec fn spec_service_probes(&self) -> Seq<HephaestusServiceProbeReport> {
        self.service_probes@
    }

    /// Constructs a validated agent report, with empty host-health details.
    /// A zero timestamp is refused.
    pub fn new(
        server_id: HephaestusServerId,
        provider_server_id: HephaestusProviderServerId,
        private_ip: Option<HephaestusPrivateIpAddress>,
        generated_at_unix_secs: u64,
        resources: HephaestusHostResourceReport,
        observed_services: HephaestusObservedServiceSet,
    ) -> (r: Result<Self, HephaestusDomainError>)
        ensures
            generated_at_unix_secs == 0 ==> r == Err::<Self, HephaestusDomainError>(
                HephaestusDomainError::InvalidNumber,
            ),
            generated_at_unix_secs != 0 ==> {
                &&& r is Ok
                &&& r->Ok_0.spec_server_id() == server_id
                &&& r->Ok_0.spec_provider_server_id() == provider_server_id
                &&& r->Ok_0.spec_private_ip() == private_ip
                &&& r->Ok_0.spec_generated_at_unix_secs() == generated_at_unix_secs
                &&& r->Ok_0.spec_resources() == resources
                &&& r->Ok_0.spec_observed_services() == observed_services
                &&& r->Ok_0.spec_tailscale().spec_hostname() is None
                &&& r->Ok_0.spec_tailscale().spec_magic_dns_name() is None
                &&& r->Ok_0.spec_tailscale().spec_ips().len() == 0
                &&& r->Ok_0.spec_tailscale().spec_tags().len() == 0
                &&& r->Ok_0.spec_tailscale().spec_services().len() == 0
                &&& r->Ok_0.spec_runtime_versions().spec_docker_version() is None
                &&& r->Ok_0.spec_runtime_versions().spec_docker_compose_version() is None
                &&& !r->Ok_0.spec_patch_state().spec_reboot_required()
                &&& r->Ok_0.spec_patch_state().spec_unattended_upgrades_state()
                    == HephaestusUnattendedUpgradesState::Unknown
                &&& !r->Ok_0.spec_observability().spec_cadvisor().spec_reachable()
                &&& r->Ok_0.spec_observability().spec_cadvisor().spec_container_metric_lines() == 0
                &&& !r->Ok_0.spec_observability().spec_cadvisor().spec_has_cpu_metrics()
                &&& !r->Ok_0.spec_observability().spec_cadvisor().spec_has_memory_metrics()
                &&& !r->Ok_0.spec_observability().spec_node_exporter().spec_reachable()
                &&& r->Ok_0.spec_observability().spec_node_exporter().spec_metric_lines() == 0
                &&& !r->Ok_0.spec_observability().spec_node_exporter().spec_has_cpu_metrics()
                &&& !r->Ok_0.spec_observability().spec_node_exporter().spec_has_memory_metrics()
                &&& !r->Ok_0.spec_observability().spec_node_exporter().spec_has_filesystem_metrics()
                &&& r->Ok_0.spec_service_probes().len() == 0
            },
    {
        if generated_at_unix_secs == 0 {
            return Err(HephaestusDomainError::InvalidNumber);
        }
        Ok(HephaestusAgentReport {
            server_id,
            provider_server_id,
            private_ip,
            generated_at_unix_secs,
            resources,
            observed_services,
            tailscale: HephaestusTailscaleReport::empty(),
            runtime_versions: HephaestusRuntimeVersionReport::empty(),
            patch_state: HephaestusPatchStateReport::unknown(),
            observability: HephaestusObservabilityReport::empty(),
            service_probes: Vec::new(),
        })
    }

    /// Adds expanded host-health details collected by the agent; more than
    /// [`MAX_SERVICE_PROBES_PER_REPORT`] probes are refused.
    pub fn with_host_health_details(
        self,
        tailscale: HephaestusTailscaleReport,
        runtime_versions: HephaestusRuntimeVersionReport,
        patch_state: HephaestusPatchStateReport,
        observability: HephaestusObservabilityReport,
        service_probes: Vec<HephaestusServiceProbeReport>,
    ) -> (r: Result<Self, HephaestusDomainError>)
        ensures
            service_probes@.len() > MAX_SERVICE_PROBES_PER_REPORT ==> r == Err::<
                Self,
                HephaestusDomainError,
            >(HephaestusDomainError::TooLong),
            service_probes@.len() <= MAX_SERVICE_PROBES_PER_REPORT ==> {
                &&& r is Ok
                &&& r->Ok_0.spec_server_id() == self.spec_server_id()
                &&& r->Ok_0.spec_provider_server_id() == self.spec_provider_server_id()
                &&& r->Ok_0.spec_private_ip() == self.spec_private_ip()
                &&& r->Ok_0.spec_generated_at_unix_secs() == self.spec_generated_at_unix_secs()
                &&& r->Ok_0.spec_resources() == self.spec_resources()
                &&& r->Ok_0.spec_observed_services() == self.spec_observed_services()
                &&& r->Ok_0.spec_tailscale() == tailscale
                &&& r->Ok_0.spec_runtime_versions() == runtime_versions
                &&& r->Ok_0.spec_patch_state() == patch_state
                &&& r->Ok_0.spec_observability() == observability
                &&& r->Ok_0.spec_service_probes() == service_probes@
            },
    {
        if service_probes.len() > MAX_SERVICE_PROBES_PER_REPORT {
            return Err(HephaestusDomainError::TooLong);
        }
        proof {
            use_type_invariant(&self);
        }
        let mut s = self;
        s.tailscale = tailscale;
        s.runtime_versions = runtime_versions;
        s.patch_state = patch_state;
        s.observability = observability;
        s.service_probes = service_probes;
        Ok(s)
    }

    /// Returns the internal server identifier.
    pub fn server_id(&self) -> (r: &HephaestusServerId)
        ensures
            *r == self.spec_server_id(),
    {
        &self.server_id
    }

    /// Returns the provider-backed server identifier.
    pub fn provider_server_id(&self) -> (r: &HephaestusProviderServerId)
        ensures
            *r == self.spec_provider_server_id(),
    {
        &self.provider_server_id
    }

    /// Returns the node private IP address when known.
    pub fn private_ip(&self) -> (r: Option<&HephaestusPrivateIpAddress>)
        ensures
            r == match self.spec_private_ip() {
                Some(v) => Some(&v),
                None => None::<&HephaestusPrivateIpAddress>,
            },
    {
        self.private_ip.as_ref()
    }

    /// Returns the UNIX timestamp when the report was generated.
    pub fn generated_at_unix_secs(&self) -> (r: u64)
        ensures
            r == self.spec_generated_at_unix_secs(),
    {
        self.generated_at_unix_secs
    }

    /// Returns the host resource snapshot.
    pub fn resources(&self) -> (r: &HephaestusHostResourceReport)
        ensures
            *r == self.spec_resources(),
    {
        &self.resources
    }

    /// Returns the Tailscale identity snapshot.
    pub fn tailscale(&self) -> (r: &HephaestusTailscaleReport)
        ensures
            *r == self.spec_tailscale(),
    {
        &self.tailscale
    }

    /// Returns Docker and Compose runtime versions.
    pub fn runtime_versions(&self) -> (r: &HephaestusRuntimeVersionReport)
        ensures
            *r == self.spec_runtime_versions(),
    {
        &self.runtime_versions
    }

    /// Returns patch/reboot posture.
    pub fn patch_state(&self) -> (r: &HephaestusPatchStateReport)
        ensures
            *r == self.spec_patch_state(),
    {
        &self.patch_state
    }

    /// Returns service-specific probe reports.
    pub fn service_probes(&self) -> (r: &[HephaestusServiceProbeReport])
        ensures
            r@ == self.spec_service_probes(),
    {
        self.service_probes.as_slice()
    }

    /// Returns local observability endpoint summaries.
    pub fn observability(&self) -> (r: HephaestusObservabilityReport)
        ensures
            r == self.spec_observability(),
    {
        self.observability
    }

    /// Returns container snapshots captured by the client.
    pub fn containers(&self) -> (r: &[HephaestusContainerReport])
        ensures
            r@ == self.spec_observed_services().spec_containers(),
            r@.len() <= MAX_CONTAINERS_PER_REPORT,
    {
        proof {
            use_type_invariant(&self.observed_services);
        }
        self.observed_services.containers()
    }

    /// Returns host-installed service snapshots captured by the client.
    pub fn host_services(&self) -> (r: &[HephaestusHostServiceReport])
        ensures
            r@ == self.spec_observed_services().spec_host_services(),
            r@.len() <= MAX_HOST_SERVICES_PER_REPORT,
    {
        proof {
            use_type_invariant(&self.observed_services);
        }
        self.observed_services.host_services()
    }

    /// Returns actual ReallyMe apps discovered by the local client.
    pub fn actual_apps(&self) -> (r: &[HephaestusServerApp])
        ensures
            r@ == self.spec_observed_services().spec_actual_apps(),
            r@.len() <= MAX_APPS_PER_REPORT,
    {
        proof {
            use_type_invariant(&self.observed_services);
        }
        self.observed_services.actual_apps()
    }
}

/// The snake-case name of a container state, as the serialized form writes it.
pub open spec fn container_state_name(v: HephaestusContainerState) -> Seq<char> {
    match v {
        HephaestusContainerState::Created => "created"@,
        HephaestusContainerState::Running => "running"@,
        HephaestusContainerState::Restarting => "restarting"@,
        HephaestusContainerState::Removing => "removing"@,
        HephaestusContainerState::Paused => "paused"@,
        HephaestusContainerState::Exited => "exited"@,
        HephaestusContainerState::Dead => "dead"@,
        HephaestusContainerState::Unknown => "unknown"@,
    }
}

/// The snake-case name of a container health, as the serialized form writes it.
pub open spec fn container_health_name(v: HephaestusContainerHealthState) -> Seq<char> {
    match v {
        HephaestusContainerHealthState::Healthy => "healthy"@,
        HephaestusContainerHealthState::Unhealthy => "unhealthy"@,
        HephaestusContainerHealthState::Starting => "starting"@,
        HephaestusContainerHealthState::NotConfigured => "none"@,
        HephaestusContainerHealthState::Unknown => "unknown"@,
    }
}

/// The snake-case name of a restart reason, as the serialized form writes it.
pub open spec fn restart_reason_name(v: HephaestusContainerRestartReason) -> Seq<char> {
    match v {
        HephaestusContainerRestartReason::NotRequired => "none"@,
        HephaestusContainerRestartReason::Unhealthy => "unhealthy"@,
        HephaestusContainerRestartReason::Restarting => "restarting"@,
        HephaestusContainerRestartReason::Exited => "exited"@,
        HephaestusContainerRestartReason::Dead => "dead"@,
        HephaestusContainerRestartReason::Unknown => "unknown"@,
    }
}

/// The snake-case name of a host service state, as the serialized form writes it.
pub open spec fn host_service_state_name(v: HephaestusHostServiceState) -> Seq<char> {
    match v {
        HephaestusHostServiceState::Active => "active"@,
        HephaestusHostServiceState::Reloading => "reloading"@,
        HephaestusHostServiceState::Inactive => "inactive"@,
        HephaestusHostServiceState::Failed => "failed"@,
        HephaestusHostServiceState::Activating => "activating"@,
        HephaestusHostServiceState::Deactivating => "deactivating"@,
        HephaestusHostServiceState::Unknown => "unknown"@,
    }
}

/// The snake-case name of a unattended-upgrades state, as the serialized form writes it.
pub open spec fn unattended_upgrades_name(v: HephaestusUnattendedUpgradesState) -> Seq<char> {
    match v {
        HephaestusUnattendedUpgradesState::Active => "active"@,
        HephaestusUnattendedUpgradesState::Inactive => "inactive"@,
        HephaestusUnattendedUpgradesState::Failed => "failed"@,
        HephaestusUnattendedUpgradesState::NotInstalled => "not_installed"@,
        HephaestusUnattendedUpgradesState::Unknown => "unknown"@,
    }
}

/// The snake-case name of a probe kind, as the serialized form writes it.
pub open spec fn probe_kind_name(v: HephaestusServiceProbeKind) -> Seq<char> {
    match v {
        HephaestusServiceProbeKind::Http => "http"@,
        HephaestusServiceProbeKind::Tcp => "tcp"@,
    }
}

/// The snake-case name of a probe status, as the serialized form writes it.
pub open spec fn probe_status_name(v: HephaestusServiceProbeStatus) -> Seq<char> {
    match v {
        HephaestusServiceProbeStatus::Passed => "ok"@,
        HephaestusServiceProbeStatus::Failed => "failed"@,
        HephaestusServiceProbeStatus::Skipped => "skipped"@,
    }
}

} // verus!
