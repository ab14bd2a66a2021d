//! Strong health and log-summary types for Hephaestus fleet diagnostics.
use vstd::prelude::*;

use crate::text::{
    all_in_class, byte_len, chars_of, check_token, duplicate_option, lemma_token_outcome_idempotent, lemma_tokens_outcome_fixed,
    optional_text, range_exceeds_bytes, range_in_class, starts_with, str_starts_with,
    string_result_view, token_outcome, tokens_outcome, trim, trim_bounds, view_result, CharClass, Duplicate,
    TextFault,
};
use vstd::string::StrSliceExecFns;

verus! {

/// Byte bound of a probe host.
pub const MAX_SERVER_HOST_BYTES: usize = 253;
/// Byte bound of an HTTP health URL.
pub const MAX_HEALTH_URL_BYTES: usize = 512;
/// Byte bound of a provisioning detail or report server id.
pub const MAX_PROVISIONING_DETAIL_BYTES: usize = 256;

/// Hephaestus domain validation failure.
#[derive(Debug, Clone, Copy, PartialEq, Eq, Structural)]
pub enum HephaestusDomainError {
    /// The value was empty after normalization.
    Empty,
    /// The value exceeded its fixed maximum length.
    TooLong,
    /// The value contained a disallowed character or shape.
    InvalidCharacter,
    /// The numeric value was outside its accepted range.
    InvalidNumber,
}

impl HephaestusDomainError {
    /// Returns the operator-facing message of this error.
    pub fn message(self) -> (r: &'static str)
        ensures
            r@ == domain_error_message(self),
    {
        match self {
            HephaestusDomainError::Empty => "hephaestus value is empty",
            HephaestusDomainError::TooLong => "hephaestus value is too long",
            HephaestusDomainError::InvalidCharacter => "hephaestus value contains an invalid character",
            HephaestusDomainError::InvalidNumber => "hephaestus value is outside the accepted range",
        }
    }
}

/// The message of each domain error.
pub open spec fn domain_error_message(e: HephaestusDomainError) -> Seq<char> {
    match e {
        HephaestusDomainError::Empty => "hephaestus value is empty"@,
        HephaestusDomainError::TooLong => "hephaestus value is too long"@,
        HephaestusDomainError::InvalidCharacter => "hephaestus value contains an invalid character"@,
        HephaestusDomainError::InvalidNumber => "hephaestus value is outside the accepted range"@,
    }
}

/// The domain error that reports a text fault.
pub open spec fn domain_fault(f: TextFault) -> HephaestusDomainError {
    match f {
        TextFault::Empty => HephaestusDomainError::Empty,
        TextFault::TooLong => HephaestusDomainError::TooLong,
        TextFault::InvalidCharacter => HephaestusDomainError::InvalidCharacter,
    }
}

/// The outcome of validating a bounded domain token.
pub open spec fn domain_token(s: Seq<char>, max: nat, k: CharClass) -> Result<Seq<char>, HephaestusDomainError> {
    match token_outcome(s, max, k) {
        Ok(t) => Ok(t),
        Err(f) => Err(domain_fault(f)),
    }
}

/// What a list of domain token texts yields: the first refused text decides
/// the error; otherwise the trimmed texts in order.
pub open spec fn domain_tokens(items: Seq<Seq<char>>, max: nat, k: CharClass) -> Result<
    Seq<Seq<char>>,
    HephaestusDomainError,
> {
    match tokens_outcome(items, max, k) {
        Ok(ts) => Ok(ts),
        Err(f) => Err(domain_fault(f)),
    }
}

/// A list whose every text is accepted unchanged is accepted unchanged.
pub proof fn lemma_domain_tokens_fixed(items: Seq<Seq<char>>, max: nat, k: CharClass)
    requires
        forall|i: int| 0 <= i < items.len() ==> domain_token(#[trigger] items[i], max, k) == Ok::<Seq<char>, HephaestusDomainError>(items[i]),
    ensures
        domain_tokens(items, max, k) == Ok::<Seq<Seq<char>>, HephaestusDomainError>(items),
{
    assert forall|i: int| 0 <= i < items.len() implies token_outcome(#[trigger] items[i], max, k) == Ok::<Seq<char>, TextFault>(items[i]) by {
        assert(domain_token(items[i], max, k) == Ok::<Seq<char>, HephaestusDomainError>(items[i]));
    }
    lemma_tokens_outcome_fixed(items, max, k);
}

/// Every validated domain value round-trips through its own text: the text
/// of an accepted token is accepted again, unchanged.
pub proof fn lemma_domain_token_idempotent(s: Seq<char>, max: nat, k: CharClass)
    requires
        domain_token(s, max, k) is Ok,
    ensures
        domain_token(domain_token(s, max, k)->Ok_0, max, k) == domain_token(s, max, k),
{
    lemma_token_outcome_idempotent(s, max, k);
}

/// Validates a bounded domain token, as [`domain_token`] describes.
pub fn domain_check_token(value: &str, max: usize, k: CharClass) -> (r: Result<String, HephaestusDomainError>)
    requires
        max <= usize::MAX - 4,
    ensures
        string_result_view(r) == domain_token(value@, max as nat, k),
{
    match check_token(value, max, k) {
        Ok(text) => Ok(text),
        Err(TextFault::Empty) => Err(HephaestusDomainError::Empty),
        Err(TextFault::TooLong) => Err(HephaestusDomainError::TooLong),
        Err(TextFault::InvalidCharacter) => Err(HephaestusDomainError::InvalidCharacter),
    }
}

/// Hostname or IP address of a server to probe.
#[derive(Clone, PartialEq, Eq, Debug)]
pub struct HephaestusServerHost(String);

impl View for HephaestusServerHost {
    type V = Seq<char>;

    closed spec fn view(&self) -> Seq<char> {
        self.0@
    }
}

impl Duplicate for HephaestusServerHost {
    fn duplicate(&self) -> (r: Self) {
        HephaestusServerHost(self.0.clone())
    }
}

impl HephaestusServerHost {
    /// Constructs a validated probe host.
    pub fn new(value: &str) -> (r: Result<Self, HephaestusDomainError>)
        ensures
            view_result(r) == domain_token(value@, MAX_SERVER_HOST_BYTES as nat, CharClass::Host),
    {
        match domain_check_token(value, MAX_SERVER_HOST_BYTES, CharClass::Host) {
            Ok(text) => Ok(HephaestusServerHost(text)),
            Err(e) => Err(e),
        }
    }

    /// Returns the validated host.
    pub fn as_str(&self) -> (r: &str)
        ensures
            r@ == self@,
    {
        self.0.as_str()
    }
}

/// TCP port to probe on a server.
#[derive(Debug, Clone, Copy, PartialEq, Eq)]
pub struct HephaestusServerPort(u16);

impl View for HephaestusServerPort {
    type V = u16;

    closed spec fn view(&self) -> u16 {
        self.0
    }
}

impl HephaestusServerPort {
    /// Constructs a validated server port; port zero is refused.
    pub fn new(value: u16) -> (r: Result<Self, HephaestusDomainError>)
        ensures
            value == 0 ==> r == Err::<Self, HephaestusDomainError>(HephaestusDomainError::InvalidNumber),
            value != 0 ==> r is Ok && r->Ok_0@ == value,
    {
        if value == 0 {
            return Err(HephaestusDomainError::InvalidNumber);
        }
        Ok(HephaestusServerPort(value))
    }

    /// Returns the port number.
    pub fn get(self) -> (r: u16)
        ensures
            r == self@,
    {
        self.0
    }
}

/// The outcome of validating an HTTP health URL: after trimming it must be
/// non-empty, at most [`MAX_HEALTH_URL_BYTES`] bytes, start with `http://` or
/// `https://` and consist of URL characters.
pub open spec fn health_url_outcome(s: Seq<char>) -> Result<Seq<char>, HephaestusDomainError> {
    let t = trim(s);
    if t.len() == 0 {
        Err(HephaestusDomainError::Empty)
    } else if byte_len(t) > MAX_HEALTH_URL_BYTES {
        Err(HephaestusDomainError::TooLong)
    } else if (!starts_with(t, "http://"@) && !starts_with(t, "https://"@)) || !all_in_class(
        t,
        CharClass::Url,
    ) {
        Err(HephaestusDomainError::InvalidCharacter)
    } else {
        Ok(t)
    }
}

/// HTTP health endpoint to probe.
#[derive(Debug, Clone, PartialEq, Eq)]
pub struct HephaestusHealthUrl(String);

impl View for HephaestusHealthUrl {
    type V = Seq<char>;

    closed spec fn view(&self) -> Seq<char> {
        self.0@
    }
}

impl Duplicate for HephaestusHealthUrl {
    fn duplicate(&self) -> (r: Self) {
        HephaestusHealthUrl(self.0.clone())
    }
}

impl HephaestusHealthUrl {
    /// Constructs a validated HTTP health URL.
    pub fn new(value: &str) -> (r: Result<Self, HephaestusDomainError>)
        ensures
            view_result(r) == health_url_outcome(value@),
    {
        let chars = chars_of(value);
        let (start, end) = trim_bounds(&chars);
        if start == end {
            return Err(HephaestusDomainError::Empty);
        }
        if range_exceeds_bytes(&chars, start, end, MAX_HEALTH_URL_BYTES) {
            return Err(HephaestusDomainError::TooLong);
        }
        let t = value.substring_char(start, end);
        let http = str_starts_with(t, "http://");
        let https = str_starts_with(t, "https://");
        if (!http && !https) || !range_in_class(&chars, start, end, CharClass::Url) {
            return Err(HephaestusDomainError::InvalidCharacter);
        }
        Ok(HephaestusHealthUrl(t.to_owned()))
    }

    /// Returns the URL string.
    pub fn as_str(&self) -> (r: &str)
        ensures
            r@ == self@,
    {
        self.0.as_str()
    }
}

/// V1 server health probe target.
#[derive(Debug, Clone, PartialEq, Eq)]
pub struct HephaestusHealthCheckTarget {
    host: HephaestusServerHost,
    app_port: Option<HephaestusServerPort>,
    http_health_url: Option<HephaestusHealthUrl>,
}

impl HephaestusHealthCheckTarget {
    /// The probed host.
    pub closed spec fn spec_host(&self) -> HephaestusServerHost {
        self.host
    }

    /// The optional application port.
    pub closed spec fn spec_app_port(&self) -> Option<HephaestusServerPort> {
        self.app_port
    }

    /// The optional HTTP health URL.
    pub closed spec fn spec_http_health_url(&self) -> Option<HephaestusHealthUrl> {
        self.http_health_url
    }

    /// Constructs a health check target.
    pub fn new(
        host: HephaestusServerHost,
        app_port: Option<HephaestusServerPort>,
        http_health_url: Option<HephaestusHealthUrl>,
    ) -> (r: Self)
        ensures
            r.spec_host() == host,
            r.spec_app_port() == app_port,
            r.spec_http_health_url() == http_health_url,
    {
        HephaestusHealthCheckTarget { host, app_port, http_health_url }
    }

    /// Returns the server host.
    pub fn host(&self) -> (r: &HephaestusServerHost)
        ensures
            *r == self.spec_host(),
    {
        &self.host
    }

    /// Returns the optional app port probe.
    pub fn app_port(&self) -> (r: Option<HephaestusServerPort>)
        ensures
            r == self.spec_app_port(),
    {
        self.app_port
    }

    /// Returns the optional HTTP health URL.
    pub fn http_health_url(&self) -> (r: Option<&HephaestusHealthUrl>)
        ensures
            r == match self.spec_http_health_url() {
                Some(u) => Some(&u),
                None => None::<&HephaestusHealthUrl>,
            },
    {
        self.http_health_url.as_ref()
    }
}

/// Status of a V1 health probe.
#[derive(Debug, Clone, Copy, PartialEq, Eq, Structural)]
pub enum HealthProbeStatus {
    /// Probe completed successfully.
    Passed,
    /// Probe failed.
    Failed,
    /// Probe was not requested.
    NotChecked,
}

/// Provisioning event kind for the current V1 job model.
#[derive(Debug, Clone, Copy, PartialEq, Eq, Structural)]
pub enum ProvisioningEventKind {
    /// Server creation was requested.
    Requested,
    /// Provider instance creation started.
    InstanceCreateStarted,
    /// Provider instance creation succeeded.
    InstanceCreateSucceeded,
    /// Provider instance creation failed.
    InstanceCreateFailed,
    /// DNS reconciliation started.
    DnsReconcileStarted,
    /// DNS reconciliation succeeded.
    DnsReconcileSucceeded,
    /// DNS reconciliation failed.
    DnsReconcileFailed,
    /// Health verification started.
    HealthCheckStarted,
    /// Health verification succeeded.
    HealthCheckSucceeded,
    /// Health verification failed.
    HealthCheckFailed,
    /// The node agent completed an authenticated boot report.
    BootReported,
    /// The node is considered ready after boot reporting.
    Ready,
}

/// The stable name of each provisioning event kind.
pub open spec fn provisioning_event_name(k: ProvisioningEventKind) -> Seq<char> {
    match k {
        ProvisioningEventKind::Requested => "requested"@,
        ProvisioningEventKind::InstanceCreateStarted => "instance_create_started"@,
        ProvisioningEventKind::InstanceCreateSucceeded => "instance_create_succeeded"@,
        ProvisioningEventKind::InstanceCreateFailed => "instance_create_failed"@,
        ProvisioningEventKind::DnsReconcileStarted => "dns_reconcile_started"@,
        ProvisioningEventKind::DnsReconcileSucceeded => "dns_reconcile_succeeded"@,
        ProvisioningEventKind::DnsReconcileFailed => "dns_reconcile_failed"@,
        ProvisioningEventKind::HealthCheckStarted => "health_check_started"@,
        ProvisioningEventKind::HealthCheckSucceeded => "health_check_succeeded"@,
        ProvisioningEventKind::HealthCheckFailed => "health_check_failed"@,
        ProvisioningEventKind::BootReported => "boot_reported"@,
        ProvisioningEventKind::Ready => "ready"@,
    }
}

impl ProvisioningEventKind {
    /// Returns the stable event name.
    pub fn as_str(self) -> (r: &'static str)
        ensures
            r@ == provisioning_event_name(self),
    {
        match self {
            ProvisioningEventKind::Requested => "requested",
            ProvisioningEventKind::InstanceCreateStarted => "instance_create_started",
            ProvisioningEventKind::InstanceCreateSucceeded => "instance_create_succeeded",
            ProvisioningEventKind::InstanceCreateFailed => "instance_create_failed",
            ProvisioningEventKind::DnsReconcileStarted => "dns_reconcile_started",
            ProvisioningEventKind::DnsReconcileSucceeded => "dns_reconcile_succeeded",
            ProvisioningEventKind::DnsReconcileFailed => "dns_reconcile_failed",
            ProvisioningEventKind::HealthCheckStarted => "health_check_started",
            ProvisioningEventKind::HealthCheckSucceeded => "health_check_succeeded",
            ProvisioningEventKind::HealthCheckFailed => "health_check_failed",
            ProvisioningEventKind::BootReported => "boot_reported",
            ProvisioningEventKind::Ready => "ready",
        }
    }
}

/// Validates a provisioning detail or report server id: trimmed, non-empty,
/// at most [`MAX_PROVISIONING_DETAIL_BYTES`] bytes of detail characters.
pub open spec fn detail_outcome(s: Seq<char>) -> Result<Seq<char>, HephaestusDomainError> {
    domain_token(s, MAX_PROVISIONING_DETAIL_BYTES as nat, CharClass::Detail)
}

/// Validates a detail text, as [`detail_outcome`] describes.
pub fn validate_detail(value: &str) -> (r: Result<String, HephaestusDomainError>)
    ensures
        string_result_view(r) == detail_outcome(value@),
{
    domain_check_token(value, MAX_PROVISIONING_DETAIL_BYTES, CharClass::Detail)
}

/// Last provisioning event snapshot shown beside V1 health.
#[derive(Debug, Clone, PartialEq, Eq)]
pub struct ProvisioningEventSnapshot {
    kind: ProvisioningEventKind,
    detail: Option<String>,
}

impl Duplicate for ProvisioningEventSnapshot {
    fn duplicate(&self) -> (r: Self) {
        ProvisioningEventSnapshot { kind: self.kind, detail: duplicate_option(&self.detail) }
    }
}

impl ProvisioningEventSnapshot {
    /// The event kind.
    pub closed spec fn spec_kind(&self) -> ProvisioningEventKind {
        self.kind
    }

    /// The optional validated detail.
    pub closed spec fn spec_detail(&self) -> Option<Seq<char>> {
        optional_text(self.detail)
    }

    /// Constructs a provisioning event snapshot; a detail is validated as
    /// [`detail_outcome`] describes.
    pub fn new(kind: ProvisioningEventKind, detail: Option<&str>) -> (r: Result<Self, HephaestusDomainError>)
        ensures
            match detail {
                None => r is Ok && r->Ok_0.spec_kind() == kind && r->Ok_0.spec_detail() is None,
                Some(d) => match detail_outcome(d@) {
                    Ok(t) => r is Ok && r->Ok_0.spec_kind() == kind && r->Ok_0.spec_detail() == Some(t),
                    Err(e) => r == Err::<Self, HephaestusDomainError>(e),
                },
            },
    {
        match detail {
            None => Ok(ProvisioningEventSnapshot { kind, detail: None }),
            Some(d) => match validate_detail(d) {
                Ok(t) => Ok(ProvisioningEventSnapshot { kind, detail: Some(t) }),
                Err(e) => Err(e),
            },
        }
    }

    /// Returns the event kind.
    pub fn kind(&self) -> (r: ProvisioningEventKind)
        ensures
            r == self.spec_kind(),
    {
        self.kind
    }

    /// Returns the optional stable detail.
    pub fn detail(&self) -> (r: Option<&str>)
        ensures
            match r {
                Some(s) => self.spec_detail() == Some(s@),
                None => self.spec_detail() is None,
            },
    {
        match &self.detail {
            Some(s) => Some(s.as_str()),
            None => None,
        }
    }
}

/// Complete V1 server health report.
#[derive(Debug, Clone, PartialEq, Eq)]
pub struct HephaestusServerHealthReport {
    server_id: String,
    server_reachable: HealthProbeStatus,
    app_port_open: HealthProbeStatus,
    http_health_ok: HealthProbeStatus,
    last_provisioning_event: Option<ProvisioningEventSnapshot>,
}

impl HephaestusServerHealthReport {
    /// The validated server identifier.
    pub closed spec fn spec_server_id(&self) -> Seq<char> {
        self.server_id@
    }

    /// The reachability probe status.
    pub closed spec fn spec_server_reachable(&self) -> HealthProbeStatus {
        self.server_reachable
    }

    /// The application port probe status.
    pub closed spec fn spec_app_port_open(&self) -> HealthProbeStatus {
        self.app_port_open
    }

    /// The HTTP health probe status.
    pub closed spec fn spec_http_health_ok(&self) -> HealthProbeStatus {
        self.http_health_ok
    }

    /// The latest provisioning event.
    pub closed spec fn spec_last_provisioning_event(&self) -> Option<ProvisioningEventSnapshot> {
        self.last_provisioning_event
    }

    /// Constructs a server health report; the server id is validated as
    /// [`detail_outcome`] describes.
    pub fn new(
        server_id: &str,
        server_reachable: HealthProbeStatus,
        app_port_open: HealthProbeStatus,
        http_health_ok: HealthProbeStatus,
        last_provisioning_event: Option<ProvisioningEventSnapshot>,
    ) -> (r: Result<Self, HephaestusDomainError>)
        ensures
            match detail_outcome(server_id@) {
                Ok(t) => r is Ok && r->Ok_0.spec_server_id() == t && r->Ok_0.spec_server_reachable()
                    == server_reachable && r->Ok_0.spec_app_port_open() == app_port_open
                    && r->Ok_0.spec_http_health_ok() == http_health_ok
                    && r->Ok_0.spec_last_provisioning_event() == last_provisioning_event,
                Err(e) => r == Err::<Self, HephaestusDomainError>(e),
            },
    {
        match validate_detail(server_id) {
            Ok(id) => Ok(HephaestusServerHealthReport {
                server_id: id,
                server_reachable,
                app_port_open,
                http_health_ok,
                last_provisioning_event,
            }),
            Err(e) => Err(e),
        }
    }

    /// Returns the server identifier associated with the report.
    pub fn server_id(&self) -> (r: &str)
        ensures
            r@ == self.spec_server_id(),
    {
        self.server_id.as_str()
    }

    /// Returns whether the server accepted a basic reachability probe.
    pub fn server_reachable(&self) -> (r: HealthProbeStatus)
        ensures
            r == self.spec_server_reachable(),
    {
        self.server_reachable
    }

    /// Returns whether the requested application TCP port was open.
    pub fn app_port_open(&self) -> (r: HealthProbeStatus)
        ensures
            r == self.spec_app_port_open(),
    {
        self.app_port_open
    }

    /// Returns whether the requested HTTP health endpoint returned success.
    pub fn http_health_ok(&self) -> (r: HealthProbeStatus)
        ensures
            r == self.spec_http_health_ok(),
    {
        self.http_health_ok
    }

    /// Returns the latest provisioning event snapshot known to Hephaestus.
    pub fn last_provisioning_event(&self) -> (r: Option<&ProvisioningEventSnapshot>)
        ensures
            r == match self.spec_last_provisioning_event() {
                Some(e) => Some(&e),
                None => None::<&ProvisioningEventSnapshot>,
            },
    {
        self.last_provisioning_event.as_ref()
    }
}

} // verus!

verus! {

/// One structured server-kit log event Hephaestus knows how to display.
#[derive(Debug, Clone, PartialEq, Eq)]
pub struct HephaestusServerKitLogEvent {
    /// Event message emitted by server-kit tracing.
    pub message: &'static str,
    /// Primary stable fields operators should expect with the event.
    pub fields: Vec<&'static str>,
}

/// Catalog of server-kit structured log events Hephaestus can display before
/// log ingestion is connected.
#[derive(Debug, Clone, PartialEq, Eq)]
pub struct HephaestusServerKitLogEventCatalog {
    /// Known event entries.
    pub events: Vec<HephaestusServerKitLogEvent>,
}

/// The characters of each of a sequence of string slices.
pub open spec fn str_views(items: Seq<&'static str>) -> Seq<Seq<char>> {
    items.map_values(|s: &'static str| s@)
}

/// The messages of the server-kit log events, in catalog order.
pub open spec fn server_kit_event_messages() -> Seq<Seq<char>> {
    seq![
        "tracing initialized"@,
        "server process starting"@,
        "startup config summary"@,
        "runtime app enabled"@,
        "runtime app startup order resolved"@,
        "runtime startup check started"@,
        "runtime startup check completed"@,
        "runtime startup check failed"@,
        "runtime app cleanup started"@,
        "runtime app cleanup completed"@,
        "runtime app cleanup failed"@,
        "no runtime apps enabled"@,
        "http listener started"@,
        "grpc listener started"@,
        "server process ready"@,
        "runtime phase changed"@,
        "shutdown requested"@,
        "shutdown completed"@,
        "caller-provided static infrastructure error message"@,
    ]
}

/// The fields of the server-kit log events, in catalog order.
pub open spec fn server_kit_event_fields() -> Seq<Seq<Seq<char>>> {
    seq![
        seq!["service.name"@],
        seq!["service.name"@, "service.version"@, "build.git_sha"@, "build.timestamp"@, "build.profile"@],
        seq!["service.name"@, "server.region"@, "deployment.region"@, "observability.log_format"@, "observability.tracing_filter_configured"@, "observability.metrics_idle_timeout_secs"@],
        seq!["service.name"@, "app.name"@],
        seq!["service.name"@, "app.name"@, "app.startup_order"@],
        seq!["service.name"@, "task.name"@],
        seq!["service.name"@, "task.name"@],
        seq!["service.name"@, "task.name"@, "error.kind"@],
        seq!["service.name"@, "app.name"@, "task.name"@],
        seq!["service.name"@, "app.name"@, "task.name"@],
        seq!["service.name"@, "app.name"@, "task.name"@, "error.kind"@],
        seq!["service.name"@],
        seq!["service.name"@, "network.transport"@, "bind.address"@],
        seq!["service.name"@, "task.name"@, "network.transport"@, "bind.address"@],
        seq!["service.name"@, "readiness.state"@],
        seq!["service.name"@, "runtime.phase"@],
        seq!["service.name"@, "shutdown.reason"@],
        seq!["service.name"@, "shutdown.reason"@],
        seq!["error.kind"@, "request.id"@, "trace.id"@],
    ]
}

/// One catalog entry.
fn log_event(message: &'static str, fields: Vec<&'static str>) -> (r: HephaestusServerKitLogEvent)
    ensures
        r.message == message,
        r.fields@ == fields@,
{
    HephaestusServerKitLogEvent { message, fields }
}

/// Returns the stable server-kit log-event catalog.
pub fn server_kit_log_event_catalog() -> (r: HephaestusServerKitLogEventCatalog)
    ensures
        r.events@.len() == server_kit_event_messages().len(),
        forall|i: int|
            0 <= i < r.events@.len() ==> {
                &&& (#[trigger] r.events@[i]).message@ == server_kit_event_messages()[i]
                &&& str_views(r.events@[i].fields@) == server_kit_event_fields()[i]
            },
{
    let mut events: Vec<HephaestusServerKitLogEvent> = Vec::new();
    events.push(log_event("tracing initialized", vec!["service.name"]));
    events.push(log_event("server process starting", vec!["service.name", "service.version", "build.git_sha", "build.timestamp", "build.profile"]));
    events.push(log_event("startup config summary", vec!["service.name", "server.region", "deployment.region", "observability.log_format", "observability.tracing_filter_configured", "observability.metrics_idle_timeout_secs"]));
    events.push(log_event("runtime app enabled", vec!["service.name", "app.name"]));
    events.push(log_event("runtime app startup order resolved", vec!["service.name", "app.name", "app.startup_order"]));
    events.push(log_event("runtime startup check started", vec!["service.name", "task.name"]));
    events.push(log_event("runtime startup check completed", vec!["service.name", "task.name"]));
    events.push(log_event("runtime startup check failed", vec!["service.name", "task.name", "error.kind"]));
    events.push(log_event("runtime app cleanup started", vec!["service.name", "app.name", "task.name"]));
    events.push(log_event("runtime app cleanup completed", vec!["service.name", "app.name", "task.name"]));
    events.push(log_event("runtime app cleanup failed", vec!["service.name", "app.name", "task.name", "error.kind"]));
    events.push(log_event("no runtime apps enabled", vec!["service.name"]));
    events.push(log_event("http listener started", vec!["service.name", "network.transport", "bind.address"]));
    events.push(log_event("grpc listener started", vec!["service.name", "task.name", "network.transport", "bind.address"]));
    events.push(log_event("server process ready", vec!["service.name", "readiness.state"]));
    events.push(log_event("runtime phase changed", vec!["service.name", "runtime.phase"]));
    events.push(log_event("shutdown requested", vec!["service.name", "shutdown.reason"]));
    events.push(log_event("shutdown completed", vec!["service.name", "shutdown.reason"]));
    events.push(log_event("caller-provided static infrastructure error message", vec!["error.kind", "request.id", "trace.id"]));
    HephaestusServerKitLogEventCatalog { events }
}

/// The snake-case name of a provisioning event kind, as the serialized form writes it.
pub open spec fn provisioning_event_kind_name(v: ProvisioningEventKind) -> Seq<char> {
    match v {
        ProvisioningEventKind::Requested => "requested"@,
        ProvisioningEventKind::InstanceCreateStarted => "instance_create_started"@,
        ProvisioningEventKind::InstanceCreateSucceeded => "instance_create_succeeded"@,
        ProvisioningEventKind::InstanceCreateFailed => "instance_create_failed"@,
        ProvisioningEventKind::DnsReconcileStarted => "dns_reconcile_started"@,
        ProvisioningEventKind::DnsReconcileSucceeded => "dns_reconcile_succeeded"@,
        ProvisioningEventKind::DnsReconcileFailed => "dns_reconcile_failed"@,
        ProvisioningEventKind::HealthCheckStarted => "health_check_started"@,
        ProvisioningEventKind::HealthCheckSucceeded => "health_check_succeeded"@,
        ProvisioningEventKind::HealthCheckFailed => "health_check_failed"@,
        ProvisioningEventKind::BootReported => "boot_reported"@,
        ProvisioningEventKind::Ready => "ready"@,
    }
}

} // verus!
