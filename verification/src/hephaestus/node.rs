//! Boot-report and actual-node-state types for Hephaestus-managed hosts.
use vstd::prelude::*;

use crate::hephaestus::health::{lemma_domain_token_idempotent, domain_check_token, domain_token, domain_tokens, HephaestusDomainError};
use crate::hephaestus::region::HephaestusSiteId;
use crate::text::{
    all_in_class, ascii_lowercase, byte_len, chars_of, chars_start_with, constant_time_text_eq,
    contains_char, duplicate_option, duplicate_vec, find_char, has_no_whitespace, ip_address_parses,
    parses_as_ip_address, range_exceeds_bytes, range_in_class, starts_with, str_has_whitespace,
    to_ascii_lowercase, trim, trim_bounds, view_result, zeroize_text, CharClass, Duplicate,
    lemma_tokens_outcome_prefix_fault, lemma_tokens_outcome_step, string_views, tokens_outcome,
    TextFault,
};
use vstd::string::{StrSliceExecFns, StringExecFns};

verus! {

/// Byte bound of a controller or metadata base URL.
pub const MAX_CONTROLLER_BASE_URL_BYTES: usize = 2048;
/// Byte bound of a boot secret.
pub const MAX_AGENT_BOOT_SECRET_BYTES: usize = 128;
/// Byte bound of a control secret.
pub const MAX_AGENT_CONTROL_SECRET_BYTES: usize = 128;
/// Byte bound of a runtime token.
pub const MAX_AGENT_RUNTIME_TOKEN_BYTES: usize = 128;
/// Exact byte length of a base64url Ed25519 public key.
pub const AGENT_ED25519_PUBLIC_KEY_BASE64URL_BYTES: usize = 43;
/// Exact byte length of a public-key fingerprint.
pub const AGENT_PUBLIC_KEY_FINGERPRINT_BYTES: usize = 64;
/// Byte bound of an internal server id.
pub const MAX_SERVER_ID_BYTES: usize = 64;
/// Byte bound of a provider server id.
pub const MAX_PROVIDER_SERVER_ID_BYTES: usize = 128;
/// Byte bound of a cluster id.
pub const MAX_CLUSTER_ID_BYTES: usize = 64;
/// Byte bound of an infrastructure class id.
pub const MAX_INFRASTRUCTURE_CLASS_ID_BYTES: usize = 128;
/// Byte bound of a deployed app identity.
pub const MAX_SERVER_APP_BYTES: usize = 64;
/// Byte bound of a service surface identity.
pub const MAX_SERVER_SERVICE_BYTES: usize = 128;
/// Largest number of apps in a server catalog.
pub const MAX_SERVER_APPS: usize = 32;
/// Largest number of services in a server catalog.
pub const MAX_SERVER_SERVICES: usize = 64;

/// The host part of a URL after its scheme: the text with one trailing `/`
/// removed, since a base URL may end in a single slash but carry no path.
pub open spec fn url_authority(rest: Seq<char>) -> Seq<char> {
    if rest.len() > 0 && rest.last() == '/' {
        rest.drop_last()
    } else {
        rest
    }
}

/// Why a base URL is refused, if it is: it must be non-empty, at most
/// [`MAX_CONTROLLER_BASE_URL_BYTES`] bytes, free of whitespace, `?` and `#`,
/// begin with `https://` or `http://`, and continue with a non-empty
/// authority free of `/` and `@`, optionally followed by one `/`.
pub open spec fn controller_url_fault(s: Seq<char>) -> Option<HephaestusDomainError> {
    if s.len() == 0 {
        Some(HephaestusDomainError::Empty)
    } else if byte_len(s) > MAX_CONTROLLER_BASE_URL_BYTES {
        Some(HephaestusDomainError::TooLong)
    } else if !has_no_whitespace(s) || contains_char(s, '?') || contains_char(s, '#') {
        Some(HephaestusDomainError::InvalidCharacter)
    } else if !starts_with(s, "https://"@) && !starts_with(s, "http://"@) {
        Some(HephaestusDomainError::InvalidCharacter)
    } else {
        let rest = if starts_with(s, "https://"@) {
            s.skip("https://"@.len() as int)
        } else {
            s.skip("http://"@.len() as int)
        };
        let authority = url_authority(rest);
        if authority.len() == 0 || contains_char(authority, '/') || contains_char(authority, '@') {
            Some(HephaestusDomainError::InvalidCharacter)
        } else {
            None
        }
    }
}

/// Validates a controller or metadata base URL, as
/// [`controller_url_fault`] describes.
#[verifier::loop_isolation(false)]
pub fn validate_controller_base_url(value: &str) -> (r: Result<(), HephaestusDomainError>)
    ensures
        match controller_url_fault(value@) {
            Some(e) => r == Err::<(), HephaestusDomainError>(e),
            None => r is Ok,
        },
{
    let chars = chars_of(value);
    let n = chars.len();
    if n == 0 {
        return Err(HephaestusDomainError::Empty);
    }
    if range_exceeds_bytes(&chars, 0, n, MAX_CONTROLLER_BASE_URL_BYTES) {
        assert(chars@.subrange(0, n as int) =~= value@);
        return Err(HephaestusDomainError::TooLong);
    }
    assert(chars@.subrange(0, n as int) =~= value@);
    if str_has_whitespace(value) || find_char(&chars, '?').is_some() || find_char(&chars, '#').is_some() {
        return Err(HephaestusDomainError::InvalidCharacter);
    }
    let https = chars_of("https://");
    let http = chars_of("http://");
    let skip = if chars_start_with(&chars, &https) {
        https.len()
    } else if chars_start_with(&chars, &http) {
        http.len()
    } else {
        return Err(HephaestusDomainError::InvalidCharacter);
    };
    let ghost rest = value@.skip(skip as int);
    let mut end = n;
    if chars[n - 1] == '/' && n > skip {
        end = n - 1;
    }
    let ghost authority = chars@.subrange(skip as int, end as int);
    assert(authority =~= url_authority(rest));
    if end == skip {
        return Err(HephaestusDomainError::InvalidCharacter);
    }
    let mut i = skip;
    while i < end
        invariant
            skip <= i <= end <= n,
            n == chars@.len(),
            authority == chars@.subrange(skip as int, end as int),
            forall|k: int| skip <= k < i ==> chars@[k] != '/' && chars@[k] != '@',
        decreases end - i,
    {
        if chars[i] == '/' || chars[i] == '@' {
            assert(authority[i - skip] == chars@[i as int]);
            return Err(HephaestusDomainError::InvalidCharacter);
        }
        i = i + 1;
    }
    assert forall|k: int| 0 <= k < authority.len() implies authority[k] != '/' && authority[k] != '@' by {
        assert(authority[k] == chars@[k + skip]);
    }
    Ok(())
}

/// Validated Hephaestus controller base URL used by node agents.
#[derive(Debug, Clone, PartialEq, Eq)]
pub struct HephaestusControllerBaseUrl(String);

impl View for HephaestusControllerBaseUrl {
    type V = Seq<char>;

    closed spec fn view(&self) -> Seq<char> {
        self.0@
    }
}

impl Duplicate for HephaestusControllerBaseUrl {
    fn duplicate(&self) -> (r: Self) {
        HephaestusControllerBaseUrl(self.0.clone())
    }
}

impl HephaestusControllerBaseUrl {
    /// Constructs a validated controller base URL.
    pub fn new(value: &str) -> (r: Result<Self, HephaestusDomainError>)
        ensures
            match controller_url_fault(value@) {
                Some(e) => r == Err::<Self, HephaestusDomainError>(e),
                None => r is Ok && r->Ok_0@ == value@,
            },
    {
        match validate_controller_base_url(value) {
            Ok(()) => Ok(HephaestusControllerBaseUrl(value.to_owned())),
            Err(e) => Err(e),
        }
    }

    /// Returns the validated controller base URL.
    pub fn as_str(&self) -> (r: &str)
        ensures
            r@ == self@,
    {
        self.0.as_str()
    }
}

/// Validated base URL for the infrastructure metadata service.
#[derive(Debug, Clone, PartialEq, Eq)]
pub struct HephaestusMetadataBaseUrl(String);

impl View for HephaestusMetadataBaseUrl {
    type V = Seq<char>;

    closed spec fn view(&self) -> Seq<char> {
        self.0@
    }
}

impl Duplicate for HephaestusMetadataBaseUrl {
    fn duplicate(&self) -> (r: Self) {
        HephaestusMetadataBaseUrl(self.0.clone())
    }
}

impl HephaestusMetadataBaseUrl {
    /// Constructs a validated metadata service base URL.
    pub fn new(value: &str) -> (r: Result<Self, HephaestusDomainError>)
        ensures
            match controller_url_fault(value@) {
                Some(e) => r == Err::<Self, HephaestusDomainError>(e),
                None => r is Ok && r->Ok_0@ == value@,
            },
    {
        match validate_controller_base_url(value) {
            Ok(()) => Ok(HephaestusMetadataBaseUrl(value.to_owned())),
            Err(e) => Err(e),
        }
    }

    /// Returns the validated metadata base URL.
    pub fn as_str(&self) -> (r: &str)
        ensures
            r@ == self@,
    {
        self.0.as_str()
    }
}

/// Typed boot secret injected into node bootstrap metadata and used once the
/// node phones home.
#[derive(Clone, PartialEq, Eq)]
pub struct HephaestusAgentBootSecret(String);

impl View for HephaestusAgentBootSecret {
    type V = Seq<char>;

    closed spec fn view(&self) -> Seq<char> {
        self.0@
    }
}

impl Drop for HephaestusAgentBootSecret {
    /// Overwrites the secret text with zeros when the value is released.
    fn drop(&mut self)
        opens_invariants none
        no_unwind
    {
        zeroize_text(&mut self.0);
    }
}

impl Duplicate for HephaestusAgentBootSecret {
    fn duplicate(&self) -> (r: Self) {
        HephaestusAgentBootSecret(self.0.clone())
    }
}

impl HephaestusAgentBootSecret {
    /// Returns the debug rendering of this value, which never shows the
    /// secret text.
    pub fn debug_text(&self) -> (r: &'static str)
        ensures
            r@ == "HephaestusAgentBootSecret(\"<redacted>\")"@,
    {
        "HephaestusAgentBootSecret(\"<redacted>\")"
    }

    /// Overwrites the secret text with zeros and leaves the value empty.
    pub fn zeroize(&mut self)
        ensures
            final(self)@ == Seq::<char>::empty(),
    {
        zeroize_text(&mut self.0);
    }

    /// Constructs a validated boot secret.
    pub fn new(value: &str) -> (r: Result<Self, HephaestusDomainError>)
        ensures
            view_result(r) == domain_token(value@, MAX_AGENT_BOOT_SECRET_BYTES as nat, CharClass::Identifier),
    {
        match domain_check_token(value, MAX_AGENT_BOOT_SECRET_BYTES, CharClass::Identifier) {
            Ok(text) => Ok(HephaestusAgentBootSecret(text)),
            Err(e) => Err(e),
        }
    }

    /// Returns the boot secret as a string.
    pub fn expose_as_str(&self) -> (r: &str)
        ensures
            r@ == self@,
    {
        self.0.as_str()
    }

    /// Compares two boot secrets in constant time.
    ///
    /// Authentication paths must use this method instead of `==`/`!=`, whose
    /// byte comparison stops at the first difference and so leaks timing.
    pub fn constant_time_eq(&self, other: &Self) -> (r: bool)
        ensures
            r == (self@ == other@),
    {
        constant_time_text_eq(self.0.as_str(), other.0.as_str())
    }
}

/// Typed shared control secret used for node-local Hephaestus agent operations.
#[derive(Clone, PartialEq, Eq)]
pub struct HephaestusAgentControlSecret(String);

impl View for HephaestusAgentControlSecret {
    type V = Seq<char>;

    closed spec fn view(&self) -> Seq<char> {
        self.0@
    }
}

impl Drop for HephaestusAgentControlSecret {
    /// Overwrites the secret text with zeros when the value is released.
    fn drop(&mut self)
        opens_invariants none
        no_unwind
    {
        zeroize_text(&mut self.0);
    }
}

impl Duplicate for HephaestusAgentControlSecret {
    fn duplicate(&self) -> (r: Self) {
        HephaestusAgentControlSecret(self.0.clone())
    }
}

impl HephaestusAgentControlSecret {
    /// Returns the debug rendering of this value, which never shows the
    /// secret text.
    pub fn debug_text(&self) -> (r: &'static str)
        ensures
            r@ == "HephaestusAgentControlSecret(\"<redacted>\")"@,
    {
        "HephaestusAgentControlSecret(\"<redacted>\")"
    }

    /// Overwrites the secret text with zeros and leaves the value empty.
    pub fn zeroize(&mut self)
        ensures
            final(self)@ == Seq::<char>::empty(),
    {
        zeroize_text(&mut self.0);
    }

    /// Constructs a validated control secret.
    pub fn new(value: &str) -> (r: Result<Self, HephaestusDomainError>)
        ensures
            view_result(r) == domain_token(value@, MAX_AGENT_CONTROL_SECRET_BYTES as nat, CharClass::Identifier),
    {
        match domain_check_token(value, MAX_AGENT_CONTROL_SECRET_BYTES, CharClass::Identifier) {
            Ok(text) => Ok(HephaestusAgentControlSecret(text)),
            Err(e) => Err(e),
        }
    }

    /// Returns the control secret as a string.
    pub fn expose_as_str(&self) -> (r: &str)
        ensures
            r@ == self@,
    {
        self.0.as_str()
    }

    /// Compares two control secrets in constant time.
    ///
    /// Authentication paths must use this method instead of `==`/`!=`, whose
    /// byte comparison stops at the first difference and so leaks timing.
    pub fn constant_time_eq(&self, other: &Self) -> (r: bool)
        ensures
            r == (self@ == other@),
    {
        constant_time_text_eq(self.0.as_str(), other.0.as_str())
    }
}

/// Typed runtime token returned to a registered node agent.
///
/// Runtime tokens replace the one-time bootstrap token after first boot. They
/// authorize the node to report health and poll actions for its own `node_id`;
/// they must not be stored in cloud-init config or golden images.
#[derive(Clone, PartialEq, Eq)]
pub struct HephaestusAgentRuntimeToken(String);

impl View for HephaestusAgentRuntimeToken {
    type V = Seq<char>;

    closed spec fn view(&self) -> Seq<char> {
        self.0@
    }
}

impl Drop for HephaestusAgentRuntimeToken {
    /// Overwrites the secret text with zeros when the value is released.
    fn drop(&mut self)
        opens_invariants none
        no_unwind
    {
        zeroize_text(&mut self.0);
    }
}

impl Duplicate for HephaestusAgentRuntimeToken {
    fn duplicate(&self) -> (r: Self) {
        HephaestusAgentRuntimeToken(self.0.clone())
    }
}

impl HephaestusAgentRuntimeToken {
    /// Returns the debug rendering of this value, which never shows the
    /// secret text.
    pub fn debug_text(&self) -> (r: &'static str)
        ensures
            r@ == "HephaestusAgentRuntimeToken(\"<redacted>\")"@,
    {
        "HephaestusAgentRuntimeToken(\"<redacted>\")"
    }

    /// Overwrites the secret text with zeros and leaves the value empty.
    pub fn zeroize(&mut self)
        ensures
            final(self)@ == Seq::<char>::empty(),
    {
        zeroize_text(&mut self.0);
    }

    /// Constructs a validated runtime token.
    pub fn new(value: &str) -> (r: Result<Self, HephaestusDomainError>)
        ensures
            view_result(r) == domain_token(value@, MAX_AGENT_RUNTIME_TOKEN_BYTES as nat, CharClass::Identifier),
    {
        match domain_check_token(value, MAX_AGENT_RUNTIME_TOKEN_BYTES, CharClass::Identifier) {
            Ok(text) => Ok(HephaestusAgentRuntimeToken(text)),
            Err(e) => Err(e),
        }
    }

    /// Returns the runtime token as a string.
    pub fn expose_as_str(&self) -> (r: &str)
        ensures
            r@ == self@,
    {
        self.0.as_str()
    }

    /// Compares two runtime tokens in constant time.
    pub fn constant_time_eq(&self, other: &Self) -> (r: bool)
        ensures
            r == (self@ == other@),
    {
        constant_time_text_eq(self.0.as_str(), other.0.as_str())
    }
}

/// The outcome of validating an agent public key: after trimming it must
/// be exactly [`AGENT_ED25519_PUBLIC_KEY_BASE64URL_BYTES`] bytes of base64url
/// characters.
pub open spec fn public_key_outcome(s: Seq<char>) -> Result<Seq<char>, HephaestusDomainError> {
    let t = trim(s);
    if byte_len(t) != AGENT_ED25519_PUBLIC_KEY_BASE64URL_BYTES || !all_in_class(t, CharClass::Base64Url) {
        Err(HephaestusDomainError::InvalidCharacter)
    } else {
        Ok(t)
    }
}

/// Base64url-no-padding Ed25519 public key generated by a node agent.
#[derive(Debug, Clone, PartialEq, Eq)]
pub struct HephaestusAgentPublicKey(String);

impl View for HephaestusAgentPublicKey {
    type V = Seq<char>;

    closed spec fn view(&self) -> Seq<char> {
        self.0@
    }
}

impl Duplicate for HephaestusAgentPublicKey {
    fn duplicate(&self) -> (r: Self) {
        HephaestusAgentPublicKey(self.0.clone())
    }
}

impl HephaestusAgentPublicKey {
    /// Constructs a validated node-agent public key.
    pub fn new(value: &str) -> (r: Result<Self, HephaestusDomainError>)
        ensures
            view_result(r) == public_key_outcome(value@),
    {
        let chars = chars_of(value);
        let (start, end) = trim_bounds(&chars);
        let n = AGENT_ED25519_PUBLIC_KEY_BASE64URL_BYTES;
        if range_exceeds_bytes(&chars, start, end, n) || !range_exceeds_bytes(&chars, start, end, n - 1) {
            return Err(HephaestusDomainError::InvalidCharacter);
        }
        if !range_in_class(&chars, start, end, CharClass::Base64Url) {
            return Err(HephaestusDomainError::InvalidCharacter);
        }
        Ok(HephaestusAgentPublicKey(value.substring_char(start, end).to_owned()))
    }

    /// Returns the encoded Ed25519 public key.
    pub fn as_str(&self) -> (r: &str)
        ensures
            r@ == self@,
    {
        self.0.as_str()
    }
}

/// The outcome of validating a public-key fingerprint: after trimming it
/// must be exactly [`AGENT_PUBLIC_KEY_FINGERPRINT_BYTES`] bytes of
/// hexadecimal digits; it is kept in lowercase.
pub open spec fn fingerprint_outcome(s: Seq<char>) -> Result<Seq<char>, HephaestusDomainError> {
    let t = trim(s);
    if byte_len(t) != AGENT_PUBLIC_KEY_FINGERPRINT_BYTES || !all_in_class(t, CharClass::HexDigit) {
        Err(HephaestusDomainError::InvalidCharacter)
    } else {
        Ok(ascii_lowercase(t))
    }
}

/// SHA-256 hex fingerprint of a registered node-agent public key.
#[derive(Debug, Clone, PartialEq, Eq)]
pub struct HephaestusAgentPublicKeyFingerprint(String);

impl View for HephaestusAgentPublicKeyFingerprint {
    type V = Seq<char>;

    closed spec fn view(&self) -> Seq<char> {
        self.0@
    }
}

impl Duplicate for HephaestusAgentPublicKeyFingerprint {
    fn duplicate(&self) -> (r: Self) {
        HephaestusAgentPublicKeyFingerprint(self.0.clone())
    }
}

impl HephaestusAgentPublicKeyFingerprint {
    /// Constructs a validated public-key fingerprint.
    pub fn new(value: &str) -> (r: Result<Self, HephaestusDomainError>)
        ensures
            view_result(r) == fingerprint_outcome(value@),
    {
        let chars = chars_of(value);
        let (start, end) = trim_bounds(&chars);
        let n = AGENT_PUBLIC_KEY_FINGERPRINT_BYTES;
        if range_exceeds_bytes(&chars, start, end, n) || !range_exceeds_bytes(&chars, start, end, n - 1) {
            return Err(HephaestusDomainError::InvalidCharacter);
        }
        if !range_in_class(&chars, start, end, CharClass::HexDigit) {
            return Err(HephaestusDomainError::InvalidCharacter);
        }
        Ok(HephaestusAgentPublicKeyFingerprint(to_ascii_lowercase(value.substring_char(start, end))))
    }

    /// Returns the lowercase hex fingerprint.
    pub fn as_str(&self) -> (r: &str)
        ensures
            r@ == self@,
    {
        self.0.as_str()
    }

    /// Compares two public-key fingerprints in constant time.
    pub fn constant_time_eq(&self, other: &Self) -> (r: bool)
        ensures
            r == (self@ == other@),
    {
        constant_time_text_eq(self.0.as_str(), other.0.as_str())
    }
}

/// Stable result of a submitted boot report.
#[derive(Debug, Clone, Copy, PartialEq, Eq, Structural)]
pub enum HephaestusAgentBootReportResult {
    /// The boot report matched the expected orchestrator state and was accepted.
    Accepted,
    /// Hephaestus had no matching expected boot state for the supplied server.
    RejectedUnknownServer,
    /// The submitted boot secret did not match the expected orchestrator state.
    RejectedAuthentication,
}

/// Actual node status derived from boot/heartbeat reports.
#[derive(Debug, Clone, Copy, PartialEq, Eq, Structural)]
pub enum HephaestusNodeActualStateStatus {
    /// The node has successfully completed its boot report.
    Ready,
    /// The node has missed its freshness window and needs reconciliation.
    Stale,
    /// The node has been reconciled as stopped, destroyed, or unreachable.
    Offline,
}

/// Stable Hephaestus internal server identity.
#[derive(PartialEq, Eq, Debug)]
pub struct HephaestusServerId(String);

impl Clone for HephaestusServerId {
    fn clone(&self) -> (r: Self)
        ensures
            r == *self,
    {
        proof {
            use_type_invariant(self);
        }
        HephaestusServerId(self.0.clone())
    }
}

impl View for HephaestusServerId {
    type V = Seq<char>;

    closed spec fn view(&self) -> Seq<char> {
        self.0@
    }
}

impl Duplicate for HephaestusServerId {
    fn duplicate(&self) -> (r: Self) {
        self.clone()
    }
}

impl HephaestusServerId {
    /// The identity is a valid token: trimmed, bounded and of allowed
    /// characters.
    #[verifier::type_invariant]
    pub open spec fn valid(&self) -> bool {
        domain_token(self@, MAX_SERVER_ID_BYTES as nat, CharClass::Identifier) == Ok::<
            Seq<char>,
            HephaestusDomainError,
        >(self@)
    }

    /// Constructs a validated internal server identity.
    pub fn new(value: &str) -> (r: Result<Self, HephaestusDomainError>)
        ensures
            view_result(r) == domain_token(value@, MAX_SERVER_ID_BYTES as nat, CharClass::Identifier),
    {
        proof {
            if domain_token(value@, MAX_SERVER_ID_BYTES as nat, CharClass::Identifier) is Ok {
                lemma_domain_token_idempotent(value@, MAX_SERVER_ID_BYTES as nat, CharClass::Identifier);
            }
        }
        match domain_check_token(value, MAX_SERVER_ID_BYTES, CharClass::Identifier) {
            Ok(text) => Ok(HephaestusServerId(text)),
            Err(e) => Err(e),
        }
    }

    /// Returns the validated internal server identity.
    pub fn as_str(&self) -> (r: &str)
        ensures
            r@ == self@,
    {
        self.0.as_str()
    }
}

/// Provider-backed infrastructure server identity.
#[derive(PartialEq, Eq, Debug)]
pub struct HephaestusProviderServerId(String);

impl Clone for HephaestusProviderServerId {
    fn clone(&self) -> (r: Self)
        ensures
            r == *self,
    {
        proof {
            use_type_invariant(self);
        }
        HephaestusProviderServerId(self.0.clone())
    }
}

impl View for HephaestusProviderServerId {
    type V = Seq<char>;

    closed spec fn view(&self) -> Seq<char> {
        self.0@
    }
}

impl Duplicate for HephaestusProviderServerId {
    fn duplicate(&self) -> (r: Self) {
        self.clone()
    }
}

impl HephaestusProviderServerId {
    /// The text is a valid token: trimmed, bounded and of allowed
    /// characters.
    #[verifier::type_invariant]
    pub open spec fn valid(&self) -> bool {
        domain_token(self@, MAX_PROVIDER_SERVER_ID_BYTES as nat, CharClass::Identifier) == Ok::<Seq<char>, HephaestusDomainError>(self@)
    }

    /// Constructs a validated provider-backed server identifier.
    pub fn new(value: &str) -> (r: Result<Self, HephaestusDomainError>)
        ensures
            view_result(r) == domain_token(value@, MAX_PROVIDER_SERVER_ID_BYTES as nat, CharClass::Identifier),
    {
        proof {
            if domain_token(value@, MAX_PROVIDER_SERVER_ID_BYTES as nat, CharClass::Identifier) is Ok {
                lemma_domain_token_idempotent(value@, MAX_PROVIDER_SERVER_ID_BYTES as nat, CharClass::Identifier);
            }
        }
        match domain_check_token(value, MAX_PROVIDER_SERVER_ID_BYTES, CharClass::Identifier) {
            Ok(text) => Ok(HephaestusProviderServerId(text)),
            Err(e) => Err(e),
        }
    }

    /// Returns the provider identifier text.
    pub fn as_str(&self) -> (r: &str)
        ensures
            r@ == self@,
    {
        self.0.as_str()
    }
}

/// Stable infrastructure class, shape, or size identifier for a server.
#[derive(PartialEq, Eq, Debug)]
pub struct HephaestusInfrastructureClassId(String);

impl Clone for HephaestusInfrastructureClassId {
    fn clone(&self) -> (r: Self)
        ensures
            r == *self,
    {
        proof {
            use_type_invariant(self);
        }
        HephaestusInfrastructureClassId(self.0.clone())
    }
}

impl View for HephaestusInfrastructureClassId {
    type V = Seq<char>;

    closed spec fn view(&self) -> Seq<char> {
        self.0@
    }
}

impl Duplicate for HephaestusInfrastructureClassId {
    fn duplicate(&self) -> (r: Self) {
        self.clone()
    }
}

impl HephaestusInfrastructureClassId {
    /// The text is a valid token: trimmed, bounded and of allowed
    /// characters.
    #[verifier::type_invariant]
    pub open spec fn valid(&self) -> bool {
        domain_token(self@, MAX_INFRASTRUCTURE_CLASS_ID_BYTES as nat, CharClass::Identifier) == Ok::<Seq<char>, HephaestusDomainError>(self@)
    }

    /// Constructs a validated infrastructure class identifier.
    pub fn new(value: &str) -> (r: Result<Self, HephaestusDomainError>)
        ensures
            view_result(r) == domain_token(value@, MAX_INFRASTRUCTURE_CLASS_ID_BYTES as nat, CharClass::Identifier),
    {
        proof {
            if domain_token(value@, MAX_INFRASTRUCTURE_CLASS_ID_BYTES as nat, CharClass::Identifier) is Ok {
                lemma_domain_token_idempotent(value@, MAX_INFRASTRUCTURE_CLASS_ID_BYTES as nat, CharClass::Identifier);
            }
        }
        match domain_check_token(value, MAX_INFRASTRUCTURE_CLASS_ID_BYTES, CharClass::Identifier) {
            Ok(text) => Ok(HephaestusInfrastructureClassId(text)),
            Err(e) => Err(e),
        }
    }

    /// Returns the validated infrastructure class identifier.
    pub fn as_str(&self) -> (r: &str)
        ensures
            r@ == self@,
    {
        self.0.as_str()
    }
}

/// Stable logical group identifier for a server pool.
#[derive(PartialEq, Eq, Debug)]
pub struct HephaestusClusterId(String);

impl Clone for HephaestusClusterId {
    fn clone(&self) -> (r: Self)
        ensures
            r == *self,
    {
        proof {
            use_type_invariant(self);
        }
        HephaestusClusterId(self.0.clone())
    }
}

impl View for HephaestusClusterId {
    type V = Seq<char>;

    closed spec fn view(&self) -> Seq<char> {
        self.0@
    }
}

impl Duplicate for HephaestusClusterId {
    fn duplicate(&self) -> (r: Self) {
        self.clone()
    }
}

impl HephaestusClusterId {
    /// The text is a valid token: trimmed, bounded and of allowed
    /// characters.
    #[verifier::type_invariant]
    pub open spec fn valid(&self) -> bool {
        domain_token(self@, MAX_CLUSTER_ID_BYTES as nat, CharClass::Identifier) == Ok::<Seq<char>, HephaestusDomainError>(self@)
    }

    /// Constructs a validated cluster identifier.
    pub fn new(value: &str) -> (r: Result<Self, HephaestusDomainError>)
        ensures
            view_result(r) == domain_token(value@, MAX_CLUSTER_ID_BYTES as nat, CharClass::Identifier),
    {
        proof {
            if domain_token(value@, MAX_CLUSTER_ID_BYTES as nat, CharClass::Identifier) is Ok {
                lemma_domain_token_idempotent(value@, MAX_CLUSTER_ID_BYTES as nat, CharClass::Identifier);
            }
        }
        match domain_check_token(value, MAX_CLUSTER_ID_BYTES, CharClass::Identifier) {
            Ok(text) => Ok(HephaestusClusterId(text)),
            Err(e) => Err(e),
        }
    }

    /// Returns the validated group identifier.
    pub fn as_str(&self) -> (r: &str)
        ensures
            r@ == self@,
    {
        self.0.as_str()
    }
}

/// Typed app identity deployed onto one server.
#[derive(PartialEq, Eq, Debug)]
pub struct HephaestusServerApp(String);

impl Clone for HephaestusServerApp {
    fn clone(&self) -> (r: Self)
        ensures
            r == *self,
    {
        proof {
            use_type_invariant(self);
        }
        HephaestusServerApp(self.0.clone())
    }
}

impl View for HephaestusServerApp {
    type V = Seq<char>;

    closed spec fn view(&self) -> Seq<char> {
        self.0@
    }
}

impl Duplicate for HephaestusServerApp {
    fn duplicate(&self) -> (r: Self) {
        self.clone()
    }
}

impl HephaestusServerApp {
    /// The text is a valid token: trimmed, bounded and of allowed
    /// characters.
    #[verifier::type_invariant]
    pub open spec fn valid(&self) -> bool {
        domain_token(self@, MAX_SERVER_APP_BYTES as nat, CharClass::Identifier) == Ok::<Seq<char>, HephaestusDomainError>(self@)
    }

    /// Constructs a validated deployed-app identity.
    pub fn new(value: &str) -> (r: Result<Self, HephaestusDomainError>)
        ensures
            view_result(r) == domain_token(value@, MAX_SERVER_APP_BYTES as nat, CharClass::Identifier),
    {
        proof {
            if domain_token(value@, MAX_SERVER_APP_BYTES as nat, CharClass::Identifier) is Ok {
                lemma_domain_token_idempotent(value@, MAX_SERVER_APP_BYTES as nat, CharClass::Identifier);
            }
        }
        match domain_check_token(value, MAX_SERVER_APP_BYTES, CharClass::Identifier) {
            Ok(text) => Ok(HephaestusServerApp(text)),
            Err(e) => Err(e),
        }
    }

    /// Returns the validated app identity.
    pub fn as_str(&self) -> (r: &str)
        ensures
            r@ == self@,
    {
        self.0.as_str()
    }
}

impl HephaestusServerApp {
    /// The texts of `items`, in order.
    pub fn to_texts(items: &[Self]) -> (r: Vec<String>)
        ensures
            string_views(r@) == app_texts(items@),
            forall|j: int| 0 <= j < items@.len() ==> #[trigger] items@[j].valid(),
    {
        let mut out: Vec<String> = Vec::new();
        let mut i: usize = 0;
        while i < items.len()
            invariant
                i <= items@.len(),
                string_views(out@) =~= app_texts(items@.take(i as int)),
                forall|j: int| 0 <= j < i ==> #[trigger] items@[j].valid(),
            decreases items@.len() - i,
        {
            let ghost before = out@;
            let item = &items[i];
            proof {
                use_type_invariant(item);
            }
            out.push(item.as_str().to_string());
            proof {
                assert(items@.take(i as int + 1) =~= items@.take(i as int).push(items@[i as int]));
                assert(string_views(out@) =~= string_views(before).push(items@[i as int]@));
            }
            i += 1;
        }
        proof {
            assert(items@.take(i as int) =~= items@);
        }
        out
    }
}


/// The texts of a sequence of app identities.
pub open spec fn app_texts(s: Seq<HephaestusServerApp>) -> Seq<Seq<char>> {
    s.map_values(|x: HephaestusServerApp| x@)
}

impl HephaestusServerApp {
    /// Validates each text as one app identitie, in order; the first refused text
    /// decides the error.
    pub fn from_texts(items: &Vec<String>) -> (r: Result<Vec<Self>, HephaestusDomainError>)
        ensures
            match domain_tokens(string_views(items@), MAX_SERVER_APP_BYTES as nat, CharClass::Identifier) {
                Ok(ts) => r is Ok && app_texts(r->Ok_0@) == ts,
                Err(e) => r == Err::<Vec<Self>, HephaestusDomainError>(e),
            },
    {
        let ghost sv = string_views(items@);
        let mut out: Vec<Self> = Vec::new();
        let mut i: usize = 0;
        proof {
            assert(sv.take(0) =~= Seq::<Seq<char>>::empty());
            assert(app_texts(out@) =~= Seq::<Seq<char>>::empty());
        }
        while i < items.len()
            invariant
                i <= items.len(),
                sv == string_views(items@),
                tokens_outcome(sv.take(i as int), MAX_SERVER_APP_BYTES as nat, CharClass::Identifier) == Ok::<
                    Seq<Seq<char>>,
                    TextFault,
                >(app_texts(out@)),
            decreases items.len() - i,
        {
            proof {
                lemma_tokens_outcome_step(sv, i as int, MAX_SERVER_APP_BYTES as nat, CharClass::Identifier);
                assert(sv[i as int] == items@[i as int]@);
            }
            match Self::new(items[i].as_str()) {
                Ok(x) => {
                    let ghost before = out@;
                    out.push(x);
                    proof {
                        assert(app_texts(out@) =~= app_texts(before).push(x@));
                    }
                },
                Err(e) => {
                    proof {
                        lemma_tokens_outcome_prefix_fault(sv, i as int + 1, MAX_SERVER_APP_BYTES as nat, CharClass::Identifier);
                    }
                    return Err(e);
                },
            }
            i += 1;
        }
        proof {
            assert(sv.take(i as int) =~= sv);
        }
        Ok(out)
    }
}


/// Typed service surface identity exposed by deployed apps.
#[derive(PartialEq, Eq, Debug)]
pub struct HephaestusServerService(String);

impl Clone for HephaestusServerService {
    fn clone(&self) -> (r: Self)
        ensures
            r == *self,
    {
        proof {
            use_type_invariant(self);
        }
        HephaestusServerService(self.0.clone())
    }
}

impl View for HephaestusServerService {
    type V = Seq<char>;

    closed spec fn view(&self) -> Seq<char> {
        self.0@
    }
}

impl Duplicate for HephaestusServerService {
    fn duplicate(&self) -> (r: Self) {
        self.clone()
    }
}

impl HephaestusServerService {
    /// The text is a valid token: trimmed, bounded and of allowed
    /// characters.
    #[verifier::type_invariant]
    pub open spec fn valid(&self) -> bool {
        domain_token(self@, MAX_SERVER_SERVICE_BYTES as nat, CharClass::ServiceIdentifier) == Ok::<Seq<char>, HephaestusDomainError>(self@)
    }

    /// Constructs a validated service surface identity.
    pub fn new(value: &str) -> (r: Result<Self, HephaestusDomainError>)
        ensures
            view_result(r) == domain_token(value@, MAX_SERVER_SERVICE_BYTES as nat, CharClass::ServiceIdentifier),
    {
        proof {
            if domain_token(value@, MAX_SERVER_SERVICE_BYTES as nat, CharClass::ServiceIdentifier) is Ok {
                lemma_domain_token_idempotent(value@, MAX_SERVER_SERVICE_BYTES as nat, CharClass::ServiceIdentifier);
            }
        }
        match domain_check_token(value, MAX_SERVER_SERVICE_BYTES, CharClass::ServiceIdentifier) {
            Ok(text) => Ok(HephaestusServerService(text)),
            Err(e) => Err(e),
        }
    }

    /// Returns the validated service surface identity.
    pub fn as_str(&self) -> (r: &str)
        ensures
            r@ == self@,
    {
        self.0.as_str()
    }
}

impl HephaestusServerService {
    /// The texts of `items`, in order.
    pub fn to_texts(items: &[Self]) -> (r: Vec<String>)
        ensures
            string_views(r@) == service_texts(items@),
            forall|j: int| 0 <= j < items@.len() ==> #[trigger] items@[j].valid(),
    {
        let mut out: Vec<String> = Vec::new();
        let mut i: usize = 0;
        while i < items.len()
            invariant
                i <= items@.len(),
                string_views(out@) =~= service_texts(items@.take(i as int)),
                forall|j: int| 0 <= j < i ==> #[trigger] items@[j].valid(),
            decreases items@.len() - i,
        {
            let ghost before = out@;
            let item = &items[i];
            proof {
                use_type_invariant(item);
            }
            out.push(item.as_str().to_string());
            proof {
                assert(items@.take(i as int + 1) =~= items@.take(i as int).push(items@[i as int]));
                assert(string_views(out@) =~= string_views(before).push(items@[i as int]@));
            }
            i += 1;
        }
        proof {
            assert(items@.take(i as int) =~= items@);
        }
        out
    }
}


/// The texts of a sequence of service identities.
pub open spec fn service_texts(s: Seq<HephaestusServerService>) -> Seq<Seq<char>> {
    s.map_values(|x: HephaestusServerService| x@)
}

impl HephaestusServerService {
    /// Validates each text as one service identitie, in order; the first refused text
    /// decides the error.
    pub fn from_texts(items: &Vec<String>) -> (r: Result<Vec<Self>, HephaestusDomainError>)
        ensures
            match domain_tokens(string_views(items@), MAX_SERVER_SERVICE_BYTES as nat, CharClass::ServiceIdentifier) {
                Ok(ts) => r is Ok && service_texts(r->Ok_0@) == ts,
                Err(e) => r == Err::<Vec<Self>, HephaestusDomainError>(e),
            },
    {
        let ghost sv = string_views(items@);
        let mut out: Vec<Self> = Vec::new();
        let mut i: usize = 0;
        proof {
            assert(sv.take(0) =~= Seq::<Seq<char>>::empty());
            assert(service_texts(out@) =~= Seq::<Seq<char>>::empty());
        }
        while i < items.len()
            invariant
                i <= items.len(),
                sv == string_views(items@),
                tokens_outcome(sv.take(i as int), MAX_SERVER_SERVICE_BYTES as nat, CharClass::ServiceIdentifier) == Ok::<
                    Seq<Seq<char>>,
                    TextFault,
                >(service_texts(out@)),
            decreases items.len() - i,
        {
            proof {
                lemma_tokens_outcome_step(sv, i as int, MAX_SERVER_SERVICE_BYTES as nat, CharClass::ServiceIdentifier);
                assert(sv[i as int] == items@[i as int]@);
            }
            match Self::new(items[i].as_str()) {
                Ok(x) => {
                    let ghost before = out@;
                    out.push(x);
                    proof {
                        assert(service_texts(out@) =~= service_texts(before).push(x@));
                    }
                },
                Err(e) => {
                    proof {
                        lemma_tokens_outcome_prefix_fault(sv, i as int + 1, MAX_SERVER_SERVICE_BYTES as nat, CharClass::ServiceIdentifier);
                    }
                    return Err(e);
                },
            }
            i += 1;
        }
        proof {
            assert(sv.take(i as int) =~= sv);
        }
        Ok(out)
    }
}


/// Why an IP address text is refused, if it is: once trimmed it must be
/// non-empty and parse as an IP address.
pub open spec fn ip_address_fault(s: Seq<char>) -> Option<HephaestusDomainError> {
    if trim(s).len() == 0 {
        Some(HephaestusDomainError::Empty)
    } else if !parses_as_ip_address(trim(s)) {
        Some(HephaestusDomainError::InvalidCharacter)
    } else {
        None
    }
}

/// The decision that follows the address parse: an empty trimmed text is
/// `Empty`, one that did not parse is `InvalidCharacter`.
pub fn ip_address_decision(trimmed_is_empty: bool, parsed: bool) -> (r: Result<(), HephaestusDomainError>)
    ensures
        trimmed_is_empty ==> r == Err::<(), HephaestusDomainError>(HephaestusDomainError::Empty),
        !trimmed_is_empty && !parsed ==> r == Err::<(), HephaestusDomainError>(
            HephaestusDomainError::InvalidCharacter,
        ),
        !trimmed_is_empty && parsed ==> r == Ok::<(), HephaestusDomainError>(()),
{
    if trimmed_is_empty {
        Err(HephaestusDomainError::Empty)
    } else if !parsed {
        Err(HephaestusDomainError::InvalidCharacter)
    } else {
        Ok(())
    }
}

/// Validates an IP address text, as [`ip_address_fault`] describes.
pub fn validate_ip_address(value: &str) -> (r: Result<(), HephaestusDomainError>)
    ensures
        match ip_address_fault(value@) {
            Some(e) => r == Err::<(), HephaestusDomainError>(e),
            None => r is Ok,
        },
{
    let chars = chars_of(value);
    let (start, end) = trim_bounds(&chars);
    if start == end {
        return ip_address_decision(true, false);
    }
    let t = value.substring_char(start, end);
    ip_address_decision(false, ip_address_parses(t))
}

/// Public IP address observed for a managed server.
#[derive(Debug, PartialEq, Eq)]
pub struct HephaestusPublicIpAddress(String);

impl Clone for HephaestusPublicIpAddress {
    fn clone(&self) -> (r: Self)
        ensures
            r == *self,
    {
        proof {
            use_type_invariant(self);
        }
        HephaestusPublicIpAddress(self.0.clone())
    }
}

impl View for HephaestusPublicIpAddress {
    type V = Seq<char>;

    closed spec fn view(&self) -> Seq<char> {
        self.0@
    }
}

impl Duplicate for HephaestusPublicIpAddress {
    fn duplicate(&self) -> (r: Self) {
        self.clone()
    }
}

impl HephaestusPublicIpAddress {
    /// The text is a valid IP address.
    #[verifier::type_invariant]
    pub open spec fn valid(&self) -> bool {
        ip_address_fault(self@) is None
    }

    /// Constructs a validated public IP address; the text is kept as given.
    pub fn new(value: &str) -> (r: Result<Self, HephaestusDomainError>)
        ensures
            match ip_address_fault(value@) {
                Some(e) => r == Err::<Self, HephaestusDomainError>(e),
                None => r is Ok && r->Ok_0@ == value@,
            },
    {
        match validate_ip_address(value) {
            Ok(()) => Ok(HephaestusPublicIpAddress(value.to_owned())),
            Err(e) => Err(e),
        }
    }

    /// Returns the validated IP address.
    pub fn as_str(&self) -> (r: &str)
        ensures
            r@ == self@,
    {
        self.0.as_str()
    }
}

/// Private IP address observed or planned for a managed server.
#[derive(Debug, PartialEq, Eq)]
pub struct HephaestusPrivateIpAddress(String);

impl Clone for HephaestusPrivateIpAddress {
    fn clone(&self) -> (r: Self)
        ensures
            r == *self,
    {
        proof {
            use_type_invariant(self);
        }
        HephaestusPrivateIpAddress(self.0.clone())
    }
}

impl View for HephaestusPrivateIpAddress {
    type V = Seq<char>;

    closed spec fn view(&self) -> Seq<char> {
        self.0@
    }
}

impl Duplicate for HephaestusPrivateIpAddress {
    fn duplicate(&self) -> (r: Self) {
        self.clone()
    }
}

impl HephaestusPrivateIpAddress {
    /// The text is a valid IP address.
    #[verifier::type_invariant]
    pub open spec fn valid(&self) -> bool {
        ip_address_fault(self@) is None
    }

    /// Constructs a validated private IP address; the text is kept as given.
    pub fn new(value: &str) -> (r: Result<Self, HephaestusDomainError>)
        ensures
            match ip_address_fault(value@) {
                Some(e) => r == Err::<Self, HephaestusDomainError>(e),
                None => r is Ok && r->Ok_0@ == value@,
            },
    {
        match validate_ip_address(value) {
            Ok(()) => Ok(HephaestusPrivateIpAddress(value.to_owned())),
            Err(e) => Err(e),
        }
    }

    /// Returns the validated IP address.
    pub fn as_str(&self) -> (r: &str)
        ensures
            r@ == self@,
    {
        self.0.as_str()
    }
}

/// Broad machine purpose used for server inventory.
#[derive(Debug, Clone, Copy, PartialEq, Eq, Structural)]
pub enum HephaestusServerRole {
    /// Public or private application serving node.
    Api,
    /// Background job or queue worker.
    Worker,
    /// Database server.
    Db,
    /// Search/index server.
    Search,
    /// Edge or ingress server.
    Edge,
    /// Role is intentionally not yet classified.
    Unknown,
}

/// Stable network identity associated with a single server.
#[derive(Debug, Clone, PartialEq, Eq)]
pub struct HephaestusServerIdentity {
    server_id: HephaestusServerId,
    provider_server_id: HephaestusProviderServerId,
    site_id: HephaestusSiteId,
}

impl Duplicate for HephaestusServerIdentity {
    fn duplicate(&self) -> (r: Self) {
        HephaestusServerIdentity {
            server_id: self.server_id.duplicate(),
            provider_server_id: self.provider_server_id.duplicate(),
            site_id: self.site_id.duplicate(),
        }
    }
}

impl HephaestusServerIdentity {
    /// The internal server identifier.
    pub closed spec fn spec_server_id(&self) -> HephaestusServerId {
        self.server_id
    }

    /// The provider-backed server identifier.
    pub closed spec fn spec_provider_server_id(&self) -> HephaestusProviderServerId {
        self.provider_server_id
    }

    /// The Site identifier.
    pub closed spec fn spec_site_id(&self) -> HephaestusSiteId {
        self.site_id
    }

    /// Constructs stable identity fields for a server.
    pub fn new(
        server_id: HephaestusServerId,
        provider_server_id: HephaestusProviderServerId,
        site_id: HephaestusSiteId,
    ) -> (r: Self)
        ensures
            r.spec_server_id() == server_id,
            r.spec_provider_server_id() == provider_server_id,
            r.spec_site_id() == site_id,
    {
        HephaestusServerIdentity { server_id, provider_server_id, site_id }
    }

    /// Returns the internal server identifier.
    pub fn server_id(&self) -> (r: &HephaestusServerId)
        ensures
            *r == self.spec_server_id(),
    {
        &self.server_id
    }

    /// Returns the provider-backed server identifier.
    pub fn provider_server_id(&self) -> (r: &HephaestusProviderServerId)
        ensures
            *r == self.spec_provider_server_id(),
    {
        &self.provider_server_id
    }

    /// Returns the stable Hephaestus site identifier.
    pub fn site_id(&self) -> (r: &HephaestusSiteId)
        ensures
            *r == self.spec_site_id(),
    {
        &self.site_id
    }

}

/// Observed node IP addresses.
#[derive(Debug, Clone, PartialEq, Eq)]
pub struct HephaestusServerNetwork {
    public_ip: Option<HephaestusPublicIpAddress>,
    private_ip: Option<HephaestusPrivateIpAddress>,
}

impl Duplicate for HephaestusServerNetwork {
    fn duplicate(&self) -> (r: Self) {
        HephaestusServerNetwork {
            public_ip: duplicate_option(&self.public_ip),
            private_ip: duplicate_option(&self.private_ip),
        }
    }
}

impl HephaestusServerNetwork {
    /// The public IP when known.
    pub closed spec fn spec_public_ip(&self) -> Option<HephaestusPublicIpAddress> {
        self.public_ip
    }

    /// The private IP when known.
    pub closed spec fn spec_private_ip(&self) -> Option<HephaestusPrivateIpAddress> {
        self.private_ip
    }

    /// Constructs the observed network summary for a server.
    pub fn new(
        public_ip: Option<HephaestusPublicIpAddress>,
        private_ip: Option<HephaestusPrivateIpAddress>,
    ) -> (r: Self)
        ensures
            r.spec_public_ip() == public_ip,
            r.spec_private_ip() == private_ip,
    {
        HephaestusServerNetwork { public_ip, private_ip }
    }

    /// Returns the public IP when known.
    pub fn public_ip(&self) -> (r: Option<&HephaestusPublicIpAddress>)
        ensures
            r == match self.spec_public_ip() {
                Some(v) => Some(&v),
                None => None::<&HephaestusPublicIpAddress>,
            },
    {
        self.public_ip.as_ref()
    }

    /// Returns the private IP when known.
    pub fn private_ip(&self) -> (r: Option<&HephaestusPrivateIpAddress>)
        ensures
            r == match self.spec_private_ip() {
                Some(v) => Some(&v),
                None => None::<&HephaestusPrivateIpAddress>,
            },
    {
        self.private_ip.as_ref()
    }

}

/// Whether boot and report timestamps are acceptable: both non-zero and the
/// boot time not after the later time.
pub open spec fn timestamps_ordered(boot_time_unix_secs: u64, later_unix_secs: u64) -> bool {
    boot_time_unix_secs != 0 && later_unix_secs != 0 && boot_time_unix_secs <= later_unix_secs
}

/// Boot-report timing observed on the node.
#[derive(Debug, Clone, Copy, PartialEq, Eq)]
pub struct HephaestusServerBootTiming {
    boot_time_unix_secs: u64,
    generated_at_unix_secs: u64,
}

impl HephaestusServerBootTiming {
    /// The boot time is non-zero and precedes or equals the report time.
    #[verifier::type_invariant]
    pub open spec fn well_formed(&self) -> bool {
        timestamps_ordered(self.spec_boot_time_unix_secs(), self.spec_generated_at_unix_secs())
    }

    /// The observed boot time.
    pub closed spec fn spec_boot_time_unix_secs(&self) -> u64 {
        self.boot_time_unix_secs
    }

    /// The report emission time.
    pub closed spec fn spec_generated_at_unix_secs(&self) -> u64 {
        self.generated_at_unix_secs
    }

    /// Constructs validated boot-report timing values.
    pub fn new(boot_time_unix_secs: u64, generated_at_unix_secs: u64) -> (r: Result<Self, HephaestusDomainError>)
        ensures
            !timestamps_ordered(boot_time_unix_secs, generated_at_unix_secs) ==> r == Err::<
                Self,
                HephaestusDomainError,
            >(HephaestusDomainError::InvalidNumber),
            timestamps_ordered(boot_time_unix_secs, generated_at_unix_secs) ==> r is Ok
                && r->Ok_0.spec_boot_time_unix_secs() == boot_time_unix_secs
                && r->Ok_0.spec_generated_at_unix_secs() == generated_at_unix_secs,
    {
        if boot_time_unix_secs == 0 || generated_at_unix_secs == 0 || boot_time_unix_secs > generated_at_unix_secs {
            return Err(HephaestusDomainError::InvalidNumber);
        }
        Ok(HephaestusServerBootTiming { boot_time_unix_secs, generated_at_unix_secs })
    }

    /// Returns the observed boot time, which is non-zero and not after the
    /// report time.
    pub fn boot_time_unix_secs(&self) -> (r: u64)
        ensures
            r == self.spec_boot_time_unix_secs(),
            timestamps_ordered(r, self.spec_generated_at_unix_secs()),
    {
        proof {
            use_type_invariant(self);
        }
        self.boot_time_unix_secs
    }

    /// Returns the report emission time.
    pub fn generated_at_unix_secs(&self) -> (r: u64)
        ensures
            r == self.spec_generated_at_unix_secs(),
    {
        self.generated_at_unix_secs
    }

}

/// One authenticated boot report emitted by the node agent after first boot.
#[derive(Debug, Clone, PartialEq, Eq)]
pub struct HephaestusAgentBootReport {
    identity: HephaestusServerIdentity,
    network: HephaestusServerNetwork,
    timing: HephaestusServerBootTiming,
}

impl HephaestusAgentBootReport {
    /// The reporting server's identity.
    pub closed spec fn spec_identity(&self) -> HephaestusServerIdentity {
        self.identity
    }

    /// The reported addresses.
    pub closed spec fn spec_network(&self) -> HephaestusServerNetwork {
        self.network
    }

    /// The reported timing.
    pub closed spec fn spec_timing(&self) -> HephaestusServerBootTiming {
        self.timing
    }

    /// Constructs a validated boot report.
    pub fn new(
        identity: HephaestusServerIdentity,
        network: HephaestusServerNetwork,
        timing: HephaestusServerBootTiming,
    ) -> (r: Result<Self, HephaestusDomainError>)
        ensures
            r is Ok,
            r->Ok_0.spec_identity() == identity,
            r->Ok_0.spec_network() == network,
            r->Ok_0.spec_timing() == timing,
    {
        Ok(HephaestusAgentBootReport { identity, network, timing })
    }

    /// Returns the internal server identifier.
    pub fn server_id(&self) -> (r: &HephaestusServerId)
        ensures
            *r == self.spec_identity().spec_server_id(),
    {
        self.identity.server_id()
    }

    /// Returns the provider-backed server identifier.
    pub fn provider_server_id(&self) -> (r: &HephaestusProviderServerId)
        ensures
            *r == self.spec_identity().spec_provider_server_id(),
    {
        self.identity.provider_server_id()
    }

    /// Returns the stable Hephaestus site identifier.
    pub fn site_id(&self) -> (r: &HephaestusSiteId)
        ensures
            *r == self.spec_identity().spec_site_id(),
    {
        self.identity.site_id()
    }

    /// Returns the public IP when known.
    pub fn public_ip(&self) -> (r: Option<&HephaestusPublicIpAddress>)
        ensures
            r == match self.spec_network().spec_public_ip() {
                Some(v) => Some(&v),
                None => None::<&HephaestusPublicIpAddress>,
            },
    {
        self.network.public_ip()
    }

    /// Returns the private IP when known.
    pub fn private_ip(&self) -> (r: Option<&HephaestusPrivateIpAddress>)
        ensures
            r == match self.spec_network().spec_private_ip() {
                Some(v) => Some(&v),
                None => None::<&HephaestusPrivateIpAddress>,
            },
    {
        self.network.private_ip()
    }

    /// Returns the observed boot time.
    pub fn boot_time_unix_secs(&self) -> (r: u64)
        ensures
            r == self.spec_timing().spec_boot_time_unix_secs(),
            timestamps_ordered(r, self.spec_timing().spec_generated_at_unix_secs()),
    {
        self.timing.boot_time_unix_secs()
    }

    /// Returns the time at which the report was emitted.
    pub fn generated_at_unix_secs(&self) -> (r: u64)
        ensures
            r == self.spec_timing().spec_generated_at_unix_secs(),
    {
        self.timing.generated_at_unix_secs()
    }
}

/// The content of a server catalog.
pub struct HephaestusServerCatalogView {
    /// The logical group when classified.
    pub cluster_id: Option<HephaestusClusterId>,
    /// The broad server role.
    pub role: HephaestusServerRole,
    /// The deployed apps.
    pub apps: Seq<HephaestusServerApp>,
    /// The exposed services.
    pub services: Seq<HephaestusServerService>,
}

/// Desired server catalog information used by the dashboard and orchestration.
#[derive(Debug, PartialEq, Eq)]
pub struct HephaestusServerCatalog {
    cluster_id: Option<HephaestusClusterId>,
    role: HephaestusServerRole,
    apps: Vec<HephaestusServerApp>,
    services: Vec<HephaestusServerService>,
}

impl Clone for HephaestusServerCatalog {
    fn clone(&self) -> (r: Self)
        ensures
            r@ == self@,
    {
        self.duplicate()
    }
}

impl View for HephaestusServerCatalog {
    type V = HephaestusServerCatalogView;

    closed spec fn view(&self) -> HephaestusServerCatalogView {
        HephaestusServerCatalogView {
            cluster_id: self.cluster_id,
            role: self.role,
            apps: self.apps@,
            services: self.services@,
        }
    }
}

impl HephaestusServerCatalog {
    /// The app and service lists are within their bounds.
    #[verifier::type_invariant]
    pub open spec fn valid(&self) -> bool {
        self@.apps.len() <= MAX_SERVER_APPS && self@.services.len() <= MAX_SERVER_SERVICES
    }

    /// Returns a copy of this catalog.
    pub fn duplicate(&self) -> (r: Self)
        ensures
            r@ == self@,
    {
        proof {
            use_type_invariant(self);
        }
        HephaestusServerCatalog {
            cluster_id: duplicate_option(&self.cluster_id),
            role: self.role,
            apps: duplicate_vec(&self.apps),
            services: duplicate_vec(&self.services),
        }
    }

    /// Constructs validated server catalog information of at most
    /// [`MAX_SERVER_APPS`] apps and [`MAX_SERVER_SERVICES`] services.
    pub fn new(
        cluster_id: Option<HephaestusClusterId>,
        role: HephaestusServerRole,
        apps: Vec<HephaestusServerApp>,
        services: Vec<HephaestusServerService>,
    ) -> (r: Result<Self, HephaestusDomainError>)
        ensures
            apps@.len() > MAX_SERVER_APPS || services@.len() > MAX_SERVER_SERVICES ==> r == Err::<
                Self,
                HephaestusDomainError,
            >(HephaestusDomainError::TooLong),
            apps@.len() <= MAX_SERVER_APPS && services@.len() <= MAX_SERVER_SERVICES ==> r is Ok
                && r->Ok_0@ == (HephaestusServerCatalogView {
                    cluster_id,
                    role,
                    apps: apps@,
                    services: services@,
                }),
    {
        if apps.len() > MAX_SERVER_APPS || services.len() > MAX_SERVER_SERVICES {
            return Err(HephaestusDomainError::TooLong);
        }
        Ok(HephaestusServerCatalog { cluster_id, role, apps, services })
    }

    /// Returns the logical group identifier when classified.
    pub fn cluster_id(&self) -> (r: Option<&HephaestusClusterId>)
        ensures
            r == match self@.cluster_id {
                Some(v) => Some(&v),
                None => None::<&HephaestusClusterId>,
            },
    {
        self.cluster_id.as_ref()
    }

    /// Returns the broad server role.
    pub fn role(&self) -> (r: HephaestusServerRole)
        ensures
            r == self@.role,
    {
        self.role
    }

    /// Returns deployed app identities.
    pub fn apps(&self) -> (r: &[HephaestusServerApp])
        ensures
            r@ == self@.apps,
    {
        self.apps.as_slice()
    }

    /// Returns exposed service surface identities.
    pub fn services(&self) -> (r: &[HephaestusServerService])
        ensures
            r@ == self@.services,
    {
        self.services.as_slice()
    }
}

/// Durable actual-state summary used by the dashboard and readiness logic.
#[derive(Debug, PartialEq, Eq)]
pub struct HephaestusNodeActualState {
    identity: HephaestusServerIdentity,
    network: HephaestusServerNetwork,
    catalog: HephaestusServerCatalog,
    infrastructure_class_id: HephaestusInfrastructureClassId,
    agent_public_key: Option<HephaestusAgentPublicKey>,
    agent_public_key_fingerprint: Option<HephaestusAgentPublicKeyFingerprint>,
    boot_time_unix_secs: u64,
    last_seen_unix_secs: u64,
    status: HephaestusNodeActualStateStatus,
}

impl HephaestusNodeActualState {
    /// The boot time is non-zero and never after the last contact.
    #[verifier::type_invariant]
    pub open spec fn well_formed(&self) -> bool {
        timestamps_ordered(self.spec_boot_time_unix_secs(), self.spec_last_seen_unix_secs())
    }

    /// The server identity.
    pub closed spec fn spec_identity(&self) -> HephaestusServerIdentity {
        self.identity
    }

    /// The observed addresses.
    pub closed spec fn spec_network(&self) -> HephaestusServerNetwork {
        self.network
    }

    /// The server catalog.
    pub closed spec fn spec_catalog(&self) -> HephaestusServerCatalogView {
        self.catalog@
    }

    /// The infrastructure class.
    pub closed spec fn spec_infrastructure_class_id(&self) -> HephaestusInfrastructureClassId {
        self.infrastructure_class_id
    }

    /// The enrolled agent public key.
    pub closed spec fn spec_agent_public_key(&self) -> Option<HephaestusAgentPublicKey> {
        self.agent_public_key
    }

    /// The enrolled agent key fingerprint.
    pub closed spec fn spec_agent_public_key_fingerprint(&self) -> Option<HephaestusAgentPublicKeyFingerprint> {
        self.agent_public_key_fingerprint
    }

    /// The observed boot time.
    pub closed spec fn spec_boot_time_unix_secs(&self) -> u64 {
        self.boot_time_unix_secs
    }

    /// The last successful contact time.
    pub closed spec fn spec_last_seen_unix_secs(&self) -> u64 {
        self.last_seen_unix_secs
    }

    /// The actual-state status.
    pub closed spec fn spec_status(&self) -> HephaestusNodeActualStateStatus {
        self.status
    }

    /// Returns a copy of this actual state.
    pub fn duplicate(&self) -> (r: Self)
        ensures
            r.spec_identity() == self.spec_identity(),
            r.spec_network() == self.spec_network(),
            r.spec_catalog() == self.spec_catalog(),
            r.spec_infrastructure_class_id() == self.spec_infrastructure_class_id(),
            r.spec_agent_public_key() == self.spec_agent_public_key(),
            r.spec_agent_public_key_fingerprint() == self.spec_agent_public_key_fingerprint(),
            r.spec_boot_time_unix_secs() == self.spec_boot_time_unix_secs(),
            r.spec_last_seen_unix_secs() == self.spec_last_seen_unix_secs(),
            r.spec_status() == self.spec_status(),
    {
        proof {
            use_type_invariant(self);
        }
        HephaestusNodeActualState {
            identity: self.identity.duplicate(),
            network: self.network.duplicate(),
            catalog: self.catalog.duplicate(),
            infrastructure_class_id: self.infrastructure_class_id.duplicate(),
            agent_public_key: duplicate_option(&self.agent_public_key),
            agent_public_key_fingerprint: duplicate_option(&self.agent_public_key_fingerprint),
            boot_time_unix_secs: self.boot_time_unix_secs,
            last_seen_unix_secs: self.last_seen_unix_secs,
            status: self.status,
        }
    }

    /// Constructs a validated actual-state summary; the timestamps must be
    /// non-zero with the boot time not after the last contact.
    pub fn new(
        identity: HephaestusServerIdentity,
        network: HephaestusServerNetwork,
        catalog: HephaestusServerCatalog,
        infrastructure_class_id: HephaestusInfrastructureClassId,
        boot_time_unix_secs: u64,
        last_seen_unix_secs: u64,
        status: HephaestusNodeActualStateStatus,
    ) -> (r: Result<Self, HephaestusDomainError>)
        ensures
            !timestamps_ordered(boot_time_unix_secs, last_seen_unix_secs) ==> r == Err::<
                Self,
                HephaestusDomainError,
            >(HephaestusDomainError::InvalidNumber),
            timestamps_ordered(boot_time_unix_secs, last_seen_unix_secs) ==> r is Ok && {
                let v = r->Ok_0;
                &&& v.spec_identity() == identity
                &&& v.spec_network() == network
                &&& v.spec_catalog() == catalog@
                &&& v.spec_infrastructure_class_id() == infrastructure_class_id
                &&& v.spec_agent_public_key() is None
                &&& v.spec_agent_public_key_fingerprint() is None
                &&& v.spec_boot_time_unix_secs() == boot_time_unix_secs
                &&& v.spec_last_seen_unix_secs() == last_seen_unix_secs
                &&& v.spec_status() == status
            },
    {
        if boot_time_unix_secs == 0 || last_seen_unix_secs == 0 || boot_time_unix_secs > last_seen_unix_secs {
            return Err(HephaestusDomainError::InvalidNumber);
        }
        Ok(HephaestusNodeActualState {
            identity,
            network,
            catalog,
            infrastructure_class_id,
            agent_public_key: None,
            agent_public_key_fingerprint: None,
            boot_time_unix_secs,
            last_seen_unix_secs,
            status,
        })
    }

    /// Returns a copy with the node-local agent public identity attached.
    pub fn with_agent_public_identity(
        self,
        public_key: HephaestusAgentPublicKey,
        fingerprint: HephaestusAgentPublicKeyFingerprint,
    ) -> (r: Self)
        ensures
            r.spec_agent_public_key() == Some(public_key),
            r.spec_agent_public_key_fingerprint() == Some(fingerprint),
            r.spec_identity() == self.spec_identity(),
            r.spec_network() == self.spec_network(),
            r.spec_catalog() == self.spec_catalog(),
            r.spec_infrastructure_class_id() == self.spec_infrastructure_class_id(),
            r.spec_boot_time_unix_secs() == self.spec_boot_time_unix_secs(),
            r.spec_last_seen_unix_secs() == self.spec_last_seen_unix_secs(),
            r.spec_status() == self.spec_status(),
    {
        proof {
            use_type_invariant(&self);
        }
        HephaestusNodeActualState {
            agent_public_key: Some(public_key),
            agent_public_key_fingerprint: Some(fingerprint),
            ..self
        }
    }

    /// Constructs an actual-state record from an accepted boot report: the
    /// identity, addresses and times come from the report, the catalog and
    /// infrastructure class from the expected orchestrator state.
    pub fn from_boot_report(
        report: &HephaestusAgentBootReport,
        orchestrator_state: &HephaestusOrchestratorNodeState,
        status: HephaestusNodeActualStateStatus,
    ) -> (r: Result<Self, HephaestusDomainError>)
        ensures
            r is Ok && {
                let v = r->Ok_0;
                &&& v.spec_identity() == report.spec_identity()
                &&& v.spec_network() == report.spec_network()
                &&& v.spec_catalog() == orchestrator_state.spec_catalog()
                &&& v.spec_infrastructure_class_id()
                    == orchestrator_state.spec_infrastructure_class_id()
                &&& v.spec_agent_public_key() is None
                &&& v.spec_agent_public_key_fingerprint() is None
                &&& v.spec_boot_time_unix_secs() == report.spec_timing().spec_boot_time_unix_secs()
                &&& v.spec_last_seen_unix_secs()
                    == report.spec_timing().spec_generated_at_unix_secs()
                &&& v.spec_status() == status
            },
    {
        let boot = report.boot_time_unix_secs();
        let generated = report.generated_at_unix_secs();
        HephaestusNodeActualState::new(
            report.identity.duplicate(),
            report.network.duplicate(),
            orchestrator_state.catalog().duplicate(),
            orchestrator_state.infrastructure_class_id().duplicate(),
            boot,
            generated,
            status,
        )
    }

    /// Returns a copy with an updated last-seen timestamp; a zero timestamp or
    /// one before the boot time is refused.
    pub fn with_last_seen_unix_secs(self, last_seen_unix_secs: u64) -> (r: Result<Self, HephaestusDomainError>)
        ensures
            last_seen_unix_secs == 0 || last_seen_unix_secs < self.spec_boot_time_unix_secs() ==> r
                == Err::<Self, HephaestusDomainError>(HephaestusDomainError::InvalidNumber),
            !(last_seen_unix_secs == 0 || last_seen_unix_secs < self.spec_boot_time_unix_secs())
                ==> r is Ok && {
                let v = r->Ok_0;
                &&& v.spec_last_seen_unix_secs() == last_seen_unix_secs
                &&& v.spec_identity() == self.spec_identity()
                &&& v.spec_network() == self.spec_network()
                &&& v.spec_catalog() == self.spec_catalog()
                &&& v.spec_infrastructure_class_id() == self.spec_infrastructure_class_id()
                &&& v.spec_agent_public_key() == self.spec_agent_public_key()
                &&& v.spec_agent_public_key_fingerprint() == self.spec_agent_public_key_fingerprint()
                &&& v.spec_boot_time_unix_secs() == self.spec_boot_time_unix_secs()
                &&& v.spec_status() == self.spec_status()
            },
    {
        proof {
            use_type_invariant(&self);
        }
        if last_seen_unix_secs == 0 || last_seen_unix_secs < self.boot_time_unix_secs {
            return Err(HephaestusDomainError::InvalidNumber);
        }
        Ok(HephaestusNodeActualState { last_seen_unix_secs, ..self })
    }

    /// Returns a copy with an updated actual-state status.
    pub fn with_status(self, status: HephaestusNodeActualStateStatus) -> (r: Self)
        ensures
            r.spec_status() == status,
            r.spec_identity() == self.spec_identity(),
            r.spec_network() == self.spec_network(),
            r.spec_catalog() == self.spec_catalog(),
            r.spec_infrastructure_class_id() == self.spec_infrastructure_class_id(),
            r.spec_agent_public_key() == self.spec_agent_public_key(),
            r.spec_agent_public_key_fingerprint() == self.spec_agent_public_key_fingerprint(),
            r.spec_boot_time_unix_secs() == self.spec_boot_time_unix_secs(),
            r.spec_last_seen_unix_secs() == self.spec_last_seen_unix_secs(),
    {
        proof {
            use_type_invariant(&self);
        }
        HephaestusNodeActualState { status, ..self }
    }

    /// Returns the internal server identifier.
    pub fn server_id(&self) -> (r: &HephaestusServerId)
        ensures
            *r == self.spec_identity().spec_server_id(),
    {
        self.identity.server_id()
    }

    /// Returns the full server identity.
    pub fn identity(&self) -> (r: &HephaestusServerIdentity)
        ensures
            *r == self.spec_identity(),
    {
        &self.identity
    }

    /// Returns the provider-backed server identifier.
    pub fn provider_server_id(&self) -> (r: &HephaestusProviderServerId)
        ensures
            *r == self.spec_identity().spec_provider_server_id(),
    {
        self.identity.provider_server_id()
    }

    /// Returns the stable Hephaestus site identifier.
    pub fn site_id(&self) -> (r: &HephaestusSiteId)
        ensures
            *r == self.spec_identity().spec_site_id(),
    {
        self.identity.site_id()
    }

    /// Returns the infrastructure class identifier recorded for this server.
    pub fn infrastructure_class_id(&self) -> (r: &HephaestusInfrastructureClassId)
        ensures
            *r == self.spec_infrastructure_class_id(),
    {
        &self.infrastructure_class_id
    }

    /// Returns the public IP when known.
    pub fn public_ip(&self) -> (r: Option<&HephaestusPublicIpAddress>)
        ensures
            r == match self.spec_network().spec_public_ip() {
                Some(v) => Some(&v),
                None => None::<&HephaestusPublicIpAddress>,
            },
    {
        self.network.public_ip()
    }

    /// Returns the private IP when known.
    pub fn private_ip(&self) -> (r: Option<&HephaestusPrivateIpAddress>)
        ensures
            r == match self.spec_network().spec_private_ip() {
                Some(v) => Some(&v),
                None => None::<&HephaestusPrivateIpAddress>,
            },
    {
        self.network.private_ip()
    }

    /// Returns the registered node-agent public key when the agent enrolled.
    pub fn agent_public_key(&self) -> (r: Option<&HephaestusAgentPublicKey>)
        ensures
            r == match self.spec_agent_public_key() {
                Some(v) => Some(&v),
                None => None::<&HephaestusAgentPublicKey>,
            },
    {
        self.agent_public_key.as_ref()
    }

    /// Returns the registered node-agent public-key fingerprint when enrolled.
    pub fn agent_public_key_fingerprint(&self) -> (r: Option<&HephaestusAgentPublicKeyFingerprint>)
        ensures
            r == match self.spec_agent_public_key_fingerprint() {
                Some(v) => Some(&v),
                None => None::<&HephaestusAgentPublicKeyFingerprint>,
            },
    {
        self.agent_public_key_fingerprint.as_ref()
    }

    /// Returns the logical group identifier when known.
    pub fn cluster_id(&self) -> (r: Option<&HephaestusClusterId>)
        ensures
            r == match self.spec_catalog().cluster_id {
                Some(v) => Some(&v),
                None => None::<&HephaestusClusterId>,
            },
    {
        self.catalog.cluster_id()
    }

    /// Returns the full server catalog.
    pub fn catalog(&self) -> (r: &HephaestusServerCatalog)
        ensures
            r@ == self.spec_catalog(),
    {
        &self.catalog
    }

    /// Returns the broad server role.
    pub fn role(&self) -> (r: HephaestusServerRole)
        ensures
            r == self.spec_catalog().role,
    {
        self.catalog.role()
    }

    /// Returns deployed apps.
    pub fn apps(&self) -> (r: &[HephaestusServerApp])
        ensures
            r@ == self.spec_catalog().apps,
    {
        self.catalog.apps()
    }

    /// Returns exposed service surfaces.
    pub fn services(&self) -> (r: &[HephaestusServerService])
        ensures
            r@ == self.spec_catalog().services,
    {
        self.catalog.services()
    }

    /// Returns the observed boot time.
    pub fn boot_time_unix_secs(&self) -> (r: u64)
        ensures
            r == self.spec_boot_time_unix_secs(),
            timestamps_ordered(r, self.spec_last_seen_unix_secs()),
    {
        proof {
            use_type_invariant(self);
        }
        self.boot_time_unix_secs
    }

    /// Returns the last successful contact time, never before the boot time.
    pub fn last_seen_unix_secs(&self) -> (r: u64)
        ensures
            r == self.spec_last_seen_unix_secs(),
            timestamps_ordered(self.spec_boot_time_unix_secs(), r),
    {
        proof {
            use_type_invariant(self);
        }
        self.last_seen_unix_secs
    }

    /// Returns the current actual-state status.
    pub fn status(&self) -> (r: HephaestusNodeActualStateStatus)
        ensures
            r == self.spec_status(),
    {
        self.status
    }

}

impl Clone for HephaestusNodeActualState {
    fn clone(&self) -> (r: Self)
        ensures
            r.spec_identity() == self.spec_identity(),
            r.spec_network() == self.spec_network(),
            r.spec_catalog() == self.spec_catalog(),
            r.spec_infrastructure_class_id() == self.spec_infrastructure_class_id(),
            r.spec_agent_public_key() == self.spec_agent_public_key(),
            r.spec_agent_public_key_fingerprint() == self.spec_agent_public_key_fingerprint(),
            r.spec_boot_time_unix_secs() == self.spec_boot_time_unix_secs(),
            r.spec_last_seen_unix_secs() == self.spec_last_seen_unix_secs(),
            r.spec_status() == self.spec_status(),
    {
        self.duplicate()
    }
}

/// Expected node bootstrap state recorded by the control plane before boot.
#[derive(Clone, PartialEq, Eq)]
pub struct HephaestusOrchestratorNodeState {
    identity: HephaestusServerIdentity,
    catalog: HephaestusServerCatalog,
    infrastructure_class_id: HephaestusInfrastructureClassId,
    expected_private_ip: Option<HephaestusPrivateIpAddress>,
    boot_secret: HephaestusAgentBootSecret,
}

impl HephaestusOrchestratorNodeState {
    /// The expected server identity.
    pub closed spec fn spec_identity(&self) -> HephaestusServerIdentity {
        self.identity
    }

    /// The planned catalog.
    pub closed spec fn spec_catalog(&self) -> HephaestusServerCatalogView {
        self.catalog@
    }

    /// The planned infrastructure class.
    pub closed spec fn spec_infrastructure_class_id(&self) -> HephaestusInfrastructureClassId {
        self.infrastructure_class_id
    }

    /// The private IP reserved ahead of create.
    pub closed spec fn spec_expected_private_ip(&self) -> Option<HephaestusPrivateIpAddress> {
        self.expected_private_ip
    }

    /// The expected boot secret.
    pub closed spec fn spec_boot_secret(&self) -> HephaestusAgentBootSecret {
        self.boot_secret
    }

    /// Constructs expected node bootstrap state.
    pub fn new(
        identity: HephaestusServerIdentity,
        catalog: HephaestusServerCatalog,
        infrastructure_class_id: HephaestusInfrastructureClassId,
        expected_private_ip: Option<HephaestusPrivateIpAddress>,
        boot_secret: HephaestusAgentBootSecret,
    ) -> (r: Self)
        ensures
            r.spec_identity() == identity,
            r.spec_catalog() == catalog@,
            r.spec_infrastructure_class_id() == infrastructure_class_id,
            r.spec_expected_private_ip() == expected_private_ip,
            r.spec_boot_secret() == boot_secret,
    {
        HephaestusOrchestratorNodeState {
            identity,
            catalog,
            infrastructure_class_id,
            expected_private_ip,
            boot_secret,
        }
    }

    /// Returns the internal server identifier.
    pub fn server_id(&self) -> (r: &HephaestusServerId)
        ensures
            *r == self.spec_identity().spec_server_id(),
    {
        self.identity.server_id()
    }

    /// Returns the full server identity.
    pub fn identity(&self) -> (r: &HephaestusServerIdentity)
        ensures
            *r == self.spec_identity(),
    {
        &self.identity
    }

    /// Returns the provider-backed server identifier.
    pub fn provider_server_id(&self) -> (r: &HephaestusProviderServerId)
        ensures
            *r == self.spec_identity().spec_provider_server_id(),
    {
        self.identity.provider_server_id()
    }

    /// Returns the stable Hephaestus site identifier.
    pub fn site_id(&self) -> (r: &HephaestusSiteId)
        ensures
            *r == self.spec_identity().spec_site_id(),
    {
        self.identity.site_id()
    }

    /// Returns the infrastructure class identifier recorded for this server.
    pub fn infrastructure_class_id(&self) -> (r: &HephaestusInfrastructureClassId)
        ensures
            *r == self.spec_infrastructure_class_id(),
    {
        &self.infrastructure_class_id
    }

    /// Returns the expected private IP when reserved ahead of create.
    pub fn expected_private_ip(&self) -> (r: Option<&HephaestusPrivateIpAddress>)
        ensures
            r == match self.spec_expected_private_ip() {
                Some(v) => Some(&v),
                None => None::<&HephaestusPrivateIpAddress>,
            },
    {
        self.expected_private_ip.as_ref()
    }

    /// Returns the logical group identifier when known.
    pub fn cluster_id(&self) -> (r: Option<&HephaestusClusterId>)
        ensures
            r == match self.spec_catalog().cluster_id {
                Some(v) => Some(&v),
                None => None::<&HephaestusClusterId>,
            },
    {
        self.catalog.cluster_id()
    }

    /// Returns the full server catalog.
    pub fn catalog(&self) -> (r: &HephaestusServerCatalog)
        ensures
            r@ == self.spec_catalog(),
    {
        &self.catalog
    }

    /// Returns the broad server role.
    pub fn role(&self) -> (r: HephaestusServerRole)
        ensures
            r == self.spec_catalog().role,
    {
        self.catalog.role()
    }

    /// Returns deployed apps.
    pub fn apps(&self) -> (r: &[HephaestusServerApp])
        ensures
            r@ == self.spec_catalog().apps,
    {
        self.catalog.apps()
    }

    /// Returns exposed service surfaces.
    pub fn services(&self) -> (r: &[HephaestusServerService])
        ensures
            r@ == self.spec_catalog().services,
    {
        self.catalog.services()
    }

    /// Returns the boot secret.
    pub fn boot_secret(&self) -> (r: &HephaestusAgentBootSecret)
        ensures
            *r == self.spec_boot_secret(),
    {
        &self.boot_secret
    }

}

/// The snake-case name of a server role, as the serialized form writes it.
pub open spec fn server_role_name(v: HephaestusServerRole) -> Seq<char> {
    match v {
        HephaestusServerRole::Api => "api"@,
        HephaestusServerRole::Worker => "worker"@,
        HephaestusServerRole::Db => "db"@,
        HephaestusServerRole::Search => "search"@,
        HephaestusServerRole::Edge => "edge"@,
        HephaestusServerRole::Unknown => "unknown"@,
    }
}

/// The snake-case name of a node status, as the serialized form writes it.
pub open spec fn node_status_name(v: HephaestusNodeActualStateStatus) -> Seq<char> {
    match v {
        HephaestusNodeActualStateStatus::Ready => "ready"@,
        HephaestusNodeActualStateStatus::Stale => "stale"@,
        HephaestusNodeActualStateStatus::Offline => "offline"@,
    }
}

/// The snake-case name of a boot report result, as the serialized form writes it.
pub open spec fn boot_report_result_name(v: HephaestusAgentBootReportResult) -> Seq<char> {
    match v {
        HephaestusAgentBootReportResult::Accepted => "accepted"@,
        HephaestusAgentBootReportResult::RejectedUnknownServer => "rejected_unknown_server"@,
        HephaestusAgentBootReportResult::RejectedAuthentication => "rejected_authentication"@,
    }
}

} // verus!
