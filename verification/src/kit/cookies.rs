//! Cookie and session transport settings of the standard app config
//! document.
use vstd::prelude::*;

use crate::text::{
    ascii_lowercase, byte_len, chars_of, is_ascii_alphanumeric, lemma_ascii_lower,
    lemma_ascii_lowercase_byte_len, lemma_ascii_lowercase_idempotent, lemma_ascii_lowercase_index,
    optional_text, range_exceeds_bytes, same_text, to_ascii_lowercase,
};

verus! {

/// Maximum cookie domain length in bytes.
pub const MAX_COOKIE_DOMAIN_BYTES: usize = 255;

/// Typed reason an app config document is refused, for the cookie settings.
#[derive(Debug, Clone, Copy, PartialEq, Eq, Structural)]
pub enum AppConfigDocumentErrorReason {
    /// The cookie domain is not a valid domain attribute value.
    InvalidCookieDomain,
    /// The same-site policy is not `strict`, `lax` or `none`.
    InvalidCookieSameSitePolicy,
    /// A same-site policy of `none` was given without `secure`.
    CookieSameSiteNoneRequiresSecure,
}

/// App config document validation error. It never carries config text.
#[derive(Debug, Clone, Copy, PartialEq, Eq, Structural)]
pub struct AppConfigDocumentError {
    reason: AppConfigDocumentErrorReason,
}

impl AppConfigDocumentError {
    /// The typed failure reason.
    pub closed spec fn spec_reason(self) -> AppConfigDocumentErrorReason {
        self.reason
    }

    /// Constructs a document error.
    pub fn new(reason: AppConfigDocumentErrorReason) -> (r: Self)
        ensures
            r.spec_reason() == reason,
    {
        AppConfigDocumentError { reason }
    }

    /// Returns the typed failure reason.
    pub fn reason(self) -> (r: AppConfigDocumentErrorReason)
        ensures
            r == self.spec_reason(),
    {
        self.reason
    }
}

/// Whether position `i` of a cookie domain is acceptable: an ASCII letter,
/// digit, `-` or `.`; a `.` neither first, last nor followed by another `.`;
/// a `-` neither first, last, nor next to a `.`.
pub open spec fn cookie_domain_position_ok(s: Seq<char>, i: int) -> bool {
    let c = s[i];
    &&& is_ascii_alphanumeric(c) || c == '-' || c == '.'
    &&& c == '.' ==> 0 < i < s.len() - 1 && s[i + 1] != '.'
    &&& c == '-' ==> 0 < i < s.len() - 1 && s[i - 1] != '.' && s[i + 1] != '.'
}

/// Whether a text is a valid cookie domain: non-empty, at most
/// [`MAX_COOKIE_DOMAIN_BYTES`] bytes, and made of non-empty `.`-separated
/// labels of ASCII letters, digits and `-`, no label starting or ending with
/// `-`.
pub open spec fn cookie_domain_valid(s: Seq<char>) -> bool {
    &&& s.len() > 0
    &&& byte_len(s) <= MAX_COOKIE_DOMAIN_BYTES
    &&& forall|i: int| 0 <= i < s.len() ==> #[trigger] cookie_domain_position_ok(s, i)
}

/// Checks a cookie domain, as [`cookie_domain_valid`] describes.
fn cookie_domain_is_valid(value: &str) -> (r: bool)
    ensures
        r == cookie_domain_valid(value@),
{
    let chars = chars_of(value);
    let n = chars.len();
    if n == 0 {
        return false;
    }
    if range_exceeds_bytes(&chars, 0, n, MAX_COOKIE_DOMAIN_BYTES) {
        assert(chars@.subrange(0, n as int) =~= value@);
        return false;
    }
    assert(chars@.subrange(0, n as int) =~= value@);
    let mut i: usize = 0;
    while i < n
        invariant
            chars@ == value@,
            n == chars@.len(),
            n > 0,
            i <= n,
            forall|k: int| 0 <= k < i ==> #[trigger] cookie_domain_position_ok(value@, k),
        decreases n - i,
    {
        let c = chars[i];
        let allowed = ('a' <= c && c <= 'z') || ('A' <= c && c <= 'Z') || ('0' <= c && c <= '9') || c
            == '-' || c == '.';
        if !allowed {
            assert(!cookie_domain_position_ok(value@, i as int));
            return false;
        }
        if c == '.' && (i == 0 || i == n - 1 || chars[i + 1] == '.') {
            assert(!cookie_domain_position_ok(value@, i as int));
            return false;
        }
        if c == '-' && (i == 0 || i == n - 1 || chars[i - 1] == '.' || chars[i + 1] == '.') {
            assert(!cookie_domain_position_ok(value@, i as int));
            return false;
        }
        assert(cookie_domain_position_ok(value@, i as int));
        i = i + 1;
    }
    true
}

/// A valid cookie domain stays valid when lowered, and its lowered form is
/// already lowercase: building a domain from the text of another gives the
/// same domain back.
pub proof fn lemma_cookie_domain_normalization_idempotent(s: Seq<char>)
    requires
        cookie_domain_valid(s),
    ensures
        cookie_domain_valid(ascii_lowercase(s)),
        ascii_lowercase(ascii_lowercase(s)) == ascii_lowercase(s),
{
    let n = ascii_lowercase(s);
    lemma_ascii_lowercase_index(s);
    lemma_ascii_lowercase_byte_len(s);
    lemma_ascii_lowercase_idempotent(s);
    assert forall|i: int| 0 <= i < n.len() implies #[trigger] cookie_domain_position_ok(n, i) by {
        assert(cookie_domain_position_ok(s, i));
        lemma_ascii_lower(s[i]);
        if i > 0 {
            lemma_ascii_lower(s[i - 1]);
        }
        if i + 1 < s.len() {
            lemma_ascii_lower(s[i + 1]);
        }
    }
}

/// Validated cookie domain attribute value, kept in ASCII lowercase. It has
/// no `Debug`, so that the domain never reaches logs.
#[derive(Clone, PartialEq, Eq)]
pub struct AppCookieDomain(String);

impl View for AppCookieDomain {
    type V = Seq<char>;

    closed spec fn view(&self) -> Seq<char> {
        self.0@
    }
}

impl AppCookieDomain {
    /// Returns the debug rendering of this value, which never shows the
    /// domain.
    pub fn debug_text(&self) -> (r: &'static str)
        ensures
            r@ == "AppCookieDomain(\"[REDACTED]\")"@,
    {
        "AppCookieDomain(\"[REDACTED]\")"
    }

    /// Constructs a validated cookie domain, lowercased.
    pub fn new(value: &str) -> (r: Result<Self, AppConfigDocumentError>)
        ensures
            cookie_domain_valid(value@) ==> r is Ok && r->Ok_0@ == ascii_lowercase(value@),
            !cookie_domain_valid(value@) ==> r is Err && r->Err_0.spec_reason()
                == AppConfigDocumentErrorReason::InvalidCookieDomain,
    {
        if !cookie_domain_is_valid(value) {
            return Err(AppConfigDocumentError::new(AppConfigDocumentErrorReason::InvalidCookieDomain));
        }
        Ok(AppCookieDomain(to_ascii_lowercase(value)))
    }

    /// Returns the normalized cookie domain.
    pub fn as_str(&self) -> (r: &str)
        ensures
            r@ == self@,
    {
        self.0.as_str()
    }

    /// Returns a copy of this domain.
    pub fn duplicate(&self) -> (r: Self)
        ensures
            r@ == self@,
    {
        AppCookieDomain(self.0.clone())
    }
}

/// Validated same-site cookie transport policy.
#[derive(Debug, Clone, Copy, PartialEq, Eq, Structural)]
pub enum AppCookieSameSitePolicy {
    /// Restrict cookies to same-site requests only.
    Strict,
    /// Allow top-level cross-site navigations while blocking ambient use.
    Lax,
    /// Allow cross-site cookie transport (`none` in config). Requires `Secure`.
    CrossSite,
}

/// The policy a config spelling names, if any.
pub open spec fn same_site_policy_outcome(s: Seq<char>) -> Result<AppCookieSameSitePolicy, AppConfigDocumentErrorReason> {
    if s == "strict"@ {
        Ok(AppCookieSameSitePolicy::Strict)
    } else if s == "lax"@ {
        Ok(AppCookieSameSitePolicy::Lax)
    } else if s == "none"@ {
        Ok(AppCookieSameSitePolicy::CrossSite)
    } else {
        Err(AppConfigDocumentErrorReason::InvalidCookieSameSitePolicy)
    }
}

impl AppCookieSameSitePolicy {
    /// Parses the config spelling of a policy: `strict`, `lax` or `none`,
    /// exactly.
    pub fn parse(value: &str) -> (r: Result<Self, AppConfigDocumentError>)
        ensures
            match same_site_policy_outcome(value@) {
                Ok(p) => r == Ok::<Self, AppConfigDocumentError>(p),
                Err(e) => r is Err && r->Err_0.spec_reason() == e,
            },
    {
        if same_text(value, "strict") {
            Ok(AppCookieSameSitePolicy::Strict)
        } else if same_text(value, "lax") {
            Ok(AppCookieSameSitePolicy::Lax)
        } else if same_text(value, "none") {
            Ok(AppCookieSameSitePolicy::CrossSite)
        } else {
            Err(AppConfigDocumentError::new(AppConfigDocumentErrorReason::InvalidCookieSameSitePolicy))
        }
    }
}

/// Cookie settings as they are read from the config document, before
/// validation.
#[derive(Debug, Clone, PartialEq, Eq)]
pub struct RawCookieConfig {
    /// Whether cookies carry `Secure`; absent means yes.
    pub secure: Option<bool>,
    /// The cookie domain override.
    pub domain: Option<String>,
    /// The same-site policy spelling; absent means `lax`.
    pub same_site_policy: Option<String>,
}

/// The outcome of validating raw cookie settings: the same-site spelling is
/// checked first, then that `none` comes with `secure`, then the domain.
pub open spec fn cookie_config_fault(secure: Option<bool>, domain: Option<Seq<char>>, same_site_policy: Option<Seq<char>>) -> Option<AppConfigDocumentErrorReason> {
    let secure = match secure {
        Some(b) => b,
        None => true,
    };
    let policy = match same_site_policy {
        Some(s) => same_site_policy_outcome(s),
        None => Ok(AppCookieSameSitePolicy::Lax),
    };
    match policy {
        Err(e) => Some(e),
        Ok(p) => if p == AppCookieSameSitePolicy::CrossSite && !secure {
            Some(AppConfigDocumentErrorReason::CookieSameSiteNoneRequiresSecure)
        } else {
            match domain {
                Some(d) => if cookie_domain_valid(d) {
                    None
                } else {
                    Some(AppConfigDocumentErrorReason::InvalidCookieDomain)
                },
                None => None,
            }
        },
    }
}

/// Standard app cookie/session transport config. Cross-site cookies are
/// always `Secure`.
#[derive(PartialEq, Eq)]
pub struct AppCookieConfig {
    secure: bool,
    domain: Option<AppCookieDomain>,
    same_site_policy: AppCookieSameSitePolicy,
}

impl AppCookieConfig {
    /// A cross-site policy is only held together with `Secure`.
    #[verifier::type_invariant]
    closed spec fn cross_site_is_secure(&self) -> bool {
        self.same_site_policy == AppCookieSameSitePolicy::CrossSite ==> self.secure
    }

    /// Whether cookies carry `Secure`.
    pub closed spec fn spec_secure(&self) -> bool {
        self.secure
    }

    /// The normalized cookie domain, if overridden.
    pub closed spec fn spec_domain(&self) -> Option<Seq<char>> {
        match self.domain {
            Some(d) => Some(d@),
            None => None,
        }
    }

    /// The same-site policy.
    pub closed spec fn spec_same_site_policy(&self) -> AppCookieSameSitePolicy {
        self.same_site_policy
    }

    /// Validates raw cookie settings: `secure` defaults to true and the
    /// same-site policy to `lax`; `none` requires `secure`; a domain must be
    /// valid and is lowercased.
    pub fn try_from_raw(raw: RawCookieConfig) -> (r: Result<Self, AppConfigDocumentError>)
        ensures
            match cookie_config_fault(raw.secure, optional_text(raw.domain), optional_text(raw.same_site_policy)) {
                Some(e) => r is Err && r->Err_0.spec_reason() == e,
                None => {
                    &&& r is Ok
                    &&& r->Ok_0.spec_secure() == match raw.secure {
                        Some(b) => b,
                        None => true,
                    }
                    &&& r->Ok_0.spec_same_site_policy() == match raw.same_site_policy {
                        Some(s) => same_site_policy_outcome(s@)->Ok_0,
                        None => AppCookieSameSitePolicy::Lax,
                    }
                    &&& r->Ok_0.spec_domain() == match raw.domain {
                        Some(d) => Some(ascii_lowercase(d@)),
                        None => None,
                    }
                },
            },
    {
        let secure = match raw.secure {
            Some(b) => b,
            None => true,
        };
        let same_site_policy = match &raw.same_site_policy {
            Some(s) => AppCookieSameSitePolicy::parse(s.as_str())?,
            None => AppCookieSameSitePolicy::Lax,
        };
        let cross_site = match same_site_policy {
            AppCookieSameSitePolicy::CrossSite => true,
            _ => false,
        };
        if cross_site && !secure {
            return Err(
                AppConfigDocumentError::new(AppConfigDocumentErrorReason::CookieSameSiteNoneRequiresSecure),
            );
        }
        let domain = match &raw.domain {
            Some(d) => Some(AppCookieDomain::new(d.as_str())?),
            None => None,
        };
        Ok(AppCookieConfig { secure, domain, same_site_policy })
    }

    /// Returns whether cookies must be emitted with the `Secure` attribute;
    /// always true under a cross-site policy.
    pub fn secure(&self) -> (r: bool)
        ensures
            r == self.spec_secure(),
            self.spec_same_site_policy() == AppCookieSameSitePolicy::CrossSite ==> r,
    {
        proof {
            use_type_invariant(self);
        }
        self.secure
    }

    /// Returns the optional cookie domain override.
    pub fn domain(&self) -> (r: Option<&AppCookieDomain>)
        ensures
            match r {
                Some(d) => self.spec_domain() == Some(d@),
                None => self.spec_domain() is None,
            },
    {
        self.domain.as_ref()
    }

    /// Returns the validated same-site policy.
    pub fn same_site_policy(&self) -> (r: AppCookieSameSitePolicy)
        ensures
            r == self.spec_same_site_policy(),
    {
        self.same_site_policy
    }
}

impl Clone for AppCookieConfig {
    fn clone(&self) -> (r: Self)
        ensures
            r.spec_secure() == self.spec_secure(),
            r.spec_domain() == self.spec_domain(),
            r.spec_same_site_policy() == self.spec_same_site_policy(),
    {
        proof {
            use_type_invariant(self);
        }
        let domain = match &self.domain {
            Some(d) => Some(d.duplicate()),
            None => None,
        };
        AppCookieConfig { secure: self.secure, domain, same_site_policy: self.same_site_policy }
    }
}

/// The name of a same-site policy: the value of the `SameSite` cookie
/// attribute it stands for, in lowercase.
pub open spec fn same_site_policy_name(p: AppCookieSameSitePolicy) -> Seq<char> {
    match p {
        AppCookieSameSitePolicy::Strict => "strict"@,
        AppCookieSameSitePolicy::Lax => "lax"@,
        AppCookieSameSitePolicy::CrossSite => "none"@,
    }
}

/// A same-site spelling parses to the policy of that name, and only the
/// name of a policy parses.
pub proof fn lemma_same_site_policy_parses_its_name(s: Seq<char>, p: AppCookieSameSitePolicy)
    ensures
        same_site_policy_outcome(s) == Ok::<AppCookieSameSitePolicy, AppConfigDocumentErrorReason>(p)
            <==> s == same_site_policy_name(p),
        same_site_policy_outcome(s) is Err <==> (forall|q: AppCookieSameSitePolicy| s != #[trigger] same_site_policy_name(q)),
{
    reveal_strlit("strict");
    reveal_strlit("lax");
    reveal_strlit("none");
    if same_site_policy_outcome(s) is Ok {
        let q = same_site_policy_outcome(s)->Ok_0;
        assert(s == same_site_policy_name(q));
    }
}

} // verus!
