//! Desired-state DNS model for Hephaestus-managed servers.
use vstd::prelude::*;

use crate::hephaestus::health::HephaestusDomainError;
use crate::text::{
    all_in_class, ascii_lowercase, byte_len, chars_of, class_allows, ends_with, has_no_whitespace,
    is_whitespace, lemma_ascii_lower, lemma_ascii_lowercase_byte_len,
    lemma_ascii_lowercase_idempotent, lemma_ascii_lowercase_index, lemma_ends_with_char,
    lemma_starts_with_char, lemma_trim_no_whitespace, range_exceeds_bytes, range_in_class,
    starts_with, to_ascii_lowercase, trim, trim_bounds, view_result, CharClass, Duplicate,
    ip_address_parses, parses_as_ip_address,
};
use vstd::string::StrSliceExecFns;

verus! {

/// Byte bound of a DNS record name.
pub const MAX_DNS_NAME_BYTES: usize = 253;
/// Byte bound of a DNS record target.
pub const MAX_DNS_TARGET_BYTES: usize = 45;
/// Largest number of records in a desired DNS state.
pub const MAX_DNS_RECORDS: usize = 256;

/// DNS record kind managed by Hephaestus.
#[derive(Debug, Clone, Copy, PartialEq, Eq, Structural)]
pub enum HephaestusDnsRecordKind {
    /// IPv4 address record.
    A,
    /// IPv6 address record.
    Aaaa,
}

/// DNS record visibility used by the fleet dashboard.
#[derive(Debug, Clone, Copy, PartialEq, Eq, Structural)]
pub enum HephaestusDnsRecordVisibility {
    /// Public DNS entry, usually `service.example.com -> server public IP`.
    Public,
    /// Private DNS entry, usually `internal name -> private IP`.
    Internal,
}

/// `s` without its trailing dots.
pub open spec fn trim_end_dots(s: Seq<char>) -> Seq<char>
    decreases s.len(),
{
    if s.len() > 0 && s.last() == '.' {
        trim_end_dots(s.drop_last())
    } else {
        s
    }
}

/// Whether `s` holds two consecutive dots.
pub open spec fn has_double_dot(s: Seq<char>) -> bool {
    exists|i: int| 0 <= i < s.len() - 1 && #[trigger] s[i] == '.' && s[i + 1] == '.'
}

/// The outcome of validating a DNS record name: trim whitespace, then
/// trailing dots; refuse an empty name, one of more than
/// [`MAX_DNS_NAME_BYTES`] bytes, and one that begins or ends with `-` or `.`,
/// holds `..` or a character outside letters, digits and `. - _`; otherwise
/// the name in ASCII lowercase.
pub open spec fn dns_name_outcome(s: Seq<char>) -> Result<Seq<char>, HephaestusDomainError> {
    let t = trim_end_dots(trim(s));
    if t.len() == 0 {
        Err(HephaestusDomainError::Empty)
    } else if byte_len(t) > MAX_DNS_NAME_BYTES {
        Err(HephaestusDomainError::TooLong)
    } else if starts_with(t, seq!['-']) || ends_with(t, seq!['-']) || starts_with(t, seq!['.'])
        || ends_with(t, seq!['.']) || has_double_dot(t) || !all_in_class(t, CharClass::DnsName) {
        Err(HephaestusDomainError::InvalidCharacter)
    } else {
        Ok(ascii_lowercase(t))
    }
}

/// Trailing dots stop at the last character that is not a dot.
proof fn lemma_trim_end_dots_at(s: Seq<char>, j: int)
    requires
        0 <= j <= s.len(),
        forall|k: int| j <= k < s.len() ==> #[trigger] s[k] == '.',
        j == 0 || s[j - 1] != '.',
    ensures
        trim_end_dots(s) == s.subrange(0, j),
    decreases s.len() - j,
{
    if j == s.len() {
        assert(s.subrange(0, j) =~= s);
    } else {
        let t = s.drop_last();
        assert forall|k: int| j <= k < t.len() implies #[trigger] t[k] == '.' by {
            assert(t[k] == s[k]);
        }
        lemma_trim_end_dots_at(t, j);
        assert(t.subrange(0, j) =~= s.subrange(0, j));
    }
}

/// DNS name normalization is idempotent: the normalized form of an accepted
/// name is accepted again and normalizes to itself.
pub proof fn lemma_dns_name_normalization_idempotent(s: Seq<char>)
    requires
        dns_name_outcome(s) is Ok,
    ensures
        dns_name_outcome(dns_name_outcome(s)->Ok_0) == dns_name_outcome(s),
{
    let t = trim_end_dots(trim(s));
    let n = ascii_lowercase(t);
    lemma_ascii_lowercase_index(t);
    lemma_ascii_lowercase_byte_len(t);
    lemma_ascii_lowercase_idempotent(t);
    assert forall|i: int| 0 <= i < n.len() implies class_allows(CharClass::DnsName, #[trigger] n[i])
        && !is_whitespace(n[i]) && (n[i] == '.' <==> t[i] == '.') && (n[i] == '-' <==> t[i] == '-') by {
        lemma_ascii_lower(t[i]);
    }
    assert(has_no_whitespace(n));
    lemma_trim_no_whitespace(n);
    lemma_starts_with_char(t, '-');
    lemma_starts_with_char(t, '.');
    lemma_ends_with_char(t, '-');
    lemma_ends_with_char(t, '.');
    lemma_starts_with_char(n, '-');
    lemma_starts_with_char(n, '.');
    lemma_ends_with_char(n, '-');
    lemma_ends_with_char(n, '.');
    assert(n[n.len() - 1] != '.');
    assert(trim_end_dots(n) == n);
    if has_double_dot(n) {
        let i = choose|i: int| 0 <= i < n.len() - 1 && #[trigger] n[i] == '.' && n[i + 1] == '.';
        assert(t[i] == '.' && t[i + 1] == '.');
        assert(has_double_dot(t));
    }
    assert(all_in_class(n, CharClass::DnsName));
}

/// Fully-qualified or internal DNS record name.
#[derive(Debug, Clone, PartialEq, Eq)]
pub struct HephaestusDnsRecordName(String);

impl View for HephaestusDnsRecordName {
    type V = Seq<char>;

    closed spec fn view(&self) -> Seq<char> {
        self.0@
    }
}

impl Duplicate for HephaestusDnsRecordName {
    fn duplicate(&self) -> (r: Self) {
        HephaestusDnsRecordName(self.0.clone())
    }
}

impl HephaestusDnsRecordName {
    /// Constructs a validated DNS record name, normalized to lowercase
    /// without a trailing dot.
    #[verifier::loop_isolation(false)]
    pub fn new(value: &str) -> (r: Result<Self, HephaestusDomainError>)
        ensures
            view_result(r) == dns_name_outcome(value@),
    {
        let chars = chars_of(value);
        let (start, end0) = trim_bounds(&chars);
        let mut end = end0;
        while end > start && chars[end - 1] == '.'
            invariant
                start <= end <= end0 <= chars@.len(),
                forall|k: int| end <= k < end0 ==> #[trigger] chars@[k] == '.',
            decreases end,
        {
            end = end - 1;
        }
        let ghost trimmed = chars@.subrange(start as int, end0 as int);
        proof {
            assert forall|k: int| end - start <= k < trimmed.len() implies #[trigger] trimmed[k]
                == '.' by {
                assert(trimmed[k] == chars@[k + start]);
            }
            if end > start {
                assert(trimmed[end - start - 1] == chars@[end - 1]);
            }
            lemma_trim_end_dots_at(trimmed, end - start);
            assert(trimmed.subrange(0, end - start) =~= chars@.subrange(start as int, end as int));
        }
        let ghost t = chars@.subrange(start as int, end as int);
        if start == end {
            return Err(HephaestusDomainError::Empty);
        }
        if range_exceeds_bytes(&chars, start, end, MAX_DNS_NAME_BYTES) {
            return Err(HephaestusDomainError::TooLong);
        }
        assert(t[0] == chars@[start as int]);
        assert(t[t.len() - 1] == chars@[end - 1]);
        proof {
            lemma_starts_with_char(t, '-');
            lemma_ends_with_char(t, '-');
            lemma_starts_with_char(t, '.');
            lemma_ends_with_char(t, '.');
        }
        if chars[start] == '-' || chars[end - 1] == '-' || chars[start] == '.' || chars[end - 1]
            == '.' {
            return Err(HephaestusDomainError::InvalidCharacter);
        }
        let mut i = start;
        while i + 1 < end
            invariant
                start <= i < end <= chars@.len(),
                t == chars@.subrange(start as int, end as int),
                forall|k: int| start <= k < i ==> !(#[trigger] chars@[k] == '.' && chars@[k + 1] == '.'),
            decreases end - i,
        {
            if chars[i] == '.' && chars[i + 1] == '.' {
                assert(t[i - start] == '.' && t[i - start + 1] == '.');
                assert(has_double_dot(t));
                return Err(HephaestusDomainError::InvalidCharacter);
            }
            i = i + 1;
        }
        assert(!has_double_dot(t)) by {
            assert forall|k: int| 0 <= k < t.len() - 1 implies !(#[trigger] t[k] == '.' && t[k + 1] == '.') by {
                assert(t[k] == chars@[k + start]);
                assert(t[k + 1] == chars@[k + start + 1]);
            }
        }
        if !range_in_class(&chars, start, end, CharClass::DnsName) {
            return Err(HephaestusDomainError::InvalidCharacter);
        }
        let kept = value.substring_char(start, end);
        Ok(HephaestusDnsRecordName(to_ascii_lowercase(kept)))
    }

    /// Returns the normalized DNS name.
    pub fn as_str(&self) -> (r: &str)
        ensures
            r@ == self@,
    {
        self.0.as_str()
    }
}

/// DNS record target address.
#[derive(Clone, PartialEq, Eq, Debug)]
pub struct HephaestusDnsRecordTarget(String);

impl View for HephaestusDnsRecordTarget {
    type V = Seq<char>;

    closed spec fn view(&self) -> Seq<char> {
        self.0@
    }
}

impl Duplicate for HephaestusDnsRecordTarget {
    fn duplicate(&self) -> (r: Self) {
        HephaestusDnsRecordTarget(self.0.clone())
    }
}

/// What a DNS target text yields: once trimmed it must be non-empty, at most
/// [`MAX_DNS_TARGET_BYTES`] bytes long and parse as an IPv4 or IPv6 address;
/// the trimmed text is kept.
pub open spec fn dns_target_outcome(s: Seq<char>) -> Result<Seq<char>, HephaestusDomainError> {
    let t = trim(s);
    if t.len() == 0 {
        Err(HephaestusDomainError::Empty)
    } else if byte_len(t) > MAX_DNS_TARGET_BYTES {
        Err(HephaestusDomainError::TooLong)
    } else if !parses_as_ip_address(t) {
        Err(HephaestusDomainError::InvalidCharacter)
    } else {
        Ok(t)
    }
}

impl HephaestusDnsRecordTarget {
    /// Constructs a validated IP target.
    pub fn new(value: &str) -> (r: Result<Self, HephaestusDomainError>)
        ensures
            view_result(r) == dns_target_outcome(value@),
    {
        let chars = chars_of(value);
        let (start, end) = trim_bounds(&chars);
        if start == end {
            return Err(HephaestusDomainError::Empty);
        }
        if range_exceeds_bytes(&chars, start, end, MAX_DNS_TARGET_BYTES) {
            return Err(HephaestusDomainError::TooLong);
        }
        let t = value.substring_char(start, end);
        if !ip_address_parses(t) {
            return Err(HephaestusDomainError::InvalidCharacter);
        }
        Ok(HephaestusDnsRecordTarget(t.to_owned()))
    }

    /// Returns the target IP address.
    pub fn as_str(&self) -> (r: &str)
        ensures
            r@ == self@,
    {
        self.0.as_str()
    }
}

/// One desired DNS record.
#[derive(Debug, Clone, PartialEq, Eq)]
pub struct HephaestusDnsRecord {
    name: HephaestusDnsRecordName,
    kind: HephaestusDnsRecordKind,
    target: HephaestusDnsRecordTarget,
    visibility: HephaestusDnsRecordVisibility,
}

impl Duplicate for HephaestusDnsRecord {
    fn duplicate(&self) -> (r: Self) {
        HephaestusDnsRecord {
            name: self.name.duplicate(),
            kind: self.kind,
            target: self.target.duplicate(),
            visibility: self.visibility,
        }
    }
}

impl HephaestusDnsRecord {
    /// The record name.
    pub closed spec fn spec_name(&self) -> HephaestusDnsRecordName {
        self.name
    }

    /// The record kind.
    pub closed spec fn spec_kind(&self) -> HephaestusDnsRecordKind {
        self.kind
    }

    /// The record target.
    pub closed spec fn spec_target(&self) -> HephaestusDnsRecordTarget {
        self.target
    }

    /// The record visibility.
    pub closed spec fn spec_visibility(&self) -> HephaestusDnsRecordVisibility {
        self.visibility
    }

    /// Constructs a desired DNS record.
    pub fn new(
        name: HephaestusDnsRecordName,
        kind: HephaestusDnsRecordKind,
        target: HephaestusDnsRecordTarget,
        visibility: HephaestusDnsRecordVisibility,
    ) -> (r: Self)
        ensures
            r.spec_name() == name,
            r.spec_kind() == kind,
            r.spec_target() == target,
            r.spec_visibility() == visibility,
    {
        HephaestusDnsRecord { name, kind, target, visibility }
    }

    /// Returns the DNS record name.
    pub fn name(&self) -> (r: &HephaestusDnsRecordName)
        ensures
            *r == self.spec_name(),
    {
        &self.name
    }

    /// Returns the DNS record kind.
    pub fn kind(&self) -> (r: HephaestusDnsRecordKind)
        ensures
            r == self.spec_kind(),
    {
        self.kind
    }

    /// Returns the DNS target address.
    pub fn target(&self) -> (r: &HephaestusDnsRecordTarget)
        ensures
            *r == self.spec_target(),
    {
        &self.target
    }

    /// Returns whether this record is public or internal.
    pub fn visibility(&self) -> (r: HephaestusDnsRecordVisibility)
        ensures
            r == self.spec_visibility(),
    {
        self.visibility
    }
}

/// Complete desired DNS state for Hephaestus-managed names.
#[derive(Debug, Clone, PartialEq, Eq)]
pub struct HephaestusDnsDesiredState {
    records: Vec<HephaestusDnsRecord>,
}

impl HephaestusDnsDesiredState {
    /// The desired records.
    pub closed spec fn spec_records(&self) -> Seq<HephaestusDnsRecord> {
        self.records@
    }

    /// Constructs a desired DNS state document of at most
    /// [`MAX_DNS_RECORDS`] records.
    pub fn new(records: Vec<HephaestusDnsRecord>) -> (r: Result<Self, HephaestusDomainError>)
        ensures
            records@.len() > MAX_DNS_RECORDS ==> r == Err::<Self, HephaestusDomainError>(
                HephaestusDomainError::TooLong,
            ),
            records@.len() <= MAX_DNS_RECORDS ==> r is Ok && r->Ok_0.spec_records() == records@,
    {
        if records.len() > MAX_DNS_RECORDS {
            return Err(HephaestusDomainError::TooLong);
        }
        Ok(HephaestusDnsDesiredState { records })
    }

    /// Returns desired DNS records.
    pub fn records(&self) -> (r: &[HephaestusDnsRecord])
        ensures
            r@ == self.spec_records(),
    {
        self.records.as_slice()
    }
}

/// The snake-case name of a DNS record kind, as the serialized form writes it.
pub open spec fn dns_record_kind_name(v: HephaestusDnsRecordKind) -> Seq<char> {
    match v {
        HephaestusDnsRecordKind::A => "a"@,
        HephaestusDnsRecordKind::Aaaa => "aaaa"@,
    }
}

/// The snake-case name of a DNS record visibility, as the serialized form writes it.
pub open spec fn dns_record_visibility_name(v: HephaestusDnsRecordVisibility) -> Seq<char> {
    match v {
        HephaestusDnsRecordVisibility::Public => "public"@,
        HephaestusDnsRecordVisibility::Internal => "internal"@,
    }
}

} // verus!
