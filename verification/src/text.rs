//! Character-level model of the text rules shared by every validated value.
//!
//! Strings are modelled by their `Seq<char>` view. Byte lengths are the
//! lengths of the UTF-8 encoding, as `str::len` reports them.
use vstd::prelude::*;
use vstd::utf8::{encode_scalar, encode_utf8};
use vstd::std_specs::iter::IteratorSpec;
use vstd::string::StrSliceExecFns;

verus! {

broadcast use vstd::string::group_string_axioms;

/// Whether `c` has the Unicode `White_Space` property, which is what
/// `char::is_whitespace` and `str::trim` test.
pub open spec fn is_whitespace(c: char) -> bool {
    let u = c as u32;
    ||| 0x09 <= u <= 0x0d
    ||| u == 0x20
    ||| u == 0x85
    ||| u == 0xa0
    ||| u == 0x1680
    ||| 0x2000 <= u <= 0x200a
    ||| u == 0x2028
    ||| u == 0x2029
    ||| u == 0x202f
    ||| u == 0x205f
    ||| u == 0x3000
}

/// `s` without its leading whitespace.
pub open spec fn trim_start(s: Seq<char>) -> Seq<char>
    decreases s.len(),
{
    if s.len() > 0 && is_whitespace(s[0]) {
        trim_start(s.drop_first())
    } else {
        s
    }
}

/// `s` without its trailing whitespace.
pub open spec fn trim_end(s: Seq<char>) -> Seq<char>
    decreases s.len(),
{
    if s.len() > 0 && is_whitespace(s.last()) {
        trim_end(s.drop_last())
    } else {
        s
    }
}

/// `s` without leading and trailing whitespace, as `str::trim` gives it.
pub open spec fn trim(s: Seq<char>) -> Seq<char> {
    trim_end(trim_start(s))
}

/// Number of bytes of the UTF-8 encoding of `s`, as `str::len` gives it.
pub open spec fn byte_len(s: Seq<char>) -> nat {
    encode_utf8(s).len()
}

/// Whether no character of `s` is whitespace.
pub open spec fn has_no_whitespace(s: Seq<char>) -> bool {
    forall|i: int| 0 <= i < s.len() ==> !is_whitespace(#[trigger] s[i])
}

/// Whether `s` begins with `prefix`.
pub open spec fn starts_with(s: Seq<char>, prefix: Seq<char>) -> bool {
    prefix.len() <= s.len() && s.subrange(0, prefix.len() as int) == prefix
}

/// Whether `s` ends with `suffix`.
pub open spec fn ends_with(s: Seq<char>, suffix: Seq<char>) -> bool {
    suffix.len() <= s.len() && s.subrange(s.len() - suffix.len(), s.len() as int) == suffix
}

/// Whether `c` occurs in `s`.
pub open spec fn contains_char(s: Seq<char>, c: char) -> bool {
    exists|i: int| 0 <= i < s.len() && s[i] == c
}

/// ASCII letters and digits.
pub open spec fn is_ascii_alphanumeric(c: char) -> bool {
    ('a' <= c && c <= 'z') || ('A' <= c && c <= 'Z') || ('0' <= c && c <= '9')
}

/// ASCII lowercase letters.
pub open spec fn is_ascii_lowercase(c: char) -> bool {
    'a' <= c && c <= 'z'
}

/// ASCII uppercase letters.
pub open spec fn is_ascii_uppercase(c: char) -> bool {
    'A' <= c && c <= 'Z'
}

/// ASCII digits.
pub open spec fn is_ascii_digit(c: char) -> bool {
    '0' <= c && c <= '9'
}

/// ASCII hexadecimal digits of either case.
pub open spec fn is_ascii_hexdigit(c: char) -> bool {
    is_ascii_digit(c) || ('a' <= c && c <= 'f') || ('A' <= c && c <= 'F')
}

/// Printable ASCII other than space.
pub open spec fn is_ascii_graphic(c: char) -> bool {
    '!' <= c && c <= '~'
}

/// The ASCII lowercase of `c`; other characters are kept.
pub open spec fn ascii_lower(c: char) -> char {
    if is_ascii_uppercase(c) {
        ((c as u32) + 32) as char
    } else {
        c
    }
}

/// A number that identifies a three-character code string.
pub open spec fn catalog_code(s: Seq<char>) -> int {
    (s[0] as int) * 65536 + (s[1] as int) * 256 + (s[2] as int)
}

/// `s` with every ASCII uppercase letter lowered.
pub open spec fn ascii_lowercase(s: Seq<char>) -> Seq<char> {
    s.map_values(|c: char| ascii_lower(c))
}

/// The character sets that validated values may be made of.
#[derive(Clone, Copy, PartialEq, Eq, Debug)]
pub enum CharClass {
    /// Letters, digits and `- _ . :`.
    Identifier,
    /// Letters, digits and `- _ . : /`.
    ServiceIdentifier,
    /// Letters, digits and `. - _`.
    DnsName,
    /// Letters, digits and `. - :`.
    Host,
    /// Letters, digits and `. - _ / : ? & = % + #`.
    Url,
    /// Letters, digits and `space . - _ / : @ + = , #`.
    Detail,
    /// Letters, digits and `- _`.
    Base64Url,
    /// Hexadecimal digits.
    HexDigit,
    /// Tab and printable ASCII including space.
    LogLine,
    /// Letters, digits and `- _ . @ :`.
    UnitName,
    /// Printable ASCII and space.
    PrintableText,
    /// Letters, digits and `- _ .`.
    ProbeName,
    /// Lowercase letters, digits and `-`.
    LowercaseToken,
    /// Uppercase letters.
    UppercaseToken,
    /// Lowercase letters, digits and `- .`.
    Hostname,
    /// Hexadecimal digits and `. :`.
    IpAddress,
    /// Letters, digits and `space - _ . : / ( ) ,`.
    SafeLabel,
    /// Lowercase letters, digits and `- _ . /`.
    RepositoryName,
    /// Lowercase letters, digits and `: - _`.
    Digest,
    /// Letters, digits and `- _ . : /`.
    Urn,
    /// Letters, digits and `. - _ / : @ +`.
    DockerImage,
    /// Letters, digits and `. - _ / : @ + = , ? &`.
    DockerArgument,
    /// Letters, digits and `. - _ / : =`.
    PathMount,
    /// Letters, digits and `space + / = - _`.
    SshKey,
    /// Letters, digits and `. - _ / : @ + = , space`.
    MetadataValue,
}

/// Whether class `k` admits character `c`.
pub open spec fn class_allows(k: CharClass, c: char) -> bool {
    match k {
        CharClass::Identifier => is_ascii_alphanumeric(c) || c == '-' || c == '_' || c == '.'
            || c == ':',
        CharClass::ServiceIdentifier => is_ascii_alphanumeric(c) || c == '-' || c == '_' || c
            == '.' || c == ':' || c == '/',
        CharClass::DnsName => is_ascii_alphanumeric(c) || c == '.' || c == '-' || c == '_',
        CharClass::Host => is_ascii_alphanumeric(c) || c == '.' || c == '-' || c == ':',
        CharClass::Url => is_ascii_alphanumeric(c) || c == '.' || c == '-' || c == '_' || c == '/'
            || c == ':' || c == '?' || c == '&' || c == '=' || c == '%' || c == '+' || c == '#',
        CharClass::Detail => is_ascii_alphanumeric(c) || c == ' ' || c == '.' || c == '-' || c
            == '_' || c == '/' || c == ':' || c == '@' || c == '+' || c == '=' || c == ',' || c
            == '#',
        CharClass::Base64Url => is_ascii_alphanumeric(c) || c == '-' || c == '_',
        CharClass::HexDigit => is_ascii_hexdigit(c),
        CharClass::LogLine => c == '\t' || c == ' ' || is_ascii_graphic(c),
        CharClass::UnitName => is_ascii_alphanumeric(c) || c == '-' || c == '_' || c == '.' || c
            == '@' || c == ':',
        CharClass::PrintableText => is_ascii_graphic(c) || c == ' ',
        CharClass::ProbeName => is_ascii_alphanumeric(c) || c == '-' || c == '_' || c == '.',
        CharClass::LowercaseToken => is_ascii_lowercase(c) || is_ascii_digit(c) || c == '-',
        CharClass::UppercaseToken => is_ascii_uppercase(c),
        CharClass::Hostname => is_ascii_lowercase(c) || is_ascii_digit(c) || c == '-' || c == '.',
        CharClass::IpAddress => is_ascii_hexdigit(c) || c == '.' || c == ':',
        CharClass::SafeLabel => is_ascii_alphanumeric(c) || c == ' ' || c == '-' || c == '_' || c
            == '.' || c == ':' || c == '/' || c == '(' || c == ')' || c == ',',
        CharClass::RepositoryName => is_ascii_lowercase(c) || is_ascii_digit(c) || c == '-' || c
            == '_' || c == '.' || c == '/',
        CharClass::Digest => is_ascii_lowercase(c) || is_ascii_digit(c) || c == ':' || c == '-'
            || c == '_',
        CharClass::Urn => is_ascii_alphanumeric(c) || c == '-' || c == '_' || c == '.' || c == ':'
            || c == '/',
        CharClass::DockerImage => is_ascii_alphanumeric(c) || c == '.' || c == '-' || c == '_' || c
            == '/' || c == ':' || c == '@' || c == '+',
        CharClass::DockerArgument => is_ascii_alphanumeric(c) || c == '.' || c == '-' || c == '_'
            || c == '/' || c == ':' || c == '@' || c == '+' || c == '=' || c == ',' || c == '?'
            || c == '&',
        CharClass::PathMount => is_ascii_alphanumeric(c) || c == '.' || c == '-' || c == '_' || c
            == '/' || c == ':' || c == '=',
        CharClass::SshKey => is_ascii_alphanumeric(c) || c == ' ' || c == '+' || c == '/' || c
            == '=' || c == '-' || c == '_',
        CharClass::MetadataValue => is_ascii_alphanumeric(c) || c == '.' || c == '-' || c == '_'
            || c == '/' || c == ':' || c == '@' || c == '+' || c == '=' || c == ',' || c == ' ',
    }
}

/// Whether every character of `s` is admitted by class `k`.
pub open spec fn all_in_class(s: Seq<char>, k: CharClass) -> bool {
    forall|i: int| 0 <= i < s.len() ==> class_allows(k, #[trigger] s[i])
}

/// Why a text value was refused.
#[derive(Clone, Copy, PartialEq, Eq, Debug)]
pub enum TextFault {
    /// Nothing was left after trimming.
    Empty,
    /// The trimmed value had more bytes than allowed.
    TooLong,
    /// The trimmed value held a character outside its class.
    InvalidCharacter,
}

/// The outcome of validating a bounded token: trim, then refuse an empty
/// value, then one of more than `max` bytes, then one with a character
/// outside `k`; otherwise the trimmed value.
pub open spec fn token_outcome(s: Seq<char>, max: nat, k: CharClass) -> Result<Seq<char>, TextFault> {
    let t = trim(s);
    if t.len() == 0 {
        Err(TextFault::Empty)
    } else if byte_len(t) > max {
        Err(TextFault::TooLong)
    } else if !all_in_class(t, k) {
        Err(TextFault::InvalidCharacter)
    } else {
        Ok(t)
    }
}

/// What a list of texts yields when each must be a token: the first
/// refused text, from the front, decides the fault; otherwise the trimmed
/// texts in order.
pub open spec fn tokens_outcome(items: Seq<Seq<char>>, max: nat, k: CharClass) -> Result<
    Seq<Seq<char>>,
    TextFault,
>
    decreases items.len(),
{
    if items.len() == 0 {
        Ok(Seq::empty())
    } else {
        match tokens_outcome(items.drop_last(), max, k) {
            Err(f) => Err(f),
            Ok(ts) => match token_outcome(items.last(), max, k) {
                Err(f) => Err(f),
                Ok(t) => Ok(ts.push(t)),
            },
        }
    }
}

/// A fault among the first texts of a list is the fault of the whole list.
pub proof fn lemma_tokens_outcome_prefix_fault(items: Seq<Seq<char>>, n: int, max: nat, k: CharClass)
    requires
        0 <= n <= items.len(),
        tokens_outcome(items.take(n), max, k) is Err,
    ensures
        tokens_outcome(items, max, k) == tokens_outcome(items.take(n), max, k),
    decreases items.len() - n,
{
    if n == items.len() {
        assert(items.take(n) =~= items);
    } else {
        assert(items.drop_last().take(n) =~= items.take(n));
        lemma_tokens_outcome_prefix_fault(items.drop_last(), n, max, k);
    }
}

/// Extending a list by one text extends its outcome by that text's.
pub proof fn lemma_tokens_outcome_step(items: Seq<Seq<char>>, i: int, max: nat, k: CharClass)
    requires
        0 <= i < items.len(),
    ensures
        tokens_outcome(items.take(i + 1), max, k) == match tokens_outcome(items.take(i), max, k) {
            Err(f) => Err(f),
            Ok(ts) => match token_outcome(items[i], max, k) {
                Err(f) => Err(f),
                Ok(t) => Ok(ts.push(t)),
            },
        },
{
    assert(items.take(i + 1).drop_last() =~= items.take(i));
    assert(items.take(i + 1).last() == items[i]);
}

/// What a list yields when `f` converts each item: the first refused item,
/// from the front, decides the error; otherwise the converted items in
/// order.
pub open spec fn each_outcome<T, U, E>(items: Seq<T>, f: spec_fn(T) -> Result<U, E>) -> Result<Seq<U>, E>
    decreases items.len(),
{
    if items.len() == 0 {
        Ok(Seq::empty())
    } else {
        match each_outcome(items.drop_last(), f) {
            Err(e) => Err(e),
            Ok(us) => match f(items.last()) {
                Err(e) => Err(e),
                Ok(u) => Ok(us.push(u)),
            },
        }
    }
}

/// An error among the first items of a list is the error of the whole list.
pub proof fn lemma_each_outcome_prefix_fault<T, U, E>(items: Seq<T>, n: int, f: spec_fn(T) -> Result<U, E>)
    requires
        0 <= n <= items.len(),
        each_outcome(items.take(n), f) is Err,
    ensures
        each_outcome(items, f) == each_outcome(items.take(n), f),
    decreases items.len() - n,
{
    if n == items.len() {
        assert(items.take(n) =~= items);
    } else {
        assert(items.drop_last().take(n) =~= items.take(n));
        lemma_each_outcome_prefix_fault(items.drop_last(), n, f);
    }
}

/// Extending a list by one item extends its outcome by that item's.
pub proof fn lemma_each_outcome_step<T, U, E>(items: Seq<T>, i: int, f: spec_fn(T) -> Result<U, E>)
    requires
        0 <= i < items.len(),
    ensures
        each_outcome(items.take(i + 1), f) == match each_outcome(items.take(i), f) {
            Err(e) => Err(e),
            Ok(us) => match f(items[i]) {
                Err(e) => Err(e),
                Ok(u) => Ok(us.push(u)),
            },
        },
{
    assert(items.take(i + 1).drop_last() =~= items.take(i));
    assert(items.take(i + 1).last() == items[i]);
}

/// An accepted list keeps its length.
pub proof fn lemma_each_outcome_len<T, U, E>(items: Seq<T>, f: spec_fn(T) -> Result<U, E>)
    requires
        each_outcome(items, f) is Ok,
    ensures
        each_outcome(items, f)->Ok_0.len() == items.len(),
    decreases items.len(),
{
    if items.len() > 0 {
        lemma_each_outcome_len(items.drop_last(), f);
    }
}

/// A list whose every text is accepted unchanged is accepted unchanged.
pub proof fn lemma_tokens_outcome_fixed(items: Seq<Seq<char>>, max: nat, k: CharClass)
    requires
        forall|i: int| 0 <= i < items.len() ==> token_outcome(#[trigger] items[i], max, k) == Ok::<Seq<char>, TextFault>(items[i]),
    ensures
        tokens_outcome(items, max, k) == Ok::<Seq<Seq<char>>, TextFault>(items),
    decreases items.len(),
{
    if items.len() > 0 {
        lemma_tokens_outcome_fixed(items.drop_last(), max, k);
        assert(token_outcome(items[items.len() - 1], max, k) == Ok::<Seq<char>, TextFault>(items.last()));
        assert(items.drop_last().push(items.last()) =~= items);
    } else {
        assert(items =~= Seq::<Seq<char>>::empty());
    }
}

/// A list whose every item is accepted unchanged is accepted unchanged.
pub proof fn lemma_each_outcome_fixed<T, E>(items: Seq<T>, f: spec_fn(T) -> Result<T, E>)
    requires
        forall|i: int| 0 <= i < items.len() ==> f(#[trigger] items[i]) == Ok::<T, E>(items[i]),
    ensures
        each_outcome(items, f) == Ok::<Seq<T>, E>(items),
    decreases items.len(),
{
    if items.len() > 0 {
        lemma_each_outcome_fixed(items.drop_last(), f);
        assert(f(items[items.len() - 1]) == Ok::<T, E>(items.last()));
        assert(items.drop_last().push(items.last()) =~= items);
    } else {
        assert(items =~= Seq::<T>::empty());
    }
}

/// A list of tokens that is accepted is accepted again, unchanged.
pub proof fn lemma_tokens_outcome_idempotent(items: Seq<Seq<char>>, max: nat, k: CharClass)
    requires
        tokens_outcome(items, max, k) is Ok,
    ensures
        tokens_outcome(tokens_outcome(items, max, k)->Ok_0, max, k) == tokens_outcome(items, max, k),
    decreases items.len(),
{
    if items.len() > 0 {
        let ts = tokens_outcome(items, max, k)->Ok_0;
        let ts0 = tokens_outcome(items.drop_last(), max, k)->Ok_0;
        lemma_tokens_outcome_idempotent(items.drop_last(), max, k);
        lemma_token_outcome_idempotent(items.last(), max, k);
        assert(ts.drop_last() =~= ts0);
    } else {
        assert(tokens_outcome(items, max, k)->Ok_0 =~= Seq::<Seq<char>>::empty());
    }
}

/// A list is accepted again, unchanged, when each accepted item is.
pub proof fn lemma_each_outcome_idempotent<T, E>(items: Seq<T>, f: spec_fn(T) -> Result<T, E>)
    requires
        each_outcome(items, f) is Ok,
        forall|x: T| #[trigger] f(x) is Ok ==> f(f(x)->Ok_0) == f(x),
    ensures
        each_outcome(each_outcome(items, f)->Ok_0, f) == each_outcome(items, f),
    decreases items.len(),
{
    if items.len() > 0 {
        let us = each_outcome(items, f)->Ok_0;
        let us0 = each_outcome(items.drop_last(), f)->Ok_0;
        lemma_each_outcome_idempotent(items.drop_last(), f);
        assert(f(items.last()) is Ok);
        assert(us.drop_last() =~= us0);
    } else {
        assert(each_outcome(items, f)->Ok_0 =~= Seq::<T>::empty());
    }
}

/// The view of a `Result` that carries a `String`.
pub open spec fn string_result_view<E>(r: Result<String, E>) -> Result<Seq<char>, E> {
    match r {
        Ok(v) => Ok(v@),
        Err(e) => Err(e),
    }
}

/// The view of a `Result` whose success value has a view.
pub open spec fn view_result<T: View, E>(r: Result<T, E>) -> Result<T::V, E> {
    match r {
        Ok(v) => Ok(v@),
        Err(e) => Err(e),
    }
}

/// Whether `c` is whitespace in the sense of [`is_whitespace`].
pub fn char_is_whitespace(c: char) -> (r: bool)
    ensures
        r == is_whitespace(c),
{
    let u = c as u32;
    (0x09 <= u && u <= 0x0d) || u == 0x20 || u == 0x85 || u == 0xa0 || u == 0x1680 || (0x2000
        <= u && u <= 0x200a) || u == 0x2028 || u == 0x2029 || u == 0x202f || u == 0x205f || u
        == 0x3000
}

/// Whether class `k` admits `c`.
pub fn char_in_class(k: CharClass, c: char) -> (r: bool)
    ensures
        r == class_allows(k, c),
{
    let alnum = ('a' <= c && c <= 'z') || ('A' <= c && c <= 'Z') || ('0' <= c && c <= '9');
    let lower = 'a' <= c && c <= 'z';
    let digit = '0' <= c && c <= '9';
    let hex = digit || ('a' <= c && c <= 'f') || ('A' <= c && c <= 'F');
    let graphic = '!' <= c && c <= '~';
    match k {
        CharClass::Identifier => alnum || c == '-' || c == '_' || c == '.' || c == ':',
        CharClass::ServiceIdentifier => alnum || c == '-' || c == '_' || c == '.' || c == ':' || c
            == '/',
        CharClass::DnsName => alnum || c == '.' || c == '-' || c == '_',
        CharClass::Host => alnum || c == '.' || c == '-' || c == ':',
        CharClass::Url => alnum || c == '.' || c == '-' || c == '_' || c == '/' || c == ':' || c
            == '?' || c == '&' || c == '=' || c == '%' || c == '+' || c == '#',
        CharClass::Detail => alnum || c == ' ' || c == '.' || c == '-' || c == '_' || c == '/' || c
            == ':' || c == '@' || c == '+' || c == '=' || c == ',' || c == '#',
        CharClass::Base64Url => alnum || c == '-' || c == '_',
        CharClass::HexDigit => hex,
        CharClass::LogLine => c == '\t' || c == ' ' || graphic,
        CharClass::UnitName => alnum || c == '-' || c == '_' || c == '.' || c == '@' || c == ':',
        CharClass::PrintableText => graphic || c == ' ',
        CharClass::ProbeName => alnum || c == '-' || c == '_' || c == '.',
        CharClass::LowercaseToken => lower || digit || c == '-',
        CharClass::UppercaseToken => 'A' <= c && c <= 'Z',
        CharClass::Hostname => lower || digit || c == '-' || c == '.',
        CharClass::IpAddress => hex || c == '.' || c == ':',
        CharClass::SafeLabel => alnum || c == ' ' || c == '-' || c == '_' || c == '.' || c == ':'
            || c == '/' || c == '(' || c == ')' || c == ',',
        CharClass::RepositoryName => lower || digit || c == '-' || c == '_' || c == '.' || c
            == '/',
        CharClass::Digest => lower || digit || c == ':' || c == '-' || c == '_',
        CharClass::Urn => alnum || c == '-' || c == '_' || c == '.' || c == ':' || c == '/',
        CharClass::DockerImage => alnum || c == '.' || c == '-' || c == '_' || c == '/' || c == ':'
            || c == '@' || c == '+',
        CharClass::DockerArgument => alnum || c == '.' || c == '-' || c == '_' || c == '/' || c
            == ':' || c == '@' || c == '+' || c == '=' || c == ',' || c == '?' || c == '&',
        CharClass::PathMount => alnum || c == '.' || c == '-' || c == '_' || c == '/' || c == ':'
            || c == '=',
        CharClass::SshKey => alnum || c == ' ' || c == '+' || c == '/' || c == '=' || c == '-' || c
            == '_',
        CharClass::MetadataValue => alnum || c == '.' || c == '-' || c == '_' || c == '/' || c
            == ':' || c == '@' || c == '+' || c == '=' || c == ',' || c == ' ',
    }
}

/// The characters of `s`, in order.
pub fn chars_of(s: &str) -> (v: Vec<char>)
    ensures
        v@ == s@,
{
    let mut v: Vec<char> = Vec::new();
    let mut it = s.chars();
    proof {
        vstd::string::axiom_spec_iter(s);
    }
    loop
        invariant
            v@ + it.remaining() == s@,
            it.decrease() is Some,
        decreases it.decrease()->0,
    {
        let ghost before = it.remaining();
        match it.next() {
            Some(c) => {
                assert(before.len() > 0);
                assert(v@.push(c) + it.remaining() =~= v@ + before);
                v.push(c);
            },
            None => {
                assert(before.len() == 0);
                assert(v@ =~= s@);
                return v;
            },
        }
    }
}

/// Leading whitespace stops at the first non-whitespace character.
pub proof fn lemma_trim_start_at(s: Seq<char>, i: int)
    requires
        0 <= i <= s.len(),
        forall|k: int| 0 <= k < i ==> is_whitespace(#[trigger] s[k]),
        i == s.len() || !is_whitespace(s[i]),
    ensures
        trim_start(s) == s.subrange(i, s.len() as int),
    decreases i,
{
    if i == 0 {
        assert(s.subrange(0, s.len() as int) =~= s);
    } else {
        let t = s.drop_first();
        assert forall|k: int| 0 <= k < i - 1 implies is_whitespace(#[trigger] t[k]) by {
            assert(t[k] == s[k + 1]);
        }
        lemma_trim_start_at(t, i - 1);
        assert(t.subrange(i - 1, t.len() as int) =~= s.subrange(i, s.len() as int));
    }
}

/// Trailing whitespace stops at the last non-whitespace character.
pub proof fn lemma_trim_end_at(s: Seq<char>, j: int)
    requires
        0 <= j <= s.len(),
        forall|k: int| j <= k < s.len() ==> is_whitespace(#[trigger] s[k]),
        j == 0 || !is_whitespace(s[j - 1]),
    ensures
        trim_end(s) == s.subrange(0, j),
    decreases s.len() - j,
{
    if j == s.len() {
        assert(s.subrange(0, j) =~= s);
    } else {
        let t = s.drop_last();
        assert forall|k: int| j <= k < t.len() implies is_whitespace(#[trigger] t[k]) by {
            assert(t[k] == s[k]);
        }
        lemma_trim_end_at(t, j);
        assert(t.subrange(0, j) =~= s.subrange(0, j));
    }
}

/// Bounds `[start, end)` of the trimmed part of `chars`.
pub fn trim_bounds(chars: &Vec<char>) -> (r: (usize, usize))
    ensures
        r.0 <= r.1 <= chars@.len(),
        trim(chars@) == chars@.subrange(r.0 as int, r.1 as int),
{
    let n = chars.len();
    let mut i: usize = 0;
    while i < n && char_is_whitespace(chars[i])
        invariant
            i <= n,
            n == chars@.len(),
            forall|k: int| 0 <= k < i ==> is_whitespace(#[trigger] chars@[k]),
        decreases n - i,
    {
        i = i + 1;
    }
    proof {
        lemma_trim_start_at(chars@, i as int);
    }
    let ghost rest = chars@.subrange(i as int, n as int);
    let mut j: usize = n;
    while j > i && char_is_whitespace(chars[j - 1])
        invariant
            i <= j <= n,
            n == chars@.len(),
            forall|k: int| j <= k < n ==> is_whitespace(#[trigger] chars@[k]),
        decreases j - i,
    {
        j = j - 1;
    }
    proof {
        assert forall|k: int| j - i <= k < rest.len() implies is_whitespace(#[trigger] rest[k]) by {
            assert(rest[k] == chars@[k + i]);
        }
        if j > i {
            assert(rest[j - i - 1] == chars@[j - 1]);
        }
        lemma_trim_end_at(rest, j - i);
        assert(rest.subrange(0, j - i) =~= chars@.subrange(i as int, j as int));
    }
    (i, j)
}

/// Whether every character of `chars[start..end]` is admitted by `k`.
pub fn range_in_class(chars: &Vec<char>, start: usize, end: usize, k: CharClass) -> (r: bool)
    requires
        start <= end <= chars@.len(),
    ensures
        r == all_in_class(chars@.subrange(start as int, end as int), k),
{
    let mut i = start;
    while i < end
        invariant
            start <= i <= end <= chars@.len(),
            forall|m: int| start <= m < i ==> class_allows(k, #[trigger] chars@[m]),
        decreases end - i,
    {
        if !char_in_class(k, chars[i]) {
            assert(chars@.subrange(start as int, end as int)[i - start] == chars@[i as int]);
            return false;
        }
        i = i + 1;
    }
    assert forall|m: int| 0 <= m < end - start implies class_allows(
        k,
        #[trigger] chars@.subrange(start as int, end as int)[m],
    ) by {
        assert(chars@.subrange(start as int, end as int)[m] == chars@[m + start]);
    }
    true
}

/// The trimmed part of `value`, as a string slice.
pub fn trimmed(value: &str) -> (r: &str)
    ensures
        r@ == trim(value@),
{
    let chars = chars_of(value);
    let (start, end) = trim_bounds(&chars);
    value.substring_char(start, end)
}

/// Number of UTF-8 bytes that encode `c`.
pub open spec fn char_width(c: char) -> nat {
    let u = c as u32;
    if u <= 0x7f {
        1
    } else if u <= 0x7ff {
        2
    } else if u <= 0xffff {
        3
    } else {
        4
    }
}

/// The encoding of one character has [`char_width`] bytes.
pub proof fn lemma_encode_scalar_len(c: char)
    ensures
        encode_scalar(c as u32).len() == char_width(c),
{
    vstd::utf8::char_is_scalar(c);
}

/// Appending a character adds its width to the byte length.
pub proof fn lemma_byte_len_push(s: Seq<char>, c: char)
    ensures
        byte_len(s.push(c)) == byte_len(s) + char_width(c),
    decreases s.len(),
{
    lemma_encode_scalar_len(c);
    if s.len() == 0 {
        assert(s.push(c).drop_first() =~= Seq::<char>::empty());
        assert(encode_utf8(Seq::<char>::empty()) =~= Seq::<u8>::empty());
    } else {
        assert(s.push(c).drop_first() =~= s.drop_first().push(c));
        lemma_byte_len_push(s.drop_first(), c);
        assert(s.push(c)[0] == s[0]);
    }
}

/// Width of `c` in UTF-8.
pub fn char_utf8_width(c: char) -> (r: usize)
    ensures
        r == char_width(c),
{
    let u = c as u32;
    if u <= 0x7f {
        1
    } else if u <= 0x7ff {
        2
    } else if u <= 0xffff {
        3
    } else {
        4
    }
}

/// Whether the UTF-8 encoding of `chars[start..end]` has more than `max` bytes.
pub fn range_exceeds_bytes(chars: &Vec<char>, start: usize, end: usize, max: usize) -> (r: bool)
    requires
        start <= end <= chars@.len(),
        max <= usize::MAX - 4,
    ensures
        r == (byte_len(chars@.subrange(start as int, end as int)) > max),
{
    let mut total: usize = 0;
    let mut i = start;
    assert(chars@.subrange(start as int, start as int) =~= Seq::<char>::empty());
    assert(encode_utf8(Seq::<char>::empty()) =~= Seq::<u8>::empty());
    while i < end
        invariant
            start <= i <= end <= chars@.len(),
            max <= usize::MAX - 4,
            total == byte_len(chars@.subrange(start as int, i as int)),
            total <= max,
        decreases end - i,
    {
        let w = char_utf8_width(chars[i]);
        proof {
            assert(chars@.subrange(start as int, i + 1) =~= chars@.subrange(start as int, i as int).push(chars@[i as int]));
            lemma_byte_len_push(chars@.subrange(start as int, i as int), chars@[i as int]);
        }
        total = total + w;
        i = i + 1;
        if total > max {
            proof {
                lemma_byte_len_monotone(chars@.subrange(start as int, end as int), i - start);
                assert(chars@.subrange(start as int, end as int).subrange(0, i - start) =~= chars@.subrange(start as int, i as int));
            }
            return true;
        }
    }
    false
}

/// A prefix has no more bytes than the whole.
pub proof fn lemma_byte_len_monotone(s: Seq<char>, n: int)
    requires
        0 <= n <= s.len(),
    ensures
        byte_len(s.subrange(0, n)) <= byte_len(s),
    decreases s.len() - n,
{
    if n < s.len() {
        lemma_byte_len_monotone(s, n + 1);
        assert(s.subrange(0, n + 1) =~= s.subrange(0, n).push(s[n]));
        lemma_byte_len_push(s.subrange(0, n), s[n]);
    } else {
        assert(s.subrange(0, n) =~= s);
    }
}

/// Validates a bounded token, as [`token_outcome`] describes.
pub fn check_token(value: &str, max: usize, k: CharClass) -> (r: Result<String, TextFault>)
    requires
        max <= usize::MAX - 4,
    ensures
        string_result_view(r) == token_outcome(value@, max as nat, k),
{
    let chars = chars_of(value);
    let (start, end) = trim_bounds(&chars);
    if start == end {
        return Err(TextFault::Empty);
    }
    if range_exceeds_bytes(&chars, start, end, max) {
        return Err(TextFault::TooLong);
    }
    if !range_in_class(&chars, start, end, k) {
        return Err(TextFault::InvalidCharacter);
    }
    let t = value.substring_char(start, end);
    Ok(t.to_owned())
}

} // verus!

verus! {

/// Values whose copy is known to equal the value copied.
pub trait Duplicate: Sized {
    /// Returns a value equal to `self`.
    fn duplicate(&self) -> (r: Self)
        ensures
            r == *self,
    ;
}

impl Duplicate for String {
    fn duplicate(&self) -> (r: Self) {
        self.clone()
    }
}

/// Returns a copy of every element of `v`, in order.
pub fn duplicate_vec<T: Duplicate>(v: &Vec<T>) -> (r: Vec<T>)
    ensures
        r@ == v@,
{
    let mut out: Vec<T> = Vec::new();
    let mut i: usize = 0;
    while i < v.len()
        invariant
            i <= v@.len(),
            out@ == v@.subrange(0, i as int),
        decreases v@.len() - i,
    {
        let item = v[i].duplicate();
        out.push(item);
        i = i + 1;
        assert(out@ =~= v@.subrange(0, i as int));
    }
    assert(v@.subrange(0, v@.len() as int) =~= v@);
    out
}

/// A value that can be copied into one that agrees with it on every part
/// that its spec functions describe.
pub trait Replicate: Sized {
    /// Whether `self` agrees with `other` on every described part.
    spec fn agrees_with(&self, other: &Self) -> bool;

    /// Returns a copy that agrees with `self`.
    fn replicate(&self) -> (r: Self)
        ensures
            r.agrees_with(self),
    ;
}

/// Returns, in order, a copy of every element of `v` that agrees with it.
pub fn replicate_vec<T: Replicate>(v: &Vec<T>) -> (r: Vec<T>)
    ensures
        r@.len() == v@.len(),
        forall|i: int| 0 <= i < v@.len() ==> #[trigger] r@[i].agrees_with(&v@[i]),
{
    let mut out: Vec<T> = Vec::new();
    let mut i: usize = 0;
    while i < v.len()
        invariant
            i <= v@.len(),
            out@.len() == i,
            forall|j: int| 0 <= j < i ==> #[trigger] out@[j].agrees_with(&v@[j]),
        decreases v@.len() - i,
    {
        let item = v[i].replicate();
        out.push(item);
        i = i + 1;
    }
    out
}

/// Returns a copy of an optional value.
pub fn duplicate_option<T: Duplicate>(v: &Option<T>) -> (r: Option<T>)
    ensures
        r == *v,
{
    match v {
        Some(x) => Some(x.duplicate()),
        None => None,
    }
}

/// Whether two strings hold the same characters.
pub fn same_text(a: &str, b: &str) -> (r: bool)
    ensures
        r == (a@ == b@),
{
    let x = chars_of(a);
    let y = chars_of(b);
    if x.len() != y.len() {
        return false;
    }
    let mut i: usize = 0;
    while i < x.len()
        invariant
            i <= x@.len(),
            x@.len() == y@.len(),
            x@ == a@,
            y@ == b@,
            forall|k: int| 0 <= k < i ==> x@[k] == y@[k],
        decreases x@.len() - i,
    {
        if x[i] != y[i] {
            assert(a@[i as int] != b@[i as int]);
            return false;
        }
        i = i + 1;
    }
    assert(x@ =~= y@);
    true
}

} // verus!

verus! {

/// Whether `chars` begins with `prefix`.
pub fn chars_start_with(chars: &Vec<char>, prefix: &Vec<char>) -> (r: bool)
    ensures
        r == starts_with(chars@, prefix@),
{
    if prefix.len() > chars.len() {
        return false;
    }
    let mut i: usize = 0;
    while i < prefix.len()
        invariant
            i <= prefix@.len() <= chars@.len(),
            forall|k: int| 0 <= k < i ==> chars@[k] == prefix@[k],
        decreases prefix@.len() - i,
    {
        if chars[i] != prefix[i] {
            assert(chars@.subrange(0, prefix@.len() as int)[i as int] != prefix@[i as int]);
            return false;
        }
        i = i + 1;
    }
    assert(chars@.subrange(0, prefix@.len() as int) =~= prefix@);
    true
}

/// Whether `s` begins with `prefix`.
pub fn str_starts_with(s: &str, prefix: &str) -> (r: bool)
    ensures
        r == starts_with(s@, prefix@),
{
    let chars = chars_of(s);
    let p = chars_of(prefix);
    chars_start_with(&chars, &p)
}

/// Index of the first occurrence of `c` in `chars`, if any.
pub fn find_char(chars: &Vec<char>, c: char) -> (r: Option<usize>)
    ensures
        match r {
            Some(i) => i < chars@.len() && chars@[i as int] == c && forall|k: int|
                0 <= k < i ==> chars@[k] != c,
            None => !contains_char(chars@, c),
        },
{
    let mut i: usize = 0;
    while i < chars.len()
        invariant
            i <= chars@.len(),
            forall|k: int| 0 <= k < i ==> chars@[k] != c,
        decreases chars@.len() - i,
    {
        if chars[i] == c {
            return Some(i);
        }
        i = i + 1;
    }
    None
}

/// Whether `c` occurs in `s`.
pub fn str_contains_char(s: &str, c: char) -> (r: bool)
    ensures
        r == contains_char(s@, c),
{
    let chars = chars_of(s);
    find_char(&chars, c).is_some()
}

/// Whether some character of `s` is whitespace.
pub fn str_has_whitespace(s: &str) -> (r: bool)
    ensures
        r == !has_no_whitespace(s@),
{
    let chars = chars_of(s);
    let mut i: usize = 0;
    while i < chars.len()
        invariant
            i <= chars@.len(),
            chars@ == s@,
            forall|k: int| 0 <= k < i ==> !is_whitespace(#[trigger] chars@[k]),
        decreases chars@.len() - i,
    {
        if char_is_whitespace(chars[i]) {
            return true;
        }
        i = i + 1;
    }
    false
}

} // verus!

verus! {

/// Calls `zeroize::Zeroize::zeroize` on a `String`. zeroize's `String`
/// implementation overwrites the bytes and the spare capacity with zeros and
/// then clears the vector, so the string is left empty; the contract states
/// only that it is empty. The call opens no invariant and does not unwind:
/// its only checks are on the byte size of the spare capacity, which an
/// allocation never exceeds.
#[verifier::external_body]
pub(crate) fn zeroize_text(s: &mut String)
    ensures
        final(s)@ == Seq::<char>::empty(),
    opens_invariants none
    no_unwind
{
    zeroize::Zeroize::zeroize(s);
}

/// Calls `String::push`, which std documents as appending the character to
/// the end of the string; the contract states that.
#[verifier::external_body]
pub(crate) fn push_char(s: &mut String, c: char)
    ensures
        final(s)@ == old(s)@.push(c),
{
    s.push(c);
}

/// `c` with an ASCII uppercase letter lowered.
fn lower_char(c: char) -> (r: char)
    ensures
        r == ascii_lower(c),
{
    if 'A' <= c && c <= 'Z' {
        let code: u8 = c as u8;
        assert(code == c as u32);
        ((code + 32) as char)
    } else {
        c
    }
}

/// `s` with every ASCII uppercase letter lowered, as [`ascii_lowercase`]
/// describes.
pub(crate) fn to_ascii_lowercase(s: &str) -> (r: String)
    ensures
        r@ == ascii_lowercase(s@),
{
    let chars = chars_of(s);
    let mut out = String::new();
    let mut i: usize = 0;
    while i < chars.len()
        invariant
            i <= chars@.len(),
            chars@ == s@,
            out@ == ascii_lowercase(chars@.take(i as int)),
        decreases chars@.len() - i,
    {
        let ghost before = out@;
        push_char(&mut out, lower_char(chars[i]));
        proof {
            assert(chars@.take(i as int + 1) =~= chars@.take(i as int).push(chars@[i as int]));
            assert(ascii_lowercase(chars@.take(i as int + 1)) =~= before.push(ascii_lower(chars@[i as int])));
        }
        i += 1;
    }
    proof {
        assert(chars@.take(i as int) =~= chars@);
    }
    out
}

} // verus!

verus! {

/// A one-character prefix is the first character.
pub proof fn lemma_starts_with_char(s: Seq<char>, c: char)
    ensures
        starts_with(s, seq![c]) == (s.len() > 0 && s[0] == c),
{
    if s.len() > 0 && s[0] == c {
        assert(s.subrange(0, 1) =~= seq![c]);
    }
    if starts_with(s, seq![c]) {
        assert(s.subrange(0, 1)[0] == s[0]);
    }
}

/// A one-character suffix is the last character.
pub proof fn lemma_ends_with_char(s: Seq<char>, c: char)
    ensures
        ends_with(s, seq![c]) == (s.len() > 0 && s[s.len() - 1] == c),
{
    if s.len() > 0 && s[s.len() - 1] == c {
        assert(s.subrange(s.len() - 1, s.len() as int) =~= seq![c]);
    }
    if ends_with(s, seq![c]) {
        assert(s.subrange(s.len() - 1, s.len() as int)[0] == s[s.len() - 1]);
    }
}

} // verus!

verus! {

/// Whether `text` is accepted by `core::net::IpAddr`'s `FromStr` as an IPv4
/// or IPv6 address. The grammar is the standard library's; only its result
/// is named here.
pub uninterp spec fn parses_as_ip_address(text: Seq<char>) -> bool;

/// Calls `<core::net::IpAddr as FromStr>::from_str` on `text` and reports
/// whether it succeeded. The contract says no more than that the answer is
/// the one named [`parses_as_ip_address`] for these characters.
#[verifier::external_body]
pub(crate) fn ip_address_parses(text: &str) -> (r: bool)
    ensures
        r == parses_as_ip_address(text@),
{
    text.parse::<core::net::IpAddr>().is_ok()
}

/// Calls `subtle::ConstantTimeEq::ct_eq` on two byte slices and converts the
/// resulting `Choice` to `bool`. subtle's slice implementation answers 1 only
/// when both lengths and all bytes agree; the contract states exactly that.
#[verifier::external_body]
pub(crate) fn constant_time_bytes_eq(a: &[u8], b: &[u8]) -> (r: bool)
    ensures
        r == (a@ == b@),
{
    bool::from(subtle::ConstantTimeEq::ct_eq(a, b))
}

/// Equal UTF-8 encodings come from equal character sequences.
pub proof fn lemma_encode_utf8_injective(a: Seq<char>, b: Seq<char>)
    requires
        encode_utf8(a) == encode_utf8(b),
    ensures
        a == b,
{
    vstd::utf8::encode_utf8_decode_utf8(a);
    vstd::utf8::encode_utf8_decode_utf8(b);
}

/// Compares the characters of two strings through their bytes, in time that
/// does not depend on where they first differ.
pub fn constant_time_text_eq(a: &str, b: &str) -> (r: bool)
    ensures
        r == (a@ == b@),
{
    let x = a.as_bytes();
    let y = b.as_bytes();
    let r = constant_time_bytes_eq(x, y);
    proof {
        if r {
            lemma_encode_utf8_injective(a@, b@);
        }
    }
    r
}

} // verus!

verus! {

/// The view of an optional string.
pub open spec fn optional_text(v: Option<String>) -> Option<Seq<char>> {
    match v {
        Some(s) => Some(s@),
        None => None,
    }
}

/// The views of a sequence of strings.
pub open spec fn string_views(items: Seq<String>) -> Seq<Seq<char>> {
    items.map_values(|s: String| s@)
}

/// The first fault that `f` reports among `items`, scanning from the front.
pub open spec fn first_fault<E>(items: Seq<Seq<char>>, f: spec_fn(Seq<char>) -> Option<E>) -> Option<E>
    decreases items.len(),
{
    if items.len() == 0 {
        None
    } else {
        match f(items[0]) {
            Some(e) => Some(e),
            None => first_fault(items.drop_first(), f),
        }
    }
}

/// Items without a fault can be skipped when looking for the first fault.
pub proof fn lemma_first_fault_skip<E>(items: Seq<Seq<char>>, f: spec_fn(Seq<char>) -> Option<E>, i: int)
    requires
        0 <= i <= items.len(),
        forall|j: int| 0 <= j < i ==> f(#[trigger] items[j]) is None,
    ensures
        first_fault(items, f) == first_fault(items.skip(i), f),
    decreases i,
{
    if i > 0 {
        let rest = items.drop_first();
        assert forall|j: int| 0 <= j < i - 1 implies f(#[trigger] rest[j]) is None by {
            assert(rest[j] == items[j + 1]);
        }
        lemma_first_fault_skip(rest, f, i - 1);
        assert(rest.skip(i - 1) =~= items.skip(i));
    } else {
        assert(items.skip(0) =~= items);
    }
}

/// The first fault is the fault of the first faulty item.
pub proof fn lemma_first_fault_at<E>(items: Seq<Seq<char>>, f: spec_fn(Seq<char>) -> Option<E>, i: int)
    requires
        0 <= i < items.len(),
        forall|j: int| 0 <= j < i ==> f(#[trigger] items[j]) is None,
        f(items[i]) is Some,
    ensures
        first_fault(items, f) == f(items[i]),
{
    lemma_first_fault_skip(items, f, i);
    assert(items.skip(i)[0] == items[i]);
}

/// With no faulty item there is no first fault.
pub proof fn lemma_first_fault_none<E>(items: Seq<Seq<char>>, f: spec_fn(Seq<char>) -> Option<E>)
    requires
        forall|j: int| 0 <= j < items.len() ==> f(#[trigger] items[j]) is None,
    ensures
        first_fault(items, f) is None,
{
    lemma_first_fault_skip(items, f, items.len() as int);
    assert(items.skip(items.len() as int) =~= Seq::<Seq<char>>::empty());
}

} // verus!

verus! {

/// After leading whitespace is removed, the text starts with a character
/// that is not whitespace.
pub proof fn lemma_trim_start_first(s: Seq<char>)
    ensures
        trim_start(s).len() > 0 ==> !is_whitespace(trim_start(s)[0]),
    decreases s.len(),
{
    if s.len() > 0 && is_whitespace(s[0]) {
        lemma_trim_start_first(s.drop_first());
    }
}

/// Removing trailing whitespace keeps a prefix, which ends with a character
/// that is not whitespace.
pub proof fn lemma_trim_end_prefix(s: Seq<char>)
    ensures
        trim_end(s).len() <= s.len(),
        forall|i: int| 0 <= i < trim_end(s).len() ==> #[trigger] trim_end(s)[i] == s[i],
        trim_end(s).len() > 0 ==> !is_whitespace(trim_end(s).last()),
    decreases s.len(),
{
    if s.len() > 0 && is_whitespace(s.last()) {
        lemma_trim_end_prefix(s.drop_last());
        assert forall|i: int| 0 <= i < trim_end(s).len() implies #[trigger] trim_end(s)[i] == s[i] by {
            assert(s.drop_last()[i] == s[i]);
        }
    }
}

/// Trimming a trimmed text changes nothing.
pub proof fn lemma_trim_idempotent(s: Seq<char>)
    ensures
        trim(trim(s)) == trim(s),
{
    let u = trim_start(s);
    let t = trim_end(u);
    lemma_trim_start_first(s);
    lemma_trim_end_prefix(u);
    if t.len() > 0 {
        assert(t[0] == u[0]);
        assert(trim_start(t) == t);
        assert(trim_end(t) == t);
    } else {
        assert(trim_start(t) == t);
        assert(trim_end(t) == t);
    }
}

/// Validating the text of an accepted token again accepts it unchanged:
/// every validated value built from [`token_outcome`] round-trips through
/// its own text.
pub proof fn lemma_token_outcome_idempotent(s: Seq<char>, max: nat, k: CharClass)
    requires
        token_outcome(s, max, k) is Ok,
    ensures
        token_outcome(token_outcome(s, max, k)->Ok_0, max, k) == token_outcome(s, max, k),
{
    lemma_trim_idempotent(s);
}

} // verus!

verus! {

/// Lowering an ASCII letter keeps the UTF-8 width and never produces an
/// uppercase letter; every other character is kept.
pub proof fn lemma_ascii_lower(c: char)
    ensures
        char_width(ascii_lower(c)) == char_width(c),
        !is_ascii_uppercase(ascii_lower(c)),
        !is_ascii_uppercase(c) ==> ascii_lower(c) == c,
        is_ascii_uppercase(c) ==> is_ascii_lowercase(ascii_lower(c)),
        ascii_lower(ascii_lower(c)) == ascii_lower(c),
{
}

/// Lowering keeps the length and lowers each character in place.
pub proof fn lemma_ascii_lowercase_index(s: Seq<char>)
    ensures
        ascii_lowercase(s).len() == s.len(),
        forall|i: int| 0 <= i < s.len() ==> #[trigger] ascii_lowercase(s)[i] == ascii_lower(s[i]),
{
}

/// Lowering keeps the UTF-8 byte length.
pub proof fn lemma_ascii_lowercase_byte_len(s: Seq<char>)
    ensures
        byte_len(ascii_lowercase(s)) == byte_len(s),
    decreases s.len(),
{
    if s.len() > 0 {
        let p = s.drop_last();
        let c = s.last();
        lemma_ascii_lowercase_byte_len(p);
        assert(s =~= p.push(c));
        assert(ascii_lowercase(s) =~= ascii_lowercase(p).push(ascii_lower(c)));
        lemma_byte_len_push(p, c);
        lemma_byte_len_push(ascii_lowercase(p), ascii_lower(c));
        lemma_ascii_lower(c);
    } else {
        assert(ascii_lowercase(s) =~= s);
    }
}

/// Lowering twice is lowering once.
pub proof fn lemma_ascii_lowercase_idempotent(s: Seq<char>)
    ensures
        ascii_lowercase(ascii_lowercase(s)) == ascii_lowercase(s),
{
    assert forall|i: int| 0 <= i < s.len() implies #[trigger] ascii_lowercase(ascii_lowercase(s))[i]
        == ascii_lowercase(s)[i] by {
        lemma_ascii_lower(s[i]);
    }
    assert(ascii_lowercase(ascii_lowercase(s)) =~= ascii_lowercase(s));
}

/// A text without whitespace is its own trim.
pub proof fn lemma_trim_no_whitespace(s: Seq<char>)
    requires
        has_no_whitespace(s),
    ensures
        trim(s) == s,
{
    lemma_trim_start_at(s, 0);
    assert(s.subrange(0, s.len() as int) =~= s);
    lemma_trim_end_at(s, s.len() as int);
}

} // verus!
