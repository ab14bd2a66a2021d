//! Comment stripping for host-provided JSONC app config text.
use vstd::prelude::*;

use crate::text::{byte_len, char_width, chars_of, lemma_encode_scalar_len, push_char, range_exceeds_bytes};

verus! {

/// Maximum accepted JSONC input size in bytes.
pub const MAX_APP_JSONC_BYTES: usize = 1048576;

/// Low-cardinality JSONC parse failure reason.
#[derive(Debug, Clone, Copy, PartialEq, Eq, Structural)]
pub enum AppConfigParseErrorReason {
    /// A block comment was opened but never closed.
    UnclosedComment,
    /// The JSONC input exceeded the parse size limit.
    TooLong,
    /// The comment-stripped input was not valid JSON for the target type.
    InvalidJson,
}

/// JSONC app config parse error. It never carries raw config text.
#[derive(Debug, Clone, Copy, PartialEq, Eq, Structural)]
pub struct AppConfigParseError {
    reason: AppConfigParseErrorReason,
}

impl AppConfigParseError {
    /// The typed failure reason.
    pub closed spec fn spec_reason(self) -> AppConfigParseErrorReason {
        self.reason
    }

    /// Constructs a parse error.
    pub fn new(reason: AppConfigParseErrorReason) -> (r: Self)
        ensures
            r.spec_reason() == reason,
    {
        AppConfigParseError { reason }
    }

    /// Returns the typed parse failure reason.
    pub fn reason(self) -> (r: AppConfigParseErrorReason)
        ensures
            r == self.spec_reason(),
    {
        self.reason
    }

    /// Returns the operator-facing message, which never includes config text.
    pub fn message(self) -> (r: &'static str)
        ensures
            r@ == "app JSONC config failed parsing"@,
    {
        "app JSONC config failed parsing"
    }
}

/// Where the comment stripper stands between two characters.
#[derive(Debug, Clone, Copy, PartialEq, Eq, Structural)]
pub enum JsoncScan {
    /// Outside strings and comments.
    Code,
    /// Inside a string literal; `escaped` after a backslash.
    Text { escaped: bool },
    /// Inside a `//` comment.
    LineComment,
    /// Inside a `/* */` comment; `after_star` when the last character read
    /// in it was `*`.
    BlockComment { after_star: bool },
}

/// `o` with `p` in front of its text; an unclosed comment stays unclosed.
pub open spec fn prefix_output(p: Seq<char>, o: Option<Seq<char>>) -> Option<Seq<char>> {
    match o {
        Some(t) => Some(p + t),
        None => None,
    }
}

/// What the stripper emits for `s` from position `i` on, in state `st`, or
/// `None` if the text ends inside a block comment.
///
/// Outside strings and comments, `//` starts a line comment and `/*` a block
/// comment, which is emitted as one space so that it separates tokens.
/// Inside a comment only newlines are kept; a line comment ends at a
/// newline and a block comment at `*/`. String literals, escapes included,
/// are kept as they are, so comment markers inside them stay text.
pub open spec fn strip_from(s: Seq<char>, i: nat, st: JsoncScan) -> Option<Seq<char>>
    decreases s.len() - i,
{
    if i >= s.len() {
        match st {
            JsoncScan::BlockComment { .. } => None,
            _ => Some(Seq::empty()),
        }
    } else {
        let c = s[i as int];
        match st {
            JsoncScan::Text { escaped } => {
                let next = if escaped {
                    JsoncScan::Text { escaped: false }
                } else if c == '\\' {
                    JsoncScan::Text { escaped: true }
                } else if c == '"' {
                    JsoncScan::Code
                } else {
                    JsoncScan::Text { escaped: false }
                };
                prefix_output(seq![c], strip_from(s, i + 1, next))
            },
            JsoncScan::Code => {
                if c == '"' {
                    prefix_output(seq![c], strip_from(s, i + 1, JsoncScan::Text { escaped: false }))
                } else if c == '/' && i + 1 < s.len() && s[i + 1int] == '/' {
                    strip_from(s, i + 2, JsoncScan::LineComment)
                } else if c == '/' && i + 1 < s.len() && s[i + 1int] == '*' {
                    prefix_output(
                        seq![' '],
                        strip_from(s, i + 2, JsoncScan::BlockComment { after_star: false }),
                    )
                } else {
                    prefix_output(seq![c], strip_from(s, i + 1, JsoncScan::Code))
                }
            },
            JsoncScan::LineComment => {
                if c == '\n' {
                    prefix_output(seq!['\n'], strip_from(s, i + 1, JsoncScan::Code))
                } else {
                    strip_from(s, i + 1, JsoncScan::LineComment)
                }
            },
            JsoncScan::BlockComment { after_star } => {
                if c == '\n' {
                    prefix_output(
                        seq!['\n'],
                        strip_from(s, i + 1, JsoncScan::BlockComment { after_star: false }),
                    )
                } else if after_star && c == '/' {
                    strip_from(s, i + 1, JsoncScan::Code)
                } else {
                    strip_from(s, i + 1, JsoncScan::BlockComment { after_star: c == '*' })
                }
            },
        }
    }
}

/// The comment-stripped form of a JSONC text, or `None` when a block comment
/// is never closed.
pub open spec fn jsonc_stripped(s: Seq<char>) -> Option<Seq<char>> {
    strip_from(s, 0, JsoncScan::Code)
}

/// The stripper never emits more characters than it reads.
proof fn lemma_strip_from_not_longer(s: Seq<char>, i: nat, st: JsoncScan)
    ensures
        strip_from(s, i, st) matches Some(t) ==> t.len() + i <= s.len() || i >= s.len(),
    decreases s.len() - i,
{
    if i < s.len() {
        let c = s[i as int];
        match st {
            JsoncScan::Text { escaped } => {
                let next = if escaped {
                    JsoncScan::Text { escaped: false }
                } else if c == '\\' {
                    JsoncScan::Text { escaped: true }
                } else if c == '"' {
                    JsoncScan::Code
                } else {
                    JsoncScan::Text { escaped: false }
                };
                lemma_strip_from_not_longer(s, i + 1, next);
            },
            JsoncScan::Code => {
                if c == '"' {
                    lemma_strip_from_not_longer(s, i + 1, JsoncScan::Text { escaped: false });
                } else if c == '/' && i + 1 < s.len() && s[i + 1int] == '/' {
                    lemma_strip_from_not_longer(s, i + 2, JsoncScan::LineComment);
                } else if c == '/' && i + 1 < s.len() && s[i + 1int] == '*' {
                    lemma_strip_from_not_longer(s, i + 2, JsoncScan::BlockComment { after_star: false });
                } else {
                    lemma_strip_from_not_longer(s, i + 1, JsoncScan::Code);
                }
            },
            JsoncScan::LineComment => {
                if c == '\n' {
                    lemma_strip_from_not_longer(s, i + 1, JsoncScan::Code);
                } else {
                    lemma_strip_from_not_longer(s, i + 1, JsoncScan::LineComment);
                }
            },
            JsoncScan::BlockComment { after_star } => {
                if c == '\n' {
                    lemma_strip_from_not_longer(s, i + 1, JsoncScan::BlockComment { after_star: false });
                } else if after_star && c == '/' {
                    lemma_strip_from_not_longer(s, i + 1, JsoncScan::Code);
                } else {
                    lemma_strip_from_not_longer(s, i + 1, JsoncScan::BlockComment { after_star: c == '*' });
                }
            },
        }
    }
}

/// Stripping comments never lengthens a JSONC text.
pub proof fn lemma_jsonc_stripped_not_longer(s: Seq<char>)
    ensures
        jsonc_stripped(s) matches Some(t) ==> t.len() <= s.len(),
{
    lemma_strip_from_not_longer(s, 0, JsoncScan::Code);
}

/// The number of line breaks in `s`.
pub open spec fn newline_count(s: Seq<char>) -> nat
    decreases s.len(),
{
    if s.len() == 0 {
        0
    } else {
        (if s[0] == '\n' { 1nat } else { 0nat }) + newline_count(s.drop_first())
    }
}

/// Counting line breaks from position `i` takes the one at `i` and the
/// rest.
proof fn lemma_newline_count_step(s: Seq<char>, i: int)
    requires
        0 <= i < s.len(),
    ensures
        newline_count(s.subrange(i, s.len() as int)) == (if s[i] == '\n' { 1nat } else { 0nat })
            + newline_count(s.subrange(i + 1, s.len() as int)),
{
    assert(s.subrange(i, s.len() as int).drop_first() =~= s.subrange(i + 1int, s.len() as int));
}

/// A character put in front adds its own line break, if it is one.
proof fn lemma_newline_count_prefix(c: char, t: Seq<char>)
    ensures
        newline_count(seq![c] + t) == (if c == '\n' { 1nat } else { 0nat }) + newline_count(t),
{
    assert((seq![c] + t).drop_first() =~= t);
}

/// The stripper emits exactly the line breaks it reads.
proof fn lemma_strip_from_keeps_newlines(s: Seq<char>, i: nat, st: JsoncScan)
    requires
        i <= s.len(),
    ensures
        strip_from(s, i, st) matches Some(t) ==> newline_count(t) == newline_count(
            s.subrange(i as int, s.len() as int),
        ),
    decreases s.len() - i,
{
    if i < s.len() {
        let c = s[i as int];
        lemma_newline_count_step(s, i as int);
        lemma_newline_count_prefix(c, Seq::empty());
        match st {
            JsoncScan::Text { escaped } => {
                let next = if escaped {
                    JsoncScan::Text { escaped: false }
                } else if c == '\\' {
                    JsoncScan::Text { escaped: true }
                } else if c == '"' {
                    JsoncScan::Code
                } else {
                    JsoncScan::Text { escaped: false }
                };
                lemma_strip_from_keeps_newlines(s, i + 1, next);
                if let Some(t) = strip_from(s, i + 1, next) {
                    lemma_newline_count_prefix(c, t);
                }
            },
            JsoncScan::Code => {
                if c == '"' {
                    lemma_strip_from_keeps_newlines(s, i + 1, JsoncScan::Text { escaped: false });
                    if let Some(t) = strip_from(s, i + 1, JsoncScan::Text { escaped: false }) {
                        lemma_newline_count_prefix(c, t);
                    }
                } else if c == '/' && i + 1 < s.len() && s[i + 1int] == '/' {
                    lemma_newline_count_step(s, i + 1int);
                    lemma_strip_from_keeps_newlines(s, i + 2, JsoncScan::LineComment);
                } else if c == '/' && i + 1 < s.len() && s[i + 1int] == '*' {
                    lemma_newline_count_step(s, i + 1int);
                    lemma_strip_from_keeps_newlines(s, i + 2, JsoncScan::BlockComment { after_star: false });
                    if let Some(t) = strip_from(s, i + 2, JsoncScan::BlockComment { after_star: false }) {
                        lemma_newline_count_prefix(' ', t);
                    }
                } else {
                    lemma_strip_from_keeps_newlines(s, i + 1, JsoncScan::Code);
                    if let Some(t) = strip_from(s, i + 1, JsoncScan::Code) {
                        lemma_newline_count_prefix(c, t);
                    }
                }
            },
            JsoncScan::LineComment => {
                if c == '\n' {
                    lemma_strip_from_keeps_newlines(s, i + 1, JsoncScan::Code);
                    if let Some(t) = strip_from(s, i + 1, JsoncScan::Code) {
                        lemma_newline_count_prefix('\n', t);
                    }
                } else {
                    lemma_strip_from_keeps_newlines(s, i + 1, JsoncScan::LineComment);
                }
            },
            JsoncScan::BlockComment { after_star } => {
                if c == '\n' {
                    lemma_strip_from_keeps_newlines(s, i + 1, JsoncScan::BlockComment { after_star: false });
                    if let Some(t) = strip_from(s, i + 1, JsoncScan::BlockComment { after_star: false }) {
                        lemma_newline_count_prefix('\n', t);
                    }
                } else if after_star && c == '/' {
                    lemma_strip_from_keeps_newlines(s, i + 1, JsoncScan::Code);
                } else {
                    lemma_strip_from_keeps_newlines(s, i + 1, JsoncScan::BlockComment { after_star: c == '*' });
                }
            },
        }
    } else {
        assert(s.subrange(i as int, s.len() as int) =~= Seq::<char>::empty());
    }
}

/// Stripping comments keeps every line break, so line numbers in the
/// stripped text are those of the JSONC text.
pub proof fn lemma_jsonc_stripped_keeps_newlines(s: Seq<char>)
    ensures
        jsonc_stripped(s) matches Some(t) ==> newline_count(t) == newline_count(s),
{
    lemma_strip_from_keeps_newlines(s, 0, JsoncScan::Code);
    assert(s.subrange(0, s.len() as int) =~= s);
}

/// What the stripper emits from position `i` depends only on the text from
/// `i` on.
proof fn lemma_strip_from_shift(s: Seq<char>, i: nat, st: JsoncScan)
    requires
        i <= s.len(),
    ensures
        strip_from(s, i, st) == strip_from(s.subrange(i as int, s.len() as int), 0, st),
    decreases s.len() - i, 0nat,
{
    let u = s.subrange(i as int, s.len() as int);
    if i < s.len() {
        assert(u[0] == s[i as int]);
        assert(u.len() == s.len() - i);
        if i + 1 < s.len() {
            assert(u[1] == s[i + 1int]);
        }
        lemma_strip_from_shift_all(s, i + 1);
        lemma_strip_from_shift_all(u, 1);
        assert(u.subrange(1, u.len() as int) =~= s.subrange(i + 1int, s.len() as int));
        if i + 2 <= s.len() {
            lemma_strip_from_shift_all(s, i + 2);
            lemma_strip_from_shift_all(u, 2);
            assert(u.subrange(2, u.len() as int) =~= s.subrange(i + 2int, s.len() as int));
        }
        assert(seq![u[0]] =~= seq![s[i as int]]);
        if i + 2 <= s.len() {
            assert(strip_from(u, 2, JsoncScan::LineComment) == strip_from(s, i + 2, JsoncScan::LineComment));
            assert(strip_from(u, 2, JsoncScan::BlockComment { after_star: false }) == strip_from(
                s,
                i + 2,
                JsoncScan::BlockComment { after_star: false },
            ));
        }
        assert(strip_from(u, 1, JsoncScan::Code) == strip_from(s, i + 1, JsoncScan::Code));
        assert(strip_from(u, 1, JsoncScan::LineComment) == strip_from(s, i + 1, JsoncScan::LineComment));
        assert(strip_from(u, 1, JsoncScan::Text { escaped: false }) == strip_from(s, i + 1, JsoncScan::Text { escaped: false }));
        assert(strip_from(u, 1, JsoncScan::Text { escaped: true }) == strip_from(s, i + 1, JsoncScan::Text { escaped: true }));
        assert(strip_from(u, 1, JsoncScan::BlockComment { after_star: false }) == strip_from(
            s,
            i + 1,
            JsoncScan::BlockComment { after_star: false },
        ));
        assert(strip_from(u, 1, JsoncScan::BlockComment { after_star: true }) == strip_from(
            s,
            i + 1,
            JsoncScan::BlockComment { after_star: true },
        ));
    } else {
        assert(u.len() == 0);
    }
}

/// [`lemma_strip_from_shift`] for every scanner state at once.
proof fn lemma_strip_from_shift_all(s: Seq<char>, i: nat)
    requires
        1 <= i <= s.len(),
    ensures
        forall|st: JsoncScan| #[trigger] strip_from(s, i, st) == strip_from(s.subrange(i as int, s.len() as int), 0, st),
    decreases s.len() - i, 1nat,
{
    assert forall|st: JsoncScan| #[trigger] strip_from(s, i, st) == strip_from(s.subrange(i as int, s.len() as int), 0, st) by {
        lemma_strip_from_shift(s, i, st);
    }
}

/// After a first character, the stripper goes on with the rest.
proof fn lemma_strip_from_cons(c: char, v: Seq<char>, st: JsoncScan)
    ensures
        strip_from(seq![c] + v, 1, st) == strip_from(v, 0, st),
{
    let w = seq![c] + v;
    lemma_strip_from_shift(w, 1, st);
    assert(w.subrange(1, w.len() as int) =~= v);
}

/// Code that does not begin with `/` is emitted from its first character.
proof fn lemma_strip_from_code_head(s: Seq<char>, j: nat)
    requires
        j < s.len(),
        s[j as int] != '/',
        strip_from(s, j, JsoncScan::Code) is Some,
    ensures
        strip_from(s, j, JsoncScan::Code)->Some_0.len() > 0,
        strip_from(s, j, JsoncScan::Code)->Some_0[0] == s[j as int],
{
}

/// The state in which the stripper's own output is read back: inside a
/// string it is still a string, and anything else resumes as code.
pub open spec fn rescan_state(st: JsoncScan) -> JsoncScan {
    match st {
        JsoncScan::Text { escaped } => JsoncScan::Text { escaped },
        _ => JsoncScan::Code,
    }
}

/// What the stripper emits, read again from the state it was emitted in,
/// is emitted unchanged.
proof fn lemma_strip_from_idempotent(s: Seq<char>, i: nat, st: JsoncScan)
    requires
        i <= s.len(),
    ensures
        strip_from(s, i, st) matches Some(t) ==> strip_from(t, 0, rescan_state(st)) == Some(t),
    decreases s.len() - i,
{
    if i < s.len() {
        let c = s[i as int];
        match st {
            JsoncScan::Text { escaped } => {
                let next = if escaped {
                    JsoncScan::Text { escaped: false }
                } else if c == '\\' {
                    JsoncScan::Text { escaped: true }
                } else if c == '"' {
                    JsoncScan::Code
                } else {
                    JsoncScan::Text { escaped: false }
                };
                lemma_strip_from_idempotent(s, i + 1, next);
                if let Some(t) = strip_from(s, i + 1, next) {
                    lemma_strip_from_cons(c, t, next);
                    assert((seq![c] + t)[0] == c);
                }
            },
            JsoncScan::Code => {
                if c == '"' {
                    let next = JsoncScan::Text { escaped: false };
                    lemma_strip_from_idempotent(s, i + 1, next);
                    if let Some(t) = strip_from(s, i + 1, next) {
                        lemma_strip_from_cons(c, t, next);
                        assert((seq![c] + t)[0] == c);
                    }
                } else if c == '/' && i + 1 < s.len() && s[i + 1int] == '/' {
                    lemma_strip_from_idempotent(s, i + 2, JsoncScan::LineComment);
                } else if c == '/' && i + 1 < s.len() && s[i + 1int] == '*' {
                    let next = JsoncScan::BlockComment { after_star: false };
                    lemma_strip_from_idempotent(s, i + 2, next);
                    if let Some(t) = strip_from(s, i + 2, next) {
                        lemma_strip_from_cons(' ', t, JsoncScan::Code);
                        assert((seq![' '] + t)[0] == ' ');
                    }
                } else {
                    lemma_strip_from_idempotent(s, i + 1, JsoncScan::Code);
                    if let Some(t) = strip_from(s, i + 1, JsoncScan::Code) {
                        lemma_strip_from_cons(c, t, JsoncScan::Code);
                        let w = seq![c] + t;
                        assert(w[0] == c);
                        if c == '/' && i + 1 < s.len() {
                            lemma_strip_from_code_head(s, i + 1);
                            assert(w[1] == t[0]);
                        }
                        if i + 1 == s.len() {
                            assert(t.len() == 0);
                        }
                    }
                }
            },
            JsoncScan::LineComment => {
                if c == '\n' {
                    lemma_strip_from_idempotent(s, i + 1, JsoncScan::Code);
                    if let Some(t) = strip_from(s, i + 1, JsoncScan::Code) {
                        lemma_strip_from_cons('\n', t, JsoncScan::Code);
                        assert((seq!['\n'] + t)[0] == '\n');
                    }
                } else {
                    lemma_strip_from_idempotent(s, i + 1, JsoncScan::LineComment);
                }
            },
            JsoncScan::BlockComment { after_star } => {
                if c == '\n' {
                    let next = JsoncScan::BlockComment { after_star: false };
                    lemma_strip_from_idempotent(s, i + 1, next);
                    if let Some(t) = strip_from(s, i + 1, next) {
                        lemma_strip_from_cons('\n', t, JsoncScan::Code);
                        assert((seq!['\n'] + t)[0] == '\n');
                    }
                } else if after_star && c == '/' {
                    lemma_strip_from_idempotent(s, i + 1, JsoncScan::Code);
                } else {
                    lemma_strip_from_idempotent(s, i + 1, JsoncScan::BlockComment { after_star: c == '*' });
                }
            },
        }
    }
}

/// Stripping is idempotent: the stripped form of a JSONC text has no
/// comments left, so stripping it again returns it unchanged.
pub proof fn lemma_jsonc_stripped_idempotent(s: Seq<char>)
    ensures
        jsonc_stripped(s) matches Some(t) ==> jsonc_stripped(t) == Some(t),
{
    lemma_strip_from_idempotent(s, 0, JsoncScan::Code);
}

/// Byte length from position `i` is the width of the character there and
/// the rest.
proof fn lemma_byte_len_step(s: Seq<char>, i: int)
    requires
        0 <= i < s.len(),
    ensures
        byte_len(s.subrange(i, s.len() as int)) == char_width(s[i]) + byte_len(s.subrange(i + 1, s.len() as int)),
{
    lemma_byte_len_prefix(s[i], s.subrange(i + 1, s.len() as int));
    assert(seq![s[i]] + s.subrange(i + 1, s.len() as int) =~= s.subrange(i, s.len() as int));
}

/// A character put in front adds its own width.
proof fn lemma_byte_len_prefix(c: char, t: Seq<char>)
    ensures
        byte_len(seq![c] + t) == char_width(c) + byte_len(t),
{
    lemma_encode_scalar_len(c);
    assert((seq![c] + t).drop_first() =~= t);
    assert((seq![c] + t)[0] == c);
}

/// The stripper never emits more UTF-8 bytes than it reads.
proof fn lemma_strip_from_bytes_not_longer(s: Seq<char>, i: nat, st: JsoncScan)
    requires
        i <= s.len(),
    ensures
        strip_from(s, i, st) matches Some(t) ==> byte_len(t) <= byte_len(
            s.subrange(i as int, s.len() as int),
        ),
    decreases s.len() - i,
{
    if i < s.len() {
        let c = s[i as int];
        lemma_byte_len_step(s, i as int);
        match st {
            JsoncScan::Text { escaped } => {
                let next = if escaped {
                    JsoncScan::Text { escaped: false }
                } else if c == '\\' {
                    JsoncScan::Text { escaped: true }
                } else if c == '"' {
                    JsoncScan::Code
                } else {
                    JsoncScan::Text { escaped: false }
                };
                lemma_strip_from_bytes_not_longer(s, i + 1, next);
                if let Some(t) = strip_from(s, i + 1, next) {
                    lemma_byte_len_prefix(c, t);
                }
            },
            JsoncScan::Code => {
                if c == '"' {
                    lemma_strip_from_bytes_not_longer(s, i + 1, JsoncScan::Text { escaped: false });
                    if let Some(t) = strip_from(s, i + 1, JsoncScan::Text { escaped: false }) {
                        lemma_byte_len_prefix(c, t);
                    }
                } else if c == '/' && i + 1 < s.len() && s[i + 1int] == '/' {
                    lemma_byte_len_step(s, i + 1int);
                    lemma_strip_from_bytes_not_longer(s, i + 2, JsoncScan::LineComment);
                } else if c == '/' && i + 1 < s.len() && s[i + 1int] == '*' {
                    lemma_byte_len_step(s, i + 1int);
                    lemma_strip_from_bytes_not_longer(s, i + 2, JsoncScan::BlockComment { after_star: false });
                    if let Some(t) = strip_from(s, i + 2, JsoncScan::BlockComment { after_star: false }) {
                        lemma_byte_len_prefix(' ', t);
                    }
                } else {
                    lemma_strip_from_bytes_not_longer(s, i + 1, JsoncScan::Code);
                    if let Some(t) = strip_from(s, i + 1, JsoncScan::Code) {
                        lemma_byte_len_prefix(c, t);
                    }
                }
            },
            JsoncScan::LineComment => {
                if c == '\n' {
                    lemma_strip_from_bytes_not_longer(s, i + 1, JsoncScan::Code);
                    if let Some(t) = strip_from(s, i + 1, JsoncScan::Code) {
                        lemma_byte_len_prefix('\n', t);
                    }
                } else {
                    lemma_strip_from_bytes_not_longer(s, i + 1, JsoncScan::LineComment);
                }
            },
            JsoncScan::BlockComment { after_star } => {
                if c == '\n' {
                    lemma_strip_from_bytes_not_longer(s, i + 1, JsoncScan::BlockComment { after_star: false });
                    if let Some(t) = strip_from(s, i + 1, JsoncScan::BlockComment { after_star: false }) {
                        lemma_byte_len_prefix('\n', t);
                    }
                } else if after_star && c == '/' {
                    lemma_strip_from_bytes_not_longer(s, i + 1, JsoncScan::Code);
                } else {
                    lemma_strip_from_bytes_not_longer(s, i + 1, JsoncScan::BlockComment { after_star: c == '*' });
                }
            },
        }
    } else {
        assert(s.subrange(i as int, s.len() as int) =~= Seq::<char>::empty());
    }
}

/// Stripping comments never lengthens a JSONC text in UTF-8 bytes, so the
/// stripped text is within any byte bound the input met.
pub proof fn lemma_jsonc_stripped_bytes_not_longer(s: Seq<char>)
    ensures
        jsonc_stripped(s) matches Some(t) ==> byte_len(t) <= byte_len(s),
{
    lemma_strip_from_bytes_not_longer(s, 0, JsoncScan::Code);
    assert(s.subrange(0, s.len() as int) =~= s);
}

/// Text without a `/` is copied as it stands, strings included.
proof fn lemma_strip_from_without_slash(s: Seq<char>, i: nat, st: JsoncScan)
    requires
        i <= s.len(),
        st is Code || st is Text,
        forall|k: int| i <= k < s.len() ==> s[k] != '/',
    ensures
        strip_from(s, i, st) == Some(s.subrange(i as int, s.len() as int)),
    decreases s.len() - i,
{
    if i < s.len() {
        let c = s[i as int];
        let next = match st {
            JsoncScan::Text { escaped } => if escaped {
                JsoncScan::Text { escaped: false }
            } else if c == '\\' {
                JsoncScan::Text { escaped: true }
            } else if c == '"' {
                JsoncScan::Code
            } else {
                JsoncScan::Text { escaped: false }
            },
            _ => if c == '"' {
                JsoncScan::Text { escaped: false }
            } else {
                JsoncScan::Code
            },
        };
        lemma_strip_from_without_slash(s, i + 1, next);
        assert(seq![c] + s.subrange(i + 1int, s.len() as int) =~= s.subrange(i as int, s.len() as int));
    } else {
        assert(s.subrange(i as int, s.len() as int) =~= Seq::<char>::empty());
    }
}

/// A JSONC text without any `/` has no comments and is returned unchanged.
pub proof fn lemma_jsonc_stripped_without_slash(s: Seq<char>)
    requires
        forall|k: int| 0 <= k < s.len() ==> s[k] != '/',
    ensures
        jsonc_stripped(s) == Some(s),
{
    lemma_strip_from_without_slash(s, 0, JsoncScan::Code);
    assert(s.subrange(0, s.len() as int) =~= s);
}

/// Prefixing twice is prefixing with the concatenation.
proof fn lemma_prefix_output_concat(a: Seq<char>, b: Seq<char>, o: Option<Seq<char>>)
    ensures
        prefix_output(a, prefix_output(b, o)) == prefix_output(a + b, o),
{
    if let Some(t) = o {
        assert(a + (b + t) =~= (a + b) + t);
    }
}

/// Prefixing with nothing changes nothing.
proof fn lemma_prefix_output_empty(o: Option<Seq<char>>)
    ensures
        prefix_output(Seq::empty(), o) == o,
{
    if let Some(t) = o {
        assert(Seq::<char>::empty() + t =~= t);
    }
}

/// Removes JSONC comments from caller-supplied text: inputs over
/// [`MAX_APP_JSONC_BYTES`] bytes are refused as too long, a block comment
/// that is never closed is refused, and otherwise the result is
/// [`jsonc_stripped`].
pub fn strip_jsonc_comments(value: &str) -> (r: Result<String, AppConfigParseError>)
    ensures
        byte_len(value@) > MAX_APP_JSONC_BYTES ==> r is Err && r->Err_0.spec_reason()
            == AppConfigParseErrorReason::TooLong,
        byte_len(value@) <= MAX_APP_JSONC_BYTES ==> match jsonc_stripped(value@) {
            Some(t) => r is Ok && r->Ok_0@ == t,
            None => r is Err && r->Err_0.spec_reason() == AppConfigParseErrorReason::UnclosedComment,
        },
{
    let chars = chars_of(value);
    let n = chars.len();
    if range_exceeds_bytes(&chars, 0, n, MAX_APP_JSONC_BYTES) {
        proof {
            assert(chars@.subrange(0, n as int) =~= value@);
        }
        return Err(AppConfigParseError::new(AppConfigParseErrorReason::TooLong));
    }
    proof {
        assert(chars@.subrange(0, n as int) =~= value@);
    }
    let mut out = String::new();
    let mut i: usize = 0;
    let mut st = JsoncScan::Code;
    while i < n
        invariant
            chars@ == value@,
            n == chars@.len(),
            i <= n,
            prefix_output(out@, strip_from(chars@, i as nat, st)) == jsonc_stripped(chars@),
        decreases n - i,
    {
        let ghost s = chars@;
        let ghost before = out@;
        let ghost i0 = i;
        let ghost st0 = st;
        let c = chars[i];
        let ghost kept: Seq<char>;
        match st {
            JsoncScan::Text { escaped } => {
                push_char(&mut out, c);
                if escaped {
                    st = JsoncScan::Text { escaped: false };
                } else if c == '\\' {
                    st = JsoncScan::Text { escaped: true };
                } else if c == '"' {
                    st = JsoncScan::Code;
                } else {
                    st = JsoncScan::Text { escaped: false };
                }
                i = i + 1;
                proof {
                    kept = seq![c];
                }
            },
            JsoncScan::Code => {
                if c == '"' {
                    push_char(&mut out, c);
                    st = JsoncScan::Text { escaped: false };
                    i = i + 1;
                    proof {
                        kept = seq![c];
                    }
                } else if c == '/' && i + 1 < n && chars[i + 1] == '/' {
                    st = JsoncScan::LineComment;
                    i = i + 2;
                    proof {
                        kept = Seq::empty();
                    }
                } else if c == '/' && i + 1 < n && chars[i + 1] == '*' {
                    push_char(&mut out, ' ');
                    st = JsoncScan::BlockComment { after_star: false };
                    i = i + 2;
                    proof {
                        kept = seq![' '];
                    }
                } else {
                    push_char(&mut out, c);
                    i = i + 1;
                    proof {
                        kept = seq![c];
                    }
                }
            },
            JsoncScan::LineComment => {
                if c == '\n' {
                    push_char(&mut out, '\n');
                    st = JsoncScan::Code;
                    proof {
                        kept = seq!['\n'];
                    }
                } else {
                    proof {
                        kept = Seq::empty();
                    }
                }
                i = i + 1;
            },
            JsoncScan::BlockComment { after_star } => {
                if c == '\n' {
                    push_char(&mut out, '\n');
                    proof {
                        kept = seq!['\n'];
                    }
                } else {
                    proof {
                        kept = Seq::empty();
                    }
                }
                if after_star && c == '/' {
                    st = JsoncScan::Code;
                } else {
                    st = JsoncScan::BlockComment { after_star: c == '*' };
                }
                i = i + 1;
            },
        }
        proof {
            assert(out@ =~= before + kept);
            lemma_prefix_output_empty(strip_from(s, i as nat, st));
            assert(strip_from(s, i0 as nat, st0) == prefix_output(kept, strip_from(s, i as nat, st)));
            lemma_prefix_output_concat(before, kept, strip_from(s, i as nat, st));
        }
    }
    match st {
        JsoncScan::BlockComment { .. } => Err(AppConfigParseError::new(AppConfigParseErrorReason::UnclosedComment)),
        _ => {
            proof {
                assert(out@ + Seq::<char>::empty() =~= out@);
            }
            Ok(out)
        },
    }
}

} // verus!


