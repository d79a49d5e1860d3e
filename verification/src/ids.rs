//! Identifiers: UUID values carried as their 128-bit integer.

use vstd::prelude::*;

verus! {

/// A UUID identifier, held as its 128-bit value.
#[derive(Clone, Copy, Debug, PartialEq, Eq, Hash, Structural)]
pub struct Uid(pub u128);

/// Session identifier.
pub type SessionId = Uid;
/// Message identifier.
pub type MessageId = Uid;
/// Message part identifier.
pub type PartId = Uid;
/// Project identifier.
pub type ProjectId = Uid;
/// Workspace identifier.
pub type WorkspaceId = Uid;
/// Provider account identifier.
pub type AccountId = Uid;

/// What `uuid::Uuid::parse_str` returns for a text, taken as the 128-bit
/// value of the parsed UUID.
pub uninterp spec fn uuid_parse(text: Seq<char>) -> Option<u128>;

/// The lower-case hexadecimal digit of a value below 16.
pub open spec fn hex_char(d: u8) -> char {
    if d < 10 {
        (48 + d) as char
    } else {
        (87 + d) as char
    }
}

/// The `n` lowest hexadecimal digits of `v`, most significant first.
pub open spec fn hex_digits(v: u128, n: nat) -> Seq<char>
    decreases n,
{
    if n == 0 {
        Seq::empty()
    } else {
        hex_digits(v / 16, (n - 1) as nat).push(hex_char((v % 16) as u8))
    }
}

/// The hyphenated text of a UUID: its 32 lower-case hexadecimal digits
/// grouped 8-4-4-4-12.
pub open spec fn uuid_text(value: u128) -> Seq<char> {
    let h = hex_digits(value, 32);
    h.subrange(0, 8) + seq!['-'] + h.subrange(8, 12) + seq!['-'] + h.subrange(12, 16) + seq!['-']
        + h.subrange(16, 20) + seq!['-'] + h.subrange(20, 32)
}

/// The text of the `uuid::Error` that `uuid::Uuid::parse_str` gives for a
/// text it refuses.
pub uninterp spec fn uuid_parse_error(text: Seq<char>) -> Seq<char>;

/// Calls `uuid::Uuid::parse_str`; the value is `uuid_parse` of the text, or
/// the error's text is `uuid_parse_error` of it.
#[verifier::external_body]
fn parse_uuid(text: &str) -> (r: Result<u128, String>)
    ensures
        match r {
            Ok(v) => uuid_parse(text@) == Some(v),
            Err(e) => uuid_parse(text@) is None && e@ == uuid_parse_error(text@),
        },
{
    uuid::Uuid::parse_str(text).map(|u| u.as_u128()).map_err(|e| e.to_string())
}

/// The hexadecimal digit of a value below 16.
fn hex_digit(d: u8) -> (c: char)
    requires
        d < 16,
    ensures
        c == hex_char(d),
{
    if d < 10 {
        (48u8 + d) as char
    } else {
        (87u8 + d) as char
    }
}

/// The 32 hexadecimal digits of a value, most significant first.
fn hex_digits_of(value: u128) -> (r: Vec<char>)
    ensures
        r.len() == 32,
        r@ == hex_digits(value, 32),
{
    let mut out: Vec<char> = Vec::new();
    let mut k: usize = 0;
    while k < 32
        invariant
            k <= 32,
            out.len() == k,
        decreases 32 - k,
    {
        out.push('0');
        k = k + 1;
    }
    let mut rest: u128 = value;
    let mut j: usize = 0;
    while j < 32
        invariant
            j <= 32,
            out.len() == 32,
            hex_digits(value, 32) == hex_digits(rest, (32 - j) as nat) + out@.subrange(32 - j, 32),
        decreases 32 - j,
    {
        let d = (rest % 16) as u8;
        let c = hex_digit(d);
        let ghost before = out@;
        out.set(31 - j, c);
        assert(hex_digits(rest, (32 - j) as nat) == hex_digits(rest / 16, (31 - j) as nat).push(c));
        assert(out@.subrange(31 - j, 32) =~= seq![c] + before.subrange(32 - j, 32));
        assert(hex_digits(rest / 16, (31 - j) as nat).push(c) + before.subrange(32 - j, 32)
            =~= hex_digits(rest / 16, (31 - j) as nat) + out@.subrange(31 - j, 32));
        rest = rest / 16;
        j = j + 1;
    }
    assert(hex_digits(rest, 0) =~= Seq::<char>::empty());
    assert(out@.subrange(0, 32) =~= out@);
    assert(Seq::<char>::empty() + out@ =~= out@);
    out
}

/// Append `h[from..to]` to `out`.
fn push_digits(out: &mut String, h: &Vec<char>, from: usize, to: usize)
    requires
        from <= to <= h.len(),
    ensures
        final(out)@ == old(out)@ + h@.subrange(from as int, to as int),
{
    let mut i: usize = from;
    while i < to
        invariant
            from <= i <= to <= h.len(),
            out@ == old(out)@ + h@.subrange(from as int, i as int),
        decreases to - i,
    {
        crate::text::push_char(out, h[i]);
        assert(h@.subrange(from as int, i + 1) =~= h@.subrange(from as int, i as int).push(h@[i as int]));
        i = i + 1;
    }
}

/// The hyphenated lower-case text of a UUID value.
fn format_uuid(value: u128) -> (r: String)
    ensures
        r@ == uuid_text(value),
{
    let h = hex_digits_of(value);
    let mut out = String::new();
    push_digits(&mut out, &h, 0, 8);
    crate::text::push_char(&mut out, '-');
    push_digits(&mut out, &h, 8, 12);
    crate::text::push_char(&mut out, '-');
    push_digits(&mut out, &h, 12, 16);
    crate::text::push_char(&mut out, '-');
    push_digits(&mut out, &h, 16, 20);
    crate::text::push_char(&mut out, '-');
    push_digits(&mut out, &h, 20, 32);
    assert(out@ =~= uuid_text(value));
    out
}

/// Whether a 128-bit value is a version 7 UUID of the RFC 4122 variant:
/// version nibble 7 (bits 76 to 79) and variant bits `10` (bits 62, 63).
pub open spec fn is_v7_uuid(v: u128) -> bool {
    (v >> 76u128) & 0xfu128 == 7u128 && (v >> 62u128) & 3u128 == 2u128
}

/// Calls `uuid::Uuid::now_v7`, which writes the version 7 nibble and the
/// RFC 4122 variant bits into every UUID it makes; the rest of the value
/// depends on the clock and a random source and is left unsaid.
#[verifier::external_body]
fn fresh_uuid() -> (r: u128)
    ensures
        is_v7_uuid(r),
{
    uuid::Uuid::now_v7().as_u128()
}

impl Uid {
    /// A fresh time-ordered identifier: a version 7 UUID.
    pub fn new() -> (r: Uid)
        ensures
            is_v7_uuid(r.0),
    {
        Uid(fresh_uuid())
    }

    /// Parse an identifier from its text (`FromStr`).
    pub fn parse(text: &str) -> (r: Option<Uid>)
        ensures
            match r {
                Some(id) => uuid_parse(text@) == Some(id.0),
                None => uuid_parse(text@) is None,
            },
    {
        match parse_uuid(text) {
            Ok(v) => Some(Uid(v)),
            Err(_) => None,
        }
    }

    /// Parse an identifier from its text, with the parse error's text.
    pub fn parse_or_error(text: &str) -> (r: Result<Uid, String>)
        ensures
            match r {
                Ok(id) => uuid_parse(text@) == Some(id.0),
                Err(e) => uuid_parse(text@) is None && e@ == uuid_parse_error(text@),
            },
    {
        match parse_uuid(text) {
            Ok(v) => Ok(Uid(v)),
            Err(e) => Err(e),
        }
    }

    /// The identifier's text (`Display`).
    pub fn text(&self) -> (r: String)
        ensures
            r@ == uuid_text(self.0),
    {
        format_uuid(self.0)
    }
}

} // verus!
