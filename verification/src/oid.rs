//! The identifier codec: entity identifiers are 12 raw bytes internally and
//! 24 lowercase hexadecimal characters externally. `decode` accepts both
//! letter cases; `to_hex` always renders lowercase. Every identifier that
//! reaches the gateway from a caller goes through `decode`.

use vstd::prelude::*;
use vstd::slice::slice_to_vec;
use vstd::string::*;
use crate::errors::AppError;

verus! {

pub open spec fn is_hex_digit(c: char) -> bool {
    ('0' <= c && c <= '9') || ('a' <= c && c <= 'f') || ('A' <= c && c <= 'F')
}

/// The numeric value of a hex digit.
pub open spec fn hex_val(c: char) -> u8 {
    if '0' <= c && c <= '9' {
        (c as u8 - '0' as u8) as u8
    } else if 'a' <= c && c <= 'f' {
        (c as u8 - 'a' as u8 + 10) as u8
    } else {
        (c as u8 - 'A' as u8 + 10) as u8
    }
}

/// The lowercase hex digit for a value below 16.
pub open spec fn hex_char(v: u8) -> char {
    if v == 0 { '0' } else if v == 1 { '1' } else if v == 2 { '2' }
    else if v == 3 { '3' } else if v == 4 { '4' } else if v == 5 { '5' }
    else if v == 6 { '6' } else if v == 7 { '7' } else if v == 8 { '8' }
    else if v == 9 { '9' } else if v == 10 { 'a' } else if v == 11 { 'b' }
    else if v == 12 { 'c' } else if v == 13 { 'd' } else if v == 14 { 'e' }
    else { 'f' }
}

/// A string is a well-formed identifier exactly when it is 24 hex digits,
/// of either letter case.
pub open spec fn valid_oid_str(s: Seq<char>) -> bool {
    s.len() == 24 && forall|i: int| 0 <= i < s.len() ==> is_hex_digit(#[trigger] s[i])
}

/// The 12 bytes a well-formed identifier string denotes.
pub open spec fn decoded_bytes(s: Seq<char>) -> Seq<u8> {
    Seq::new(12, |k: int| (16 * hex_val(s[2 * k]) + hex_val(s[2 * k + 1])) as u8)
}

/// The lowercase hex rendering of a byte sequence.
pub open spec fn hex_of(b: Seq<u8>) -> Seq<char> {
    Seq::new(2 * b.len(), |i: int| if i % 2 == 0 {
        hex_char((b[i / 2] / 16) as u8)
    } else {
        hex_char((b[i / 2] % 16) as u8)
    })
}

/// A string already in the canonical rendering: well-formed and lowercase.
pub open spec fn canonical_oid_str(s: Seq<char>) -> bool {
    valid_oid_str(s) && forall|i: int| 0 <= i < s.len() ==> !('A' <= #[trigger] s[i] && s[i] <= 'F')
}

/// An entity identifier: 12 raw bytes, generated once at creation and never
/// changed afterwards.
#[derive(Debug, PartialEq, Eq)]
pub struct EntityId {
    bytes: Vec<u8>,
}

impl View for EntityId {
    type V = Seq<u8>;

    closed spec fn view(&self) -> Seq<u8> {
        self.bytes@
    }
}

impl Clone for EntityId {
    fn clone(&self) -> (r: Self)
        ensures
            r@ == self@,
    {
        EntityId { bytes: slice_to_vec(self.bytes.as_slice()) }
    }
}

impl EntityId {
    /// A well-formed identifier holds exactly 12 bytes.
    pub open spec fn wf(&self) -> bool {
        self@.len() == 12
    }

    /// Parses a hex identifier string. Succeeds exactly on 24 hex digits of
    /// either case; anything else is `InvalidId`.
    pub fn decode(s: &str) -> (r: Result<EntityId, AppError>)
        ensures
            valid_oid_str(s@) ==> (r matches Ok(id) && id@ == decoded_bytes(s@) && id.wf()),
            !valid_oid_str(s@) ==> r == Err::<EntityId, AppError>(AppError::InvalidId),
    {
        let n = s.unicode_len();
        if n != 24 {
            return Err(AppError::InvalidId);
        }
        let mut bytes: Vec<u8> = Vec::new();
        let mut i: usize = 0;
        while i < 24
            invariant
                i % 2 == 0,
                i <= 24,
                s@.len() == 24,
                bytes@.len() == i / 2,
                forall|j: int| 0 <= j < i ==> is_hex_digit(#[trigger] s@[j]),
                forall|k: int| 0 <= k < i / 2 ==> bytes@[k] == (16 * hex_val(s@[2 * k])
                    + hex_val(s@[2 * k + 1])) as u8,
            decreases 24 - i,
        {
            let hi = match hex_digit_val(s.get_char(i)) {
                Some(v) => v,
                None => { return Err(AppError::InvalidId); },
            };
            let lo = match hex_digit_val(s.get_char(i + 1)) {
                Some(v) => v,
                None => { return Err(AppError::InvalidId); },
            };
            bytes.push(16 * hi + lo);
            i += 2;
        }
        proof {
            assert(bytes@ =~= decoded_bytes(s@));
        }
        Ok(EntityId { bytes })
    }

    /// Whether two identifiers hold the same bytes.
    pub fn matches_id(&self, other: &EntityId) -> (r: bool)
        ensures
            r == (self@ == other@),
    {
        if self.bytes.len() != other.bytes.len() {
            return false;
        }
        let n = self.bytes.len();
        let mut i: usize = 0;
        while i < n
            invariant
                i <= n,
                n == self@.len(),
                self@.len() == other@.len(),
                forall|j: int| 0 <= j < i ==> self@[j] == other@[j],
            decreases n - i,
        {
            if self.bytes[i] != other.bytes[i] {
                return false;
            }
            i += 1;
        }
        proof {
            assert(self@ =~= other@);
        }
        true
    }

    /// Renders this identifier as its 24-character lowercase hex string.
    /// Total: every identifier has a rendering.
    pub fn to_hex(&self) -> (r: String)
        ensures
            r@ == hex_of(self@),
    {
        let mut out = String::new();
        let mut i: usize = 0;
        let n = self.bytes.len();
        while i < n
            invariant
                i <= n,
                n == self@.len(),
                out@.len() == 2 * i,
                forall|j: int| 0 <= j < out@.len() ==> out@[j] == hex_of(self@)[j],
            decreases n - i,
        {
            let b = self.bytes[i];
            push_hex_digit(&mut out, b / 16);
            push_hex_digit(&mut out, b % 16);
            i += 1;
        }
        proof {
            assert(out@ =~= hex_of(self@));
        }
        out
    }
}

/// The numeric value of a hex digit character, or `None` for any other
/// character.
fn hex_digit_val(c: char) -> (r: Option<u8>)
    ensures
        is_hex_digit(c) ==> r == Some(hex_val(c)),
        !is_hex_digit(c) ==> r is None,
        r matches Some(v) ==> v < 16,
{
    if '0' <= c && c <= '9' {
        Some(c as u8 - 48)
    } else if 'a' <= c && c <= 'f' {
        Some(c as u8 - 97 + 10)
    } else if 'A' <= c && c <= 'F' {
        Some(c as u8 - 65 + 10)
    } else {
        None
    }
}

/// Appends the lowercase hex digit for a value below 16.
fn push_hex_digit(out: &mut String, v: u8)
    requires
        v < 16,
    ensures
        final(out)@ == old(out)@ + seq![hex_char(v)],
{
    let d = match v {
        0 => "0", 1 => "1", 2 => "2", 3 => "3",
        4 => "4", 5 => "5", 6 => "6", 7 => "7",
        8 => "8", 9 => "9", 10 => "a", 11 => "b",
        12 => "c", 13 => "d", 14 => "e", _ => "f",
    };
    proof {
        reveal_strlit("0"); reveal_strlit("1"); reveal_strlit("2"); reveal_strlit("3");
        reveal_strlit("4"); reveal_strlit("5"); reveal_strlit("6"); reveal_strlit("7");
        reveal_strlit("8"); reveal_strlit("9"); reveal_strlit("a"); reveal_strlit("b");
        reveal_strlit("c"); reveal_strlit("d"); reveal_strlit("e"); reveal_strlit("f");
        assert(d@ =~= seq![hex_char(v)]);
    }
    out.append(d);
}

/// Generates a fresh identifier for a newly created entity.
///
/// Relies on bson::oid::ObjectId::new, which builds a 12-byte identifier
/// from the current time, a process-wide random value and a counter; the
/// result depends on the environment, so nothing is stated beyond its shape.
#[verifier::external_body]
pub(crate) fn fresh_id() -> (r: EntityId)
    ensures
        r.wf(),
{
    EntityId { bytes: bson::oid::ObjectId::new().bytes().to_vec() }
}

/// Every rendering decodes back to the identifier it came from: `to_hex`
/// output is always a well-formed identifier string, and `decode` of it
/// yields the same bytes.
pub proof fn lemma_encode_decode(b: Seq<u8>)
    requires
        b.len() == 12,
    ensures
        valid_oid_str(hex_of(b)),
        canonical_oid_str(hex_of(b)),
        decoded_bytes(hex_of(b)) == b,
{
    let s = hex_of(b);
    assert forall|i: int| 0 <= i < s.len() implies is_hex_digit(#[trigger] s[i])
        && !('A' <= s[i] && s[i] <= 'F') by {
        let v = if i % 2 == 0 { (b[i / 2] / 16) as u8 } else { (b[i / 2] % 16) as u8 };
        assert(v < 16);
        assert(s[i] == hex_char(v));
    }
    assert forall|k: int| 0 <= k < 12 implies decoded_bytes(s)[k] == b[k] by {
        let hi = (b[k] / 16) as u8;
        let lo = (b[k] % 16) as u8;
        assert(s[2 * k] == hex_char(hi));
        assert(s[2 * k + 1] == hex_char(lo));
        assert(hex_val(hex_char(hi)) == hi);
        assert(hex_val(hex_char(lo)) == lo);
    }
    assert(decoded_bytes(s) =~= b);
}

/// A canonical (lowercase) identifier string round-trips exactly: rendering
/// its decoded bytes gives the string back, character for character.
pub proof fn lemma_decode_encode(s: Seq<char>)
    requires
        canonical_oid_str(s),
    ensures
        hex_of(decoded_bytes(s)) == s,
{
    let b = decoded_bytes(s);
    assert forall|i: int| 0 <= i < 24 implies hex_of(b)[i] == s[i] by {
        let k = i / 2;
        let c_hi = s[2 * k];
        let c_lo = s[2 * k + 1];
        assert(is_hex_digit(c_hi) && !('A' <= c_hi && c_hi <= 'F'));
        assert(is_hex_digit(c_lo) && !('A' <= c_lo && c_lo <= 'F'));
        assert(b[k] == (16 * hex_val(c_hi) + hex_val(c_lo)) as u8);
        assert(hex_val(c_hi) < 16 && hex_val(c_lo) < 16);
        assert((b[k] / 16) as u8 == hex_val(c_hi));
        assert((b[k] % 16) as u8 == hex_val(c_lo));
        assert(hex_char(hex_val(c_hi)) == c_hi);
        assert(hex_char(hex_val(c_lo)) == c_lo);
        if i % 2 == 0 {
            assert(i == 2 * k);
        } else {
            assert(i == 2 * k + 1);
        }
    }
    assert(hex_of(b) =~= s);
}

} // verus!
