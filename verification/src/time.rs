//! Booking timestamps: internally an instant in milliseconds since the Unix
//! epoch, externally an RFC3339 string. Parsing distinguishes a date-time
//! string whose date component is missing from every other malformed form,
//! by what the parser's own message says, as the error taxonomy asks.

use vstd::prelude::*;
use vstd::string::*;
use crate::errors::AppError;

verus! {

/// What parsing an RFC3339 string yields: the instant in milliseconds, or
/// the parser's message for a malformed string. The outcome depends on the
/// characters alone.
pub uninterp spec fn rfc3339_parse(s: Seq<char>) -> Result<i64, Seq<char>>;

/// The RFC3339 rendering of an instant given in milliseconds since the Unix
/// epoch; it depends on that value alone.
pub uninterp spec fn rfc3339_render(millis: i64) -> Seq<char>;

/// Whether `n` occurs in `h` as a contiguous run of characters.
pub open spec fn has_substring(h: Seq<char>, n: Seq<char>) -> bool {
    exists|i: int| 0 <= i <= h.len() - n.len() && #[trigger] h.subrange(i, i + n.len()) == n
}

/// Whether a parser message reports that the date component was missing.
pub open spec fn missing_date_message(m: Seq<char>) -> bool {
    has_substring(m, "expected date"@)
}

/// A structured timestamp: milliseconds since the Unix epoch, the precision
/// the backing store keeps.
#[derive(Debug, Clone, Copy, PartialEq, Eq, Structural)]
pub struct Timestamp {
    pub millis: i64,
}

/// Parses an RFC3339 date-time string to an instant in milliseconds.
///
/// Relies on chrono::DateTime::parse_from_rfc3339, then the conversion to
/// UTC system time and bson::DateTime::from_system_time, whose
/// timestamp_millis gives the instant at millisecond precision; the result
/// depends on the characters alone. On failure, the parser's rendered
/// message is handed back.
#[verifier::external_body]
fn parse_rfc3339_millis(s: &str) -> (r: Result<i64, String>)
    ensures
        (match r {
            Ok(m) => rfc3339_parse(s@) == Ok::<i64, Seq<char>>(m),
            Err(e) => rfc3339_parse(s@) == Err::<i64, Seq<char>>(e@),
        }),
{
    match chrono::DateTime::parse_from_rfc3339(s) {
        Ok(dt) => {
            let st: std::time::SystemTime = dt.with_timezone(&chrono::Utc).into();
            Ok(bson::DateTime::from(st).timestamp_millis())
        },
        Err(e) => Err(e.to_string()),
    }
}

/// Renders an instant in milliseconds as an RFC3339 string.
///
/// Relies on bson::DateTime::to_chrono (total on every millisecond value;
/// clamps instants outside chrono's range) and chrono's to_rfc3339; the
/// rendering depends on the value alone.
#[verifier::external_body]
fn render_rfc3339(millis: i64) -> (r: String)
    ensures
        r@ == rfc3339_render(millis),
{
    bson::DateTime::from_millis(millis).to_chrono().to_rfc3339()
}

impl Timestamp {
    /// Renders this timestamp as an RFC3339 string, for the response shape.
    /// Total, no failure mode.
    pub fn to_rfc3339(&self) -> (r: String)
        ensures
            r@ == rfc3339_render(self.millis),
    {
        render_rfc3339(self.millis)
    }
}

/// Whether the characters of `n` stand in `h` starting at position `i`.
fn match_at(h: &str, n: &str, i: usize, nl: usize) -> (r: bool)
    requires
        nl == n@.len(),
        i + nl <= h@.len(),
        h@.len() <= usize::MAX,
    ensures
        r == (h@.subrange(i as int, i + nl) == n@),
{
    let mut j: usize = 0;
    while j < nl
        invariant
            j <= nl,
            nl == n@.len(),
            i + nl <= h@.len(),
            h@.len() <= usize::MAX,
            forall|t: int| 0 <= t < j ==> h@[i + t] == n@[t],
        decreases nl - j,
    {
        if h.get_char(i + j) != n.get_char(j) {
            proof {
                assert(h@.subrange(i as int, i + nl)[j as int] == h@[i + j]);
            }
            return false;
        }
        j += 1;
    }
    proof {
        assert(h@.subrange(i as int, i + nl) =~= n@);
    }
    true
}

/// Whether `n` occurs anywhere in `h`.
fn str_contains(h: &str, n: &str) -> (r: bool)
    ensures
        r == has_substring(h@, n@),
{
    let hl = h.unicode_len();
    let nl = n.unicode_len();
    if nl > hl {
        return false;
    }
    if nl == 0 {
        proof {
            assert(h@.subrange(0, 0 + n@.len() as int) =~= n@);
            assert(has_substring(h@, n@));
        }
        return true;
    }
    let mut i: usize = 0;
    while i <= hl - nl
        invariant
            1 <= nl <= hl,
            hl == h@.len(),
            nl == n@.len(),
            i <= hl - nl + 1,
            forall|k: int| 0 <= k < i ==> #[trigger] h@.subrange(k, k + n@.len()) != n@,
        decreases hl - i,
    {
        if match_at(h, n, i, nl) {
            return true;
        }
        i += 1;
    }
    false
}

/// Validates and parses a start-time field. A malformed string fails with
/// `ParseError`: a message of its own when the parser reported a missing
/// date component, and the parser's message behind a fixed prefix in every
/// other case.
pub fn parse_start_time(s: &str) -> (r: Result<Timestamp, AppError>)
    ensures
        rfc3339_parse(s@) matches Ok(m) ==> r == Ok::<Timestamp, AppError>(Timestamp { millis: m }),
        rfc3339_parse(s@) matches Err(g) ==> (r matches Err(AppError::ParseError(msg))
            && (missing_date_message(g) ==> msg@ == "Start time must include a date"@)
            && (!missing_date_message(g) ==> msg@ == "Failed to parse start time: "@ + g)),
        (r is Ok) == (rfc3339_parse(s@) is Ok),
{
    match parse_rfc3339_millis(s) {
        Ok(m) => Ok(Timestamp { millis: m }),
        Err(m) => {
            if str_contains(m.as_str(), "expected date") {
                Err(AppError::ParseError(String::from_str("Start time must include a date")))
            } else {
                let mut msg = String::from_str("Failed to parse start time: ");
                msg.append(m.as_str());
                Err(AppError::ParseError(msg))
            }
        },
    }
}

} // verus!
