//! Timestamps for forwarded child log lines.
//!
//! The rendering of a UTC second count as an RFC 3339 string is done by the
//! `humantime` crate; its result is named by `rfc3339_seconds_of` and only
//! its fixed shape is stated.
use vstd::prelude::*;

verus! {

/// Last second of the year 9999; the timestamp renderer is defined below it.
pub const MAX_RFC3339_SECS: u64 = 253402300799;

/// The text that the timestamp renderer produces for a given number of
/// seconds since the Unix epoch.
pub uninterp spec fn rfc3339_seconds_of(secs: int) -> Seq<char>;

/// An ASCII decimal digit.
pub open spec fn is_digit_char(c: char) -> bool {
    '0' <= c && c <= '9'
}

/// The fixed shape `YYYY-MM-DDThh:mm:ssZ`: 20 characters, decimal digits
/// everywhere but the five separators and the trailing `Z`.
pub open spec fn is_rfc3339_seconds(s: Seq<char>) -> bool {
    &&& s.len() == 20
    &&& (forall|i: int|
        0 <= i < 20 && i != 4 && i != 7 && i != 10 && i != 13 && i != 16 && i != 19
            ==> is_digit_char(#[trigger] s[i]))
    &&& s[4] == '-'
    &&& s[7] == '-'
    &&& s[10] == 'T'
    &&& s[13] == ':'
    &&& s[16] == ':'
    &&& s[19] == 'Z'
}

/// Relies on `humantime::format_rfc3339_seconds`: up to the end of the year
/// 9999 it renders a time as the 20-character UTC form `YYYY-MM-DDThh:mm:ssZ`,
/// and the text depends on the whole seconds alone.
#[verifier::external_body]
pub fn format_rfc3339_secs(secs: u64) -> (r: String)
    requires
        secs <= MAX_RFC3339_SECS,
    ensures
        r@ == rfc3339_seconds_of(secs as int),
        is_rfc3339_seconds(r@),
{
    humantime::format_rfc3339_seconds(
        std::time::UNIX_EPOCH + std::time::Duration::from_secs(secs),
    ).to_string()
}

/// A forwarded child log line: `[<timestamp> <service>] <line>`.
pub open spec fn forwarded_text(ts: Seq<char>, name: Seq<char>, line: Seq<char>) -> Seq<char> {
    "["@ + ts + " "@ + name + "] "@ + line
}

/// Build the forwarded form of one child output line, stamped with the given
/// UTC second count.
pub fn forward_line(secs: u64, name: &str, line: &str) -> (r: String)
    requires
        secs <= MAX_RFC3339_SECS,
    ensures
        r@ == forwarded_text(rfc3339_seconds_of(secs as int), name@, line@),
        is_rfc3339_seconds(r@.subrange(1, 21)),
{
    let ts = format_rfc3339_secs(secs);
    let r = String::from_str("[").concat(ts.as_str()).concat(" ").concat(name).concat(
        "] ",
    ).concat(line);
    proof {
        reveal_strlit("[");
        lemma_forwarded_shape(ts@, name@, line@);
        assert(r@.subrange(1, 21) =~= ts@);
    }
    r
}

/// Every forwarded line carries its timestamp at characters 1 through 20:
/// the text between the opening bracket and the following space is exactly
/// the rendered timestamp, so a well-shaped timestamp makes the line match
/// `[dddd-dd-ddTdd:dd:ddZ <name>] <line>`.
pub proof fn lemma_forwarded_shape(ts: Seq<char>, name: Seq<char>, line: Seq<char>)
    requires
        ts.len() == 20,
    ensures
        forwarded_text(ts, name, line).len() == 24 + name.len() + line.len(),
        forwarded_text(ts, name, line).subrange(1, 21) =~= ts,
        forwarded_text(ts, name, line)[0] == '[',
        forwarded_text(ts, name, line)[21] == ' ',
        forwarded_text(ts, name, line).subrange(22, 22 + name.len() as int) =~= name,
        forwarded_text(ts, name, line).subrange(
            22 + name.len() as int,
            24 + name.len() as int,
        ) =~= "] "@,
        forwarded_text(ts, name, line).subrange(
            24 + name.len() as int,
            forwarded_text(ts, name, line).len() as int,
        ) =~= line,
{
    reveal_strlit("[");
    reveal_strlit(" ");
    reveal_strlit("] ");
    assert("["@.len() == 1);
    assert(" "@.len() == 1);
    assert("] "@.len() == 2);
    assert("["@[0] == '[');
    assert(" "@[0] == ' ');
}

/// Law: every forwarded child log line opens with a bracketed, well-shaped
/// timestamp — it matches `[dddd-dd-ddTdd:dd:ddZ <name>] <line>`, with `d`
/// a decimal digit, the service name at characters 22 onward, and the
/// child's own line after the closing `] `.
pub proof fn lemma_forwarded_line_pattern(ts: Seq<char>, name: Seq<char>, line: Seq<char>)
    requires
        is_rfc3339_seconds(ts),
    ensures
        ({
            let s = forwarded_text(ts, name, line);
            &&& s.len() == 24 + name.len() + line.len()
            &&& s[0] == '['
            &&& (forall|i: int|
                1 <= i < 21 && i != 5 && i != 8 && i != 11 && i != 14 && i != 17 && i != 20
                    ==> is_digit_char(#[trigger] s[i]))
            &&& s[5] == '-'
            &&& s[8] == '-'
            &&& s[11] == 'T'
            &&& s[14] == ':'
            &&& s[17] == ':'
            &&& s[20] == 'Z'
            &&& s[21] == ' '
            &&& s.subrange(22, 22 + name.len() as int) =~= name
            &&& s.subrange(22 + name.len() as int, 24 + name.len() as int) =~= "] "@
            &&& s.subrange(24 + name.len() as int, s.len() as int) =~= line
        }),
{
    lemma_forwarded_shape(ts, name, line);
    let s = forwarded_text(ts, name, line);
    assert forall|i: int| 1 <= i < 21 implies s[i] == ts[i - 1] by {
        assert(s.subrange(1, 21)[i - 1] == s[i]);
    }
}

} // verus!
