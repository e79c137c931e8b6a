//! The message sent for one flushed bucket: a JSON object with the bucket's
//! start, resource, feature, unit and total, in that order.
use crate::accumulator::{UsageKey, UsageKeyView, UsageUnit};
use vstd::prelude::*;
use vstd::string::StringExecFns;

verus! {

#[verifier::external_type_specification]
#[verifier::external_body]
pub struct ExJsonError(serde_json::Error);

/// The lowercase hexadecimal digit of `d`.
pub open spec fn hex_digit(d: int) -> char {
    if d < 10 {
        (48 + d) as char
    } else {
        (87 + d) as char
    }
}

/// How `c` stands inside a JSON string literal: quote and backslash behind
/// a backslash, the control characters with a short escape where JSON has
/// one and as `\u00XX` otherwise, every other character as itself.
pub open spec fn escaped_char(c: char) -> Seq<char> {
    let n = c as int;
    if c == '"' {
        seq!['\\', '"']
    } else if c == '\\' {
        seq!['\\', '\\']
    } else if n == 8 {
        seq!['\\', 'b']
    } else if n == 9 {
        seq!['\\', 't']
    } else if n == 10 {
        seq!['\\', 'n']
    } else if n == 12 {
        seq!['\\', 'f']
    } else if n == 13 {
        seq!['\\', 'r']
    } else if n < 32 {
        seq!['\\', 'u', '0', '0', hex_digit(n / 16), hex_digit(n % 16)]
    } else {
        seq![c]
    }
}

/// The characters of `s`, each escaped.
pub open spec fn escaped(s: Seq<char>) -> Seq<char>
    decreases s.len(),
{
    if s.len() == 0 {
        Seq::empty()
    } else {
        escaped(s.drop_last()) + escaped_char(s.last())
    }
}

/// The JSON string literal of `s` as `serde_json` writes it: the escaped
/// characters in double quotes.
pub open spec fn json_string_of(s: Seq<char>) -> Seq<char> {
    seq!['"'] + escaped(s) + seq!['"']
}

/// Relies on `serde_json::to_string` on a `str`: it writes the JSON string
/// literal of the text (escapes as in its `ESCAPE` table and
/// `write_char_escape`) into an in-memory buffer, so that it does not fail.
#[verifier::external_body]
fn json_string(s: &str) -> (r: Result<String, serde_json::Error>)
    ensures
        r is Ok,
        r->Ok_0@ == json_string_of(s@),
{
    serde_json::to_string(s)
}

/// The character of the decimal digit `d`.
pub open spec fn digit_char(d: int) -> char {
    (48 + d) as char
}

/// The decimal digits of `n`, without leading zeros.
pub open spec fn decimal(n: nat) -> Seq<char>
    decreases n,
{
    if n < 10 {
        seq![digit_char(n as int)]
    } else {
        decimal(n / 10).push(digit_char((n % 10) as int))
    }
}

/// `n` in decimal, with a minus sign where it is negative.
pub open spec fn signed_decimal(n: int) -> Seq<char> {
    if n < 0 {
        seq!['-'] + decimal((-n) as nat)
    } else {
        decimal(n as nat)
    }
}

/// The JSON object of a message, given the JSON string literals of its
/// resource and feature.
pub open spec fn framed_text(
    timestamp: i64,
    resource_json: Seq<char>,
    feature_json: Seq<char>,
    unit: UsageUnit,
    amount: u64,
) -> Seq<char> {
    "{\"timestamp\":"@ + signed_decimal(timestamp as int) + ",\"shared_resource_id\":"@
        + resource_json + ",\"app_feature\":"@ + feature_json + ",\"usage_unit\":\""@
        + unit.wire_name() + "\",\"amount\":"@ + decimal(amount as nat) + "}"@
}

/// The text of the message for the bucket `key` with total `amount`.
pub open spec fn message_text(key: UsageKeyView, amount: u64) -> Seq<char> {
    framed_text(
        key.quantized_timestamp,
        json_string_of(key.resource_id),
        json_string_of(key.app_feature),
        key.unit,
        amount,
    )
}

fn digit_str(d: u64) -> (r: &'static str)
    requires
        d < 10,
    ensures
        r@ == seq![digit_char(d as int)],
{
    proof {
        reveal_strlit("0");
        reveal_strlit("1");
        reveal_strlit("2");
        reveal_strlit("3");
        reveal_strlit("4");
        reveal_strlit("5");
        reveal_strlit("6");
        reveal_strlit("7");
        reveal_strlit("8");
        reveal_strlit("9");
    }
    match d {
        0 => "0",
        1 => "1",
        2 => "2",
        3 => "3",
        4 => "4",
        5 => "5",
        6 => "6",
        7 => "7",
        8 => "8",
        _ => "9",
    }
}

/// Appends the decimal digits of `n`.
fn append_decimal(out: &mut String, n: u64)
    ensures
        final(out)@ == old(out)@ + decimal(n as nat),
    decreases n,
{
    if n >= 10 {
        append_decimal(out, n / 10);
    }
    out.append(digit_str(n % 10));
    assert(out@ =~= old(out)@ + decimal(n as nat));
}

/// Appends `n` in decimal, with a minus sign where it is negative.
fn append_signed_decimal(out: &mut String, n: i64)
    ensures
        final(out)@ == old(out)@ + signed_decimal(n as int),
{
    if n < 0 {
        proof {
            reveal_strlit("-");
        }
        out.append("-");
        append_decimal(out, (0i128 - n as i128) as u64);
        assert(out@ =~= old(out)@ + signed_decimal(n as int));
    } else {
        append_decimal(out, n as u64);
    }
}

/// Writes the JSON object of a message from the JSON string literals of its
/// resource and feature.
pub fn frame_message(
    timestamp: i64,
    resource_json: &str,
    feature_json: &str,
    unit: UsageUnit,
    amount: u64,
) -> (r: String)
    ensures
        r@ == framed_text(timestamp, resource_json@, feature_json@, unit, amount),
{
    let mut out = String::new();
    out.append("{\"timestamp\":");
    append_signed_decimal(&mut out, timestamp);
    out.append(",\"shared_resource_id\":");
    out.append(resource_json);
    out.append(",\"app_feature\":");
    out.append(feature_json);
    out.append(",\"usage_unit\":\"");
    out.append(unit.name());
    out.append("\",\"amount\":");
    append_decimal(&mut out, amount);
    out.append("}");
    assert(out@ =~= framed_text(timestamp, resource_json@, feature_json@, unit, amount));
    out
}

/// Writes the message for the bucket `key` with total `amount`.
pub fn encode_message(key: &UsageKey, amount: u64) -> (r: String)
    ensures
        r@ == message_text(key@, amount),
{
    let resource_json = json_string(key.resource_id.as_str());
    let feature_json = json_string(key.app_feature.as_str());
    match (resource_json, feature_json) {
        (Ok(rj), Ok(fj)) => frame_message(
            key.quantized_timestamp,
            rj.as_str(),
            fj.as_str(),
            key.unit,
            amount,
        ),
        _ => String::new(),
    }
}

} // verus!
