//! The JSON texts of the wire format.
//!
//! Strings and integers are turned into JSON literals by `rustc_serialize`; the
//! documents around them are framed here.

use crate::error::EmitterError;
use rustc_serialize::json::EncoderError;
use vstd::prelude::*;

verus! {

/// The JSON text that `rustc_serialize::json::encode` gives for a string: the
/// string's quoted and escaped literal.
pub uninterp spec fn json_string(s: Seq<char>) -> Seq<char>;

/// The character of a decimal digit.
pub open spec fn digit_char(d: int) -> char
    recommends
        0 <= d <= 9,
{
    if d == 0 {
        '0'
    } else if d == 1 {
        '1'
    } else if d == 2 {
        '2'
    } else if d == 3 {
        '3'
    } else if d == 4 {
        '4'
    } else if d == 5 {
        '5'
    } else if d == 6 {
        '6'
    } else if d == 7 {
        '7'
    } else if d == 8 {
        '8'
    } else {
        '9'
    }
}

/// The decimal digits of a natural number, most significant first, without leading zeros.
pub open spec fn digits(n: nat) -> Seq<char>
    decreases n,
{
    if n < 10 {
        seq![digit_char(n as int)]
    } else {
        digits(n / 10).push(digit_char((n % 10) as int))
    }
}

/// The decimal notation of an integer: its digits, after a minus sign where it is negative.
pub open spec fn decimal(n: int) -> Seq<char> {
    if n < 0 {
        seq!['-'] + digits((-n) as nat)
    } else {
        digits(n as nat)
    }
}

/// The digit that a character stands for, zero for a character that is no digit.
pub open spec fn digit_value(c: char) -> int {
    if c == '1' {
        1
    } else if c == '2' {
        2
    } else if c == '3' {
        3
    } else if c == '4' {
        4
    } else if c == '5' {
        5
    } else if c == '6' {
        6
    } else if c == '7' {
        7
    } else if c == '8' {
        8
    } else if c == '9' {
        9
    } else {
        0
    }
}

/// The natural number that a sequence of digits denotes.
pub open spec fn digits_value(s: Seq<char>) -> int
    decreases s.len(),
{
    if s.len() == 0 {
        0
    } else {
        digits_value(s.drop_last()) * 10 + digit_value(s.last())
    }
}

/// The integer that a decimal notation denotes.
pub open spec fn decimal_value(s: Seq<char>) -> int {
    if s.len() > 0 && s[0] == '-' {
        -digits_value(s.drop_first())
    } else {
        digits_value(s)
    }
}

/// The digits of a natural number denote that number, and they start with a digit.
pub proof fn lemma_digits_denote(n: nat)
    ensures
        digits(n).len() > 0,
        digits(n)[0] != '-',
        digits_value(digits(n)) == n,
    decreases n,
{
    if n < 10 {
        assert(digits(n).drop_last() == Seq::<char>::empty());
        assert(digits_value(digits(n).drop_last()) == 0);
    } else {
        lemma_digits_denote(n / 10);
        assert(digits(n).drop_last() == digits(n / 10));
        assert(digits(n)[0] == digits(n / 10)[0]);
    }
}

/// An integer can be read back from its decimal notation, digit for digit.
pub proof fn lemma_decimal_denotes(n: int)
    ensures
        decimal_value(decimal(n)) == n,
{
    if n < 0 {
        lemma_digits_denote((-n) as nat);
        assert(decimal(n).drop_first() == digits((-n) as nat));
    } else {
        lemma_digits_denote(n as nat);
    }
}

/// Calls `rustc_serialize::json::encode` on a string. The contract claims that
/// the call succeeds and that the text depends on the string alone, and gives
/// that text the name `json_string`; it says nothing of what the literal looks
/// like. The encoder reports an error only where writing to its output fails,
/// and its output here is a `String` of its own, to which every write succeeds.
#[verifier::external_body]
pub(crate) fn encode_str(s: &str) -> (r: Result<String, EncoderError>)
    ensures
        r is Ok,
        r.unwrap()@ == json_string(s@),
{
    rustc_serialize::json::encode(&s)
}

/// Calls `rustc_serialize::json::encode` on a 64 bit signed integer. The contract
/// claims that the call succeeds and that the text is the integer's decimal
/// notation: the encoder writes an integer that is not the key of a map with
/// plain formatting, into a `String` of its own, to which every write succeeds.
#[verifier::external_body]
pub(crate) fn encode_i64(n: i64) -> (r: Result<String, EncoderError>)
    ensures
        r is Ok,
        r.unwrap()@ == decimal(n as int),
{
    rustc_serialize::json::encode(&n)
}

/// One record of a meta data document: an object with the members `metric`,
/// `name` and `value`, each given as the JSON literal to write.
pub open spec fn metadata_record(metric: Seq<char>, name: Seq<char>, value: Seq<char>) -> Seq<char> {
    "{\"metric\":"@ + metric + ",\"name\":"@ + name + ",\"value\":"@ + value + "}"@
}

/// A meta data document: an array of the three records named `unit`, `rate` and
/// `desc`, in this order, all for the same metric. The arguments are JSON literals.
pub open spec fn metadata_document(
    metric: Seq<char>,
    unit: Seq<char>,
    rate: Seq<char>,
    description: Seq<char>,
) -> Seq<char> {
    "["@ + metadata_record(metric, "\"unit\""@, unit) + ","@ + metadata_record(
        metric,
        "\"rate\""@,
        rate,
    ) + ","@ + metadata_record(metric, "\"desc\""@, description) + "]"@
}

/// The members of a JSON object, each a pair of the key's and the value's literal,
/// separated by commas.
pub open spec fn object_members(members: Seq<(Seq<char>, Seq<char>)>) -> Seq<char>
    decreases members.len(),
{
    if members.len() == 0 {
        Seq::empty()
    } else if members.len() == 1 {
        members[0].0 + ":"@ + members[0].1
    } else {
        object_members(members.drop_last()) + ","@ + members.last().0 + ":"@ + members.last().1
    }
}

/// A JSON object with the given members, `{}` where there are none.
pub open spec fn object_document(members: Seq<(Seq<char>, Seq<char>)>) -> Seq<char> {
    "{"@ + object_members(members) + "}"@
}

/// A datum document: an object with the members `metric`, `timestamp`, `value`
/// and `tags`, in this order. The arguments are the JSON texts to write.
pub open spec fn datum_document(
    metric: Seq<char>,
    timestamp: Seq<char>,
    value: Seq<char>,
    tags: Seq<char>,
) -> Seq<char> {
    "{\"metric\":"@ + metric + ",\"timestamp\":"@ + timestamp + ",\"value\":"@ + value
        + ",\"tags\":"@ + tags + "}"@
}

/// Frames one record of a meta data document from the JSON literals of its members.
pub fn frame_metadata_record(metric: &str, name: &str, value: &str) -> (text: String)
    ensures
        text@ == metadata_record(metric@, name@, value@),
{
    let mut text = String::from_str("{\"metric\":");
    text.append(metric);
    text.append(",\"name\":");
    text.append(name);
    text.append(",\"value\":");
    text.append(value);
    text.append("}");
    text
}

/// Frames a meta data document from the JSON literals of the metric's name, unit,
/// rate and description.
pub fn frame_metadata(metric: &str, unit: &str, rate: &str, description: &str) -> (text: String)
    ensures
        text@ == metadata_document(metric@, unit@, rate@, description@),
{
    let unit_record = frame_metadata_record(metric, "\"unit\"", unit);
    let rate_record = frame_metadata_record(metric, "\"rate\"", rate);
    let desc_record = frame_metadata_record(metric, "\"desc\"", description);
    let mut text = String::from_str("[");
    text.append(unit_record.as_str());
    text.append(",");
    text.append(rate_record.as_str());
    text.append(",");
    text.append(desc_record.as_str());
    text.append("]");
    text
}

/// Frames a JSON object from the literals of its members' keys and values.
pub fn frame_object(members: &Vec<(String, String)>) -> (text: String)
    ensures
        text@ == object_document(members@.map_values(|m: (String, String)| (m.0@, m.1@))),
{
    let ghost lits = members@.map_values(|m: (String, String)| (m.0@, m.1@));
    let mut text = String::from_str("{");
    let mut i: usize = 0;
    while i < members.len()
        invariant
            i <= members.len(),
            lits == members@.map_values(|m: (String, String)| (m.0@, m.1@)),
            text@ == "{"@ + object_members(lits.take(i as int)),
        decreases members.len() - i,
    {
        proof {
            assert(lits.take(i as int + 1).drop_last() == lits.take(i as int));
            assert(lits.take(i as int + 1).last() == lits[i as int]);
        }
        if i > 0 {
            text.append(",");
        }
        text.append(members[i].0.as_str());
        text.append(":");
        text.append(members[i].1.as_str());
        i = i + 1;
    }
    proof {
        assert(lits.take(members.len() as int) == lits);
    }
    text.append("}");
    text
}

/// Frames a datum document from the JSON texts of its four members.
pub fn frame_datum(metric: &str, timestamp: &str, value: &str, tags: &str) -> (text: String)
    ensures
        text@ == datum_document(metric@, timestamp@, value@, tags@),
{
    let mut text = String::from_str("{\"metric\":");
    text.append(metric);
    text.append(",\"timestamp\":");
    text.append(timestamp);
    text.append(",\"value\":");
    text.append(value);
    text.append(",\"tags\":");
    text.append(tags);
    text.append("}");
    text
}

/// Turns the encoder's outcome into this library's: the text, or the failure to create JSON.
pub fn encoded(outcome: Result<String, EncoderError>) -> (r: Result<String, EmitterError>)
    ensures
        match outcome {
            Ok(text) => r == Ok::<String, EmitterError>(text),
            Err(e) => r == Err::<String, EmitterError>(EmitterError::JsonParseError(e)),
        },
{
    match outcome {
        Ok(text) => Ok(text),
        Err(e) => Err(EmitterError::from(e)),
    }
}

} // verus!
