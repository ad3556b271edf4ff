//! A metric datum and its JSON document.

use crate::clock::{wall_clock, Moment};
use crate::error::EmitterError;
use crate::json::{
    datum_document, decimal, encode_i64, encode_str, encoded, frame_datum, frame_object,
    json_string, object_document,
};
use crate::tags::{Pair, Tags};
use vstd::prelude::*;

verus! {

/// The literals of the keys and values, pair by pair.
pub open spec fn pair_literals(entries: Seq<Pair>) -> Seq<Pair> {
    entries.map_values(|p: Pair| (json_string(p.0), json_string(p.1)))
}

/// Encodes tags as a JSON object whose members are the tags in their order.
pub fn encode_tags(tags: &Tags) -> (r: Result<String, EmitterError>)
    ensures
        r matches Ok(text) && text@ == object_document(pair_literals(tags.entries())),
{
    let mut members: Vec<(String, String)> = Vec::new();
    let n = tags.len();
    let mut i: usize = 0;
    loop
        invariant
            i <= n,
            n == tags.entries().len(),
            members@.len() == i,
            members@.map_values(|m: (String, String)| (m.0@, m.1@)) == pair_literals(
                tags.entries().take(i as int),
            ),
        decreases n - i,
    {
        let (key, value) = match tags.entry(i) {
            Some(tag) => tag,
            None => {
                proof {
                    assert(tags.entries().take(i as int) == tags.entries());
                }
                return Ok(frame_object(&members));
            },
        };
        let ghost entries = tags.entries();
        let key_text = match encoded(encode_str(key.as_str())) {
            Ok(text) => text,
            Err(e) => {
                return Err(e);
            },
        };
        let value_text = match encoded(encode_str(value.as_str())) {
            Ok(text) => text,
            Err(e) => {
                return Err(e);
            },
        };
        proof {
            let before = entries.take(i as int);
            let after = entries.take(i as int + 1);
            let grown = members@.push((key_text, value_text)).map_values(
                |m: (String, String)| (m.0@, m.1@),
            );
            assert(entries[i as int] == (key@, value@));
            assert forall|j: int| 0 <= j < grown.len() implies grown[j] == pair_literals(
                after,
            )[j] by {
                if j < i {
                    assert(after[j] == before[j]);
                    assert(grown[j] == members@.map_values(|m: (String, String)| (m.0@, m.1@))[j]);
                    assert(pair_literals(before)[j] == pair_literals(after)[j]);
                }
            }
            assert(grown =~= pair_literals(after));
        }
        members.push((key_text, value_text));
        i = i + 1;
    }
}

/// The JSON document of a datum: an object that gives the metric's name and the
/// value as strings, the timestamp as an integer in decimal notation, and the
/// tags as an object with one member for each tag, in the tags' order.
pub open spec fn datum_text(
    metric: Seq<char>,
    timestamp: int,
    value: Seq<char>,
    tags: Seq<Pair>,
) -> Seq<char> {
    datum_document(
        json_string(metric),
        decimal(timestamp),
        json_string(value),
        object_document(pair_literals(tags)),
    )
}

/// Represents a metric datum.
#[derive(Debug)]
pub struct Datum<'a> {
    /// Metric name
    pub metric: &'a str,
    /// Unix timestamp in either _s_ or _ms_
    pub timestamp: i64,
    /// Value as string representation
    pub value: &'a str,
    /// Tags for this metric datum
    pub tags: &'a Tags,
}

impl<'a> Datum<'a> {
    /// Creates a new metric datum with a specified timestamp in ms.
    pub fn new(metric: &'a str, timestamp: i64, value: &'a str, tags: &'a Tags) -> (datum: Datum<
        'a,
    >)
        ensures
            datum.metric@ == metric@,
            datum.timestamp == timestamp,
            datum.value@ == value@,
            datum.tags == tags,
    {
        Datum { metric: metric, timestamp: timestamp, value: value, tags: tags }
    }

    /// Creates a new metric datum whose timestamp is a reading of the clock, in
    /// milliseconds.
    pub fn at(metric: &'a str, reading: Moment, value: &'a str, tags: &'a Tags) -> (datum: Datum<
        'a,
    >)
        requires
            i64::MIN <= reading.in_ms() <= i64::MAX,
        ensures
            datum.metric@ == metric@,
            datum.timestamp == reading.in_ms(),
            datum.value@ == value@,
            datum.tags == tags,
    {
        Datum { metric: metric, timestamp: reading.millis(), value: value, tags: tags }
    }

    /// Creates a new metric datum with timestamp _now_: the wall clock's reading
    /// in milliseconds, whatever the clock shows.
    pub fn now(metric: &'a str, value: &'a str, tags: &'a Tags) -> (datum: Datum<'a>)
        ensures
            datum.metric@ == metric@,
            datum.value@ == value@,
            datum.tags == tags,
            exists|reading: Moment| reading.plausible() && datum.timestamp == reading.in_ms(),
            -10_000_000_000_000_000 <= datum.timestamp <= 10_000_000_000_001_999,
    {
        let reading = wall_clock();
        let datum = Datum::at(metric, reading, value, tags);
        assert(reading.plausible() && datum.timestamp == reading.in_ms());
        datum
    }

    /// The JSON document of the datum.
    pub open spec fn document(&self) -> Seq<char> {
        datum_text(self.metric@, self.timestamp as int, self.value@, self.tags.entries())
    }

    /// Encodes a Datum to JSON as String. The encoder has a literal for every
    /// string and every integer, so this succeeds on every input.
    pub fn to_json(&self) -> (r: Result<String, EmitterError>)
        ensures
            r matches Ok(text) && text@ == self.document(),
    {
        let metric = match encoded(encode_str(self.metric)) {
            Ok(text) => text,
            Err(e) => { return Err(e); },
        };
        let timestamp = match encoded(encode_i64(self.timestamp)) {
            Ok(text) => text,
            Err(e) => { return Err(e); },
        };
        let value = match encoded(encode_str(self.value)) {
            Ok(text) => text,
            Err(e) => { return Err(e); },
        };
        let tags = match encode_tags(self.tags) {
            Ok(text) => text,
            Err(e) => { return Err(e); },
        };
        Ok(frame_datum(metric.as_str(), timestamp.as_str(), value.as_str(), tags.as_str()))
    }
}

} // verus!
