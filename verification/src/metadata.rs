//! Metric meta data and its JSON document.

use crate::error::EmitterError;
use crate::json::{encode_str, encoded, frame_metadata, json_string, metadata_document};
use vstd::prelude::*;

verus! {

/// The JSON document of meta data: an array of three records, which give the
/// metric's unit, rate and description under the names `unit`, `rate` and
/// `desc`, each together with the metric's name.
pub open spec fn metadata_text(
    metric: Seq<char>,
    rate: Seq<char>,
    unit: Seq<char>,
    description: Seq<char>,
) -> Seq<char> {
    metadata_document(
        json_string(metric),
        json_string(unit),
        json_string(rate),
        json_string(description),
    )
}

/// Represents metric meta data.
#[derive(Debug)]
pub struct Metadata<'a> {
    /// Metric name
    pub metric: &'a str,
    /// Metric rate type: [gauge, counter rate]
    pub rate: &'a str,
    /// Metric unit
    pub unit: &'a str,
    /// Metric description
    pub description: &'a str,
}

impl<'a> Metadata<'a> {
    /// Creates new metric meta data.
    pub fn new(metric: &'a str, rate: &'a str, unit: &'a str, description: &'a str) -> (metadata:
        Metadata<'a>)
        ensures
            metadata.metric@ == metric@,
            metadata.rate@ == rate@,
            metadata.unit@ == unit@,
            metadata.description@ == description@,
    {
        Metadata { metric: metric, rate: rate, unit: unit, description: description }
    }

    /// The JSON document of the meta data.
    pub open spec fn document(&self) -> Seq<char> {
        metadata_text(self.metric@, self.rate@, self.unit@, self.description@)
    }

    /// Encodes Metadata to JSON as String. The encoder has a literal for every
    /// string, so this succeeds on every input.
    pub fn to_json(&self) -> (r: Result<String, EmitterError>)
        ensures
            r matches Ok(text) && text@ == self.document(),
    {
        let metric = match encoded(encode_str(self.metric)) {
            Ok(text) => text,
            Err(e) => { return Err(e); },
        };
        let unit = match encoded(encode_str(self.unit)) {
            Ok(text) => text,
            Err(e) => { return Err(e); },
        };
        let rate = match encoded(encode_str(self.rate)) {
            Ok(text) => text,
            Err(e) => { return Err(e); },
        };
        let description = match encoded(encode_str(self.description)) {
            Ok(text) => text,
            Err(e) => { return Err(e); },
        };
        Ok(frame_metadata(metric.as_str(), unit.as_str(), rate.as_str(), description.as_str()))
    }
}

} // verus!
