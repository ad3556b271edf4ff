//! The emission orchestrator: which request goes out next, and when the
//! emission is over. Sending a request is the caller's part: the caller sends
//! what a transition asks for and comes back with what became of it.

use crate::client::{classified, BosunClient, Delivery, Request};
use crate::clock::now_in_ms;
use crate::config::Config;
use crate::datum::{datum_text, Datum};
use crate::error::{EmitterError, EmitterResult};
use crate::metadata::{metadata_text, Metadata};
use crate::mode::Mode;
use vstd::prelude::*;

verus! {

/// The request that is on its way.
#[derive(Clone, Copy, Debug, PartialEq, Eq, Structural)]
pub enum InFlight {
    /// The meta data; `datum_follows` says whether the datum is to be sent once
    /// the server has accepted the meta data.
    Metadata { datum_follows: bool },
    /// The datum.
    Datum,
}

/// What the caller is to do next.
#[derive(Debug)]
pub enum Action {
    /// Send the request, then resume with what became of it.
    Send { request: Request, in_flight: InFlight },
    /// The emission is over, with this result.
    Finish(EmitterResult),
}

/// One step of an emission.
#[derive(Debug)]
pub struct Transition {
    /// The line to show to the user before anything else is done, if any.
    pub announcement: Option<String>,
    /// What to do next.
    pub action: Action,
}

/// The line that announces the send of meta data.
pub open spec fn metadata_notice() -> Seq<char> {
    "Sending meta data."@
}

/// The line that announces the send of a datum.
pub open spec fn datum_notice() -> Seq<char> {
    "Sending datum."@
}

/// The announcement shows the line exactly if output is verbose.
pub open spec fn announces(announcement: Option<String>, line: Seq<char>, verbose: bool) -> bool {
    match announcement {
        Some(text) => verbose && text@ == line,
        None => !verbose,
    }
}

/// What comes of preparing the request for the configuration's meta data: the
/// POST of its document to `/api/metadata/put`, or a failed send where the URL
/// is no URL.
pub open spec fn metadata_prepared(config: &Config, r: Result<Request, EmitterError>) -> bool
    recommends
        config.has_metadata(),
{
    BosunClient::prepared(
        config.host@,
        "/api/metadata/put"@,
        metadata_text(
            config.metric.unwrap()@,
            config.rate.unwrap()@,
            config.unit.unwrap()@,
            config.description.unwrap()@,
        ),
        r,
    )
}

/// What comes of preparing the request for the configuration's datum with a
/// timestamp: the POST of its document to `/api/put`, or a failed send where
/// the URL is no URL.
pub open spec fn datum_prepared(
    config: &Config,
    timestamp: i64,
    r: Result<Request, EmitterError>,
) -> bool
    recommends
        config.has_datum(),
{
    BosunClient::prepared(
        config.host@,
        "/api/put"@,
        datum_text(
            config.metric.unwrap()@,
            timestamp as int,
            config.value.unwrap()@,
            config.tags.entries(),
        ),
        r,
    )
}

/// A timestamp that the clock can give, in milliseconds.
pub open spec fn plausible_ms(timestamp: i64) -> bool {
    -10_000_000_000_000_000 <= timestamp <= 10_000_000_000_001_999
}

impl Action {
    /// The action as the outcome of preparing a request: the request that is to
    /// be sent, or the failure that ends the emission.
    pub open spec fn prepared(self) -> Result<Request, EmitterError>
        recommends
            !(self matches Action::Finish(Ok(_))),
    {
        match self {
            Action::Send { request, in_flight } => Ok(request),
            Action::Finish(result) => Err(result->Err_0),
        }
    }

    /// The action sends a request or ends the emission with a failure, and a
    /// request it sends is in flight as `next`.
    pub open spec fn dispatches(self, next: InFlight) -> bool {
        match self {
            Action::Send { request, in_flight } => in_flight == next,
            Action::Finish(result) => result is Err,
        }
    }

    /// The action to take on the outcome of preparing a request.
    pub fn dispatch(prepared: Result<Request, EmitterError>, next: InFlight) -> (action: Action)
        ensures
            action.dispatches(next),
            action.prepared() == prepared,
    {
        match prepared {
            Ok(request) => Action::Send { request: request, in_flight: next },
            Err(e) => Action::Finish(Err(e)),
        }
    }
}

/// The line to show for a message: the message where output is verbose, none otherwise.
pub fn msg(line: &str, verbose: bool) -> (announcement: Option<String>)
    ensures
        announces(announcement, line@, verbose),
{
    if verbose {
        Some(String::from_str(line))
    } else {
        None
    }
}

/// Prepares the request that sends the configuration's meta data.
pub fn emit_metadata(config: &Config) -> (r: Result<Request, EmitterError>)
    requires
        config.has_metadata(),
    ensures
        metadata_prepared(config, r),
{
    let client = BosunClient::new(config.host.as_str());
    let metadata = Metadata::new(
        config.metric.as_ref().unwrap().as_str(),
        config.rate.as_ref().unwrap().as_str(),
        config.unit.as_ref().unwrap().as_str(),
        config.description.as_ref().unwrap().as_str(),
    );
    client.emit_metadata(&metadata)
}

/// Prepares the request that sends the configuration's datum with a timestamp.
pub fn emit_datum_at(config: &Config, timestamp: i64) -> (r: Result<Request, EmitterError>)
    requires
        config.has_datum(),
    ensures
        datum_prepared(config, timestamp, r),
{
    let client = BosunClient::new(config.host.as_str());
    let datum = Datum::new(
        config.metric.as_ref().unwrap().as_str(),
        timestamp,
        config.value.as_ref().unwrap().as_str(),
        &config.tags,
    );
    client.emit_datum(&datum)
}

/// Prepares the request that sends the configuration's datum with the
/// timestamp _now_, whatever the clock shows.
pub fn emit_datum(config: &Config) -> (r: Result<Request, EmitterError>)
    requires
        config.has_datum(),
    ensures
        exists|timestamp: i64| plausible_ms(timestamp) && datum_prepared(config, timestamp, r),
{
    let timestamp = now_in_ms();
    let r = emit_datum_at(config, timestamp);
    assert(plausible_ms(timestamp) && datum_prepared(config, timestamp, r));
    r
}

/// Starts an emission in a mode. `Normal` and `MetadataOnly` begin with the
/// meta data, `DatumOnly` with the datum; only after `Normal`'s meta data the
/// datum follows. Where the request cannot be prepared the emission is over
/// before anything is sent.
pub fn run(config: &Config, mode: Mode, verbose: bool) -> (step: Transition)
    requires
        config.filled_for(mode),
    ensures
        match mode {
            Mode::Normal => {
                &&& announces(step.announcement, metadata_notice(), verbose)
                &&& step.action.dispatches(InFlight::Metadata { datum_follows: true })
                &&& metadata_prepared(config, step.action.prepared())
            },
            Mode::MetadataOnly => {
                &&& announces(step.announcement, metadata_notice(), verbose)
                &&& step.action.dispatches(InFlight::Metadata { datum_follows: false })
                &&& metadata_prepared(config, step.action.prepared())
            },
            Mode::DatumOnly => {
                &&& announces(step.announcement, datum_notice(), verbose)
                &&& step.action.dispatches(InFlight::Datum)
                &&& exists|timestamp: i64|
                    plausible_ms(timestamp) && datum_prepared(
                        config,
                        timestamp,
                        step.action.prepared(),
                    )
            },
        },
{
    match mode {
        Mode::Normal => Transition {
            announcement: msg("Sending meta data.", verbose),
            action: Action::dispatch(
                emit_metadata(config),
                InFlight::Metadata { datum_follows: true },
            ),
        },
        Mode::MetadataOnly => Transition {
            announcement: msg("Sending meta data.", verbose),
            action: Action::dispatch(
                emit_metadata(config),
                InFlight::Metadata { datum_follows: false },
            ),
        },
        Mode::DatumOnly => Transition {
            announcement: msg("Sending datum.", verbose),
            action: Action::dispatch(emit_datum(config), InFlight::Datum),
        },
    }
}

/// Continues an emission with what became of the request in flight. A send
/// that failed or was rejected ends the emission with that failure: after
/// failed meta data no datum is attempted. Accepted meta data is followed by
/// the datum where one is to follow; otherwise the emission is over and has
/// succeeded.
pub fn resume(config: &Config, in_flight: InFlight, delivery: Delivery, verbose: bool) -> (step:
    Transition)
    requires
        in_flight == (InFlight::Metadata { datum_follows: true }) ==> config.has_datum(),
    ensures
        match in_flight {
            InFlight::Metadata { datum_follows: true } => if delivery matches Delivery::Answered {
                status: 204,
                ..
            } {
                &&& announces(step.announcement, datum_notice(), verbose)
                &&& step.action.dispatches(InFlight::Datum)
                &&& exists|timestamp: i64|
                    plausible_ms(timestamp) && datum_prepared(
                        config,
                        timestamp,
                        step.action.prepared(),
                    )
            } else {
                &&& step.announcement is None
                &&& step.action matches Action::Finish(result)
                &&& result is Err
                &&& classified(delivery, result)
            },
            _ => {
                &&& step.announcement is None
                &&& step.action matches Action::Finish(result)
                &&& classified(delivery, result)
            },
        },
{
    let result = BosunClient::receive(delivery);
    match in_flight {
        InFlight::Metadata { datum_follows: true } => {
            match result {
                Ok(()) => Transition {
                    announcement: msg("Sending datum.", verbose),
                    action: Action::dispatch(emit_datum(config), InFlight::Datum),
                },
                Err(e) => Transition { announcement: None, action: Action::Finish(Err(e)) },
            }
        },
        _ => Transition { announcement: None, action: Action::Finish(result) },
    }
}

} // verus!
