//! Mode resolution: which sends a partially filled configuration permits.

use crate::config::Config;
use vstd::prelude::*;

verus! {

/// The send operations a configuration can legally ask for.
#[derive(Clone, Copy, Debug, PartialEq, Eq, Structural)]
pub enum Mode {
    /// Send the meta data, then the datum.
    Normal,
    /// Send the meta data only.
    MetadataOnly,
    /// Send the datum only, without meta data; permitted only when forced.
    DatumOnly,
}

/// Why a configuration permits no send.
#[derive(Clone, Copy, Debug, PartialEq, Eq, Structural)]
pub enum ModeError {
    /// A datum was requested, the meta data is incomplete and the send is not forced.
    NoMetadata,
    /// A metric is named but there is neither a value nor complete meta data.
    NoValue,
    /// No metric is named at all.
    NoSuchMode,
}

/// The presence of the fields that mode resolution looks at.
pub struct Presence {
    pub metric: bool,
    pub value: bool,
    pub rate: bool,
    pub unit: bool,
    pub description: bool,
    pub force: bool,
}

impl Presence {
    /// Rate, unit and description are all present.
    pub open spec fn describes(self) -> bool {
        self.rate && self.unit && self.description
    }
}

/// The outcome of mode resolution. The rules are read from the top, and the
/// first whose condition holds decides:
/// 1. metric, value, rate, unit and description: `Normal`;
/// 2. metric, rate, unit and description: `MetadataOnly`;
/// 3. metric and value, forced: `DatumOnly`;
/// 4. metric and value, not forced: rejected, `NoMetadata`;
/// 5. metric without a value: rejected, `NoValue`;
/// 6. anything else: rejected, `NoSuchMode`.
pub open spec fn resolve(p: Presence) -> Result<Mode, ModeError> {
    if p.metric && p.value && p.rate && p.unit && p.description {
        Ok(Mode::Normal)
    } else if p.metric && p.rate && p.unit && p.description {
        Ok(Mode::MetadataOnly)
    } else if p.metric && p.value && p.force {
        Ok(Mode::DatumOnly)
    } else if p.metric && p.value && !p.force {
        Err(ModeError::NoMetadata)
    } else if p.metric && !p.value {
        Err(ModeError::NoValue)
    } else {
        Err(ModeError::NoSuchMode)
    }
}

/// Resolves the mode from the presence of the six inputs.
pub fn resolve_mode(p: Presence) -> (r: Result<Mode, ModeError>)
    ensures
        r == resolve(p),
{
    match (p.metric, p.value, p.rate, p.unit, p.description, p.force) {
        (true, true, true, true, true, _) => Ok(Mode::Normal),
        (true, _, true, true, true, _) => Ok(Mode::MetadataOnly),
        (true, true, _, _, _, true) => Ok(Mode::DatumOnly),
        (true, true, _, _, _, false) => Err(ModeError::NoMetadata),
        (true, false, _, _, _, _) => Err(ModeError::NoValue),
        _ => Err(ModeError::NoSuchMode),
    }
}

impl Config {
    /// Which of the fields that mode resolution looks at are set.
    pub open spec fn presence(&self, force: bool) -> Presence {
        Presence {
            metric: self.metric is Some,
            value: self.value is Some,
            rate: self.rate is Some,
            unit: self.unit is Some,
            description: self.description is Some,
            force,
        }
    }

    /// The configuration names a metric and fully describes it.
    pub open spec fn has_metadata(&self) -> bool {
        self.metric is Some && self.rate is Some && self.unit is Some && self.description is Some
    }

    /// The configuration names a metric and gives a value for it.
    pub open spec fn has_datum(&self) -> bool {
        self.metric is Some && self.value is Some
    }

    /// The configuration holds every field that the sends of a mode read.
    pub open spec fn filled_for(&self, mode: Mode) -> bool {
        match mode {
            Mode::Normal => self.has_metadata() && self.has_datum(),
            Mode::MetadataOnly => self.has_metadata(),
            Mode::DatumOnly => self.has_datum(),
        }
    }
}

impl Config {
    /// Whether the configuration holds every field that the sends of a mode read.
    pub fn is_filled_for(&self, mode: Mode) -> (b: bool)
        ensures
            b == self.filled_for(mode),
    {
        let metadata = self.metric.is_some() && self.rate.is_some() && self.unit.is_some()
            && self.description.is_some();
        let datum = self.metric.is_some() && self.value.is_some();
        match mode {
            Mode::Normal => metadata && datum,
            Mode::MetadataOnly => metadata,
            Mode::DatumOnly => datum,
        }
    }
}

/// We support two modes officially and one more mode unofficially.
/// 1. Send Datum with Metadata
/// 1. Send only Metadata
/// 1. Send Datum without Metadata -- only with `force`
///
/// A mode is returned only for a configuration that holds every field that
/// the mode's sends read.
pub fn mode(config: &Config, force: bool) -> (r: Result<Mode, ModeError>)
    ensures
        r == resolve(config.presence(force)),
        r matches Ok(m) ==> config.filled_for(m),
{
    resolve_mode(
        Presence {
            metric: config.metric.is_some(),
            value: config.value.is_some(),
            rate: config.rate.is_some(),
            unit: config.unit.is_some(),
            description: config.description.is_some(),
            force,
        },
    )
}

/// Each outcome of mode resolution belongs to exactly one condition on the
/// inputs: the three modes and the three rejections divide the inputs among
/// themselves.
pub proof fn lemma_resolve_by_cases(p: Presence)
    ensures
        resolve(p) == Ok::<Mode, ModeError>(Mode::Normal) <==> p.metric && p.value && p.describes(),
        resolve(p) == Ok::<Mode, ModeError>(Mode::MetadataOnly) <==> p.metric && !p.value
            && p.describes(),
        resolve(p) == Ok::<Mode, ModeError>(Mode::DatumOnly) <==> p.metric && p.value
            && !p.describes() && p.force,
        resolve(p) == Err::<Mode, ModeError>(ModeError::NoMetadata) <==> p.metric && p.value
            && !p.describes() && !p.force,
        resolve(p) == Err::<Mode, ModeError>(ModeError::NoValue) <==> p.metric && !p.value
            && !p.describes(),
        resolve(p) == Err::<Mode, ModeError>(ModeError::NoSuchMode) <==> !p.metric,
{
}

impl ModeError {
    /// The exit code a command line tool reports for this rejection.
    pub fn exit_code(&self) -> (code: i32)
        ensures
            code == match *self {
                ModeError::NoMetadata => -11i32,
                ModeError::NoValue => -12i32,
                ModeError::NoSuchMode => -13i32,
            },
    {
        match self {
            ModeError::NoMetadata => -11,
            ModeError::NoValue => -12,
            ModeError::NoSuchMode => -13,
        }
    }
}

} // verus!
