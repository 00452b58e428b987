//! The two error kinds of the wizard: recoverable validation failures and
//! fatal failures that abort the whole run.

use vstd::prelude::*;

verus! {

/// A recoverable failure raised by a validator on malformed input.
///
/// It is caught by the prompt engine, reported to the operator and answered
/// with a re-prompt of the same field; it never escapes the prompt engine.
#[derive(Clone, Copy, Debug, PartialEq, Eq, Structural)]
pub enum ValidationError {
    InvalidRewardAddress,
    InvalidNodeName,
    InvalidPlotDirectory,
    InvalidPlotSize,
    UnknownChain,
    InvalidYesNo,
}

impl ValidationError {
    /// The text shown to the operator for each failure.
    pub open spec fn spec_message(self) -> Seq<char> {
        match self {
            ValidationError::InvalidRewardAddress => "invalid reward address"@,
            ValidationError::InvalidNodeName => "invalid node name"@,
            ValidationError::InvalidPlotDirectory => "invalid plot location"@,
            ValidationError::InvalidPlotSize => "invalid plot size"@,
            ValidationError::UnknownChain => "unknown chain"@,
            ValidationError::InvalidYesNo => "expected y or n"@,
        }
    }

    pub fn message(&self) -> (m: &'static str)
        ensures
            m@ == self.spec_message(),
    {
        match self {
            ValidationError::InvalidRewardAddress => "invalid reward address",
            ValidationError::InvalidNodeName => "invalid node name",
            ValidationError::InvalidPlotDirectory => "invalid plot location",
            ValidationError::InvalidPlotSize => "invalid plot size",
            ValidationError::UnknownChain => "unknown chain",
            ValidationError::InvalidYesNo => "expected y or n",
        }
    }
}

/// An unrecoverable failure: it aborts the wizard at once, and nothing is
/// persisted.
#[derive(Clone, Copy, Debug, PartialEq, Eq, Structural)]
pub enum FatalError {
    /// The input stream ended while a field still awaited a valid value.
    InputStreamClosed,
    /// A configuration file already exists at the target path; the wizard
    /// refuses to overwrite it and fails before any prompt is shown.
    ConfigAlreadyExists,
    /// The configuration file could not be created.
    ConfigCreateFailed,
    /// The assembled configuration could not be written out.
    ConfigWriteFailed,
}

impl FatalError {
    /// The text shown to the operator for each fatal condition.
    pub open spec fn spec_message(self) -> Seq<char> {
        match self {
            FatalError::InputStreamClosed => "input stream closed"@,
            FatalError::ConfigAlreadyExists => "config file already exists"@,
            FatalError::ConfigCreateFailed => "failed to create config"@,
            FatalError::ConfigWriteFailed => "failed to write config"@,
        }
    }

    pub fn message(&self) -> (m: &'static str)
        ensures
            m@ == self.spec_message(),
    {
        match self {
            FatalError::InputStreamClosed => "input stream closed",
            FatalError::ConfigAlreadyExists => "config file already exists",
            FatalError::ConfigCreateFailed => "failed to create config",
            FatalError::ConfigWriteFailed => "failed to write config",
        }
    }
}

} // verus!
