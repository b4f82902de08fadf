//! The ways in which building or polling a block can fail.

use vstd::prelude::*;

verus! {

/// Why a configuration fragment or a typed configuration was refused.
#[derive(Debug, Clone, PartialEq, Eq)]
pub enum ConfigError {
    /// The fragment holds a key that the block does not know.
    UnknownField(String),
    /// The fragment holds a known key a second time.
    DuplicateField(String),
    /// The interval is not a strictly positive span that fits an `Interval`.
    InvalidInterval,
}

/// The model of a [`ConfigError`]: the same variants over sequences of
/// characters.
pub ghost enum ConfigFault {
    UnknownField(Seq<char>),
    DuplicateField(Seq<char>),
    InvalidInterval,
}

impl View for ConfigError {
    type V = ConfigFault;

    open spec fn view(&self) -> ConfigFault {
        match self {
            ConfigError::UnknownField(key) => ConfigFault::UnknownField(key@),
            ConfigError::DuplicateField(key) => ConfigFault::DuplicateField(key@),
            ConfigError::InvalidInterval => ConfigFault::InvalidInterval,
        }
    }
}

/// Why the outside condition behind a block could not be evaluated.
#[derive(Debug, Clone, Copy, PartialEq, Eq, Structural)]
pub enum ProbeError {
    /// The file or process behind the probe could not be reached.
    Inaccessible,
    /// The file or process exists but may not be read or run.
    PermissionDenied,
    /// What the probe read is not in the form it expects.
    UnexpectedFormat,
}

/// The failure of one `update` or `click` of a block: the probe failure that
/// the block chose to pass on, with the identity of the block.
#[derive(Debug, Clone, PartialEq, Eq)]
pub struct BlockError {
    pub block: String,
    pub cause: ProbeError,
}

} // verus!
