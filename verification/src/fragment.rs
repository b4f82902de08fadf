//! Configuration fragments: the keys and values that a block is configured
//! with, before they have been checked.
//!
//! A block knows the single key `interval`. Its value is a whole number of
//! seconds or a duration written out as seconds and nanoseconds; either has
//! to be a strictly positive span. A fragment without the key stands for the
//! default of five seconds. Any other key, and a second `interval`, is a
//! fault: nothing is ignored in silence.

use vstd::prelude::*;
use crate::errors::{ConfigError, ConfigFault};
use crate::interval::{Interval, MAX_NANOS, NANOS_PER_SEC};

verus! {

/// The key of the polling interval.
pub const INTERVAL_KEY: &'static str = "interval";

/// The interval of a block whose fragment does not give one, in seconds.
pub const DEFAULT_INTERVAL_SECS: u64 = 5;

/// The value of one key of a fragment.
#[derive(Debug, Clone, Copy, PartialEq, Eq, Structural)]
pub enum ConfigValue {
    /// A whole number.
    Integer(i64),
    /// A duration written out as seconds and nanoseconds.
    Duration { secs: u64, nanos: u32 },
    /// A value of any other kind: a text, a flag, a list.
    Other,
}

/// One key of a fragment with its value.
#[derive(Debug, Clone, PartialEq, Eq)]
pub struct ConfigEntry {
    pub key: String,
    pub value: ConfigValue,
}

/// The length in nanoseconds of the interval that `value` stands for, if it
/// stands for a valid one.
pub open spec fn span_of(value: ConfigValue) -> Option<nat> {
    match value {
        ConfigValue::Integer(secs) => if secs > 0 {
            Some((secs * NANOS_PER_SEC) as nat)
        } else {
            None
        },
        ConfigValue::Duration { secs, nanos } => if 0 < secs * NANOS_PER_SEC + nanos <= MAX_NANOS {
            Some((secs * NANOS_PER_SEC + nanos) as nat)
        } else {
            None
        },
        ConfigValue::Other => None,
    }
}

/// What is wrong with the entry at `i`, if anything: its key is unknown, or
/// an earlier entry has the same key, or its value is no valid interval.
pub open spec fn fault_at(entries: Seq<ConfigEntry>, i: int) -> Option<ConfigFault> {
    let key = entries[i].key@;
    if key != INTERVAL_KEY@ {
        Some(ConfigFault::UnknownField(key))
    } else if exists|j: int| 0 <= j < i && #[trigger] entries[j].key@ == key {
        Some(ConfigFault::DuplicateField(key))
    } else if span_of(entries[i].value) is None {
        Some(ConfigFault::InvalidInterval)
    } else {
        None
    }
}

/// The position of the first entry at or behind `from` that has a fault.
pub open spec fn first_fault(entries: Seq<ConfigEntry>, from: int) -> Option<int>
    decreases entries.len() - from,
{
    if from < 0 || from >= entries.len() {
        None
    } else if fault_at(entries, from) is Some {
        Some(from)
    } else {
        first_fault(entries, from + 1)
    }
}

/// What reading a fragment comes to: the fault of the first entry that has
/// one, or else the length in nanoseconds of the interval that the fragment
/// gives, which is the default where it gives none.
pub open spec fn read_outcome(entries: Seq<ConfigEntry>) -> Result<nat, ConfigFault> {
    match first_fault(entries, 0) {
        Some(i) => Err(fault_at(entries, i)->0),
        None => Ok(
            if entries.len() == 0 {
                (DEFAULT_INTERVAL_SECS * NANOS_PER_SEC) as nat
            } else {
                span_of(entries[0].value)->0
            },
        ),
    }
}

/// The model of what [`read_interval`] returns.
pub open spec fn outcome_of(result: Result<Interval, ConfigError>) -> Result<nat, ConfigFault> {
    match result {
        Ok(interval) => Ok(interval@),
        Err(e) => Err(e@),
    }
}

/// The interval that `value` stands for.
pub fn interval_of(value: &ConfigValue) -> (result: Result<Interval, ConfigError>)
    ensures
        match span_of(*value) {
            Some(span) => result matches Ok(interval) && interval@ == span,
            None => result matches Err(e) && e@ == ConfigFault::InvalidInterval,
        },
{
    let made = match value {
        ConfigValue::Integer(secs) => if *secs > 0 {
            Some(Interval::from_secs(*secs as u64))
        } else {
            None
        },
        ConfigValue::Duration { secs, nanos } => Interval::new(*secs, *nanos),
        ConfigValue::Other => None,
    };
    match made {
        Some(interval) => if interval.is_zero() {
            Err(ConfigError::InvalidInterval)
        } else {
            Ok(interval)
        },
        None => Err(ConfigError::InvalidInterval),
    }
}

/// Reads the polling interval from a fragment, entry by entry, and stops at
/// the first fault.
pub fn read_interval(entries: &Vec<ConfigEntry>) -> (result: Result<Interval, ConfigError>)
    ensures
        outcome_of(result) == read_outcome(entries@),
{
    let known = INTERVAL_KEY.to_owned();
    let mut seen: Option<Interval> = None;
    let mut i: usize = 0;
    while i < entries.len()
        invariant
            i <= entries.len(),
            i <= 1,
            known@ == INTERVAL_KEY@,
            first_fault(entries@, 0) == first_fault(entries@, i as int),
            seen is Some <==> i == 1,
            seen matches Some(interval) ==> entries@[0].key@ == INTERVAL_KEY@ && span_of(
                entries@[0].value,
            ) == Some(interval@),
        decreases entries.len() - i,
    {
        let entry = &entries[i];
        if entry.key != known {
            return Err(ConfigError::UnknownField(entry.key.clone()));
        }
        if seen.is_some() {
            return Err(ConfigError::DuplicateField(entry.key.clone()));
        }
        match interval_of(&entry.value) {
            Ok(interval) => {
                seen = Some(interval);
            },
            Err(e) => {
                return Err(e);
            },
        }
        i = i + 1;
    }
    match seen {
        Some(interval) => Ok(interval),
        None => Ok(Interval::from_secs(DEFAULT_INTERVAL_SECS)),
    }
}

/// A fragment that holds a key other than `interval` is refused, wherever
/// the key stands and whatever else the fragment holds.
pub proof fn lemma_unknown_key_is_refused(entries: Seq<ConfigEntry>, i: int)
    requires
        0 <= i < entries.len(),
        entries[i].key@ != INTERVAL_KEY@,
    ensures
        read_outcome(entries) is Err,
{
    lemma_fault_is_found(entries, 0, i);
}

/// A fault at `i` is found from every position up to `i`, there or earlier.
proof fn lemma_fault_is_found(entries: Seq<ConfigEntry>, from: int, i: int)
    requires
        0 <= from <= i < entries.len(),
        fault_at(entries, i) is Some,
    ensures
        first_fault(entries, from) matches Some(k) && from <= k <= i && fault_at(entries, k) is Some,
    decreases i - from,
{
    if fault_at(entries, from) is Some {
    } else {
        lemma_fault_is_found(entries, from + 1, i);
    }
}

/// A fragment is accepted exactly when it is empty or is one valid
/// `interval` and nothing else, and what it then gives is a strictly
/// positive span that an `Interval` can hold.
pub proof fn lemma_accepted_fragments(entries: Seq<ConfigEntry>)
    ensures
        read_outcome(entries) is Ok <==> (entries.len() == 0 || (entries.len() == 1
            && entries[0].key@ == INTERVAL_KEY@ && span_of(entries[0].value) is Some)),
        read_outcome(entries) matches Ok(span) ==> 0 < span <= MAX_NANOS,
{
    if entries.len() == 0 {
    } else if fault_at(entries, 0) is Some {
    } else if entries.len() == 1 {
        assert(first_fault(entries, 1) is None);
    } else {
        lemma_fault_is_found(entries, 0, 1);
    }
}

/// A fragment without the key `interval` gives the default of five seconds
/// where it is empty, and is refused for its first key where it is not.
pub proof fn lemma_omitted_interval_is_default(entries: Seq<ConfigEntry>)
    requires
        forall|i: int| 0 <= i < entries.len() ==> (#[trigger] entries[i]).key@ != INTERVAL_KEY@,
    ensures
        read_outcome(entries) == if entries.len() == 0 {
            Ok::<nat, ConfigFault>((DEFAULT_INTERVAL_SECS * NANOS_PER_SEC) as nat)
        } else {
            Err::<nat, ConfigFault>(ConfigFault::UnknownField(entries[0].key@))
        },
{
}

} // verus!
