//! The event record type, its ghost model, and the shared constants.

use vstd::prelude::*;

verus! {

/// Milliseconds added to a raw clock reading so that exported timestamps look
/// like absolute epoch milliseconds.
pub const EPOCH_OFFSET_MS: u64 = 1735660000000;

/// The same offset expressed in microseconds, the unit raw timestamps are
/// stored in.
pub const EPOCH_OFFSET_MICROS: u64 = 1735660000000000;

/// Largest raw timestamp, in microseconds, that the exports can shift by
/// [`EPOCH_OFFSET_MICROS`] without overflowing a `u64`.
pub const MAX_RAW_MICROS: u64 = u64::MAX - EPOCH_OFFSET_MICROS;

/// Whether a recorded event is a key press or a key release.
#[derive(Clone, Copy, PartialEq, Eq, Structural, Debug)]
pub enum EventKind {
    Press,
    Release,
}

/// Why a recorder operation failed.
#[derive(Clone, Copy, PartialEq, Eq, Structural, Debug)]
pub enum CaptureError {
    /// The environment's timing facility could not be obtained.
    ClockUnavailable,
    /// An append was attempted while the log already held `capacity` records.
    CapacityExceeded,
}

/// One captured key event: a raw clock reading in whole microseconds, the key
/// identifier, and whether it was a press or a release.
pub struct EventRecord {
    pub timestamp_micros: u64,
    pub key: String,
    pub kind: EventKind,
}

/// The mathematical model of one captured event.
#[verifier::ext_equal]
pub ghost struct RecordModel {
    pub timestamp_micros: u64,
    pub key: Seq<char>,
    pub kind: EventKind,
}

impl View for EventRecord {
    type V = RecordModel;

    open spec fn view(&self) -> RecordModel {
        RecordModel {
            timestamp_micros: self.timestamp_micros,
            key: self.key@,
            kind: self.kind,
        }
    }
}

/// The kind an append with the given `is_release` flag records.
pub open spec fn kind_of(is_release: bool) -> EventKind {
    if is_release {
        EventKind::Release
    } else {
        EventKind::Press
    }
}

/// The single-letter code the exports print for an event kind.
pub open spec fn kind_code(k: EventKind) -> char {
    match k {
        EventKind::Press => 'P',
        EventKind::Release => 'R',
    }
}

impl CaptureError {
    /// A short human-readable description of the error.
    pub fn message(&self) -> (out: &'static str)
        ensures
            *self == CaptureError::ClockUnavailable ==> out@ == "Clock source unavailable"@,
            *self == CaptureError::CapacityExceeded ==> out@ == "Capacity exceeded"@,
    {
        match self {
            CaptureError::ClockUnavailable => "Clock source unavailable",
            CaptureError::CapacityExceeded => "Capacity exceeded",
        }
    }
}

} // verus!
