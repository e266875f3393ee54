//! The fixed-capacity event log and its export methods.

use vstd::prelude::*;
use vstd::string::StringExecFns;

use crate::digits::{append_dec_digits, append_three_digits};
use crate::record::{
    kind_of, CaptureError, EventKind, EventRecord, RecordModel, EPOCH_OFFSET_MICROS,
    EPOCH_OFFSET_MS, MAX_RAW_MICROS,
};
use crate::render::{
    abs_time_micros, csv_export, csv_header, csv_lines, deltas_of, escape_key, escaped_key,
    kind_code_char, kind_code_str, ms_three_places, rounded_ms_exec, seq_max, seq_min, tail_dump,
    tail_lines, tail_start, timing_report, TAIL_COUNT,
};

verus! {

/// How many clock samples the jitter diagnostic takes.
pub const JITTER_SAMPLES: usize = 10;

/// A bounded, append-only, in-memory log of key events.
///
/// The capacity is fixed at construction; once the log holds that many
/// records, appends fail until the log is cleared. Records are never
/// reordered or removed individually.
pub struct KeystrokeCapture {
    records: Vec<EventRecord>,
    capacity: usize,
}

/// The mathematical model of the log: its fixed capacity and the recorded
/// events in insertion order.
#[verifier::ext_equal]
pub ghost struct LogModel {
    pub capacity: nat,
    pub records: Seq<RecordModel>,
}

impl LogModel {
    /// The log's invariant: never more records than the capacity, and every
    /// raw timestamp small enough for the exports to shift it without
    /// overflow.
    pub open spec fn wf(self) -> bool {
        &&& self.records.len() <= self.capacity
        &&& forall|i: int|
            0 <= i < self.records.len() ==> #[trigger] self.records[i].timestamp_micros
                <= MAX_RAW_MICROS
    }
}

impl View for KeystrokeCapture {
    type V = LogModel;

    closed spec fn view(&self) -> LogModel {
        LogModel {
            capacity: self.capacity as nat,
            records: self.records@.map_values(|r: EventRecord| r@),
        }
    }
}

/// The record an append with these arguments stores.
pub open spec fn record_of(key: Seq<char>, is_release: bool, ts_micros: u64) -> RecordModel {
    RecordModel { timestamp_micros: ts_micros, key: key, kind: kind_of(is_release) }
}

/// What one append attempt does to the model: pushes the record when there
/// is room, and leaves the log untouched when it is full.
pub open spec fn appended(v: LogModel, r: RecordModel) -> LogModel {
    if v.records.len() < v.capacity {
        LogModel { capacity: v.capacity, records: v.records.push(r) }
    } else {
        v
    }
}

/// One entry of the structured export: the kind code, the escaped key, and
/// the absolute timestamp in microseconds, untruncated.
pub struct RawEvent {
    pub kind_code: char,
    pub key: String,
    pub abs_time_micros: u64,
}

/// The mathematical model of one structured-export entry.
#[verifier::ext_equal]
pub ghost struct RawEventModel {
    pub kind_code: char,
    pub key: Seq<char>,
    pub abs_time_micros: u64,
}

impl View for RawEvent {
    type V = RawEventModel;

    open spec fn view(&self) -> RawEventModel {
        RawEventModel {
            kind_code: self.kind_code,
            key: self.key@,
            abs_time_micros: self.abs_time_micros,
        }
    }
}

/// The structured-export entry for a record.
pub open spec fn raw_event_of(r: RecordModel) -> RawEventModel {
    RawEventModel {
        kind_code: crate::record::kind_code(r.kind),
        key: escaped_key(r.key),
        abs_time_micros: abs_time_micros(r.timestamp_micros) as u64,
    }
}

impl KeystrokeCapture {
    /// An empty log that will hold at most `capacity` records.
    ///
    /// Checking that a clock source is actually obtainable is the embedding
    /// environment's part; the log itself never fails to construct.
    pub fn new(capacity: usize) -> (log: KeystrokeCapture)
        ensures
            log@.capacity == capacity,
            log@.records == Seq::<RecordModel>::empty(),
            log@.wf(),
    {
        let log = KeystrokeCapture { records: Vec::new(), capacity };
        proof {
            assert(log@.records =~= Seq::<RecordModel>::empty());
        }
        log
    }

    /// Appends one event, stamped with the clock reading `timestamp_micros`
    /// taken by the caller at the moment of the call.
    ///
    /// Fails with `CapacityExceeded`, recording nothing, exactly when the
    /// log is already full.
    pub fn capture_keystroke(
        &mut self,
        key: String,
        is_release: bool,
        timestamp_micros: u64,
    ) -> (result: Result<(), CaptureError>)
        requires
            old(self)@.wf(),
            timestamp_micros <= MAX_RAW_MICROS,
        ensures
            final(self)@.wf(),
            final(self)@ == appended(old(self)@, record_of(key@, is_release, timestamp_micros)),
            match result {
                Ok(()) => old(self)@.records.len() < old(self)@.capacity,
                Err(e) => {
                    &&& e == CaptureError::CapacityExceeded
                    &&& old(self)@.records.len() == old(self)@.capacity
                    &&& final(self)@ == old(self)@
                },
            },
    {
        if self.records.len() >= self.capacity {
            return Err(CaptureError::CapacityExceeded);
        }
        let ghost key_chars = key@;
        let kind = if is_release {
            EventKind::Release
        } else {
            EventKind::Press
        };
        self.records.push(EventRecord { timestamp_micros, key, kind });
        proof {
            assert(self@.records =~= old(self)@.records.push(
                record_of(key_chars, is_release, timestamp_micros),
            ));
        }
        Ok(())
    }

    /// How many records the log currently holds.
    pub fn get_event_count(&self) -> (count: usize)
        ensures
            count == self@.records.len(),
    {
        self.records.len()
    }

    /// Removes every record; the capacity is unchanged.
    pub fn clear(&mut self)
        ensures
            final(self)@.capacity == old(self)@.capacity,
            final(self)@.records == Seq::<RecordModel>::empty(),
            final(self)@.wf(),
    {
        self.records.clear();
        proof {
            assert(self@.records =~= Seq::<RecordModel>::empty());
        }
    }

    /// The log as a CSV document: the fixed header line, then one line per
    /// record in log order with the kind code, the escaped key, and the
    /// offset timestamp truncated to whole milliseconds.
    pub fn export_as_csv(&self) -> (out: String)
        requires
            self@.wf(),
        ensures
            out@ == csv_export(self@.records),
    {
        let ghost rs = self@.records;
        let mut out: String = "Press or Release,Key,Time\n".to_owned();
        proof {
            assert(out@ =~= csv_header() + csv_lines(rs.take(0)));
        }
        let mut i: usize = 0;
        while i < self.records.len()
            invariant
                self@.wf(),
                rs == self@.records,
                i <= self.records.len(),
                out@ == csv_header() + csv_lines(rs.take(i as int)),
            decreases self.records.len() - i,
        {
            let r = &self.records[i];
            out.append(kind_code_str(r.kind));
            out.append(",");
            let escaped = escape_key(&r.key);
            out.append(escaped.as_str());
            out.append(",");
            proof {
                vstd::arithmetic::div_mod::lemma_div_is_ordered(
                    r.timestamp_micros as int,
                    u64::MAX as int,
                    1000,
                );
            }
            let time_ms: u64 = EPOCH_OFFSET_MS + r.timestamp_micros / 1000;
            append_dec_digits(time_ms, &mut out);
            out.append("\n");
            proof {
                assert(rs.take(i + 1 as int).drop_last() =~= rs.take(i as int));
                assert(rs.take(i + 1 as int).last() == rs[i as int]);
                assert(out@ =~= csv_header() + csv_lines(rs.take(i + 1 as int)));
            }
            i += 1;
        }
        proof {
            assert(rs.take(rs.len() as int) =~= rs);
        }
        out
    }

    /// The log as structured data: one entry per record in log order, with
    /// the kind code, the escaped key, and the absolute timestamp in
    /// microseconds, untruncated.
    pub fn get_raw_data(&self) -> (out: Vec<RawEvent>)
        requires
            self@.wf(),
        ensures
            out@.len() == self@.records.len(),
            forall|i: int|
                0 <= i < out@.len() ==> #[trigger] out@[i]@ == raw_event_of(self@.records[i]),
    {
        let ghost rs = self@.records;
        let mut out: Vec<RawEvent> = Vec::new();
        let mut i: usize = 0;
        while i < self.records.len()
            invariant
                self@.wf(),
                rs == self@.records,
                i <= self.records.len(),
                out@.len() == i,
                forall|j: int| 0 <= j < i ==> #[trigger] out@[j]@ == raw_event_of(rs[j]),
            decreases self.records.len() - i,
        {
            let r = &self.records[i];
            proof {
                assert(rs[i as int].timestamp_micros <= MAX_RAW_MICROS);
            }
            let entry = RawEvent {
                kind_code: kind_code_char(r.kind),
                key: escape_key(&r.key),
                abs_time_micros: r.timestamp_micros + EPOCH_OFFSET_MICROS,
            };
            out.push(entry);
            i += 1;
        }
        out
    }

    /// A human-readable dump of the last [`TAIL_COUNT`] records (all of
    /// them, when there are fewer), one line per record in log order: the
    /// kind code, the key as recorded, and the raw timestamp rounded to
    /// whole milliseconds. Empty when the log is empty.
    pub fn get_last_10_events(&self) -> (out: String)
        ensures
            out@ == tail_dump(self@.records),
    {
        let ghost rs = self@.records;
        let len = self.records.len();
        let start = if len > TAIL_COUNT {
            len - TAIL_COUNT
        } else {
            0
        };
        let mut out: String = String::new();
        proof {
            assert(out@ =~= tail_lines(rs.subrange(start as int, start as int)));
        }
        let mut i: usize = start;
        while i < len
            invariant
                rs == self@.records,
                len == self.records.len(),
                start == tail_start(rs.len()),
                start <= i <= len,
                out@ == tail_lines(rs.subrange(start as int, i as int)),
            decreases len - i,
        {
            let r = &self.records[i];
            out.append(kind_code_str(r.kind));
            out.append(" ");
            out.append(r.key.as_str());
            out.append(" ");
            let rounded = rounded_ms_exec(r.timestamp_micros);
            append_dec_digits(rounded, &mut out);
            out.append("\n");
            proof {
                assert(rs.subrange(start as int, i + 1 as int).drop_last() =~= rs.subrange(
                    start as int,
                    i as int,
                ));
                assert(rs.subrange(start as int, i + 1 as int).last() == rs[i as int]);
                assert(out@ =~= tail_lines(rs.subrange(start as int, i + 1 as int)));
            }
            i += 1;
        }
        proof {
            assert(rs.subrange(start as int, len as int) =~= rs.skip(tail_start(rs.len()) as int));
        }
        out
    }

    /// The clock-jitter report for ten consecutive clock samples, taken by
    /// the caller: the least and greatest consecutive delta, each as
    /// milliseconds with three decimal places.
    ///
    /// The samples come from a monotonically non-decreasing clock, so they
    /// must be in non-decreasing order.
    pub fn test_timing_precision(samples: &Vec<u64>) -> (out: String)
        requires
            samples@.len() == JITTER_SAMPLES,
            forall|i: int|
                0 <= i < samples@.len() - 1 ==> #[trigger] samples@[i] <= samples@[i + 1],
        ensures
            out@ == timing_report(samples@),
    {
        let ghost ds = deltas_of(samples@);
        let mut min_delta: u64 = samples[1] - samples[0];
        let mut max_delta: u64 = min_delta;
        proof {
            assert(ds.take(1).drop_last() =~= ds.take(0));
            assert(min_delta == seq_min(ds.take(1)));
            assert(max_delta == seq_max(ds.take(1)));
        }
        let mut i: usize = 2;
        while i < samples.len()
            invariant
                samples@.len() == JITTER_SAMPLES,
                forall|j: int|
                    0 <= j < samples@.len() - 1 ==> #[trigger] samples@[j] <= samples@[j + 1],
                ds == deltas_of(samples@),
                2 <= i <= samples@.len(),
                min_delta == seq_min(ds.take(i - 1)),
                max_delta == seq_max(ds.take(i - 1)),
            decreases samples@.len() - i,
        {
            let d: u64 = samples[i] - samples[i - 1];
            proof {
                assert(ds.take(i as int).drop_last() =~= ds.take(i - 1));
                assert(ds.take(i as int).last() == d);
            }
            if d < min_delta {
                min_delta = d;
            }
            if d > max_delta {
                max_delta = d;
            }
            i += 1;
        }
        proof {
            assert(ds.take(ds.len() as int) =~= ds);
        }
        let mut out: String = "Timing test - Min delta: ".to_owned();
        Self::append_ms_three_places(min_delta, &mut out);
        out.append("ms, Max delta: ");
        Self::append_ms_three_places(max_delta, &mut out);
        out.append("ms");
        proof {
            assert(out@ =~= timing_report(samples@));
        }
        out
    }

    /// Appends a microsecond count to `out` as milliseconds with exactly
    /// three decimal places.
    fn append_ms_three_places(micros: u64, out: &mut String)
        ensures
            final(out)@ == old(out)@ + ms_three_places(micros as nat),
    {
        append_dec_digits(micros / 1000, out);
        out.append(".");
        append_three_digits(micros % 1000, out);
        proof {
            assert(out@ =~= old(out)@ + ms_three_places(micros as nat));
        }
    }
}

} // verus!
