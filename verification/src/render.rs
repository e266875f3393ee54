//! The textual formats the recorder exports: the CSV document, the tail dump,
//! and the clock-jitter report.

use vstd::prelude::*;
use vstd::string::StringExecFns;

use crate::digits::{dec_digits, three_digits};
use crate::record::{kind_code, EventKind, RecordModel, EPOCH_OFFSET_MICROS, EPOCH_OFFSET_MS};

verus! {

/// How many records the tail dump shows at most.
pub const TAIL_COUNT: usize = 10;

/// The key as the exports print it: a key consisting of the single comma
/// character is rewritten to the token `Key.comma`, so that it cannot break
/// the CSV column alignment; every other key passes through unchanged.
pub open spec fn escaped_key(k: Seq<char>) -> Seq<char> {
    if k == ","@ {
        "Key.comma"@
    } else {
        k
    }
}

/// The whole-millisecond timestamp the CSV export prints: the raw reading
/// truncated to milliseconds, shifted by [`EPOCH_OFFSET_MS`].
pub open spec fn csv_time_ms(ts_micros: u64) -> nat {
    (EPOCH_OFFSET_MS + ts_micros / 1000) as nat
}

/// The absolute timestamp the structured export carries: the raw reading in
/// microseconds shifted by [`EPOCH_OFFSET_MICROS`], with nothing truncated.
pub open spec fn abs_time_micros(ts_micros: u64) -> nat {
    (ts_micros + EPOCH_OFFSET_MICROS) as nat
}

/// The raw reading rounded to whole milliseconds, ties to the even value, as
/// the tail dump prints it.
pub open spec fn rounded_ms(ts_micros: u64) -> nat {
    let whole = ts_micros / 1000;
    let frac = ts_micros % 1000;
    if frac > 500 || (frac == 500 && whole % 2 == 1) {
        (whole + 1) as nat
    } else {
        whole as nat
    }
}

/// The fixed first line of the CSV export.
pub open spec fn csv_header() -> Seq<char> {
    "Press or Release,Key,Time\n"@
}

/// One CSV data line: kind code, escaped key and whole-millisecond time,
/// comma-separated and newline-terminated.
pub open spec fn csv_line(r: RecordModel) -> Seq<char> {
    seq![kind_code(r.kind)] + ","@ + escaped_key(r.key) + ","@ + dec_digits(
        csv_time_ms(r.timestamp_micros),
    ) + "\n"@
}

/// The CSV data lines for `rs`, in log order.
pub open spec fn csv_lines(rs: Seq<RecordModel>) -> Seq<char>
    decreases rs.len(),
{
    if rs.len() == 0 {
        Seq::empty()
    } else {
        csv_lines(rs.drop_last()) + csv_line(rs.last())
    }
}

/// The full CSV document: header plus one line per record.
pub open spec fn csv_export(rs: Seq<RecordModel>) -> Seq<char> {
    csv_header() + csv_lines(rs)
}

/// One line of the tail dump: kind code, the key as recorded (not escaped),
/// and the raw reading rounded to whole milliseconds, space-separated.
pub open spec fn tail_line(r: RecordModel) -> Seq<char> {
    seq![kind_code(r.kind)] + " "@ + r.key + " "@ + dec_digits(rounded_ms(r.timestamp_micros))
        + "\n"@
}

/// The tail-dump lines for `rs`, in log order.
pub open spec fn tail_lines(rs: Seq<RecordModel>) -> Seq<char>
    decreases rs.len(),
{
    if rs.len() == 0 {
        Seq::empty()
    } else {
        tail_lines(rs.drop_last()) + tail_line(rs.last())
    }
}

/// The index of the first record the tail dump shows.
pub open spec fn tail_start(len: nat) -> nat {
    if len > TAIL_COUNT {
        (len - TAIL_COUNT) as nat
    } else {
        0
    }
}

/// The whole tail dump: one line per record for the last [`TAIL_COUNT`]
/// records, or for all of them when there are fewer.
pub open spec fn tail_dump(rs: Seq<RecordModel>) -> Seq<char> {
    tail_lines(rs.skip(tail_start(rs.len()) as int))
}

/// A microsecond count rendered as milliseconds with exactly three decimal
/// places.
pub open spec fn ms_three_places(micros: nat) -> Seq<char> {
    dec_digits(micros / 1000) + "."@ + three_digits(micros % 1000)
}

/// The differences between consecutive clock samples, in microseconds.
pub open spec fn deltas_of(samples: Seq<u64>) -> Seq<int> {
    Seq::new((samples.len() - 1) as nat, |i: int| samples[i + 1] - samples[i])
}

/// The least element of a non-empty sequence.
pub open spec fn seq_min(s: Seq<int>) -> int
    decreases s.len(),
{
    if s.len() <= 1 {
        s[0]
    } else {
        let m = seq_min(s.drop_last());
        if s.last() < m {
            s.last()
        } else {
            m
        }
    }
}

/// The greatest element of a non-empty sequence.
pub open spec fn seq_max(s: Seq<int>) -> int
    decreases s.len(),
{
    if s.len() <= 1 {
        s[0]
    } else {
        let m = seq_max(s.drop_last());
        if s.last() > m {
            s.last()
        } else {
            m
        }
    }
}

/// The clock-jitter report: the least and greatest consecutive sample delta,
/// each as milliseconds with three decimal places.
pub open spec fn timing_report(samples: Seq<u64>) -> Seq<char> {
    "Timing test - Min delta: "@ + ms_three_places(seq_min(deltas_of(samples)) as nat)
        + "ms, Max delta: "@ + ms_three_places(seq_max(deltas_of(samples)) as nat) + "ms"@
}

/// The one-character string for an event kind's code.
pub fn kind_code_str(kind: EventKind) -> (out: &'static str)
    ensures
        out@ == seq![kind_code(kind)],
{
    let s: &'static str = match kind {
        EventKind::Press => "P",
        EventKind::Release => "R",
    };
    proof {
        reveal_strlit("P");
        reveal_strlit("R");
        assert(s@ =~= seq![kind_code(kind)]);
    }
    s
}

/// The exec counterpart of [`kind_code`].
pub fn kind_code_char(kind: EventKind) -> (out: char)
    ensures
        out == kind_code(kind),
{
    match kind {
        EventKind::Press => 'P',
        EventKind::Release => 'R',
    }
}

/// The key as the exports print it; see [`escaped_key`].
pub fn escape_key(key: &String) -> (out: String)
    ensures
        out@ == escaped_key(key@),
{
    let comma: String = ",".to_owned();
    if *key == comma {
        "Key.comma".to_owned()
    } else {
        key.clone()
    }
}

/// The raw reading rounded to whole milliseconds, ties to even; the exec
/// counterpart of [`rounded_ms`].
pub fn rounded_ms_exec(ts_micros: u64) -> (out: u64)
    ensures
        out as nat == rounded_ms(ts_micros),
{
    let whole: u64 = ts_micros / 1000;
    let frac: u64 = ts_micros % 1000;
    proof {
        vstd::arithmetic::div_mod::lemma_div_is_ordered(
            ts_micros as int,
            u64::MAX as int,
            1000,
        );
    }
    if frac > 500 || (frac == 500 && whole % 2 == 1) {
        whole + 1
    } else {
        whole
    }
}

} // verus!
