//! Properties of the recorder that relate several operations, stated and
//! proved over the models the method contracts use.

use vstd::prelude::*;

use crate::log::{appended, raw_event_of, LogModel};
use crate::record::{kind_code, RecordModel, EPOCH_OFFSET_MICROS, EPOCH_OFFSET_MS, MAX_RAW_MICROS};
use crate::render::{
    abs_time_micros, csv_line, csv_time_ms, escaped_key, tail_dump, tail_lines, TAIL_COUNT,
};
use crate::digits::dec_digits;

verus! {

/// The model after a whole run of append attempts, first to last.
pub open spec fn appended_all(v: LogModel, rs: Seq<RecordModel>) -> LogModel
    decreases rs.len(),
{
    if rs.len() == 0 {
        v
    } else {
        appended_all(appended(v, rs[0]), rs.skip(1))
    }
}

/// Law: as long as a run of appends stays within the capacity, every append
/// succeeds — afterwards the log holds the old records followed by the new
/// ones in call order, so the count equals the number of appends made, and
/// the capacity is unchanged.
pub proof fn lemma_appends_within_capacity(v: LogModel, rs: Seq<RecordModel>)
    requires
        v.records.len() + rs.len() <= v.capacity,
    ensures
        appended_all(v, rs).capacity == v.capacity,
        appended_all(v, rs).records == v.records + rs,
        appended_all(v, rs).records.len() == v.records.len() + rs.len(),
    decreases rs.len(),
{
    if rs.len() == 0 {
        assert(v.records + rs =~= v.records);
    } else {
        let v1 = appended(v, rs[0]);
        lemma_appends_within_capacity(v1, rs.skip(1));
        assert(v.records.push(rs[0]) + rs.skip(1) =~= v.records + rs);
    }
}

/// Law: an append attempted on a full log leaves the model — records and
/// capacity alike — exactly as it was.
pub proof fn lemma_append_on_full_log(v: LogModel, r: RecordModel)
    requires
        v.records.len() >= v.capacity,
    ensures
        appended(v, r) == v,
{
}

/// Law: both exports rewrite a key consisting of the single comma character
/// to `Key.comma` and pass every other key through unchanged, and they agree
/// on the rewritten key: the structured entry carries it as its key field,
/// and the CSV line embeds the same characters between its two commas.
pub proof fn lemma_exports_escape_key_alike(r: RecordModel)
    ensures
        raw_event_of(r).key == escaped_key(r.key),
        csv_line(r) == seq![kind_code(r.kind)] + ","@ + escaped_key(r.key) + ","@ + dec_digits(
            csv_time_ms(r.timestamp_micros),
        ) + "\n"@,
        r.key == ","@ ==> escaped_key(r.key) == "Key.comma"@,
        r.key != ","@ ==> escaped_key(r.key) == r.key,
{
}

/// Law: the CSV export prints the floor of the offset timestamp in
/// milliseconds — exactly the structured export's untruncated microsecond
/// value divided by one thousand — while the structured export shifts the
/// raw reading without losing anything.
pub proof fn lemma_export_timestamps(ts_micros: u64)
    requires
        ts_micros <= MAX_RAW_MICROS,
    ensures
        abs_time_micros(ts_micros) == ts_micros + EPOCH_OFFSET_MICROS,
        csv_time_ms(ts_micros) == abs_time_micros(ts_micros) / 1000,
        raw_event_of(
            RecordModel { timestamp_micros: ts_micros, key: Seq::empty(), kind: crate::record::EventKind::Press },
        ).abs_time_micros == ts_micros + EPOCH_OFFSET_MICROS,
{
    assert(EPOCH_OFFSET_MICROS == EPOCH_OFFSET_MS * 1000);
    vstd::arithmetic::div_mod::lemma_hoist_over_denominator(
        ts_micros as int,
        EPOCH_OFFSET_MS as int,
        1000,
    );
}

/// Law: when the log holds more than [`TAIL_COUNT`] records the tail dump
/// covers exactly the last [`TAIL_COUNT`] of them, in order; when it holds
/// that many or fewer it covers all of them.
pub proof fn lemma_tail_window(rs: Seq<RecordModel>)
    ensures
        rs.len() > TAIL_COUNT ==> tail_dump(rs) == tail_lines(
            rs.subrange(rs.len() - TAIL_COUNT, rs.len() as int),
        ),
        rs.len() <= TAIL_COUNT ==> tail_dump(rs) == tail_lines(rs),
{
    if rs.len() > TAIL_COUNT {
        assert(rs.skip(rs.len() - TAIL_COUNT) =~= rs.subrange(
            rs.len() - TAIL_COUNT,
            rs.len() as int,
        ));
    } else {
        assert(rs.skip(0) =~= rs);
    }
}

} // verus!
