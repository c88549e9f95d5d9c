//! The upload history's bookkeeping: prepending terminal records with a
//! retained-count cap, finding and removing records for manual retries,
//! and the aggregate statistics shown to the user.

use vstd::prelude::*;
use vstd::arithmetic::div_mod::lemma_div_is_ordered_by_denominator;
use vstd::string::StrSliceExecFns;
use vstd::string::StringExecFns;
use crate::text;
use crate::types::UploadRecord;
use crate::types::UploadStatus;

verus! {

/// Most records the history retains.
pub const MAX_HISTORY_RECORDS: usize = 100;

/// Prepend a new or updated record, truncating to the retained cap.
pub fn prepend_to_history(records: &mut Vec<UploadRecord>, record: UploadRecord)
    ensures
        final(records)@.len() <= MAX_HISTORY_RECORDS,
        final(records)@.len() == if old(records)@.len() < MAX_HISTORY_RECORDS {
            old(records)@.len() as int + 1
        } else {
            MAX_HISTORY_RECORDS as int
        },
        final(records)@ == old(records)@.insert(0, record).take(final(records)@.len() as int),
{
    records.insert(0, record);
    if records.len() > MAX_HISTORY_RECORDS {
        records.truncate(MAX_HISTORY_RECORDS);
    }
}

/// The first record with this identifier, if any.
pub fn find_record_index(records: &Vec<UploadRecord>, record_id: &str) -> (r: Option<usize>)
    ensures
        match r {
            Some(i) => i < records@.len() && records@[i as int].id@ == record_id@ && forall|j: int|
                0 <= j < i ==> records@[j].id@ != record_id@,
            None => forall|j: int| 0 <= j < records@.len() ==> records@[j].id@ != record_id@,
        },
{
    let n = records.len();
    let mut i: usize = 0;
    while i < n
        invariant
            i <= n,
            n == records@.len(),
            forall|j: int| 0 <= j < i ==> records@[j].id@ != record_id@,
        decreases n - i,
    {
        if text::str_eq(records[i].id.as_str(), record_id) {
            return Some(i);
        }
        i += 1;
    }
    None
}

/// The filter predicate that keeps every record but those with this
/// identifier.
pub open spec fn keeps_id(id: Seq<char>) -> spec_fn(UploadRecord) -> bool {
    |r: UploadRecord| r.id@ != id
}

/// Drop every record with this identifier (a manual retry that succeeded
/// removes the failed entry it replaces); the rest keep their order.
pub fn remove_record_by_id(records: &mut Vec<UploadRecord>, record_id: &str)
    ensures
        final(records)@ == old(records)@.filter(keeps_id(record_id@)),
{
    let ghost before = records@;
    let mut kept: Vec<UploadRecord> = Vec::new();
    let mut i: usize = 0;
    let n = records.len();
    while i < n
        invariant
            i <= n,
            n == records@.len(),
            before == records@,
            kept@ =~= before.take(i as int).filter(keeps_id(record_id@)),
        decreases n - i,
    {
        proof {
            assert(before.take(i + 1).drop_last() =~= before.take(i as int));
            assert(before.take(i + 1).last() == before[i as int]);
            reveal(Seq::filter);
        }
        if !text::str_eq(records[i].id.as_str(), record_id) {
            let item = records[i].duplicate();
            kept.push(item);
        }
        i += 1;
    }
    proof {
        assert(before.take(n as int) =~= before);
    }
    *records = kept;
}

/// How many records completed.
pub open spec fn spec_completed_count(records: Seq<UploadRecord>) -> int
    decreases records.len(),
{
    if records.len() == 0 {
        0
    } else {
        spec_completed_count(records.drop_last()) + if records.last().status is Completed {
            1int
        } else {
            0int
        }
    }
}

/// How many records failed.
pub open spec fn spec_failed_count(records: Seq<UploadRecord>) -> int
    decreases records.len(),
{
    if records.len() == 0 {
        0
    } else {
        spec_failed_count(records.drop_last()) + if records.last().status is Failed {
            1int
        } else {
            0int
        }
    }
}

/// The byte total of completed uploads with a known size, unbounded.
pub open spec fn spec_bytes_total(records: Seq<UploadRecord>) -> int
    decreases records.len(),
{
    if records.len() == 0 {
        0
    } else {
        spec_bytes_total(records.drop_last()) + {
            if records.last().status is Completed {
                match records.last().file_size {
                    Some(s) => s as int,
                    None => 0,
                }
            } else {
                0
            }
        }
    }
}

/// Aggregated history statistics: completed and failed counts, and the
/// completed bytes (saturating at the integer's limit).
#[derive(Debug, Clone, PartialEq, Eq, Structural)]
pub struct UploadTotals {
    pub total_uploads: usize,
    pub total_failed: usize,
    pub total_bytes_uploaded: u64,
}

/// Fold the history into its statistics.
pub fn compute_totals(records: &Vec<UploadRecord>) -> (r: UploadTotals)
    ensures
        r.total_uploads == spec_completed_count(records@),
        r.total_failed == spec_failed_count(records@),
        r.total_bytes_uploaded == if spec_bytes_total(records@) <= u64::MAX {
            spec_bytes_total(records@)
        } else {
            u64::MAX as int
        },
{
    let n = records.len();
    let mut uploads: usize = 0;
    let mut failed: usize = 0;
    let mut bytes: u64 = 0;
    let mut i: usize = 0;
    while i < n
        invariant
            i <= n,
            n == records@.len(),
            uploads == spec_completed_count(records@.take(i as int)),
            failed == spec_failed_count(records@.take(i as int)),
            uploads + failed <= i,
            bytes == if spec_bytes_total(records@.take(i as int)) <= u64::MAX {
                spec_bytes_total(records@.take(i as int))
            } else {
                u64::MAX as int
            },
        decreases n - i,
    {
        proof {
            assert(records@.take(i + 1).drop_last() =~= records@.take(i as int));
            assert(records@.take(i + 1).last() == records@[i as int]);
        }
        match records[i].status {
            UploadStatus::Completed => {
                uploads += 1;
                match records[i].file_size {
                    Some(s) => {
                        bytes = u64_saturating_add(bytes, s);
                    },
                    None => {},
                }
            },
            UploadStatus::Failed => {
                failed += 1;
            },
            _ => {},
        }
        i += 1;
    }
    proof {
        assert(records@.take(n as int) =~= records@);
    }
    UploadTotals { total_uploads: uploads, total_failed: failed, total_bytes_uploaded: bytes }
}

fn u64_saturating_add(a: u64, b: u64) -> (r: u64)
    ensures
        r == if a + b <= u64::MAX {
            a + b
        } else {
            u64::MAX as int
        },
{
    if a <= u64::MAX - b {
        a + b
    } else {
        u64::MAX
    }
}

/// One kibibyte.
pub const KB: u64 = 1024;

/// One mebibyte.
pub const MB: u64 = 1048576;

/// One gibibyte.
pub const GB: u64 = 1073741824;

/// A byte count scaled to tenths of a unit, rounding half up.
pub open spec fn spec_scaled_tenths(bytes: int, unit: int) -> int {
    (bytes * 10 + unit / 2) / unit
}

/// A human-readable byte count: scaled to one decimal of the largest unit
/// reached, rounding half up, or the plain count below one kibibyte.
pub open spec fn spec_format_bytes(bytes: int) -> Seq<char> {
    if bytes >= GB {
        spec_scaled_seq(bytes, GB as int) + " GB"@
    } else if bytes >= MB {
        spec_scaled_seq(bytes, MB as int) + " MB"@
    } else if bytes >= KB {
        spec_scaled_seq(bytes, KB as int) + " KB"@
    } else {
        text::dec_str(bytes as nat) + " B"@
    }
}

/// The digits of a scaled count: whole part, point, one tenths digit.
pub open spec fn spec_scaled_seq(bytes: int, unit: int) -> Seq<char> {
    text::dec_str((spec_scaled_tenths(bytes, unit) / 10) as nat) + seq!['.'] + seq![
        text::digit_char(spec_scaled_tenths(bytes, unit) % 10),
    ]
}

fn push_scaled(s: &mut String, bytes: u64, unit: u64)
    requires
        KB <= unit,
        unit <= bytes,
    ensures
        final(s)@ == old(s)@ + spec_scaled_seq(bytes as int, unit as int),
{
    let t: u128 = ((bytes as u128) * 10 + (unit as u128) / 2) / (unit as u128);
    proof {
        let x = (bytes as int) * 10 + (unit as int) / 2;
        lemma_div_is_ordered_by_denominator(x, KB as int, unit as int);
        assert(x / (KB as int) < 0x10000000000000000) by (nonlinear_arith)
            requires
                x <= 0xffffffffffffffff * 10 + 0x8000000000000000,
        ;
        assert(t == spec_scaled_tenths(bytes as int, unit as int));
        assert(t >= 0) by (nonlinear_arith)
            requires
                x >= 0,
                unit >= 1,
                t == x / (unit as int),
        ;
    }
    let whole: u64 = (t / 10) as u64;
    let tenth: u64 = (t % 10) as u64;
    text::push_dec(s, whole);
    proof {
        reveal_strlit(".");
    }
    s.append(".");
    text::push_digit(s, tenth);
    assert(s@ =~= old(s)@ + spec_scaled_seq(bytes as int, unit as int));
}

/// Render a byte count for display.
pub fn format_bytes(bytes: u64) -> (r: String)
    ensures
        r@ == spec_format_bytes(bytes as int),
{
    let mut s = String::new();
    if bytes >= GB {
        push_scaled(&mut s, bytes, GB);
        s.append(" GB");
    } else if bytes >= MB {
        push_scaled(&mut s, bytes, MB);
        s.append(" MB");
    } else if bytes >= KB {
        push_scaled(&mut s, bytes, KB);
        s.append(" KB");
    } else {
        text::push_dec(&mut s, bytes);
        s.append(" B");
    }
    assert(s@ =~= spec_format_bytes(bytes as int));
    s
}

} // verus!
