//! The steps of a history dump that follow each exchange with the device:
//! collecting the readings of every fetched block, and dating them.
use vstd::prelude::*;

use crate::decode::{sample_block_of, MeterSampleValue, MeterSectionInfo};

verus! {

/// Adds the readings of one fetched block to those collected so far. A
/// response that is not a well-shaped sample block leaves a gap: it adds
/// nothing.
pub fn append_samples(samples: &mut Vec<MeterSampleValue>, response: &[u8])
    ensures
        match sample_block_of(response@) {
            Some(block) => final(samples)@ == old(samples)@ + block,
            None => final(samples)@ == old(samples)@,
        },
{
    if let Some(mut block) = MeterSampleValue::from_response(response) {
        samples.append(&mut block);
    }
}

/// Time of reading number `k` of the `count` readings of a dump of the store
/// described by `info`: readings are `interval` seconds apart, and the first
/// stands `data_length - count` intervals after `start_time`.
pub open spec fn sample_time(info: MeterSectionInfo, count: int, k: int) -> int {
    info.start_time + info.interval * (info.data_length - count) + k * info.interval
}

/// The Unix timestamps of the `count` readings of a dump of the store
/// described by `index_info`, oldest first.
pub fn sample_timestamps(index_info: &MeterSectionInfo, count: usize) -> (r: Vec<i64>)
    requires
        count <= index_info.data_length,
    ensures
        r@.len() == count,
        forall|k: int| 0 <= k < count ==> #[trigger] r@[k] == sample_time(*index_info, count as int, k),
{
    let interval = index_info.interval as i64;
    let skipped = index_info.data_length as i64 - count as i64;
    assert(0 <= interval * skipped <= 0xffff * 0xffff) by (nonlinear_arith)
        requires
            0 <= interval <= 0xffff,
            0 <= skipped <= 0xffff,
    ;
    let mut current_time = index_info.start_time as i64 + interval * skipped;
    let mut times: Vec<i64> = Vec::with_capacity(count);
    let mut k: usize = 0;
    while k < count
        invariant
            k <= count <= index_info.data_length,
            interval == index_info.interval,
            skipped == index_info.data_length - count,
            times@.len() == k,
            current_time == sample_time(*index_info, count as int, k as int),
            forall|j: int| 0 <= j < k ==> #[trigger] times@[j] == sample_time(*index_info, count as int, j),
        decreases count - k,
    {
        assert(0 <= interval * skipped + k * interval <= 0xffff * 0xffff + 0xffff * 0xffff)
            by (nonlinear_arith)
            requires
                0 <= interval <= 0xffff,
                0 <= skipped <= 0xffff,
                0 <= k <= 0xffff,
        ;
        times.push(current_time);
        assert(sample_time(*index_info, count as int, k + 1) == current_time + interval) by (nonlinear_arith)
            requires
                current_time == sample_time(*index_info, count as int, k as int),
                interval == index_info.interval,
        ;
        current_time = current_time + interval;
        k = k + 1;
    }
    times
}

} // verus!
