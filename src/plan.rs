//! The paging plan: which offsets of the history store to fetch, in order.
use vstd::prelude::*;

use crate::decode::MeterSectionInfo;
use crate::frame::BLOCK_SIZE;

verus! {

/// Number of whole blocks in a store of `data_length` bytes; a trailing
/// partial block is left out.
pub open spec fn total_blocks(data_length: u16) -> nat {
    (data_length / (BLOCK_SIZE as u16)) as nat
}

/// Offsets of every whole block of the store, ascending: `0, 6, 12, ...`.
pub open spec fn all_offsets(data_length: u16) -> Seq<u16> {
    Seq::new(total_blocks(data_length), |i: int| (i * BLOCK_SIZE) as u16)
}

/// Blocks needed to cover the most recent `duration_seconds`: whole samples
/// of `interval` seconds that fit in the duration (rounded down), then whole
/// blocks that hold them (rounded up).
pub open spec fn blocks_wanted(duration_seconds: u64, interval: u16) -> nat {
    let samples_wanted = duration_seconds / (interval as u64);
    ((samples_wanted + BLOCK_SIZE - 1) / (BLOCK_SIZE as int)) as nat
}

/// The offsets to fetch for a store described by `info`: all of them, or,
/// with a duration, the most recent ones that cover it. `None` when a
/// duration is given and the sampling interval is zero.
pub open spec fn planned_offsets(info: MeterSectionInfo, duration_seconds: Option<u64>) -> Option<
    Seq<u16>,
> {
    let all = all_offsets(info.data_length);
    match duration_seconds {
        None => Some(all),
        Some(d) => if info.interval == 0 {
            None
        } else {
            let n = vstd::math::min(blocks_wanted(d, info.interval) as int, all.len() as int);
            Some(all.subrange(all.len() - n, all.len() as int))
        },
    }
}

/// Plans the fetches of a history dump: the offsets of the store's whole
/// blocks in ascending order, or, when `duration_seconds` is given, the
/// suffix of them that covers the most recent `duration_seconds`. Returns
/// `None` when a duration is given and the store's sampling interval is zero.
pub fn plan_offsets(section_info: &MeterSectionInfo, duration_seconds: Option<u64>) -> (r: Option<
    Vec<u16>,
>)
    ensures
        r is Some <==> planned_offsets(*section_info, duration_seconds) is Some,
        r is Some ==> Some(r->0@) == planned_offsets(*section_info, duration_seconds),
{
    let block = BLOCK_SIZE as u16;
    let total = section_info.data_length / block;
    let first: u16 = match duration_seconds {
        None => 0,
        Some(d) => {
            if section_info.interval == 0 {
                return None;
            }
            let samples_wanted = d / (section_info.interval as u64);
            let blocks = samples_wanted / (BLOCK_SIZE as u64) + if samples_wanted % (
            BLOCK_SIZE as u64) != 0 {
                1
            } else {
                0
            };
            if blocks >= total as u64 {
                0
            } else {
                total - blocks as u16
            }
        },
    };
    let ghost all = all_offsets(section_info.data_length);
    assert(all.len() == total);
    let mut offsets: Vec<u16> = Vec::new();
    let mut i: u16 = first;
    while i < total
        invariant
            first <= i <= total,
            total == total_blocks(section_info.data_length),
            total * 6 <= section_info.data_length,
            block == 6,
            all == all_offsets(section_info.data_length),
            all.len() == total,
            offsets@ =~= all.subrange(first as int, i as int),
        decreases total - i,
    {
        assert(i * 6 < 0x10000) by (nonlinear_arith)
            requires
                i < total,
                total * 6 <= section_info.data_length,
        ;
        offsets.push(i * block);
        assert(all[i as int] == i * block);
        i = i + 1;
    }
    assert(duration_seconds is None ==> offsets@ =~= all);
    Some(offsets)
}

/// Without a duration, the plan holds the offsets `0, 6, 12, ...` in
/// ascending order: every multiple of the block size strictly below
/// `floor(data_length / 6) * 6`, and nothing else.
pub proof fn full_plan_is_every_whole_block(info: MeterSectionInfo)
    ensures
        planned_offsets(info, None) is Some,
        ({
            let plan = planned_offsets(info, None)->0;
            let limit = (info.data_length / 6) * 6;
            &&& plan.len() * 6 == limit
            &&& forall|k: int| 0 <= k < plan.len() ==> #[trigger] plan[k] == 6 * k && plan[k] < limit
        }),
{
    let plan = planned_offsets(info, None)->0;
    let total = (info.data_length / 6) as int;
    assert forall|k: int| 0 <= k < plan.len() implies #[trigger] plan[k] == 6 * k && plan[k] < (
    info.data_length / 6) * 6 by {
        assert(6 * k < 6 * total <= info.data_length) by (nonlinear_arith)
            requires
                0 <= k < total,
                total == info.data_length / 6,
        ;
    }
}

/// With a duration, the plan is the suffix of the plan without one that
/// holds `min(blocks_wanted, total_blocks)` offsets, where `blocks_wanted`
/// rounds the samples that fit in the duration down and the blocks that
/// hold them up; ascending order is kept.
pub proof fn bounded_plan_is_suffix_of_full_plan(info: MeterSectionInfo, duration_seconds: u64)
    requires
        info.interval != 0,
    ensures
        planned_offsets(info, Some(duration_seconds)) is Some,
        ({
            let full = planned_offsets(info, None)->0;
            let part = planned_offsets(info, Some(duration_seconds))->0;
            let n = vstd::math::min(
                blocks_wanted(duration_seconds, info.interval) as int,
                total_blocks(info.data_length) as int,
            );
            &&& part.len() == n
            &&& part == full.subrange(full.len() - n, full.len() as int)
        }),
{
}

/// With a duration whose seconds are a whole number of intervals, or whose
/// samples do not fill a whole number of blocks, or that asks for at least
/// the whole store, the plan holds `ceil(ceil(duration / interval) / 6)`
/// blocks, capped at the number of whole blocks of the store.
pub proof fn bounded_plan_length_from_rounded_up_samples(
    info: MeterSectionInfo,
    duration_seconds: u64,
)
    requires
        info.interval != 0,
        duration_seconds % (info.interval as u64) == 0 || (duration_seconds / (
        info.interval as u64)) % 6 != 0 || total_blocks(info.data_length) <= (duration_seconds / (
        info.interval as u64)) / 6,
    ensures
        planned_offsets(info, Some(duration_seconds)) is Some,
        ({
            let i = info.interval as int;
            let d = duration_seconds as int;
            let samples_up = (d + i - 1) / i;
            let blocks_up = (samples_up + 5) / 6;
            planned_offsets(info, Some(duration_seconds))->0.len() == vstd::math::min(
                blocks_up,
                total_blocks(info.data_length) as int,
            )
        }),
{
    let i = info.interval as int;
    let d = duration_seconds as int;
    let q = d / i;
    let samples_up = (d + i - 1) / i;
    assert(samples_up == if d % i == 0 { q } else { q + 1 }) by (nonlinear_arith)
        requires
            i > 0,
            d >= 0,
            q == d / i,
            samples_up == (d + i - 1) / i,
    ;
}

} // verus!
