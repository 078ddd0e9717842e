use vstd::prelude::*;
use crate::core_logic::clock::{TimeOfDay, minutes_between, duration_nanos, trunc_div, chrono_minutes_between};
use crate::core_logic::schedule::{Schedule, TimeBlock, BlockType};

verus! {

/// The later of two times (the maximum in the day's order).
pub open spec fn later_of(a: TimeOfDay, b: TimeOfDay) -> TimeOfDay {
    if a.precedes(b) { b } else { a }
}

/// The earlier of two times (the minimum in the day's order).
pub open spec fn earlier_of(a: TimeOfDay, b: TimeOfDay) -> TimeOfDay {
    if b.precedes(a) { b } else { a }
}

/// Whole minutes that `[start, end)` shares with `[block_start, block_end)`.
pub open spec fn overlap_minutes(
    start: TimeOfDay,
    end: TimeOfDay,
    block_start: TimeOfDay,
    block_end: TimeOfDay,
) -> int {
    let effective_start = later_of(start, block_start);
    let effective_end = earlier_of(end, block_end);
    if effective_start.precedes(effective_end) {
        minutes_between(effective_start, effective_end)
    } else {
        0
    }
}

/// Minutes of `[start, now)` that block `b` takes off the work: its overlap if it is a hard
/// pause, nothing if it is a soft one.
pub open spec fn pause_minutes(start: TimeOfDay, now: TimeOfDay, b: TimeBlock) -> int {
    if b.block_type == BlockType::HardPause {
        overlap_minutes(start, now, b.start, b.end)
    } else {
        0
    }
}

/// The minutes that all hard pauses of `blocks` take off `[start, now)`.
pub open spec fn hard_pause_minutes(start: TimeOfDay, now: TimeOfDay, blocks: Seq<TimeBlock>) -> int
    decreases blocks.len(),
{
    if blocks.len() == 0 {
        0
    } else {
        hard_pause_minutes(start, now, blocks.drop_last()) + pause_minutes(start, now, blocks.last())
    }
}

/// Minutes worked from `start` to `now`: the elapsed minutes less the hard pauses, never
/// below zero.
pub open spec fn worked_minutes(start: TimeOfDay, now: TimeOfDay, blocks: Seq<TimeBlock>) -> int {
    let raw = minutes_between(start, now) - hard_pause_minutes(start, now, blocks);
    if raw > 0 { raw } else { 0 }
}

/// Minutes still owed to reach the daily target, never below zero.
pub open spec fn remaining_minutes(worked: int, daily_target_minutes: int) -> int {
    if daily_target_minutes > worked { daily_target_minutes - worked } else { 0 }
}

/// Between two valid times there are at most a day's minutes, and none backwards when the
/// first precedes the second.
pub proof fn lemma_minutes_between_bounds(a: TimeOfDay, b: TimeOfDay)
    requires
        a.wf(),
        b.wf(),
    ensures
        -1440 <= minutes_between(a, b) <= 1440,
        a.precedes(b) ==> minutes_between(a, b) >= 0,
{
    let d = duration_nanos(a, b);
    assert(-86_402_000_000_000 < d < 86_402_000_000_000);
    assert(a.precedes(b) ==> d > 0);
    assert(trunc_div(d, 60_000_000_000) <= 1440);
    assert(trunc_div(d, 60_000_000_000) >= -1440);
}

proof fn lemma_overlap_bounds(start: TimeOfDay, end: TimeOfDay, bs: TimeOfDay, be: TimeOfDay)
    requires
        start.wf(),
        end.wf(),
        bs.wf(),
        be.wf(),
    ensures
        0 <= overlap_minutes(start, end, bs, be) <= 1440,
{
    lemma_minutes_between_bounds(later_of(start, bs), earlier_of(end, be));
}

/// The remaining minutes are never negative; below the target, worked and remaining minutes add
/// up to the target, and at or above it nothing remains.
pub proof fn lemma_remaining_completes_target(worked: int, daily_target_minutes: int)
    ensures
        remaining_minutes(worked, daily_target_minutes) >= 0,
        worked < daily_target_minutes ==> worked + remaining_minutes(worked, daily_target_minutes)
            == daily_target_minutes,
        worked >= daily_target_minutes ==> remaining_minutes(worked, daily_target_minutes) == 0,
{
}

/// A soft pause counts as work: adding one to the schedule leaves the worked minutes unchanged.
pub proof fn lemma_soft_pause_counts_as_work(
    start: TimeOfDay,
    now: TimeOfDay,
    blocks: Seq<TimeBlock>,
    b: TimeBlock,
)
    requires
        b.block_type == BlockType::SoftPause,
    ensures
        worked_minutes(start, now, blocks.push(b)) == worked_minutes(start, now, blocks),
{
    assert(blocks.push(b).drop_last() =~= blocks);
}

/// With no hard pause in the schedule, the worked minutes are the elapsed minutes, floored at
/// zero.
pub proof fn lemma_without_hard_pauses_all_elapsed_time_is_work(
    start: TimeOfDay,
    now: TimeOfDay,
    blocks: Seq<TimeBlock>,
)
    requires
        forall|i: int| 0 <= i < blocks.len() ==> (#[trigger] blocks[i]).block_type == BlockType::SoftPause,
    ensures
        worked_minutes(start, now, blocks) == (if minutes_between(start, now) > 0 {
            minutes_between(start, now)
        } else {
            0
        }),
    decreases blocks.len(),
{
    lemma_no_hard_pause_minutes(start, now, blocks);
}

proof fn lemma_no_hard_pause_minutes(start: TimeOfDay, now: TimeOfDay, blocks: Seq<TimeBlock>)
    requires
        forall|i: int| 0 <= i < blocks.len() ==> (#[trigger] blocks[i]).block_type == BlockType::SoftPause,
    ensures
        hard_pause_minutes(start, now, blocks) == 0,
    decreases blocks.len(),
{
    if blocks.len() > 0 {
        let rest = blocks.drop_last();
        assert forall|i: int| 0 <= i < rest.len() implies (#[trigger] rest[i]).block_type
            == BlockType::SoftPause by {
            assert(rest[i] == blocks[i]);
        }
        lemma_no_hard_pause_minutes(start, now, rest);
        assert(blocks.last() == blocks[blocks.len() - 1]);
    }
}

/// A pause that ends before the day started, or starts once `now` is reached, takes nothing off
/// the worked minutes.
pub proof fn lemma_pause_outside_worked_span(
    start: TimeOfDay,
    now: TimeOfDay,
    blocks: Seq<TimeBlock>,
    b: TimeBlock,
)
    requires
        !start.precedes(b.end) || !b.start.precedes(now),
    ensures
        worked_minutes(start, now, blocks.push(b)) == worked_minutes(start, now, blocks),
{
    assert(blocks.push(b).drop_last() =~= blocks);
    assert(overlap_minutes(start, now, b.start, b.end) == 0);
}

/// A hard pause never adds to the worked minutes.
pub proof fn lemma_hard_pause_never_adds_work(
    start: TimeOfDay,
    now: TimeOfDay,
    blocks: Seq<TimeBlock>,
    b: TimeBlock,
)
    requires
        start.wf(),
        now.wf(),
        b.start.wf(),
        b.end.wf(),
    ensures
        worked_minutes(start, now, blocks.push(b)) <= worked_minutes(start, now, blocks),
{
    assert(blocks.push(b).drop_last() =~= blocks);
    lemma_overlap_bounds(start, now, b.start, b.end);
}

/// The worked minutes never exceed the elapsed minutes (when any have elapsed) and are never
/// negative.
pub proof fn lemma_worked_within_elapsed(start: TimeOfDay, now: TimeOfDay, blocks: Seq<TimeBlock>)
    requires
        start.wf(),
        now.wf(),
        forall|i: int| 0 <= i < blocks.len() ==> (#[trigger] blocks[i]).start.wf() && blocks[i].end.wf(),
    ensures
        0 <= worked_minutes(start, now, blocks),
        worked_minutes(start, now, blocks) <= (if minutes_between(start, now) > 0 {
            minutes_between(start, now)
        } else {
            0
        }),
    decreases blocks.len(),
{
    lemma_hard_pause_minutes_nonnegative(start, now, blocks);
}

proof fn lemma_hard_pause_minutes_nonnegative(start: TimeOfDay, now: TimeOfDay, blocks: Seq<TimeBlock>)
    requires
        start.wf(),
        now.wf(),
        forall|i: int| 0 <= i < blocks.len() ==> (#[trigger] blocks[i]).start.wf() && blocks[i].end.wf(),
    ensures
        hard_pause_minutes(start, now, blocks) >= 0,
    decreases blocks.len(),
{
    if blocks.len() > 0 {
        let rest = blocks.drop_last();
        assert forall|i: int| 0 <= i < rest.len() implies (#[trigger] rest[i]).start.wf() && rest[i].end.wf() by {
            assert(rest[i] == blocks[i]);
        }
        lemma_hard_pause_minutes_nonnegative(start, now, rest);
        let b = blocks.last();
        assert(b == blocks[blocks.len() - 1]);
        lemma_overlap_bounds(start, now, b.start, b.end);
    }
}

/// The overlap of two spans does not depend on which of them is the worked span.
pub proof fn lemma_overlap_symmetric(a: TimeOfDay, b: TimeOfDay, c: TimeOfDay, d: TimeOfDay)
    ensures
        overlap_minutes(a, b, c, d) == overlap_minutes(c, d, a, b),
{
    assert(later_of(a, c) == later_of(c, a));
    assert(earlier_of(b, d) == earlier_of(d, b));
}

/// The spans `[start, end)` of the hard pauses of `blocks`, in order.
pub open spec fn hard_spans(blocks: Seq<TimeBlock>) -> Seq<(TimeOfDay, TimeOfDay)>
    decreases blocks.len(),
{
    if blocks.len() == 0 {
        Seq::empty()
    } else {
        let rest = hard_spans(blocks.drop_last());
        let b = blocks.last();
        if b.block_type == BlockType::HardPause {
            rest.push((b.start, b.end))
        } else {
            rest
        }
    }
}

/// The minutes that the spans `spans` take off `[start, now)`.
pub open spec fn span_minutes(start: TimeOfDay, now: TimeOfDay, spans: Seq<(TimeOfDay, TimeOfDay)>) -> int
    decreases spans.len(),
{
    if spans.len() == 0 {
        0
    } else {
        span_minutes(start, now, spans.drop_last()) + overlap_minutes(
            start,
            now,
            spans.last().0,
            spans.last().1,
        )
    }
}

proof fn lemma_hard_pause_minutes_by_spans(start: TimeOfDay, now: TimeOfDay, blocks: Seq<TimeBlock>)
    ensures
        hard_pause_minutes(start, now, blocks) == span_minutes(start, now, hard_spans(blocks)),
    decreases blocks.len(),
{
    if blocks.len() > 0 {
        lemma_hard_pause_minutes_by_spans(start, now, blocks.drop_last());
        let rest = hard_spans(blocks.drop_last());
        let b = blocks.last();
        if b.block_type == BlockType::HardPause {
            assert(rest.push((b.start, b.end)).drop_last() =~= rest);
        }
    }
}

proof fn lemma_span_minutes_remove(
    start: TimeOfDay,
    now: TimeOfDay,
    spans: Seq<(TimeOfDay, TimeOfDay)>,
    i: int,
)
    requires
        0 <= i < spans.len(),
    ensures
        span_minutes(start, now, spans) == span_minutes(start, now, spans.remove(i))
            + overlap_minutes(start, now, spans[i].0, spans[i].1),
    decreases spans.len(),
{
    if i == spans.len() - 1 {
        assert(spans.remove(i) =~= spans.drop_last());
    } else {
        let rest = spans.drop_last();
        lemma_span_minutes_remove(start, now, rest, i);
        assert(spans.remove(i).drop_last() =~= rest.remove(i));
        assert(spans.remove(i).last() == spans.last());
        assert(rest[i] == spans[i]);
    }
}

proof fn lemma_span_minutes_permutation(
    start: TimeOfDay,
    now: TimeOfDay,
    s1: Seq<(TimeOfDay, TimeOfDay)>,
    s2: Seq<(TimeOfDay, TimeOfDay)>,
)
    requires
        s1.to_multiset() == s2.to_multiset(),
    ensures
        span_minutes(start, now, s1) == span_minutes(start, now, s2),
    decreases s1.len(),
{
    broadcast use vstd::seq_lib::group_to_multiset_ensures;

    if s1.len() == 0 {
        assert(s2.to_multiset().len() == 0);
        assert(s2 =~= s1);
    } else {
        let x = s1.last();
        let rest1 = s1.drop_last();
        assert(rest1.push(x) =~= s1);
        assert(s1.to_multiset() =~= rest1.to_multiset().insert(x));
        assert(s2.to_multiset().count(x) > 0);
        assert(s2.contains(x));
        let i = choose|i: int| 0 <= i < s2.len() && s2[i] == x;
        let rest2 = s2.remove(i);
        assert(rest2.to_multiset() =~= s2.to_multiset().remove(x));
        assert(rest1.to_multiset() =~= rest2.to_multiset());
        lemma_span_minutes_permutation(start, now, rest1, rest2);
        lemma_span_minutes_remove(start, now, s2, i);
    }
}

/// Only the hard pauses count: adding or removing soft pauses, or putting the blocks in another
/// order, leaves the worked minutes unchanged as long as the spans of the hard pauses stay the
/// same (as a multiset).
pub proof fn lemma_worked_depends_only_on_hard_pauses(
    start: TimeOfDay,
    now: TimeOfDay,
    blocks1: Seq<TimeBlock>,
    blocks2: Seq<TimeBlock>,
)
    requires
        hard_spans(blocks1).to_multiset() == hard_spans(blocks2).to_multiset(),
    ensures
        worked_minutes(start, now, blocks1) == worked_minutes(start, now, blocks2),
{
    lemma_hard_pause_minutes_by_spans(start, now, blocks1);
    lemma_hard_pause_minutes_by_spans(start, now, blocks2);
    lemma_span_minutes_permutation(start, now, hard_spans(blocks1), hard_spans(blocks2));
}

/// `t` falls on a whole minute: no seconds, no fraction.
pub open spec fn whole_minute(t: TimeOfDay) -> bool {
    t.frac == 0 && t.secs % 60 == 0
}

/// The minute of the day at which a whole-minute time falls.
pub open spec fn minute_of(t: TimeOfDay) -> int {
    (t.secs / 60) as int
}

/// Length of the intersection of the integer spans `[a, b)` and `[c, d)`.
pub open spec fn span_len(a: int, b: int, c: int, d: int) -> int {
    let lo = if a < c { c } else { a };
    let hi = if b < d { b } else { d };
    if lo < hi { hi - lo } else { 0 }
}

/// Two blocks share no time.
pub open spec fn blocks_disjoint(b1: TimeBlock, b2: TimeBlock) -> bool {
    !later_of(b1.start, b2.start).precedes(earlier_of(b1.end, b2.end))
}

/// No two hard pauses of `blocks` share time.
pub open spec fn hard_pauses_disjoint(blocks: Seq<TimeBlock>) -> bool {
    forall|i: int, j: int|
        0 <= i < blocks.len() && 0 <= j < blocks.len() && i != j
            && blocks[i].block_type == BlockType::HardPause
            && blocks[j].block_type == BlockType::HardPause
            ==> blocks_disjoint(#[trigger] blocks[i], #[trigger] blocks[j])
}

/// Every block starts and ends on a whole minute.
pub open spec fn blocks_on_whole_minutes(blocks: Seq<TimeBlock>) -> bool {
    forall|i: int| 0 <= i < blocks.len() ==> whole_minute((#[trigger] blocks[i]).start) && whole_minute(blocks[i].end)
}

/// Minutes of `[a, b)` (in minutes of the day) that the hard pauses of `blocks` cover.
pub open spec fn hard_minutes_in(a: int, b: int, blocks: Seq<TimeBlock>) -> int
    decreases blocks.len(),
{
    if blocks.len() == 0 {
        0
    } else {
        let blk = blocks.last();
        hard_minutes_in(a, b, blocks.drop_last()) + if blk.block_type == BlockType::HardPause {
            span_len(a, b, minute_of(blk.start), minute_of(blk.end))
        } else {
            0
        }
    }
}

proof fn lemma_whole_minutes(x: TimeOfDay, y: TimeOfDay)
    requires
        whole_minute(x),
        whole_minute(y),
    ensures
        x.secs == 60 * minute_of(x),
        x.precedes(y) <==> minute_of(x) < minute_of(y),
        minute_of(x) == minute_of(y) ==> x == y,
        minutes_between(x, y) == minute_of(y) - minute_of(x),
{
    let kx = minute_of(x);
    let ky = minute_of(y);
    assert(x.secs == 60 * kx);
    assert(y.secs == 60 * ky);
    let d = duration_nanos(x, y);
    assert(d == (ky - kx) * 60_000_000_000);
    if d >= 0 {
        assert(d / 60_000_000_000 == ky - kx);
    } else {
        assert((-d) / 60_000_000_000 == kx - ky);
    }
}

proof fn lemma_overlap_in_minutes(start: TimeOfDay, now: TimeOfDay, bs: TimeOfDay, be: TimeOfDay)
    requires
        whole_minute(start),
        whole_minute(now),
        whole_minute(bs),
        whole_minute(be),
    ensures
        overlap_minutes(start, now, bs, be) == span_len(
            minute_of(start),
            minute_of(now),
            minute_of(bs),
            minute_of(be),
        ),
{
    lemma_whole_minutes(start, bs);
    lemma_whole_minutes(bs, start);
    lemma_whole_minutes(now, be);
    lemma_whole_minutes(be, now);
    let es = later_of(start, bs);
    let ee = earlier_of(now, be);
    lemma_whole_minutes(es, ee);
}

proof fn lemma_hard_pause_minutes_in_minutes(start: TimeOfDay, now: TimeOfDay, blocks: Seq<TimeBlock>)
    requires
        whole_minute(start),
        whole_minute(now),
        blocks_on_whole_minutes(blocks),
    ensures
        hard_pause_minutes(start, now, blocks) == hard_minutes_in(minute_of(start), minute_of(now), blocks),
    decreases blocks.len(),
{
    if blocks.len() > 0 {
        let rest = blocks.drop_last();
        assert(blocks_on_whole_minutes(rest)) by {
            assert forall|i: int| 0 <= i < rest.len() implies whole_minute((#[trigger] rest[i]).start)
                && whole_minute(rest[i].end) by {
                assert(rest[i] == blocks[i]);
            }
        }
        lemma_hard_pause_minutes_in_minutes(start, now, rest);
        let b = blocks.last();
        assert(b == blocks[blocks.len() - 1]);
        lemma_overlap_in_minutes(start, now, b.start, b.end);
    }
}

proof fn lemma_hard_minutes_split(a: int, mid: int, b: int, blocks: Seq<TimeBlock>)
    requires
        a <= mid <= b,
    ensures
        hard_minutes_in(a, b, blocks) == hard_minutes_in(a, mid, blocks) + hard_minutes_in(mid, b, blocks),
        hard_minutes_in(a, b, blocks) >= 0,
    decreases blocks.len(),
{
    if blocks.len() > 0 {
        lemma_hard_minutes_split(a, mid, b, blocks.drop_last());
        lemma_hard_minutes_split(a, a, mid, blocks.drop_last());
        lemma_hard_minutes_split(mid, mid, b, blocks.drop_last());
    }
}

proof fn lemma_hard_minutes_zero(a: int, b: int, blocks: Seq<TimeBlock>)
    requires
        forall|j: int|
            0 <= j < blocks.len() && (#[trigger] blocks[j]).block_type == BlockType::HardPause
                ==> span_len(a, b, minute_of(blocks[j].start), minute_of(blocks[j].end)) == 0,
    ensures
        hard_minutes_in(a, b, blocks) == 0,
    decreases blocks.len(),
{
    if blocks.len() > 0 {
        let rest = blocks.drop_last();
        assert forall|j: int|
            0 <= j < rest.len() && (#[trigger] rest[j]).block_type == BlockType::HardPause
                implies span_len(a, b, minute_of(rest[j].start), minute_of(rest[j].end)) == 0 by {
            assert(rest[j] == blocks[j]);
        }
        lemma_hard_minutes_zero(a, b, rest);
        assert(blocks.last() == blocks[blocks.len() - 1]);
    }
}

/// Disjoint hard pauses cover at most the whole of `[a, b)`.
proof fn lemma_disjoint_hard_minutes_bound(a: int, b: int, blocks: Seq<TimeBlock>)
    requires
        a <= b,
        forall|i: int, j: int|
            0 <= i < blocks.len() && 0 <= j < blocks.len() && i != j
                && (#[trigger] blocks[i]).block_type == BlockType::HardPause
                && (#[trigger] blocks[j]).block_type == BlockType::HardPause
                ==> span_len(
                    minute_of(blocks[i].start),
                    minute_of(blocks[i].end),
                    minute_of(blocks[j].start),
                    minute_of(blocks[j].end),
                ) == 0,
    ensures
        hard_minutes_in(a, b, blocks) <= b - a,
    decreases blocks.len(),
{
    if blocks.len() > 0 {
        let n = blocks.len() - 1;
        let rest = blocks.drop_last();
        let blk = blocks.last();
        assert(blk == blocks[n]);
        assert forall|i: int, j: int|
            0 <= i < rest.len() && 0 <= j < rest.len() && i != j
                && (#[trigger] rest[i]).block_type == BlockType::HardPause
                && (#[trigger] rest[j]).block_type == BlockType::HardPause
                implies span_len(
                    minute_of(rest[i].start),
                    minute_of(rest[i].end),
                    minute_of(rest[j].start),
                    minute_of(rest[j].end),
                ) == 0 by {
            assert(rest[i] == blocks[i] && rest[j] == blocks[j]);
        }
        let c = minute_of(blk.start);
        let d = minute_of(blk.end);
        if blk.block_type != BlockType::HardPause || span_len(a, b, c, d) == 0 {
            lemma_disjoint_hard_minutes_bound(a, b, rest);
        } else {
            let c1 = if a < c { c } else { a };
            let d1 = if b < d { b } else { d };
            assert(a <= c1 < d1 <= b);
            lemma_hard_minutes_split(a, c1, b, rest);
            lemma_hard_minutes_split(c1, d1, b, rest);
            assert forall|j: int|
                0 <= j < rest.len() && (#[trigger] rest[j]).block_type == BlockType::HardPause
                    implies span_len(c1, d1, minute_of(rest[j].start), minute_of(rest[j].end)) == 0 by {
                assert(rest[j] == blocks[j]);
                assert(blocks[j] == rest[j] && blocks[n] == blk);
                assert(span_len(c, d, minute_of(blocks[j].start), minute_of(blocks[j].end)) == 0);
            }
            lemma_hard_minutes_zero(c1, d1, rest);
            lemma_disjoint_hard_minutes_bound(a, c1, rest);
            lemma_disjoint_hard_minutes_bound(d1, b, rest);
        }
    }
}

/// With every time on whole minutes and no two hard pauses sharing time, the worked minutes
/// grow with `now`, and by at most the minutes that pass.
pub proof fn lemma_worked_grows_with_now(
    start: TimeOfDay,
    now1: TimeOfDay,
    now2: TimeOfDay,
    blocks: Seq<TimeBlock>,
)
    requires
        whole_minute(start),
        whole_minute(now1),
        whole_minute(now2),
        !now1.precedes(start),
        !now2.precedes(now1),
        blocks_on_whole_minutes(blocks),
        hard_pauses_disjoint(blocks),
    ensures
        worked_minutes(start, now1, blocks) <= worked_minutes(start, now2, blocks),
        worked_minutes(start, now2, blocks) <= worked_minutes(start, now1, blocks) + minutes_between(
            now1,
            now2,
        ),
{
    let ms = minute_of(start);
    let m1 = minute_of(now1);
    let m2 = minute_of(now2);
    lemma_whole_minutes(start, now1);
    lemma_whole_minutes(now1, start);
    lemma_whole_minutes(now1, now2);
    lemma_whole_minutes(now2, now1);
    lemma_whole_minutes(start, now2);
    assert(ms <= m1 <= m2);
    lemma_hard_pause_minutes_in_minutes(start, now1, blocks);
    lemma_hard_pause_minutes_in_minutes(start, now2, blocks);
    assert forall|i: int, j: int|
        0 <= i < blocks.len() && 0 <= j < blocks.len() && i != j
            && (#[trigger] blocks[i]).block_type == BlockType::HardPause
            && (#[trigger] blocks[j]).block_type == BlockType::HardPause
            implies span_len(
                minute_of(blocks[i].start),
                minute_of(blocks[i].end),
                minute_of(blocks[j].start),
                minute_of(blocks[j].end),
            ) == 0 by {
        assert(blocks_disjoint(blocks[i], blocks[j]));
        let bi = blocks[i];
        let bj = blocks[j];
        lemma_whole_minutes(bi.start, bj.start);
        lemma_whole_minutes(bj.start, bi.start);
        lemma_whole_minutes(bi.end, bj.end);
        lemma_whole_minutes(bj.end, bi.end);
        lemma_whole_minutes(later_of(bi.start, bj.start), earlier_of(bi.end, bj.end));
    }
    lemma_hard_minutes_split(ms, m1, m2, blocks);
    lemma_hard_minutes_split(m1, m1, m2, blocks);
    lemma_disjoint_hard_minutes_bound(ms, m1, blocks);
    lemma_disjoint_hard_minutes_bound(m1, m2, blocks);
}

/// The unit that gathers the day's arithmetic.
pub struct WorkCalculator;

impl WorkCalculator {
    /// Minutes worked between `start` and `now`: elapsed minutes less the overlap of every hard
    /// pause, floored at zero.
    pub fn calculate_worked_minutes(start: TimeOfDay, now: TimeOfDay, schedule: &Schedule) -> (w: i64)
        requires
            start.wf(),
            now.wf(),
            schedule.wf(),
        ensures
            w == worked_minutes(start, now, schedule.blocks@),
            0 <= w <= 1440,
    {
        let total = chrono_minutes_between(start, now);
        proof {
            lemma_minutes_between_bounds(start, now);
        }
        let mut worked: i128 = total as i128;
        let n = schedule.blocks.len();
        let mut i: usize = 0;
        while i < n
            invariant
                n == schedule.blocks@.len(),
                0 <= i <= n,
                start.wf(),
                now.wf(),
                schedule.wf(),
                worked == minutes_between(start, now) - hard_pause_minutes(
                    start,
                    now,
                    schedule.blocks@.take(i as int),
                ),
                worked <= 1440,
                worked >= -1440 - 1440 * i,
            decreases n - i,
        {
            let block = &schedule.blocks[i];
            proof {
                assert(schedule.blocks@.take(i + 1).drop_last() =~= schedule.blocks@.take(i as int));
                assert(block.start.wf() && block.end.wf());
            }
            if block.block_type == BlockType::HardPause {
                let overlap = Self::calculate_overlap(start, now, block.start, block.end);
                worked = worked - overlap as i128;
            }
            i += 1;
        }
        proof {
            assert(schedule.blocks@.take(n as int) =~= schedule.blocks@);
        }
        if worked > 0 {
            worked as i64
        } else {
            0
        }
    }

    /// Calculates the minutes worked and the minutes still missing to the daily target.
    /// Returns `(worked_minutes, remaining_minutes)`.
    pub fn calculate_worked_and_remaining(
        start: TimeOfDay,
        now: TimeOfDay,
        schedule: &Schedule,
        daily_target_minutes: i64,
    ) -> (res: (i64, i64))
        requires
            start.wf(),
            now.wf(),
            schedule.wf(),
        ensures
            res.0 == worked_minutes(start, now, schedule.blocks@),
            res.1 == remaining_minutes(res.0 as int, daily_target_minutes as int),
    {
        let worked = Self::calculate_worked_minutes(start, now, schedule);
        let remaining = if daily_target_minutes > worked {
            daily_target_minutes - worked
        } else {
            0
        };
        (worked, remaining)
    }

    fn calculate_overlap(
        start: TimeOfDay,
        end: TimeOfDay,
        block_start: TimeOfDay,
        block_end: TimeOfDay,
    ) -> (m: i64)
        requires
            start.wf(),
            end.wf(),
            block_start.wf(),
            block_end.wf(),
        ensures
            m == overlap_minutes(start, end, block_start, block_end),
            0 <= m <= 1440,
    {
        proof {
            lemma_overlap_bounds(start, end, block_start, block_end);
        }
        let effective_start = if start.is_before(&block_start) { block_start } else { start };
        let effective_end = if block_end.is_before(&end) { block_end } else { end };
        if effective_start.is_before(&effective_end) {
            chrono_minutes_between(effective_start, effective_end)
        } else {
            0
        }
    }
}

} // verus!
