use vstd::prelude::*;
use crate::core_logic::clock::TimeOfDay;

verus! {

/// What a block of the schedule means for the worker.
#[derive(Debug, Clone, Copy, PartialEq, Eq, Structural)]
pub enum BlockType {
    /// A real pause: its time does not count as work.
    HardPause,
    /// A light pause: its time counts as work, the worker is only reminded.
    SoftPause,
}

/// A labelled interval `[start, end)` of the day.
#[derive(Debug, Clone)]
pub struct TimeBlock {
    pub label: String,
    pub start: TimeOfDay,
    pub end: TimeOfDay,
    pub block_type: BlockType,
}

impl TimeBlock {
    /// `time` lies in `[start, end)`.
    pub open spec fn covers(self, time: TimeOfDay) -> bool {
        !time.precedes(self.start) && time.precedes(self.end)
    }

    pub fn contains(&self, time: TimeOfDay) -> (b: bool)
        ensures
            b == self.covers(time),
    {
        !time.is_before(&self.start) && time.is_before(&self.end)
    }
}

/// The index of the first block, from `i` on, that covers `now`.
pub open spec fn first_active_from(blocks: Seq<TimeBlock>, now: TimeOfDay, i: int) -> Option<int>
    decreases blocks.len() - i,
{
    if i < 0 || i >= blocks.len() {
        None
    } else if blocks[i].covers(now) {
        Some(i)
    } else {
        first_active_from(blocks, now, i + 1)
    }
}

/// The first block of the list that covers `now`, if any.
pub open spec fn active_block(blocks: Seq<TimeBlock>, now: TimeOfDay) -> Option<TimeBlock> {
    match first_active_from(blocks, now, 0) {
        Some(i) => Some(blocks[i]),
        None => None,
    }
}

/// A day's list of pauses.
#[derive(Debug, Clone)]
pub struct Schedule {
    pub blocks: Vec<TimeBlock>,
}

impl Schedule {
    /// Every block starts and ends at a valid time of day.
    pub open spec fn wf(self) -> bool {
        forall|i: int| 0 <= i < self.blocks@.len() ==> {
            &&& (#[trigger] self.blocks@[i]).start.wf()
            &&& self.blocks@[i].end.wf()
        }
    }

    /// The first block of the schedule that contains `now`.
    pub fn get_active_block(&self, now: TimeOfDay) -> (res: Option<&TimeBlock>)
        ensures
            match res {
                Some(b) => active_block(self.blocks@, now) == Some(*b),
                None => active_block(self.blocks@, now) is None,
            },
    {
        let mut i: usize = 0;
        while i < self.blocks.len()
            invariant
                0 <= i <= self.blocks@.len(),
                first_active_from(self.blocks@, now, 0) == first_active_from(self.blocks@, now, i as int),
            decreases self.blocks@.len() - i,
        {
            if self.blocks[i].contains(now) {
                return Some(&self.blocks[i]);
            }
            i += 1;
        }
        None
    }
}

/// The block that `get_active_block` finds is the first one that contains `now`; when it finds
/// none, no block contains `now`.
pub proof fn lemma_active_block_is_first(blocks: Seq<TimeBlock>, now: TimeOfDay)
    ensures
        match first_active_from(blocks, now, 0) {
            Some(i) => {
                &&& 0 <= i < blocks.len()
                &&& blocks[i].covers(now)
                &&& forall|j: int| 0 <= j < i ==> !(#[trigger] blocks[j]).covers(now)
            },
            None => forall|j: int| 0 <= j < blocks.len() ==> !(#[trigger] blocks[j]).covers(now),
        },
{
    lemma_first_active_from(blocks, now, 0);
}

proof fn lemma_first_active_from(blocks: Seq<TimeBlock>, now: TimeOfDay, k: int)
    requires
        0 <= k <= blocks.len(),
    ensures
        match first_active_from(blocks, now, k) {
            Some(i) => {
                &&& k <= i < blocks.len()
                &&& blocks[i].covers(now)
                &&& forall|j: int| k <= j < i ==> !(#[trigger] blocks[j]).covers(now)
            },
            None => forall|j: int| k <= j < blocks.len() ==> !(#[trigger] blocks[j]).covers(now),
        },
    decreases blocks.len() - k,
{
    if k < blocks.len() && !blocks[k].covers(now) {
        lemma_first_active_from(blocks, now, k + 1);
    }
}

} // verus!
