//! Physical frame accounting: a bitmap over every 4 KiB frame of the
//! supported physical address range, with first-fit allocation of
//! contiguous runs. Frames start out allocated; boot code frees the ranges
//! the firmware's memory map reports as usable.

use vstd::prelude::*;

use crate::bitset::BitSet;

verus! {

pub const FRAME_SIZE: usize = 4096;

/// Frames covering 128 GiB of physical memory in 4 KiB steps.
pub const NUM_FRAMES: usize = 32 * 1024 * 1024;

/// A contiguous run of frames, by frame index: `[start, end)`.
#[derive(Copy, Clone, PartialEq, Eq, Hash, Debug, Structural)]
pub struct FrameRange {
    pub start: usize,
    pub end: usize,
}

/// The frame bitmap: a set bit means the frame is available.
pub struct BitmapMemoryManager {
    bitset: BitSet<NUM_FRAMES>,
}

/// Every frame of the run starting at `s` is available.
pub open spec fn spec_run_available(m: BitmapMemoryManager, s: int, n: int) -> bool {
    forall|i: int| 0 <= i < n ==> #[trigger] m.spec_available(s + i)
}

impl BitmapMemoryManager {
    pub closed spec fn wf(&self) -> bool {
        self.bitset.wf()
    }

    /// Whether frame `i` is available.
    pub closed spec fn spec_available(&self, i: int) -> bool {
        self.bitset.spec_contains(i)
    }

    /// A manager with every frame allocated.
    pub fn all_allocated() -> (m: BitmapMemoryManager)
        ensures
            m.wf(),
            forall|i: int| 0 <= i < NUM_FRAMES ==> !m.spec_available(i),
    {
        BitmapMemoryManager { bitset: BitSet::new() }
    }

    /// Marks a run of frames available.
    pub fn free(&mut self, range: FrameRange)
        requires
            old(self).wf(),
            range.start <= range.end,
            range.end <= NUM_FRAMES,
        ensures
            final(self).wf(),
            forall|j: int|
                0 <= j < NUM_FRAMES ==> (final(self).spec_available(j) <==> (old(
                    self,
                ).spec_available(j) || range.start <= j < range.end)),
    {
        self.bitset.insert_range(range.start, range.end);
    }

    /// Claims a contiguous run of `num_frames` available frames, marking
    /// them allocated; fails only when no such run starts below
    /// `NUM_FRAMES - num_frames`.
    pub fn allocate(&mut self, num_frames: usize) -> (r: Option<FrameRange>)
        requires
            old(self).wf(),
            num_frames <= NUM_FRAMES,
        ensures
            final(self).wf(),
            r matches Some(g) ==> {
                &&& g.start + num_frames == g.end
                &&& g.end <= NUM_FRAMES
                &&& spec_run_available(*old(self), g.start as int, num_frames as int)
                &&& forall|j: int|
                    0 <= j < NUM_FRAMES ==> (final(self).spec_available(j) <==> (old(
                        self,
                    ).spec_available(j) && !(g.start <= j < g.end)))
            },
            r is None ==> *final(self) == *old(self) && forall|s: int|
                0 <= s < NUM_FRAMES - num_frames ==> !spec_run_available(
                    *old(self),
                    s,
                    num_frames as int,
                ),
    {
        let mut s: usize = 0;
        while s < NUM_FRAMES - num_frames
            invariant
                old(self).wf(),
                *self == *old(self),
                num_frames <= NUM_FRAMES,
                s <= NUM_FRAMES,
                forall|s2: int| 0 <= s2 < s ==> !spec_run_available(*old(self), s2, num_frames as int),
            decreases NUM_FRAMES - s,
        {
            let mut blocked: Option<usize> = None;
            let mut i: usize = 0;
            while i < num_frames
                invariant
                    old(self).wf(),
                    *self == *old(self),
                    num_frames <= NUM_FRAMES,
                    s < NUM_FRAMES - num_frames,
                    i <= num_frames,
                    blocked is None ==> forall|k: int|
                        0 <= k < i ==> #[trigger] old(self).spec_available(s + k),
                    blocked matches Some(b) ==> b < num_frames && !old(self).spec_available(
                        s + b,
                    ),
                decreases num_frames - i,
            {
                if !self.bitset.contains(s + i) {
                    blocked = Some(i);
                    i = num_frames;
                } else {
                    i = i + 1;
                }
            }
            match blocked {
                None => {
                    self.bitset.remove_range(s, s + num_frames);
                    return Some(FrameRange { start: s, end: s + num_frames });
                },
                Some(b) => {
                    proof {
                        assert forall|s2: int| 0 <= s2 < s + b + 1 implies !spec_run_available(
                            *old(self),
                            s2,
                            num_frames as int,
                        ) by {
                            if s <= s2 {
                                let i = s + b - s2;
                                assert(0 <= i < num_frames);
                                assert(!old(self).spec_available(s2 + i));
                            }
                        }
                    }
                    s = s + b + 1;
                },
            }
        }
        None
    }
}

} // verus!
