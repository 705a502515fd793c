//! A fixed-size set of small integers, stored one bit per member in an
//! array of 64-bit blocks, with constant-time membership and block-wise
//! range insertion and removal.

use vstd::prelude::*;

verus! {

pub const BLOCK_BITS: usize = 64;

/// One spare block beyond the blocks the members need.
pub open spec fn spec_block_count(n: int) -> int {
    1 + n / 64 + if n % 64 == 0 {
        0int
    } else {
        1int
    }
}

/// Whether bit `k` of block `b` is set.
pub open spec fn spec_bit(b: u64, k: u64) -> bool
    recommends
        k < 64,
{
    b & (1u64 << k) != 0
}

pub struct BitSet<const N: usize> {
    blocks: Vec<u64>,
}

impl<const N: usize> BitSet<N> {
    pub closed spec fn spec_blocks(&self) -> Seq<u64> {
        self.blocks@
    }

    pub open spec fn wf(&self) -> bool {
        self.spec_blocks().len() == spec_block_count(N as int)
    }

    /// Whether `i` is a member of the set.
    pub open spec fn spec_contains(&self, i: int) -> bool
        recommends
            0 <= i < N,
    {
        spec_bit(self.spec_blocks()[i / 64], (i % 64) as u64)
    }

    /// The empty set.
    pub fn new() -> (s: BitSet<N>)
        ensures
            s.wf(),
            forall|i: int| 0 <= i < N ==> !s.spec_contains(i),
    {
        let num_blocks = 1 + N / BLOCK_BITS + if N % BLOCK_BITS == 0 {
            0
        } else {
            1
        };
        let mut blocks: Vec<u64> = Vec::new();
        let mut i: usize = 0;
        while i < num_blocks
            invariant
                i <= num_blocks,
                blocks@.len() == i,
                forall|j: int| 0 <= j < i ==> blocks@[j] == 0,
            decreases num_blocks - i,
        {
            blocks.push(0);
            i = i + 1;
        }
        let s = BitSet { blocks };
        proof {
            assert forall|i: int| 0 <= i < N implies !s.spec_contains(i) by {
                vstd::arithmetic::div_mod::lemma_mod_bound(i, 64);
                let k = (i % 64) as u64;
                assert(0u64 & (1u64 << k) == 0) by (bit_vector);
            }
        }
        s
    }

    /// Whether `i` is a member of the set.
    pub fn contains(&mut self, i: usize) -> (r: bool)
        requires
            old(self).wf(),
            i < N,
        ensures
            *final(self) == *old(self),
            r == old(self).spec_contains(i as int),
    {
        let u = i / BLOCK_BITS;
        let l = i % BLOCK_BITS;
        proof {
            lemma_block_index::<N>(i as int);
        }
        self.blocks[u] & (1u64 << (l as u64)) != 0
    }

    /// Adds `i` to the set; every other membership is unchanged.
    pub fn insert(&mut self, i: usize)
        requires
            old(self).wf(),
            i < N,
        ensures
            final(self).wf(),
            forall|j: int|
                0 <= j < N ==> (final(self).spec_contains(j) <==> (old(self).spec_contains(j) || j
                    == i)),
    {
        let u = i / BLOCK_BITS;
        let l = i % BLOCK_BITS;
        proof {
            lemma_block_index::<N>(i as int);
        }
        self.blocks[u] = self.blocks[u] | (1u64 << (l as u64));
        proof {
            let b0 = old(self).spec_blocks()[u as int];
            assert forall|j: int|
                0 <= j < N implies (self.spec_contains(j) <==> (old(self).spec_contains(j) || j
                == i)) by {
                lemma_block_index::<N>(j);
                let y = (j % 64) as u64;
                let x = (l as u64);
                if j / 64 == u {
                    assert(((b0 | (1u64 << x)) & (1u64 << y) != 0) <==> ((b0 & (1u64 << y) != 0)
                        || x == y)) by (bit_vector)
                        requires
                            x < 64,
                            y < 64,
                    ;
                }
            }
        }
    }

    /// Removes `i` from the set; every other membership is unchanged.
    pub fn remove(&mut self, i: usize)
        requires
            old(self).wf(),
            i < N,
        ensures
            final(self).wf(),
            forall|j: int|
                0 <= j < N ==> (final(self).spec_contains(j) <==> (old(self).spec_contains(j) && j
                    != i)),
    {
        let u = i / BLOCK_BITS;
        let l = i % BLOCK_BITS;
        proof {
            lemma_block_index::<N>(i as int);
        }
        self.blocks[u] = self.blocks[u] & !(1u64 << (l as u64));
        proof {
            let b0 = old(self).spec_blocks()[u as int];
            assert forall|j: int|
                0 <= j < N implies (self.spec_contains(j) <==> (old(self).spec_contains(j) && j
                != i)) by {
                lemma_block_index::<N>(j);
                let y = (j % 64) as u64;
                let x = (l as u64);
                if j / 64 == u {
                    assert(((b0 & !(1u64 << x)) & (1u64 << y) != 0) <==> ((b0 & (1u64 << y) != 0)
                        && x != y)) by (bit_vector)
                        requires
                            x < 64,
                            y < 64,
                    ;
                }
            }
        }
    }

    /// Adds every member of `[start, end)` to the set; memberships outside
    /// the range are unchanged.
    pub fn insert_range(&mut self, start: usize, end: usize)
        requires
            old(self).wf(),
            start <= end,
            end <= N,
        ensures
            final(self).wf(),
            forall|j: int|
                0 <= j < N ==> (final(self).spec_contains(j) <==> (old(self).spec_contains(j)
                    || start <= j < end)),
    {
        let us = start / BLOCK_BITS;
        let ls = start % BLOCK_BITS;
        let ut = end / BLOCK_BITS;
        let lt = end % BLOCK_BITS;
        proof {
            lemma_range_block_index::<N>(start as int, end as int);
        }
        if us == ut {
            self.blocks[us] = self.blocks[us] | ((u64::MAX << (ls as u64)) & !(u64::MAX << (
            lt as u64)));
        } else {
            self.blocks[us] = self.blocks[us] | (u64::MAX << (ls as u64));
            self.blocks[ut] = self.blocks[ut] | !(u64::MAX << (lt as u64));
            let mut k = us + 1;
            while k < ut
                invariant
                    us < ut <= self.blocks@.len(),
                    us + 1 <= k <= ut,
                    self.blocks@.len() == old(self).spec_blocks().len(),
                    forall|b: int|
                        0 <= b < self.blocks@.len() && !(us + 1 <= b < k) ==> #[trigger] self.blocks@[b] == blocks_after_edges::<N>(*old(self), us as int, ls as u64, ut as int, lt as u64)[b],
                    forall|b: int| us + 1 <= b < k ==> #[trigger] self.blocks@[b] == u64::MAX,
                decreases ut - k,
            {
                self.blocks[k] = u64::MAX;
                k = k + 1;
            }
        }
        proof {
            lemma_insert_range_effect::<N>(*old(self), *self, start as int, end as int);
        }
    }

    /// Removes every member of `[start, end)` from the set; memberships
    /// outside the range are unchanged.
    pub fn remove_range(&mut self, start: usize, end: usize)
        requires
            old(self).wf(),
            start <= end,
            end <= N,
        ensures
            final(self).wf(),
            forall|j: int|
                0 <= j < N ==> (final(self).spec_contains(j) <==> (old(self).spec_contains(j)
                    && !(start <= j < end))),
    {
        let us = start / BLOCK_BITS;
        let ls = start % BLOCK_BITS;
        let ut = end / BLOCK_BITS;
        let lt = end % BLOCK_BITS;
        proof {
            lemma_range_block_index::<N>(start as int, end as int);
        }
        if us == ut {
            self.blocks[us] = self.blocks[us] & ((!(u64::MAX << (ls as u64))) | (u64::MAX << (
            lt as u64)));
        } else {
            self.blocks[us] = self.blocks[us] & !(u64::MAX << (ls as u64));
            self.blocks[ut] = self.blocks[ut] & (u64::MAX << (lt as u64));
            let mut k = us + 1;
            while k < ut
                invariant
                    us < ut <= self.blocks@.len(),
                    us + 1 <= k <= ut,
                    self.blocks@.len() == old(self).spec_blocks().len(),
                    forall|b: int|
                        0 <= b < self.blocks@.len() && !(us + 1 <= b < k) ==> #[trigger] self.blocks@[b] == blocks_after_clear_edges::<N>(*old(self), us as int, ls as u64, ut as int, lt as u64)[b],
                    forall|b: int| us + 1 <= b < k ==> #[trigger] self.blocks@[b] == 0,
                decreases ut - k,
            {
                self.blocks[k] = 0;
                k = k + 1;
            }
        }
        proof {
            lemma_remove_range_effect::<N>(*old(self), *self, start as int, end as int);
        }
    }
}

/// Any member index splits into a block index inside the array and a bit
/// index inside the block.
proof fn lemma_block_index<const N: usize>(i: int)
    requires
        0 <= i < N,
    ensures
        0 <= i / 64 < spec_block_count(N as int),
        0 <= i % 64 < 64,
        i == 64 * (i / 64) + i % 64,
{
    vstd::arithmetic::div_mod::lemma_mod_bound(i, 64);
    vstd::arithmetic::div_mod::lemma_fundamental_div_mod(i, 64);
    vstd::arithmetic::div_mod::lemma_div_is_ordered(i, N as int, 64);
}

proof fn lemma_range_block_index<const N: usize>(s: int, t: int)
    requires
        0 <= s <= t <= N,
    ensures
        0 <= s / 64 <= t / 64 < spec_block_count(N as int),
        0 <= s % 64 < 64,
        0 <= t % 64 < 64,
        s == 64 * (s / 64) + s % 64,
        t == 64 * (t / 64) + t % 64,
        s / 64 == t / 64 ==> s % 64 <= t % 64,
{
    vstd::arithmetic::div_mod::lemma_mod_bound(s, 64);
    vstd::arithmetic::div_mod::lemma_mod_bound(t, 64);
    vstd::arithmetic::div_mod::lemma_fundamental_div_mod(s, 64);
    vstd::arithmetic::div_mod::lemma_fundamental_div_mod(t, 64);
    vstd::arithmetic::div_mod::lemma_div_is_ordered(s, t, 64);
    vstd::arithmetic::div_mod::lemma_div_is_ordered(t, N as int, 64);
}

/// The block array after the two edge blocks of a range insertion have been
/// updated but before the middle blocks are filled.
spec fn blocks_after_edges<const N: usize>(
    s0: BitSet<N>,
    us: int,
    ls: u64,
    ut: int,
    lt: u64,
) -> Seq<u64> {
    s0.spec_blocks().update(us, s0.spec_blocks()[us] | (u64::MAX << ls)).update(
        ut,
        s0.spec_blocks()[ut] | !(u64::MAX << lt),
    )
}

/// The block array after the two edge blocks of a range removal have been
/// updated but before the middle blocks are cleared.
spec fn blocks_after_clear_edges<const N: usize>(
    s0: BitSet<N>,
    us: int,
    ls: u64,
    ut: int,
    lt: u64,
) -> Seq<u64> {
    s0.spec_blocks().update(us, s0.spec_blocks()[us] & !(u64::MAX << ls)).update(
        ut,
        s0.spec_blocks()[ut] & (u64::MAX << lt),
    )
}

proof fn lemma_insert_range_effect<const N: usize>(s0: BitSet<N>, s1: BitSet<N>, start: int, t: int)
    requires
        s0.wf(),
        0 <= start <= t <= N,
        s1.spec_blocks().len() == s0.spec_blocks().len(),
        ({
            let us = start / 64;
            let ls = (start % 64) as u64;
            let ut = t / 64;
            let lt = (t % 64) as u64;
            if us == ut {
                s1.spec_blocks() =~= s0.spec_blocks().update(
                    us,
                    s0.spec_blocks()[us] | ((u64::MAX << ls) & !(u64::MAX << lt)),
                )
            } else {
                forall|b: int|
                    0 <= b < s1.spec_blocks().len() ==> #[trigger] s1.spec_blocks()[b] == (if us + 1
                        <= b < ut {
                        u64::MAX
                    } else {
                        blocks_after_edges::<N>(s0, us, ls, ut, lt)[b]
                    })
            }
        }),
    ensures
        forall|j: int|
            0 <= j < N ==> (s1.spec_contains(j) <==> (s0.spec_contains(j) || start <= j < t)),
{
    let us = start / 64;
    let ls = (start % 64) as u64;
    let ut = t / 64;
    let lt = (t % 64) as u64;
    lemma_range_block_index::<N>(start, t);
    assert forall|j: int|
        0 <= j < N implies (s1.spec_contains(j) <==> (s0.spec_contains(j) || start <= j < t)) by {
        lemma_block_index::<N>(j);
        let jb = j / 64;
        let y = (j % 64) as u64;
        let b0 = s0.spec_blocks()[jb];
        if us == ut {
            if jb == us {
                assert(((b0 | ((u64::MAX << ls) & !(u64::MAX << lt))) & (1u64 << y) != 0) <==> ((b0
                    & (1u64 << y) != 0) || (ls <= y < lt))) by (bit_vector)
                    requires
                        ls < 64,
                        lt < 64,
                        y < 64,
                        ls <= lt,
                ;
            }
        } else {
            if jb < us || jb > ut {
                assert(s1.spec_blocks()[jb] == b0);
            } else if jb == us {
                assert(s1.spec_blocks()[jb] == (b0 | (u64::MAX << ls)));
                assert(((b0 | (u64::MAX << ls)) & (1u64 << y) != 0) <==> ((b0 & (1u64 << y) != 0)
                    || ls <= y)) by (bit_vector)
                    requires
                        ls < 64,
                        y < 64,
                ;
            } else if jb == ut {
                assert(s1.spec_blocks()[jb] == (b0 | !(u64::MAX << lt)));
                assert(((b0 | !(u64::MAX << lt)) & (1u64 << y) != 0) <==> ((b0 & (1u64 << y) != 0)
                    || y < lt)) by (bit_vector)
                    requires
                        lt < 64,
                        y < 64,
                ;
            } else {
                assert(s1.spec_blocks()[jb] == u64::MAX);
                assert(u64::MAX & (1u64 << y) != 0) by (bit_vector)
                    requires
                        y < 64,
                ;
            }
        }
    }
}

proof fn lemma_remove_range_effect<const N: usize>(s0: BitSet<N>, s1: BitSet<N>, start: int, t: int)
    requires
        s0.wf(),
        0 <= start <= t <= N,
        s1.spec_blocks().len() == s0.spec_blocks().len(),
        ({
            let us = start / 64;
            let ls = (start % 64) as u64;
            let ut = t / 64;
            let lt = (t % 64) as u64;
            if us == ut {
                s1.spec_blocks() =~= s0.spec_blocks().update(
                    us,
                    s0.spec_blocks()[us] & ((!(u64::MAX << ls)) | (u64::MAX << lt)),
                )
            } else {
                forall|b: int|
                    0 <= b < s1.spec_blocks().len() ==> #[trigger] s1.spec_blocks()[b] == (if us + 1
                        <= b < ut {
                        0u64
                    } else {
                        blocks_after_clear_edges::<N>(s0, us, ls, ut, lt)[b]
                    })
            }
        }),
    ensures
        forall|j: int|
            0 <= j < N ==> (s1.spec_contains(j) <==> (s0.spec_contains(j) && !(start <= j < t))),
{
    let us = start / 64;
    let ls = (start % 64) as u64;
    let ut = t / 64;
    let lt = (t % 64) as u64;
    lemma_range_block_index::<N>(start, t);
    assert forall|j: int|
        0 <= j < N implies (s1.spec_contains(j) <==> (s0.spec_contains(j) && !(start <= j < t))) by {
        lemma_block_index::<N>(j);
        let jb = j / 64;
        let y = (j % 64) as u64;
        let b0 = s0.spec_blocks()[jb];
        if us == ut {
            if jb == us {
                assert(((b0 & ((!(u64::MAX << ls)) | (u64::MAX << lt))) & (1u64 << y) != 0) <==> ((
                b0 & (1u64 << y) != 0) && !(ls <= y < lt))) by (bit_vector)
                    requires
                        ls < 64,
                        lt < 64,
                        y < 64,
                        ls <= lt,
                ;
            }
        } else {
            if jb < us || jb > ut {
                assert(s1.spec_blocks()[jb] == b0);
            } else if jb == us {
                assert(s1.spec_blocks()[jb] == (b0 & !(u64::MAX << ls)));
                assert(((b0 & !(u64::MAX << ls)) & (1u64 << y) != 0) <==> ((b0 & (1u64 << y) != 0)
                    && y < ls)) by (bit_vector)
                    requires
                        ls < 64,
                        y < 64,
                ;
            } else if jb == ut {
                assert(s1.spec_blocks()[jb] == (b0 & (u64::MAX << lt)));
                assert(((b0 & (u64::MAX << lt)) & (1u64 << y) != 0) <==> ((b0 & (1u64 << y) != 0)
                    && lt <= y)) by (bit_vector)
                    requires
                        lt < 64,
                        y < 64,
                ;
            } else {
                assert(s1.spec_blocks()[jb] == 0u64);
                assert(0u64 & (1u64 << y) == 0) by (bit_vector);
            }
        }
    }
}

} // verus!
