//! A fixed-capacity double-ended ring buffer backed by an array of slots.
//!
//! The window of live elements is tracked by two cursors `l` and `r` with
//! `l <= r <= l + N`: element `i` of the buffer lives in slot `l + i`,
//! wrapped into `[0, N)`. Pushing on a full buffer hands the element back in
//! a [`FullError`] instead of growing.

use vstd::prelude::*;

verus! {

/// The error of a push onto a full buffer; it carries the rejected element
/// so the caller can keep it.
#[derive(Copy, Clone, PartialEq, Eq, Debug)]
pub struct FullError<T> {
    element: T,
}

impl<T> FullError<T> {
    pub closed spec fn spec_element(&self) -> T {
        self.element
    }

    pub fn new(element: T) -> (e: FullError<T>)
        ensures
            e.spec_element() == element,
    {
        FullError { element }
    }

    pub fn element(&self) -> (r: &T)
        ensures
            *r == self.spec_element(),
    {
        &self.element
    }

    pub fn take(self) -> (r: T)
        ensures
            r == self.spec_element(),
    {
        self.element
    }
}

/// A logical position wrapped into the slot array.
pub open spec fn spec_phys(i: int, n: int) -> int {
    if i < n {
        i
    } else {
        i - n
    }
}

pub struct ArrayRingBuffer<T, const N: usize> {
    buffer: Vec<Option<T>>,
    l: usize,
    r: usize,
}

impl<T, const N: usize> View for ArrayRingBuffer<T, N> {
    type V = Seq<T>;

    closed spec fn view(&self) -> Seq<T> {
        Seq::new((self.r - self.l) as nat, |i: int| self.buffer@[spec_phys(self.l + i, N as int)]->0)
    }
}

impl<T, const N: usize> ArrayRingBuffer<T, N> {
    /// The cursors stay in their window, every live position holds an
    /// element, and the capacity is small enough that the cursor arithmetic
    /// cannot wrap.
    pub closed spec fn wf(&self) -> bool {
        &&& self.buffer@.len() == N
        &&& self.l <= self.r <= self.l + N
        &&& (N == 0 ==> self.l == 0)
        &&& (N > 0 ==> self.l < N)
        &&& N <= usize::MAX / 2
        &&& forall|i: int|
            self.l <= i < self.r ==> (#[trigger] self.buffer@[spec_phys(i, N as int)]) is Some
    }

    pub fn new() -> (b: ArrayRingBuffer<T, N>)
        requires
            N <= usize::MAX / 2,
        ensures
            b.wf(),
            b@ == Seq::<T>::empty(),
    {
        let mut buffer: Vec<Option<T>> = Vec::new();
        let mut i: usize = 0;
        while i < N
            invariant
                i <= N,
                buffer@.len() == i,
                forall|j: int| 0 <= j < i ==> buffer@[j] is None,
            decreases N - i,
        {
            buffer.push(None);
            i = i + 1;
        }
        let b = ArrayRingBuffer { buffer, l: 0, r: 0 };
        proof {
            assert(b@ =~= Seq::<T>::empty());
        }
        b
    }

    pub fn len(&self) -> (n: usize)
        requires
            self.wf(),
        ensures
            n == self@.len(),
    {
        self.r - self.l
    }

    pub fn is_empty(&self) -> (e: bool)
        requires
            self.wf(),
        ensures
            e == (self@.len() == 0),
    {
        self.l == self.r
    }

    pub fn capacity(&self) -> (c: usize)
        ensures
            c == N,
    {
        N
    }

    pub fn is_full(&self) -> (f: bool)
        requires
            self.wf(),
        ensures
            f == (self@.len() == N),
    {
        self.capacity() == self.len()
    }

    pub fn remaining_capacity(&self) -> (c: usize)
        requires
            self.wf(),
        ensures
            c == N - self@.len(),
    {
        self.capacity() - self.len()
    }

    /// Forgets all elements; they are dropped with the buffer.
    pub fn clear(&mut self)
        requires
            old(self).wf(),
        ensures
            final(self).wf(),
            final(self)@ == Seq::<T>::empty(),
    {
        self.l = 0;
        self.r = 0;
        proof {
            assert(self@ =~= Seq::<T>::empty());
        }
    }

    /// Appends at the back; fails with the element when the buffer is full,
    /// and exactly then.
    pub fn try_push_back(&mut self, element: T) -> (res: Result<(), FullError<T>>)
        requires
            old(self).wf(),
        ensures
            final(self).wf(),
            old(self)@.len() == N ==> (res matches Err(e) && e.spec_element() == element && final(self)@
                == old(self)@),
            old(self)@.len() < N ==> res is Ok && final(self)@ == old(self)@.push(element),
    {
        let r = if self.r >= N {
            let r = self.r - N;
            if self.l == r {
                return Err(FullError::new(element));
            }
            r
        } else {
            self.r
        };
        proof {
            assert(r == spec_phys(old(self).r as int, N as int));
        }
        self.buffer[r] = Some(element);
        self.r = self.r + 1;
        proof {
            assert forall|i: int|
                self.l <= i < self.r implies (#[trigger] self.buffer@[spec_phys(i, N as int)])
                is Some by {
                if i < old(self).r {
                    assert(old(self).buffer@[spec_phys(i, N as int)] is Some);
                }
            }
            assert forall|i: int| 0 <= i < self@.len() implies self@[i] == old(self)@.push(
                element,
            )[i] by {
                if i < old(self)@.len() {
                    assert(old(self).buffer@[spec_phys(old(self).l + i, N as int)] is Some);
                }
            }
            assert(self@ =~= old(self)@.push(element));
        }
        Ok(())
    }

    /// Appends at the back; the buffer must not be full.
    pub fn push_back(&mut self, element: T)
        requires
            old(self).wf(),
            old(self)@.len() < N,
        ensures
            final(self).wf(),
            final(self)@ == old(self)@.push(element),
    {
        let res = self.try_push_back(element);
        proof {
            assert(res is Ok);
        }
    }

    /// Prepends at the front; fails with the element when the buffer is
    /// full, and exactly then.
    pub fn try_push_front(&mut self, element: T) -> (res: Result<(), FullError<T>>)
        requires
            old(self).wf(),
        ensures
            final(self).wf(),
            old(self)@.len() == N ==> (res matches Err(e) && e.spec_element() == element && final(self)@
                == old(self)@),
            old(self)@.len() < N ==> res is Ok && final(self)@ == seq![element] + old(self)@,
    {
        if self.is_full() {
            return Err(FullError::new(element));
        }
        if self.l == 0 {
            self.l = N - 1;
            self.r = self.r + N;
        } else {
            self.l = self.l - 1;
        }
        self.buffer[self.l] = Some(element);
        proof {
            assert forall|i: int|
                self.l <= i < self.r implies (#[trigger] self.buffer@[spec_phys(i, N as int)])
                is Some by {
                if i > self.l {
                    let i0 = if old(self).l == 0 {
                        i - N
                    } else {
                        i
                    };
                    assert(old(self).buffer@[spec_phys(i0, N as int)] is Some);
                    assert(spec_phys(i0, N as int) == spec_phys(i, N as int));
                }
            }
            assert forall|i: int| 0 <= i < self@.len() implies self@[i] == (seq![element] + old(
                self,
            )@)[i] by {
                if i > 0 {
                    let i0 = old(self).l + i - 1;
                    assert(old(self).buffer@[spec_phys(i0, N as int)] is Some);
                    assert(spec_phys(self.l + i, N as int) == spec_phys(i0, N as int));
                }
            }
            assert(self@ =~= seq![element] + old(self)@);
        }
        Ok(())
    }

    /// Prepends at the front; the buffer must not be full.
    pub fn push_front(&mut self, element: T)
        requires
            old(self).wf(),
            old(self)@.len() < N,
        ensures
            final(self).wf(),
            final(self)@ == seq![element] + old(self)@,
    {
        let res = self.try_push_front(element);
        proof {
            assert(res is Ok);
        }
    }

    /// Removes and returns the front element; `None` exactly when empty.
    pub fn pop_front(&mut self) -> (res: Option<T>)
        requires
            old(self).wf(),
        ensures
            final(self).wf(),
            old(self)@.len() == 0 ==> res is None && final(self)@ == old(self)@,
            old(self)@.len() > 0 ==> res == Some(old(self)@[0]) && final(self)@ == old(
                self,
            )@.drop_first(),
    {
        if self.is_empty() {
            return None;
        }
        proof {
            assert(self.buffer@[spec_phys(self.l as int, N as int)] is Some);
        }
        let taken = self.buffer[self.l].take();
        self.l = self.l + 1;
        if self.l == N {
            self.l = 0;
            self.r = self.r - N;
        }
        proof {
            let wrapped = old(self).l + 1 == N;
            assert forall|i: int|
                self.l <= i < self.r implies (#[trigger] self.buffer@[spec_phys(i, N as int)])
                is Some by {
                let i0 = if wrapped {
                    i + N
                } else {
                    i
                };
                assert(old(self).buffer@[spec_phys(i0, N as int)] is Some);
                assert(spec_phys(i0, N as int) == spec_phys(i, N as int));
                assert(spec_phys(i0, N as int) != spec_phys(old(self).l as int, N as int));
            }
            assert forall|i: int| 0 <= i < self@.len() implies self@[i] == old(
                self,
            )@.drop_first()[i] by {
                let i0 = old(self).l + 1 + i;
                assert(old(self).buffer@[spec_phys(i0, N as int)] is Some);
                assert(spec_phys(self.l + i, N as int) == spec_phys(i0, N as int));
                assert(spec_phys(i0, N as int) != spec_phys(old(self).l as int, N as int));
            }
            assert(self@ =~= old(self)@.drop_first());
        }
        Some(taken.unwrap())
    }

    /// Removes and returns the back element; `None` exactly when empty.
    pub fn pop_back(&mut self) -> (res: Option<T>)
        requires
            old(self).wf(),
        ensures
            final(self).wf(),
            old(self)@.len() == 0 ==> res is None && final(self)@ == old(self)@,
            old(self)@.len() > 0 ==> res == Some(old(self)@.last()) && final(self)@ == old(
                self,
            )@.drop_last(),
    {
        if self.is_empty() {
            return None;
        }
        self.r = self.r - 1;
        let r = if self.r < N {
            self.r
        } else {
            self.r - N
        };
        proof {
            assert(r == spec_phys(self.r as int, N as int));
            assert(self.buffer@[spec_phys(self.r as int, N as int)] is Some);
        }
        let taken = self.buffer[r].take();
        proof {
            assert forall|i: int|
                self.l <= i < self.r implies (#[trigger] self.buffer@[spec_phys(i, N as int)])
                is Some by {
                assert(old(self).buffer@[spec_phys(i, N as int)] is Some);
                assert(spec_phys(i, N as int) != spec_phys(self.r as int, N as int));
            }
            assert forall|i: int| 0 <= i < self@.len() implies self@[i] == old(
                self,
            )@.drop_last()[i] by {
                assert(old(self).buffer@[spec_phys(old(self).l + i, N as int)] is Some);
                assert(spec_phys(self.l + i, N as int) != spec_phys(self.r as int, N as int));
            }
            assert(self@ =~= old(self)@.drop_last());
        }
        Some(taken.unwrap())
    }
}

} // verus!
