use vstd::prelude::*;

use crate::traits::{pop_outcome, push_outcome, Ringbuffer};

verus! {

/// A ring buffer over an array of `N` slots.
///
/// The `used` slots starting at `rpos`, going forward and wrapping past the
/// last slot to the first, hold the elements in the order they were pushed.
/// `wpos` is the slot just behind them. A slot outside that range holds no
/// element the buffer will hand out.
pub struct ArrayRingbuffer<T, const N: usize> {
    buffer: [Option<T>; N],
    rpos: usize,
    wpos: usize,
    used: usize,
}

/// The slot `k` places after slot `start`, wrapping at `n`, for
/// `start < n` and `k <= n`.
spec fn wrap(start: int, k: int, n: int) -> int {
    if start + k < n {
        start + k
    } else {
        start + k - n
    }
}

impl<T, const N: usize> ArrayRingbuffer<T, N> {
    /// The slot that holds the element `i` places behind the oldest one.
    spec fn slot(&self, i: int) -> int {
        wrap(self.rpos as int, i, N as int)
    }
}

impl<T: Copy, const N: usize> ArrayRingbuffer<T, N> {
    /// An empty buffer with room for `N` elements.
    pub fn new() -> (rb: Self)
        ensures
            rb.inv(),
            rb.items() == Seq::<T>::empty(),
            rb.capacity() == N,
    {
        ArrayRingbuffer { buffer: [None; N], rpos: 0, wpos: 0, used: 0 }
    }
}

impl<T: Copy, const N: usize> Ringbuffer for ArrayRingbuffer<T, N> {
    type Item = T;

    closed spec fn items(&self) -> Seq<T> {
        Seq::new(self.used as nat, |i: int| self.buffer@[self.slot(i)]->Some_0)
    }

    open spec fn capacity(&self) -> nat {
        N as nat
    }

    closed spec fn inv(&self) -> bool {
        &&& self.used <= N
        &&& N == 0 ==> self.rpos == 0 && self.wpos == 0
        &&& N > 0 ==> self.rpos < N && self.wpos < N
        &&& N > 0 ==> self.wpos == self.slot(self.used as int)
        &&& forall|i: int| 0 <= i < self.used ==> (#[trigger] self.buffer@[self.slot(i)]) is Some
    }

    proof fn lemma_within_capacity(&self) {
    }

    fn push(&mut self, val: T) -> (r: Result<(), T>) {
        if self.used >= N {
            return Err(val);
        }
        let ghost before = *self;
        self.buffer[self.wpos] = Some(val);
        self.used = self.used + 1;
        self.wpos = self.wpos + 1;
        if self.wpos >= N {
            self.wpos = 0;
        }
        assert forall|i: int| 0 <= i < self.used implies (#[trigger] self.buffer@[self.slot(
            i,
        )]) is Some by {
            if i < before.used {
                assert(before.buffer@[before.slot(i)] is Some);
            }
        }
        assert(self.items() =~= before.items().push(val));
        Ok(())
    }

    fn pop(&mut self) -> (r: Result<T, ()>) {
        if self.used == 0 {
            return Err(());
        }
        let ghost before = *self;
        assert(self.buffer@[self.slot(0)] is Some);
        let val = self.buffer[self.rpos].unwrap();
        self.used = self.used - 1;
        self.rpos = self.rpos + 1;
        if self.rpos >= N {
            self.rpos = 0;
        }
        assert forall|i: int| 0 <= i < self.used implies (#[trigger] self.buffer@[self.slot(
            i,
        )]) is Some by {
            assert(before.buffer@[before.slot(i + 1)] is Some);
        }
        assert(self.items() =~= before.items().drop_first());
        Ok(val)
    }

    fn free(&self) -> (r: usize) {
        self.size() - self.used
    }

    fn size(&self) -> (r: usize) {
        N
    }
}

} // verus!
