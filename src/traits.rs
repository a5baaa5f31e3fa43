use vstd::prelude::*;

verus! {

/// The elements and result of pushing `v` onto a queue that holds `items`
/// and has room for `cap` elements: a full queue hands `v` back and keeps
/// its elements, any other one appends `v`.
pub open spec fn push_outcome<T>(items: Seq<T>, cap: nat, v: T) -> (Seq<T>, Result<(), T>) {
    if items.len() < cap {
        (items.push(v), Ok(()))
    } else {
        (items, Err(v))
    }
}

/// The elements and result of popping from a queue that holds `items`: an
/// empty queue fails and stays empty, any other one hands out its oldest
/// element and drops it.
pub open spec fn pop_outcome<T>(items: Seq<T>) -> (Seq<T>, Result<T, ()>) {
    if items.len() > 0 {
        (items.drop_first(), Ok(items[0]))
    } else {
        (items, Err(()))
    }
}

/// The elements after pushing each of `vs` in turn, first to last.
pub open spec fn push_each<T>(items: Seq<T>, cap: nat, vs: Seq<T>) -> Seq<T>
    decreases vs.len(),
{
    if vs.len() == 0 {
        items
    } else {
        push_each(push_outcome(items, cap, vs[0]).0, cap, vs.drop_first())
    }
}

/// The results of `n` pops in a row, first to last.
pub open spec fn pop_each<T>(items: Seq<T>, n: nat) -> Seq<Result<T, ()>>
    decreases n,
{
    if n == 0 {
        Seq::empty()
    } else {
        seq![pop_outcome(items).1] + pop_each(pop_outcome(items).0, (n - 1) as nat)
    }
}

/// A bounded first-in first-out queue.
///
/// Its state is seen as the sequence of elements it holds, oldest first, and
/// the number of elements it has room for, which never changes.
pub trait Ringbuffer: Sized {
    /// Type of the elements held.
    type Item;

    /// The elements held, oldest first.
    spec fn items(&self) -> Seq<Self::Item>;

    /// The number of elements the queue has room for.
    spec fn capacity(&self) -> nat;

    /// The queue's internal consistency, kept by every operation.
    spec fn inv(&self) -> bool;

    /// A consistent queue never holds more than its capacity.
    proof fn lemma_within_capacity(&self)
        requires
            self.inv(),
        ensures
            self.items().len() <= self.capacity(),
    ;

    /// Stores `val` behind the elements held, or hands it back unchanged
    /// when the queue is full.
    fn push(&mut self, val: Self::Item) -> (r: Result<(), Self::Item>)
        requires
            old(self).inv(),
        ensures
            final(self).inv(),
            final(self).capacity() == old(self).capacity(),
            (final(self).items(), r) == push_outcome(old(self).items(), old(self).capacity(), val),
    ;

    /// Removes and returns the oldest element, or fails when the queue is
    /// empty.
    fn pop(&mut self) -> (r: Result<Self::Item, ()>)
        requires
            old(self).inv(),
        ensures
            final(self).inv(),
            final(self).capacity() == old(self).capacity(),
            (final(self).items(), r) == pop_outcome(old(self).items()),
    ;

    /// The number of elements that can still be stored.
    fn free(&self) -> (r: usize)
        requires
            self.inv(),
        ensures
            r == self.capacity() - self.items().len(),
    ;

    /// The number of elements the queue has room for.
    fn size(&self) -> (r: usize)
        requires
            self.inv(),
        ensures
            r == self.capacity(),
    ;
}

} // verus!
