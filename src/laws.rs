use vstd::prelude::*;

use crate::ringbuffer_impl::ArrayRingbuffer;
use crate::traits::{pop_each, pop_outcome, push_each, push_outcome, Ringbuffer};

verus! {

/// A consistent queue holds between zero and `capacity` elements, so its
/// free count `capacity - len` lies in the same range.
pub proof fn lemma_capacity_bound<R: Ringbuffer>(rb: &R)
    requires
        rb.inv(),
    ensures
        0 <= rb.items().len() <= rb.capacity(),
        0 <= rb.capacity() - rb.items().len() <= rb.capacity(),
{
    rb.lemma_within_capacity();
}

/// Pushing values that all fit appends them, in order.
proof fn lemma_push_each_appends<T>(items: Seq<T>, cap: nat, vs: Seq<T>)
    requires
        items.len() + vs.len() <= cap,
    ensures
        push_each(items, cap, vs) == items + vs,
    decreases vs.len(),
{
    if vs.len() > 0 {
        lemma_push_each_appends(items.push(vs[0]), cap, vs.drop_first());
        assert(items.push(vs[0]) + vs.drop_first() =~= items + vs);
    } else {
        assert(items + vs =~= items);
    }
}

/// `n` pops from a queue that holds at least `n` elements hand out its
/// first `n` elements, in order.
proof fn lemma_pop_each_yields<T>(items: Seq<T>, n: nat)
    requires
        n <= items.len(),
    ensures
        pop_each(items, n) == items.take(n as int).map_values(|x: T| Ok::<T, ()>(x)),
    decreases n,
{
    if n > 0 {
        lemma_pop_each_yields(items.drop_first(), (n - 1) as nat);
        assert(seq![Ok::<T, ()>(items[0])] + items.drop_first().take(n - 1).map_values(
            |x: T| Ok::<T, ()>(x),
        ) =~= items.take(n as int).map_values(|x: T| Ok::<T, ()>(x)));
    } else {
        assert(items.take(0).map_values(|x: T| Ok::<T, ()>(x)) =~= Seq::empty());
    }
}

/// First in, first out: pushing `vs` onto an empty queue with room for all
/// of them stores exactly `vs`, and as many pops then hand out `vs` in the
/// order they were pushed.
pub proof fn lemma_fifo_order<T>(cap: nat, vs: Seq<T>)
    requires
        vs.len() <= cap,
    ensures
        push_each(Seq::empty(), cap, vs) == vs,
        pop_each(push_each(Seq::empty(), cap, vs), vs.len()) == vs.map_values(
            |x: T| Ok::<T, ()>(x),
        ),
{
    lemma_push_each_appends(Seq::empty(), cap, vs);
    assert(Seq::<T>::empty() + vs =~= vs);
    lemma_pop_each_yields(vs, vs.len());
    assert(vs.take(vs.len() as int) =~= vs);
}

/// Whatever the queue held before, and however often its positions have
/// wrapped past the end of the storage, pushing more values that fit and
/// then popping everything hands out the old elements first and the new ones
/// after them, each in its order.
pub proof fn lemma_order_across_wrap<T>(items: Seq<T>, cap: nat, vs: Seq<T>)
    requires
        items.len() + vs.len() <= cap,
    ensures
        pop_each(push_each(items, cap, vs), items.len() + vs.len()) == (items + vs).map_values(
            |x: T| Ok::<T, ()>(x),
        ),
{
    lemma_push_each_appends(items, cap, vs);
    lemma_pop_each_yields(items + vs, items.len() + vs.len());
    assert((items + vs).take((items.len() + vs.len()) as int) =~= items + vs);
}

/// A push onto a full queue fails with the very value pushed and leaves the
/// elements, and so the free count, as they were.
pub proof fn lemma_full_rejection<T>(items: Seq<T>, cap: nat, v: T)
    requires
        items.len() == cap,
    ensures
        push_outcome(items, cap, v) == (items, Err::<(), T>(v)),
{
}

/// A pop from an empty queue fails with no payload and leaves it empty.
pub proof fn lemma_empty_rejection<T>(items: Seq<T>)
    requires
        items.len() == 0,
    ensures
        pop_outcome(items) == (items, Err::<T, ()>(())),
{
}

/// A successful push lowers the free count by one, a successful pop raises
/// it by one, and a failed push or pop leaves it as it was.
pub proof fn lemma_free_accounting<T>(items: Seq<T>, cap: nat, v: T)
    requires
        items.len() <= cap,
    ensures
        push_outcome(items, cap, v).1 is Ok ==> cap - push_outcome(items, cap, v).0.len() == cap
            - items.len() - 1,
        push_outcome(items, cap, v).1 is Err ==> push_outcome(items, cap, v).0.len()
            == items.len(),
        pop_outcome(items).1 is Ok ==> cap - pop_outcome(items).0.len() == cap - items.len() + 1,
        pop_outcome(items).1 is Err ==> pop_outcome(items).0.len() == items.len(),
{
}

/// A buffer with no slots is always empty with nothing free: every push
/// fails and hands its value back, and every pop fails.
pub proof fn lemma_zero_capacity<T: Copy>(rb: &ArrayRingbuffer<T, 0>, v: T)
    requires
        rb.inv(),
    ensures
        rb.items().len() == 0,
        rb.capacity() - rb.items().len() == 0,
        push_outcome(rb.items(), rb.capacity(), v) == (rb.items(), Err::<(), T>(v)),
        pop_outcome(rb.items()) == (rb.items(), Err::<T, ()>(())),
{
    rb.lemma_within_capacity();
}

} // verus!
