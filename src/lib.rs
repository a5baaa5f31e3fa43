//! A fixed-capacity FIFO ring buffer whose index arithmetic is verified.
//!
//! `Ringbuffer` is the interface any bounded queue offers (push, pop, free,
//! size); `ArrayRingbuffer` implements it on an array of `N` slots.
mod laws;
mod ringbuffer_impl;
mod traits;

pub use laws::{
    lemma_capacity_bound, lemma_empty_rejection, lemma_fifo_order, lemma_free_accounting,
    lemma_full_rejection, lemma_order_across_wrap, lemma_zero_capacity,
};
pub use ringbuffer_impl::ArrayRingbuffer;
pub use traits::{pop_each, pop_outcome, push_each, push_outcome, Ringbuffer};
