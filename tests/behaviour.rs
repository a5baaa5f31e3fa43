use ringbuffer::{ArrayRingbuffer, Ringbuffer};

#[test]
fn full_then_drain_scenario() {
    let mut rbuf = ArrayRingbuffer::<i64, 5>::new();
    for v in 1..=5 {
        assert_eq!(rbuf.push(v), Ok(()));
    }
    assert_eq!(rbuf.push(6), Err(6));
    assert_eq!(rbuf.free(), 0);
    assert_eq!(rbuf.pop(), Ok(1));
    assert_eq!(rbuf.free(), 1);
    for v in 2..=5 {
        assert_eq!(rbuf.pop(), Ok(v));
    }
    assert_eq!(rbuf.pop(), Err(()));
}

#[test]
fn wraparound_keeps_order() {
    let mut rbuf = ArrayRingbuffer::<u8, 5>::new();
    for v in 1..=5 {
        assert_eq!(rbuf.push(v), Ok(()));
    }
    assert_eq!(rbuf.pop(), Ok(1));
    assert_eq!(rbuf.pop(), Ok(2));
    assert_eq!(rbuf.push(6), Ok(()));
    assert_eq!(rbuf.push(7), Ok(()));
    assert_eq!(rbuf.push(8), Err(8));
    for v in 3..=7 {
        assert_eq!(rbuf.pop(), Ok(v));
    }
    assert_eq!(rbuf.pop(), Err(()));
    assert_eq!(rbuf.free(), 5);
}

#[test]
fn many_cycles_keep_order_and_values() {
    let mut rbuf = ArrayRingbuffer::<u32, 3>::new();
    let mut next_in: u32 = 0;
    let mut next_out: u32 = 0;
    for round in 0..50u32 {
        let pushes = round % 3 + 1;
        for _ in 0..pushes {
            if rbuf.free() > 0 {
                assert_eq!(rbuf.push(next_in), Ok(()));
                next_in += 1;
            } else {
                assert_eq!(rbuf.push(999), Err(999));
            }
        }
        let pops = (round + 1) % 3 + 1;
        for _ in 0..pops {
            if next_out < next_in {
                assert_eq!(rbuf.pop(), Ok(next_out));
                next_out += 1;
            } else {
                assert_eq!(rbuf.pop(), Err(()));
            }
        }
        let held = (next_in - next_out) as usize;
        assert!(held <= rbuf.size());
        assert_eq!(rbuf.free(), rbuf.size() - held);
    }
    assert!(next_in > 10);
}

#[test]
fn full_rejection_leaves_state() {
    let mut rbuf = ArrayRingbuffer::<u16, 2>::new();
    assert_eq!(rbuf.push(10), Ok(()));
    assert_eq!(rbuf.push(20), Ok(()));
    assert_eq!(rbuf.push(30), Err(30));
    assert_eq!(rbuf.push(40), Err(40));
    assert_eq!(rbuf.free(), 0);
    assert_eq!(rbuf.pop(), Ok(10));
    assert_eq!(rbuf.pop(), Ok(20));
}

#[test]
fn empty_rejection_leaves_state() {
    let mut rbuf = ArrayRingbuffer::<u16, 4>::new();
    assert_eq!(rbuf.pop(), Err(()));
    assert_eq!(rbuf.pop(), Err(()));
    assert_eq!(rbuf.free(), 4);
    assert_eq!(rbuf.push(7), Ok(()));
    assert_eq!(rbuf.pop(), Ok(7));
    assert_eq!(rbuf.pop(), Err(()));
    assert_eq!(rbuf.free(), 4);
}

#[test]
fn zero_capacity_always_rejects() {
    let mut rbuf = ArrayRingbuffer::<u64, 0>::new();
    for v in 0..10u64 {
        assert_eq!(rbuf.push(v), Err(v));
        assert_eq!(rbuf.pop(), Err(()));
        assert_eq!(rbuf.free(), 0);
        assert_eq!(rbuf.size(), 0);
    }
}

#[test]
fn single_slot_wraps_every_time() {
    let mut rbuf = ArrayRingbuffer::<i32, 1>::new();
    for v in -5..5 {
        assert_eq!(rbuf.push(v), Ok(()));
        assert_eq!(rbuf.push(v + 100), Err(v + 100));
        assert_eq!(rbuf.free(), 0);
        assert_eq!(rbuf.pop(), Ok(v));
        assert_eq!(rbuf.free(), 1);
    }
}

#[test]
fn size_never_changes() {
    let mut rbuf = ArrayRingbuffer::<u8, 4>::new();
    assert_eq!(rbuf.size(), 4);
    for v in 0..9u8 {
        let _ = rbuf.push(v);
        assert_eq!(rbuf.size(), 4);
        if v % 2 == 0 {
            let _ = rbuf.pop();
        }
        assert_eq!(rbuf.size(), 4);
    }
}
