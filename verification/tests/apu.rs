use rgy::apu::buffer::{Frame, RingBuffer};
use rgy::apu::clock_divider::ClockDivider;
use rgy::apu::frame_sequencer::FrameSequencer;
use rgy::apu::timer::Timer;

#[test]
fn test_ring_buffer() {
    let mut b = RingBuffer::<Frame>::new(10);

    assert!(b.pop().is_none());
    assert!(b.push(Frame::new(1, 0)));
    assert_eq!(b.pop().unwrap().cycles, 1);
    assert!(b.pop().is_none());
    assert!(b.push(Frame::new(2, 0)));
    assert!(b.push(Frame::new(3, 0)));
    assert_eq!(b.pop().unwrap().cycles, 2);
    assert_eq!(b.pop().unwrap().cycles, 3);
    assert!(b.pop().is_none());
    assert!(b.push(Frame::new(4, 0)));
    assert_eq!(b.pop().unwrap().cycles, 4);
    assert!(b.pop().is_none());
}

#[test]
fn test_ring_buffer_overflow() {
    let mut b = RingBuffer::<Frame>::new(10);

    for i in 0..9 {
        assert!(b.push(Frame::new(i, 0)));
    }

    assert!(!b.push(Frame::new(9, 0)));

    for i in 0..9 {
        assert_eq!(b.pop().unwrap().cycles, i);
    }

    assert!(b.pop().is_none());
}

#[test]
fn test_clock_divider() {
    // 2 Hz -> 1 Hz
    let mut divider = ClockDivider::new(2, 1);

    // 4 ticks -> 2 ticks
    assert!(!divider.step(1));
    assert!(divider.step(1));
    assert!(!divider.step(1));
    assert!(divider.step(1));

    divider.set_source_clock_rate(4);

    // 8 ticks -> 2 ticks
    assert!(!divider.step(1));
    assert!(!divider.step(1));
    assert!(!divider.step(1));
    assert!(divider.step(1));
    assert!(!divider.step(1));
    assert!(!divider.step(1));
    assert!(!divider.step(1));
    assert!(divider.step(1));
}

#[test]
fn test_frame_sequencer() {
    let mut seq = FrameSequencer::new();

    let f0 = seq.step(1, 0x10);

    assert_eq!(f0.last, None);
    assert_eq!(f0.next, Some(0));
    assert_eq!(f0.cycles, 1);
    assert_eq!(f0.switched(), None);

    let f1 = seq.step(2, 0x10);

    assert_eq!(f1.last, None);
    assert_eq!(f1.next, Some(0));
    assert_eq!(f1.cycles, 3);
    assert_eq!(f1.switched(), None);

    let f2 = seq.step(3, 0x10);

    assert_eq!(f2.last, None);
    assert_eq!(f2.next, Some(0));
    assert_eq!(f2.cycles, 6);
    assert_eq!(f2.switched(), None);

    let f3 = seq.step(4, 0x00);

    assert_eq!(f3.last, Some(0));
    assert_eq!(f3.next, Some(1));
    assert_eq!(f3.cycles, 0);
    assert_eq!(f3.switched(), Some(0));

    let f4 = seq.step(5, 0x10);

    assert_eq!(f4.last, Some(0));
    assert_eq!(f4.next, Some(1));
    assert_eq!(f4.cycles, 5);
    assert_eq!(f4.switched(), None);
}

#[test]
fn test_frame_sequencer_loop() {
    let mut seq = FrameSequencer::new();

    assert_eq!(seq.step(1, 0x10).next, Some(0));
    assert_eq!(seq.step(1, 0x00).next, Some(1));
    assert_eq!(seq.step(1, 0x10).next, Some(1));
    assert_eq!(seq.step(1, 0x00).next, Some(2));
    assert_eq!(seq.step(1, 0x10).next, Some(2));
    assert_eq!(seq.step(1, 0x00).next, Some(3));
    assert_eq!(seq.step(1, 0x10).next, Some(3));
    assert_eq!(seq.step(1, 0x00).next, Some(4));
    assert_eq!(seq.step(1, 0x10).next, Some(4));
    assert_eq!(seq.step(1, 0x00).next, Some(5));
    assert_eq!(seq.step(1, 0x10).next, Some(5));
    assert_eq!(seq.step(1, 0x00).next, Some(6));
    assert_eq!(seq.step(1, 0x10).next, Some(6));
    assert_eq!(seq.step(1, 0x00).next, Some(7));
    assert_eq!(seq.step(1, 0x10).next, Some(7));
    assert_eq!(seq.step(1, 0x00).next, Some(0));
    assert_eq!(seq.step(1, 0x10).next, Some(0));
    assert_eq!(seq.step(1, 0x00).next, Some(1));
    assert_eq!(seq.step(1, 0x10).next, Some(1));
}

#[test]
fn test_frame_sequencer_switch() {
    let mut seq = FrameSequencer::new();

    assert_eq!(seq.step(1, 0x10).switched(), None);
    assert_eq!(seq.step(1, 0x10).switched(), None);
    assert_eq!(seq.step(1, 0x10).switched(), None);
    assert_eq!(seq.step(1, 0x10).switched(), None);
    assert_eq!(seq.step(1, 0x00).switched(), Some(0));
    assert_eq!(seq.step(1, 0x10).switched(), None);
    assert_eq!(seq.step(1, 0x10).switched(), None);
    assert_eq!(seq.step(1, 0x00).switched(), Some(1));
    assert_eq!(seq.step(1, 0x10).switched(), None);
    assert_eq!(seq.step(1, 0x00).switched(), Some(2));
    assert_eq!(seq.step(1, 0x10).switched(), None);
    assert_eq!(seq.step(1, 0x10).switched(), None);
    assert_eq!(seq.step(1, 0x10).switched(), None);
    assert_eq!(seq.step(1, 0x00).switched(), Some(3));
    assert_eq!(seq.step(1, 0x10).switched(), None);
    assert_eq!(seq.step(1, 0x00).switched(), Some(4));
    assert_eq!(seq.step(1, 0x10).switched(), None);
    assert_eq!(seq.step(1, 0x00).switched(), Some(5));
    assert_eq!(seq.step(1, 0x10).switched(), None);
    assert_eq!(seq.step(1, 0x10).switched(), None);
    assert_eq!(seq.step(1, 0x00).switched(), Some(6));
    assert_eq!(seq.step(1, 0x10).switched(), None);
    assert_eq!(seq.step(1, 0x10).switched(), None);
    assert_eq!(seq.step(1, 0x10).switched(), None);
    assert_eq!(seq.step(1, 0x00).switched(), Some(7));
    assert_eq!(seq.step(1, 0x10).switched(), None);
    assert_eq!(seq.step(1, 0x10).switched(), None);
    assert_eq!(seq.step(1, 0x00).switched(), Some(0));
    assert_eq!(seq.step(1, 0x10).switched(), None);
    assert_eq!(seq.step(1, 0x00).switched(), Some(1));
    assert_eq!(seq.step(1, 0x10).switched(), None);
    assert_eq!(seq.step(1, 0x10).switched(), None);
    assert_eq!(seq.step(1, 0x00).switched(), Some(2));
}

#[test]
fn test_frame_sequencer_reset_div10() {
    let mut seq = FrameSequencer::new();

    seq.reset_step();

    let f0 = seq.step(4, 0x10);

    assert_eq!(f0.last, None);
    assert_eq!(f0.next, None);
    assert_eq!(f0.cycles, 4);
    assert_eq!(f0.switched(), None);

    let f1 = seq.step(4, 0x10);

    assert_eq!(f1.last, None);
    assert_eq!(f1.next, None);
    assert_eq!(f1.cycles, 8);
    assert_eq!(f1.switched(), None);

    let f2 = seq.step(4, 0x00);

    assert_eq!(f2.last, None);
    assert_eq!(f2.next, Some(0));
    assert_eq!(f2.cycles, 0);
    assert_eq!(f2.switched(), None); // First flip is ignored
}

#[test]
fn test_frame_sequencer_reset_div00() {
    let mut seq = FrameSequencer::new();

    seq.reset_step();

    let f0 = seq.step(4, 0x00);

    assert_eq!(f0.last, None);
    assert_eq!(f0.next, Some(0));
    assert_eq!(f0.cycles, 4);
    assert_eq!(f0.switched(), None);

    let f1 = seq.step(4, 0x10);

    assert_eq!(f1.last, None);
    assert_eq!(f1.next, Some(0));
    assert_eq!(f1.cycles, 8);
    assert_eq!(f1.switched(), None);

    let f2 = seq.step(4, 0x00);

    assert_eq!(f2.last, Some(0));
    assert_eq!(f2.next, Some(1));
    assert_eq!(f2.cycles, 0);
    assert_eq!(f2.switched(), Some(0));
}

#[test]
fn timer_test_timer_interval() {
    let mut timer = Timer::new();

    timer.set_interval(3);

    assert!(!timer.tick());
    assert!(!timer.tick());
    assert!(timer.tick());
    assert!(!timer.tick());
    assert!(!timer.tick());
    assert!(timer.tick());
    assert!(!timer.tick());
    assert!(!timer.tick());
    assert!(timer.tick());

    timer.set_interval(2);

    assert!(!timer.tick());
    assert!(timer.tick());
    assert!(!timer.tick());
    assert!(timer.tick());
    assert!(!timer.tick());
    assert!(timer.tick());

    timer.set_interval(1);

    assert!(timer.tick());
    assert!(timer.tick());
    assert!(timer.tick());
    assert!(timer.tick());
    assert!(timer.tick());
    assert!(timer.tick());
}
