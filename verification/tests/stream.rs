use rgy::apu::buffer::{open_buffer, UpScaler};
use rgy::apu::stream::open_stream;

#[test]
fn test_stream() {
    let (mut p, mut c, mut b) = open_buffer(10, 10);

    p.add_sample(&mut b, 1, 5);
    p.add_sample(&mut b, 1, 6);
    p.add_sample(&mut b, 1, 7);
    p.add_sample(&mut b, 1, 8);
    p.add_sample(&mut b, 1, 7);
    p.add_sample(&mut b, 1, 6);

    assert_eq!(c.get_sample(&mut b, 1), 5);
    assert_eq!(c.get_sample(&mut b, 1), 6);
    assert_eq!(c.get_sample(&mut b, 1), 7);
    assert_eq!(c.get_sample(&mut b, 1), 8);
    assert_eq!(c.get_sample(&mut b, 1), 7);
    assert_eq!(c.get_sample(&mut b, 1), 6);
}

#[test]
fn test_stream_consume_by_2() {
    let (mut p, mut c, mut b) = open_buffer(10, 10);

    p.add_sample(&mut b, 1, 5);
    p.add_sample(&mut b, 1, 6);
    p.add_sample(&mut b, 1, 7);
    p.add_sample(&mut b, 1, 8);
    p.add_sample(&mut b, 1, 7);
    p.add_sample(&mut b, 1, 6);

    assert_eq!(c.get_sample(&mut b, 2), 6);
    assert_eq!(c.get_sample(&mut b, 2), 8);
    assert_eq!(c.get_sample(&mut b, 2), 6);
}

#[test]
fn test_stream_consume_by_3() {
    let (mut p, mut c, mut b) = open_buffer(10, 10);

    p.add_sample(&mut b, 1, 5);
    p.add_sample(&mut b, 1, 6);
    p.add_sample(&mut b, 1, 7);
    p.add_sample(&mut b, 1, 8);
    p.add_sample(&mut b, 1, 7);
    p.add_sample(&mut b, 1, 6);

    assert_eq!(c.get_sample(&mut b, 3), 7);
    assert_eq!(c.get_sample(&mut b, 3), 6);
}

#[test]
fn test_stream_produce_4_consume_1() {
    let (mut p, mut c, mut b) = open_buffer(50, 50);

    p.add_sample(&mut b, 4, 5);
    p.add_sample(&mut b, 4, 6);
    p.add_sample(&mut b, 4, 7);
    p.add_sample(&mut b, 4, 8);
    p.add_sample(&mut b, 4, 7);
    p.add_sample(&mut b, 4, 6);

    assert_eq!(c.get_sample(&mut b, 1), 0);
    assert_eq!(c.get_sample(&mut b, 1), 0);
    assert_eq!(c.get_sample(&mut b, 1), 0);
    assert_eq!(c.get_sample(&mut b, 1), 5);
    assert_eq!(c.get_sample(&mut b, 1), 5);
    assert_eq!(c.get_sample(&mut b, 1), 5);
    assert_eq!(c.get_sample(&mut b, 1), 5);
    assert_eq!(c.get_sample(&mut b, 1), 6);
    assert_eq!(c.get_sample(&mut b, 1), 6);
    assert_eq!(c.get_sample(&mut b, 1), 6);
    assert_eq!(c.get_sample(&mut b, 1), 6);
    assert_eq!(c.get_sample(&mut b, 1), 7);
    assert_eq!(c.get_sample(&mut b, 1), 7);
    assert_eq!(c.get_sample(&mut b, 1), 7);
    assert_eq!(c.get_sample(&mut b, 1), 7);
    assert_eq!(c.get_sample(&mut b, 1), 8);
    assert_eq!(c.get_sample(&mut b, 1), 8);
    assert_eq!(c.get_sample(&mut b, 1), 8);
    assert_eq!(c.get_sample(&mut b, 1), 8);
    assert_eq!(c.get_sample(&mut b, 1), 7);
    assert_eq!(c.get_sample(&mut b, 1), 7);
    assert_eq!(c.get_sample(&mut b, 1), 7);
    assert_eq!(c.get_sample(&mut b, 1), 7);
    assert_eq!(c.get_sample(&mut b, 1), 6);
    assert_eq!(c.get_sample(&mut b, 1), 6);
    assert_eq!(c.get_sample(&mut b, 1), 6);
    assert_eq!(c.get_sample(&mut b, 1), 6);
}

#[test]
fn test_stream_produce_4_consume_2() {
    let (mut p, mut c, mut b) = open_buffer(50, 50);

    p.add_sample(&mut b, 4, 5);
    p.add_sample(&mut b, 4, 6);
    p.add_sample(&mut b, 4, 7);
    p.add_sample(&mut b, 4, 8);
    p.add_sample(&mut b, 4, 7);
    p.add_sample(&mut b, 4, 6);

    assert_eq!(c.get_sample(&mut b, 2), 0);
    assert_eq!(c.get_sample(&mut b, 2), 5);
    assert_eq!(c.get_sample(&mut b, 2), 5);
    assert_eq!(c.get_sample(&mut b, 2), 6);
    assert_eq!(c.get_sample(&mut b, 2), 6);
    assert_eq!(c.get_sample(&mut b, 2), 7);
    assert_eq!(c.get_sample(&mut b, 2), 7);
    assert_eq!(c.get_sample(&mut b, 2), 8);
    assert_eq!(c.get_sample(&mut b, 2), 8);
    assert_eq!(c.get_sample(&mut b, 2), 7);
    assert_eq!(c.get_sample(&mut b, 2), 7);
    assert_eq!(c.get_sample(&mut b, 2), 6);
    assert_eq!(c.get_sample(&mut b, 2), 6);
}

#[test]
fn test_stream_underrun() {
    let (mut p, mut c, mut b) = open_buffer(10, 10);

    assert_eq!(c.get_sample(&mut b, 1), 0);
    assert_eq!(c.get_sample(&mut b, 1), 0);
    assert_eq!(c.get_sample(&mut b, 1), 0);

    p.add_sample(&mut b, 1, 5);
    p.add_sample(&mut b, 1, 6);
    p.add_sample(&mut b, 1, 7);
    p.add_sample(&mut b, 1, 8);
    p.add_sample(&mut b, 1, 7);
    p.add_sample(&mut b, 1, 6);

    assert_eq!(c.get_sample(&mut b, 1), 5);
    assert_eq!(c.get_sample(&mut b, 1), 6);
    assert_eq!(c.get_sample(&mut b, 1), 7);
    assert_eq!(c.get_sample(&mut b, 1), 8);
    assert_eq!(c.get_sample(&mut b, 1), 7);
    assert_eq!(c.get_sample(&mut b, 1), 6);
}

#[test]
fn test_stream_underrun_in_middle() {
    let (mut p, mut c, mut b) = open_buffer(10, 10);

    p.add_sample(&mut b, 1, 5);
    p.add_sample(&mut b, 1, 6);
    p.add_sample(&mut b, 1, 7);

    assert_eq!(c.get_sample(&mut b, 1), 5);
    assert_eq!(c.get_sample(&mut b, 1), 6);
    assert_eq!(c.get_sample(&mut b, 1), 7);
    assert_eq!(c.get_sample(&mut b, 1), 7);

    p.add_sample(&mut b, 1, 8);
    p.add_sample(&mut b, 1, 7);
    p.add_sample(&mut b, 1, 6);

    assert_eq!(c.get_sample(&mut b, 1), 8);
    assert_eq!(c.get_sample(&mut b, 1), 7);
    assert_eq!(c.get_sample(&mut b, 1), 6);
}

#[test]
fn test_stream_empty() {
    let (_, mut c, mut b) = open_buffer(10, 10);

    assert_eq!(c.get_sample(&mut b, 1), 0);
    assert_eq!(c.get_sample(&mut b, 1), 0);
    assert_eq!(c.get_sample(&mut b, 1), 0);
    assert_eq!(c.get_sample(&mut b, 1), 0);
    assert_eq!(c.get_sample(&mut b, 1), 0);
    assert_eq!(c.get_sample(&mut b, 1), 0);
}

#[test]
fn test_stream_same_sound() {
    let (mut p, mut c, mut b) = open_buffer(10, 10);

    p.add_sample(&mut b, 1, 5);
    p.add_sample(&mut b, 1, 5);
    p.add_sample(&mut b, 1, 6);
    p.add_sample(&mut b, 1, 6);
    p.add_sample(&mut b, 1, 6);
    p.add_sample(&mut b, 1, 6);
    p.add_sample(&mut b, 1, 7);
    p.add_sample(&mut b, 1, 7);
    p.add_sample(&mut b, 1, 7);
    p.add_sample(&mut b, 1, 7);
    p.add_sample(&mut b, 1, 7);
    p.add_sample(&mut b, 1, 7);
    p.add_sample(&mut b, 1, 8);
    p.add_sample(&mut b, 1, 7);
    p.add_sample(&mut b, 1, 6);
    p.add_sample(&mut b, 1, 6);

    assert_eq!(c.get_sample(&mut b, 1), 5);
    assert_eq!(c.get_sample(&mut b, 1), 5);
    assert_eq!(c.get_sample(&mut b, 1), 6);
    assert_eq!(c.get_sample(&mut b, 1), 6);
    assert_eq!(c.get_sample(&mut b, 1), 6);
    assert_eq!(c.get_sample(&mut b, 1), 6);
    assert_eq!(c.get_sample(&mut b, 1), 7);
    assert_eq!(c.get_sample(&mut b, 1), 7);
    assert_eq!(c.get_sample(&mut b, 1), 7);
    assert_eq!(c.get_sample(&mut b, 1), 7);
    assert_eq!(c.get_sample(&mut b, 1), 7);
    assert_eq!(c.get_sample(&mut b, 1), 7);
    assert_eq!(c.get_sample(&mut b, 1), 8);
    assert_eq!(c.get_sample(&mut b, 1), 7);
    assert_eq!(c.get_sample(&mut b, 1), 6);
    assert_eq!(c.get_sample(&mut b, 1), 6);
}

#[test]
fn test_stream_same_sound_small_max_frame_size() {
    let (mut p, mut c, mut b) = open_buffer(10, 2);

    p.add_sample(&mut b, 1, 5);
    p.add_sample(&mut b, 1, 5);
    p.add_sample(&mut b, 1, 6);
    p.add_sample(&mut b, 1, 6);
    p.add_sample(&mut b, 1, 6);
    p.add_sample(&mut b, 1, 6);
    p.add_sample(&mut b, 1, 7);
    p.add_sample(&mut b, 1, 7);
    p.add_sample(&mut b, 1, 7);
    p.add_sample(&mut b, 1, 7);
    p.add_sample(&mut b, 1, 7);
    p.add_sample(&mut b, 1, 7);
    p.add_sample(&mut b, 1, 8);
    p.add_sample(&mut b, 1, 7);
    p.add_sample(&mut b, 1, 6);
    p.add_sample(&mut b, 1, 6);

    assert_eq!(c.get_sample(&mut b, 1), 5);
    assert_eq!(c.get_sample(&mut b, 1), 5);
    assert_eq!(c.get_sample(&mut b, 1), 6);
    assert_eq!(c.get_sample(&mut b, 1), 6);
    assert_eq!(c.get_sample(&mut b, 1), 6);
    assert_eq!(c.get_sample(&mut b, 1), 6);
    assert_eq!(c.get_sample(&mut b, 1), 7);
    assert_eq!(c.get_sample(&mut b, 1), 7);
    assert_eq!(c.get_sample(&mut b, 1), 7);
    assert_eq!(c.get_sample(&mut b, 1), 7);
    assert_eq!(c.get_sample(&mut b, 1), 7);
    assert_eq!(c.get_sample(&mut b, 1), 7);
    assert_eq!(c.get_sample(&mut b, 1), 8);
    assert_eq!(c.get_sample(&mut b, 1), 7);
    assert_eq!(c.get_sample(&mut b, 1), 6);
    assert_eq!(c.get_sample(&mut b, 1), 6);
}

#[test]
fn stream_full_queue_keeps_growing_frame() {
    let (mut p, mut c, mut b) = open_buffer(2, 10);
    p.add_sample(&mut b, 1, 5);
    // The queue holds one frame; the next change cannot be queued yet.
    p.add_sample(&mut b, 1, 6);
    assert_eq!(p.cycles, 1);
    assert_eq!(p.amp, 5);
    assert_eq!(c.get_sample(&mut b, 1), 5);
    p.add_sample(&mut b, 1, 6);
    assert_eq!(p.cycles, 0);
    assert_eq!(p.amp, 6);
    assert_eq!(c.get_sample(&mut b, 2), 6);
}

#[test]
fn upscaler_spreads_cpu_cycles_over_samples() {
    let mut u = UpScaler::new(10);
    assert_eq!(u.compute_cycles(4), 3);
    assert_eq!(u.count, 2);
    assert_eq!(u.compute_cycles(4), 2);
    assert_eq!(u.count, 0);
    assert_eq!(u.compute_cycles(3), 4);
    assert_eq!(u.count, 2);
}

#[test]
fn stereo_stream_replays_both_sides() {
    let (mut sink, mut stream, mut q) = open_stream();
    assert_eq!(stream.max(), 1920);
    assert!(stream.on());

    sink.send(&mut q, 10, (5, -5));
    sink.send(&mut q, 10, (6, -6));

    // 4194304 / 44100 rounds up to 96 CPU cycles per sample: both frames are spent.
    assert_eq!(stream.next_dual(&mut q, 44100), (1932, 1908));
    // Nothing more queued: the last amplitudes hold.
    assert_eq!(stream.next(&mut q, 44100), 1920);
}
