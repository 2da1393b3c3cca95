use rustsdlretro_core::audio::{RingBuffer, READ_BATCH_SIZE, RING_BUFFER_CAPACITY};
use rustsdlretro_core::audio_null::NullAudioDriver;

#[test]
fn audio_test_write_read() {
    let mut rb = RingBuffer::new();
    let samples: Vec<i16> = (0..100).map(|i| i as i16).collect();
    assert_eq!(rb.write(&samples), 100);
    let mut buf = vec![0i16; 100];
    assert_eq!(rb.read(&mut buf), 100);
    assert_eq!(buf, samples);
}

#[test]
fn audio_test_write_full_drops_oldest() {
    let mut rb = RingBuffer::new();
    let big: Vec<i16> = (0..RING_BUFFER_CAPACITY + 100).map(|i| i as i16).collect();
    assert_eq!(rb.write(&big), RING_BUFFER_CAPACITY);
    assert_eq!(rb.len(), RING_BUFFER_CAPACITY);
    let mut buf = vec![0i16; RING_BUFFER_CAPACITY];
    let mut filled = 0;
    while filled < RING_BUFFER_CAPACITY {
        filled += rb.read(&mut buf[filled..]);
    }
    for i in 0..RING_BUFFER_CAPACITY {
        assert_eq!(buf[i], (i + 100) as i16);
    }
}

#[test]
fn audio_test_read_batch_limit() {
    let mut rb = RingBuffer::new();
    let samples: Vec<i16> = (0..20000).map(|i| (i % 100) as i16).collect();
    rb.write(&samples);
    let mut buf = vec![0i16; 20000];
    assert_eq!(rb.read(&mut buf), READ_BATCH_SIZE);
    assert_eq!(rb.len(), 20000 - READ_BATCH_SIZE);
}

#[test]
fn audio_test_empty_read() {
    let mut rb = RingBuffer::new();
    let mut buf = vec![0i16; 100];
    assert_eq!(rb.read(&mut buf), 0);
}

#[test]
fn audio_test_wraparound() {
    let mut rb = RingBuffer::new();
    let part1: Vec<i16> = (0..2000).map(|i| i as i16).collect();
    rb.write(&part1);
    let mut buf = vec![0i16; 2000];
    rb.read(&mut buf);
    assert_eq!(buf, part1);

    let part2: Vec<i16> = (10000..12000).map(|i| i as i16).collect();
    rb.write(&part2);
    rb.read(&mut buf);
    assert_eq!(buf, part2);
}

#[test]
fn ring_buffer_keeps_order_across_writes() {
    let mut rb = RingBuffer::new();
    assert!(rb.is_empty());
    assert_eq!(rb.write(&[1, 2, 3]), 3);
    assert_eq!(rb.write(&[4, 5]), 2);
    assert!(!rb.is_empty());
    let mut buf = [0i16; 4];
    assert_eq!(rb.read(&mut buf), 4);
    assert_eq!(buf, [1, 2, 3, 4]);
    assert_eq!(rb.len(), 1);
    let mut rest = [9i16; 3];
    assert_eq!(rb.read(&mut rest), 1);
    assert_eq!(rest, [5, 9, 9]);
}

#[test]
fn ring_buffer_full_write_drops_queued_first() {
    let mut rb = RingBuffer::new();
    let first: Vec<i16> = vec![7; RING_BUFFER_CAPACITY - 10];
    assert_eq!(rb.write(&first), RING_BUFFER_CAPACITY - 10);
    let second: Vec<i16> = (0..20).map(|i| i as i16).collect();
    assert_eq!(rb.write(&second), 20);
    assert_eq!(rb.len(), RING_BUFFER_CAPACITY);
    let mut out = vec![0i16; RING_BUFFER_CAPACITY];
    let mut filled = 0;
    while filled < RING_BUFFER_CAPACITY {
        filled += rb.read(&mut out[filled..]);
    }
    assert_eq!(out[0], 7);
    assert_eq!(&out[RING_BUFFER_CAPACITY - 20..], &second[..]);
}

#[test]
fn read_into_short_buffer_leaves_tail() {
    let mut rb = RingBuffer::new();
    rb.write(&[10, 20, 30]);
    let mut buf = [0i16; 2];
    assert_eq!(rb.read(&mut buf), 2);
    assert_eq!(buf, [10, 20]);
    assert_eq!(rb.len(), 1);
}

#[test]
fn null_audio_discards_and_stops() {
    let mut d = NullAudioDriver::new(44100);
    assert_eq!(d.sample_rate, 44100);
    assert!(!d.is_stopped());
    d.push_batch(&[1, 2, 3, 4]);
    d.push_stereo_pair(5, 6);
    d.stop();
    assert!(d.is_stopped());
    assert_eq!(d.sample_rate, 44100);
}

#[test]
fn queue_never_exceeds_capacity() {
    let mut rb = RingBuffer::new();
    let chunk: Vec<i16> = vec![1; 30000];
    for _ in 0..4 {
        rb.write(&chunk);
        assert!(rb.len() <= RING_BUFFER_CAPACITY);
    }
    assert_eq!(rb.len(), RING_BUFFER_CAPACITY);
    let mut buf = vec![0i16; 100];
    assert_eq!(rb.read(&mut buf), 100);
    assert_eq!(rb.len(), RING_BUFFER_CAPACITY - 100);
}

#[test]
fn null_audio_stays_stopped_after_repeated_stops() {
    let mut d = NullAudioDriver::new(22050);
    d.push_stereo_pair(1, 2);
    assert!(!d.is_stopped());
    d.stop();
    d.push_batch(&[7, 8]);
    assert!(d.is_stopped());
    d.stop();
    assert!(d.is_stopped());
    assert_eq!(d.sample_rate, 22050);
}

#[test]
fn ring_buffer_write_larger_than_capacity_keeps_newest() {
    let mut rb = RingBuffer::new();
    rb.write(&[9, 9, 9]);
    let big: Vec<i16> = (0..(RING_BUFFER_CAPACITY as i32 + 5)).map(|v| v as i16).collect();
    assert_eq!(rb.write(&big), RING_BUFFER_CAPACITY);
    assert_eq!(rb.len(), RING_BUFFER_CAPACITY);
    let mut buf = vec![0i16; 3];
    assert_eq!(rb.read(&mut buf), 3);
    assert_eq!(buf, [5, 6, 7]);
}
