use nes_avsync::chunker::{SampleQueue, CHUNK_SIZE};

#[test]
fn usual_chunk_size_is_2048() {
    assert_eq!(CHUNK_SIZE, 2048);
}

#[test]
fn new_queue_is_empty() {
    let queue = SampleQueue::new(2048);
    assert_eq!(queue.len(), 0);
    assert_eq!(queue.chunk_size(), 2048);
}

#[test]
fn push_below_the_chunk_size_keeps_the_sample() {
    let mut queue = SampleQueue::new(4);
    assert_eq!(queue.push(10), None);
    assert_eq!(queue.len(), 1);
    assert_eq!(queue.push(11), None);
    assert_eq!(queue.len(), 2);
    assert_eq!(queue.push(12), None);
    assert_eq!(queue.len(), 3);
}

#[test]
fn push_that_fills_the_chunk_hands_it_off_in_order() {
    let mut queue = SampleQueue::new(4);
    queue.push(10);
    queue.push(11);
    queue.push(12);
    assert_eq!(queue.push(13), Some(vec![10, 11, 12, 13]));
    assert_eq!(queue.len(), 0);
    assert_eq!(queue.chunk_size(), 4);
}

#[test]
fn length_after_push_wraps_at_the_chunk_size() {
    let chunk_size = 5usize;
    let mut queue = SampleQueue::new(chunk_size);
    for n in 0..23usize {
        let before = queue.len();
        let chunk = queue.push(n as u32);
        let expected = if before + 1 == chunk_size {
            (before + 1) % chunk_size
        } else {
            before + 1
        };
        assert_eq!(queue.len(), expected);
        assert_eq!(chunk.is_some(), before + 1 == chunk_size);
    }
}

#[test]
fn one_chunk_for_every_chunk_size_pushes() {
    let mut queue = SampleQueue::new(2048);
    let mut chunks = 0usize;
    for n in 0..3 * 2048 + 100u32 {
        if let Some(chunk) = queue.push(n) {
            assert_eq!(chunk.len(), 2048);
            assert_eq!(chunk[0], (chunks * 2048) as u32);
            assert_eq!(chunk[2047], (chunks * 2048 + 2047) as u32);
            chunks += 1;
            assert_eq!(n as usize + 1, chunks * 2048);
        }
    }
    assert_eq!(chunks, 3);
    assert_eq!(queue.len(), 100);
}

#[test]
fn no_sample_is_lost_or_reordered() {
    let mut queue = SampleQueue::new(7);
    let samples: Vec<u32> = (0..100u32).map(|n| n * n + 3).collect();
    let mut seen: Vec<u32> = Vec::new();
    for sample in &samples {
        if let Some(chunk) = queue.push(*sample) {
            seen.extend(chunk);
        }
    }
    assert_eq!(seen.len(), 98);
    assert_eq!(queue.len(), 2);
    assert_eq!(&seen[..], &samples[..98]);
}

#[test]
fn fewer_samples_than_a_chunk_hand_off_nothing() {
    let mut queue = SampleQueue::new(2048);
    for n in 0..2047u32 {
        assert_eq!(queue.push(n), None);
    }
    assert_eq!(queue.len(), 2047);
}

#[test]
fn chunk_size_of_one_hands_off_every_sample() {
    let mut queue = SampleQueue::new(1);
    assert_eq!(queue.push(5), Some(vec![5]));
    assert_eq!(queue.push(6), Some(vec![6]));
    assert_eq!(queue.len(), 0);
}

#[test]
fn chunk_size_of_zero_hands_off_every_sample() {
    let mut queue = SampleQueue::new(0);
    assert_eq!(queue.push(5), Some(vec![5]));
    assert_eq!(queue.push(6), Some(vec![6]));
    assert_eq!(queue.len(), 0);
}

#[test]
fn samples_keep_their_bits() {
    let mut queue = SampleQueue::new(3);
    let samples = [0.25f32, -1.0, f32::MIN_POSITIVE];
    queue.push(samples[0].to_bits());
    queue.push(samples[1].to_bits());
    let chunk = queue.push(samples[2].to_bits()).unwrap();
    let back: Vec<f32> = chunk.iter().map(|bits| f32::from_bits(*bits)).collect();
    assert_eq!(back, samples);
}
