use transcribe::channel::{AudioChunk, ChunkQueue};

#[test]
fn chunk_keeps_its_samples() {
    let chunk = AudioChunk::new(vec![1, -2, 3]);
    assert_eq!(chunk.len(), 3);
    assert_eq!(chunk.samples(), &vec![1, -2, 3]);
}

#[test]
fn chunks_are_received_in_send_order() {
    // Channel ordering: C1, C2, C3 sent in that order come out in exactly
    // that order.
    let mut q = ChunkQueue::new();
    q.send(AudioChunk::new(vec![1, 1]));
    q.send(AudioChunk::new(vec![2, 2]));
    q.send(AudioChunk::new(vec![3, 3]));
    assert_eq!(q.recv().unwrap().samples(), &vec![1, 1]);
    assert_eq!(q.recv().unwrap().samples(), &vec![2, 2]);
    assert_eq!(q.recv().unwrap().samples(), &vec![3, 3]);
    assert!(q.recv().is_none());
}

#[test]
fn bursty_producer_never_reorders() {
    // A bursty producer interleaved with a slow consumer: the consumer
    // still sees the chunks in exactly the order they were sent.
    let mut q = ChunkQueue::new();
    let mut received: Vec<i16> = Vec::new();
    let mut next: i16 = 0;
    // Bursts of varying size, with receives interleaved between them.
    for &burst in &[3usize, 1, 4, 2] {
        for _ in 0..burst {
            q.send(AudioChunk::new(vec![next]));
            next += 1;
        }
        if let Some(c) = q.recv() {
            received.push(c.samples()[0]);
        }
    }
    while let Some(c) = q.recv() {
        received.push(c.samples()[0]);
    }
    let expected: Vec<i16> = (0..next).collect();
    assert_eq!(received, expected);
}

#[test]
fn recv_on_empty_queue_returns_none() {
    let mut q = ChunkQueue::new();
    assert!(q.is_empty());
    assert!(q.recv().is_none());
    assert_eq!(q.len(), 0);
}

#[test]
fn drain_returns_everything_in_order() {
    let mut q = ChunkQueue::new();
    q.send(AudioChunk::new(vec![7]));
    q.send(AudioChunk::new(vec![8]));
    q.send(AudioChunk::new(vec![9]));
    assert_eq!(q.len(), 3);
    let all = q.drain();
    assert!(q.is_empty());
    let samples: Vec<i16> = all.iter().map(|c| c.samples()[0]).collect();
    assert_eq!(samples, vec![7, 8, 9]);
}
