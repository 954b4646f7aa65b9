use bili_cli::queue::{ChunkQueue, Pop, Push, QUEUE_CAPACITY};

#[test]
fn chunks_come_out_in_the_order_they_went_in() {
    let mut queue = ChunkQueue::new(4);
    assert_eq!(queue.try_push(vec![1, 2, 3]), Push::Accepted);
    assert_eq!(queue.try_push(vec![]), Push::Accepted);
    assert_eq!(queue.try_push(vec![4]), Push::Accepted);
    assert_eq!(queue.len(), 3);
    assert_eq!(queue.try_pop(), Pop::Chunk(vec![1, 2, 3]));
    assert_eq!(queue.try_pop(), Pop::Chunk(vec![]));
    assert_eq!(queue.try_pop(), Pop::Chunk(vec![4]));
    assert_eq!(queue.try_pop(), Pop::Empty);
}

#[test]
fn dequeued_bytes_reproduce_the_stream() {
    let source: Vec<u8> = (0..=255u8).cycle().take(10_000).collect();
    let mut queue = ChunkQueue::new(3);
    let mut written: Vec<u8> = Vec::new();
    let mut chunks = source.chunks(777).map(|c| c.to_vec());
    let mut held: Option<Vec<u8>> = chunks.next();
    loop {
        match held.take() {
            Some(chunk) => match queue.try_push(chunk) {
                Push::Accepted => held = chunks.next(),
                Push::Full(back) => {
                    held = Some(back);
                    match queue.try_pop() {
                        Pop::Chunk(c) => written.extend_from_slice(&c),
                        other => panic!("a full queue handed out {:?}", other),
                    }
                }
                Push::Closed(_) => panic!("the queue closed early"),
            },
            None => {
                queue.close();
                break;
            }
        }
    }
    loop {
        match queue.try_pop() {
            Pop::Chunk(c) => written.extend_from_slice(&c),
            Pop::Finished => break,
            Pop::Empty => panic!("a closed queue never waits"),
        }
    }
    assert_eq!(written, source);
}

#[test]
fn full_queue_hands_the_chunk_back() {
    let mut queue = ChunkQueue::new(1);
    assert!(!queue.is_full());
    assert_eq!(queue.try_push(vec![9]), Push::Accepted);
    assert!(queue.is_full());
    assert_eq!(queue.try_push(vec![8, 7]), Push::Full(vec![8, 7]));
    assert_eq!(queue.len(), 1);
    assert_eq!(queue.try_pop(), Pop::Chunk(vec![9]));
    assert_eq!(queue.try_push(vec![8, 7]), Push::Accepted);
}

#[test]
fn closed_queue_drains_and_then_finishes() {
    let mut queue = ChunkQueue::new(2);
    assert_eq!(queue.try_push(vec![1]), Push::Accepted);
    assert!(!queue.is_closed());
    queue.close();
    assert!(queue.is_closed());
    assert_eq!(queue.try_push(vec![2]), Push::Closed(vec![2]));
    assert_eq!(queue.try_pop(), Pop::Chunk(vec![1]));
    assert_eq!(queue.try_pop(), Pop::Finished);
    assert_eq!(queue.try_pop(), Pop::Finished);
}

#[test]
fn capacity_is_kept() {
    assert_eq!(QUEUE_CAPACITY, 1 << 10);
    let queue = ChunkQueue::new(QUEUE_CAPACITY);
    assert_eq!(queue.capacity(), 1024);
    assert_eq!(queue.len(), 0);
}
