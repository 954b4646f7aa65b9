use bili_cli::error::Error;
use bili_cli::pipe::{ReaderStep, TransferPipe, WriterStep};
use bili_cli::progress::Progress;
use bili_cli::transfer::{checkpoint, plan_transfer, TransferPlan};

/// Runs reader and writer in turn over a source cut into reads of `read_len`
/// bytes, starting from a file that holds `file`.
fn run(
    source: &[u8],
    read_len: usize,
    capacity: usize,
    mut file: Vec<u8>,
    total: u64,
) -> (Result<(), Error>, Vec<u8>, Progress) {
    let mut pipe = TransferPipe::open(file.len() as u64, total, capacity).unwrap();
    let mut reads = source.chunks(read_len).map(|c| c.to_vec());
    let mut held: Option<Vec<u8>> = None;
    let mut reading = true;
    loop {
        if reading {
            let read = match held.take() {
                Some(chunk) => chunk,
                None => reads.next().unwrap_or_default(),
            };
            match pipe.offer(read) {
                ReaderStep::Queued => continue,
                ReaderStep::Retry(back) => held = Some(back),
                ReaderStep::Ended => reading = false,
            }
        }
        match pipe.take() {
            WriterStep::Append(bytes) => file.extend_from_slice(&bytes),
            WriterStep::Wait => assert!(reading),
            WriterStep::Flush => break,
            WriterStep::Abort(_) => break,
        }
    }
    let ended = pipe.finish();
    assert_eq!(pipe.bytes_transferred(), file.len() as u64);
    (ended, file, pipe.progress())
}

#[test]
fn resumed_transfer_ends_with_the_whole_file() {
    let remote: Vec<u8> = (0..5000u32).map(|i| (i % 251) as u8).collect();
    let local = remote[..1000].to_vec();
    let offset = checkpoint(true, Some(local.len() as u64));
    assert_eq!(plan_transfer(offset, 5000), TransferPlan::Resume(1000));
    let (outcome, file, progress) = run(&remote[1000..], 300, 2, local, 5000);
    assert_eq!(outcome, Ok(()));
    assert_eq!(file.len(), 5000);
    assert_eq!(file, remote);
    assert_eq!(progress, Progress { total: 5000, position: 5000, finished: true });
}

#[test]
fn fresh_transfer_writes_the_stream_in_order() {
    let remote: Vec<u8> = (0..70_000u32).map(|i| (i * 7 % 256) as u8).collect();
    let (outcome, file, _) = run(&remote, 4096, 1, Vec::new(), 70_000);
    assert_eq!(outcome, Ok(()));
    assert_eq!(file, remote);
}

#[test]
fn truncated_stream_fails_and_keeps_the_partial_file() {
    let remote: Vec<u8> = vec![7; 3000];
    let (outcome, file, progress) = run(&remote, 512, 4, Vec::new(), 5000);
    assert_eq!(outcome, Err(Error::StreamAbort));
    assert_eq!(file.len(), 3000);
    assert_eq!(progress, Progress { total: 5000, position: 3000, finished: true });
}

#[test]
fn overlong_stream_is_aborted_before_the_surplus_is_written() {
    let remote: Vec<u8> = vec![1; 1200];
    let (outcome, file, _) = run(&remote, 500, 4, Vec::new(), 1100);
    assert_eq!(outcome, Err(Error::StreamAbort));
    assert_eq!(file.len(), 1000);
}

#[test]
fn pipe_refuses_a_checkpoint_beyond_the_total() {
    assert!(TransferPipe::open(6000, 5000, 4).is_err());
    assert!(TransferPipe::open(5000, 5000, 4).is_ok());
}

#[test]
fn complete_file_needs_no_bytes() {
    let mut pipe = TransferPipe::open(5000, 5000, 4).unwrap();
    assert_eq!(pipe.offer(vec![]), ReaderStep::Ended);
    assert_eq!(pipe.take(), WriterStep::Flush);
    assert_eq!(pipe.finish(), Ok(()));
    assert_eq!(pipe.bytes_transferred(), 5000);
}

#[test]
fn empty_read_closes_the_queue() {
    let mut pipe = TransferPipe::open(0, 100, 2).unwrap();
    assert_eq!(pipe.offer(vec![1, 2]), ReaderStep::Queued);
    assert_eq!(pipe.offer(vec![3]), ReaderStep::Queued);
    assert_eq!(pipe.offer(vec![4]), ReaderStep::Retry(vec![4]));
    assert_eq!(pipe.offer(vec![]), ReaderStep::Ended);
    assert_eq!(pipe.offer(vec![5]), ReaderStep::Ended);
    assert_eq!(pipe.take(), WriterStep::Append(vec![1, 2]));
    assert_eq!(pipe.take(), WriterStep::Append(vec![3]));
    assert_eq!(pipe.take(), WriterStep::Flush);
    assert_eq!(pipe.finish(), Err(Error::StreamAbort));
}

#[test]
fn writer_waits_for_an_open_queue_and_flushes_a_closed_one() {
    let mut pipe = TransferPipe::open(0, 3, 2).unwrap();
    assert_eq!(pipe.take(), WriterStep::Wait);
    pipe.offer(vec![9, 9, 9]);
    pipe.offer(vec![]);
    assert_eq!(pipe.take(), WriterStep::Append(vec![9, 9, 9]));
    assert_eq!(pipe.progress().position, 3);
    assert_eq!(pipe.bytes_transferred(), 3);
    assert_eq!(pipe.take(), WriterStep::Flush);
    assert_eq!(pipe.finish(), Ok(()));
}

#[test]
fn aborted_transfer_stops_both_sides_and_fails() {
    let mut pipe = TransferPipe::open(0, 10, 2).unwrap();
    assert_eq!(pipe.offer(vec![1, 2, 3]), ReaderStep::Queued);
    pipe.abort();
    assert_eq!(pipe.offer(vec![4]), ReaderStep::Ended);
    assert_eq!(pipe.take(), WriterStep::Abort(Error::StreamAbort));
    assert_eq!(pipe.finish(), Err(Error::StreamAbort));
    assert_eq!(pipe.bytes_transferred(), 0);
}

#[test]
fn finishing_before_the_reader_has_closed_is_a_failure() {
    let mut pipe = TransferPipe::open(0, 2, 2).unwrap();
    pipe.offer(vec![1, 2]);
    assert_eq!(pipe.take(), WriterStep::Append(vec![1, 2]));
    assert_eq!(pipe.finish(), Err(Error::StreamAbort));
}
