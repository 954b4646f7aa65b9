use vstd::prelude::*;
use crate::error::Error;
use crate::progress::Progress;
use crate::queue::{ChunkQueue, Pop, Push, QueueView};
use crate::transfer::{SessionView, TransferSession};

verus! {

/// What the reader of a transfer does after a read from the network.
#[derive(Debug, PartialEq, Eq)]
pub enum ReaderStep {
    /// The chunk waits in the queue: read on.
    Queued,
    /// The queue is full: wait until the writer has taken a chunk, then
    /// offer this one again.
    Retry(Vec<u8>),
    /// The stream is exhausted, or the transfer is over: stop.
    Ended,
}

/// What the writer of a transfer does next.
#[derive(Debug, PartialEq, Eq)]
pub enum WriterStep {
    /// Append these bytes to the file.
    Append(Vec<u8>),
    /// Nothing waits yet: wait for the reader.
    Wait,
    /// Everything was written: flush the file and stop.
    Flush,
    /// The transfer has failed: stop, and leave the file as it is.
    Abort(Error),
}

/// One transfer in flight: the queue between its reader and its writer, the
/// byte counters, and what the display shows.
///
/// The reader offers what it reads, the writer takes what it is to append.
/// Nothing else passes between the two.
pub struct TransferPipe {
    queue: ChunkQueue,
    session: TransferSession,
    progress: Progress,
    aborted: bool,
}

/// The mathematical value of a [`TransferPipe`].
pub struct PipeView {
    /// The queue between reader and writer. Its `sent` is what was read from
    /// the network, its `received` what was handed to the writer.
    pub queue: QueueView,
    /// The byte counters.
    pub session: SessionView,
    /// What the display shows.
    pub progress: Progress,
    /// Whether the transfer was aborted.
    pub aborted: bool,
}

impl PipeView {
    /// The queue and the counters are in order, and while the transfer is
    /// not aborted the counters and the display agree with what was handed
    /// to the writer.
    pub open spec fn wf(self) -> bool {
        &&& self.queue.wf()
        &&& self.session.wf()
        &&& self.progress.total == self.session.expected_total_size
        &&& !self.aborted ==> {
            &&& self.session.bytes_transferred == self.session.checkpoint_offset
                + self.queue.received.len()
            &&& self.progress.position == self.session.bytes_transferred
        }
        &&& self.aborted ==> self.queue.closed
    }

    /// Whether the transfer has succeeded: it was not aborted, the reader
    /// has closed the queue, the writer has taken everything, and the file
    /// has its expected size.
    pub open spec fn succeeded(self) -> bool {
        !self.aborted && self.queue.is_drained() && self.session.is_complete()
    }
}

impl View for TransferPipe {
    type V = PipeView;

    closed spec fn view(&self) -> PipeView {
        PipeView {
            queue: self.queue@,
            session: self.session@,
            progress: self.progress,
            aborted: self.aborted,
        }
    }
}

impl TransferPipe {
    /// Whether the pipe is in order.
    pub open spec fn wf(&self) -> bool {
        self@.wf()
    }

    /// Opens the pipe of a transfer that begins at `checkpoint_offset` and is
    /// to reach `expected_total_size`, with a queue of `capacity` chunks.
    /// A checkpoint beyond the expected size is refused.
    pub fn open(checkpoint_offset: u64, expected_total_size: u64, capacity: usize) -> (opened: Result<
        TransferPipe,
        Error,
    >)
        requires
            capacity >= 1,
        ensures
            opened is Ok <==> checkpoint_offset <= expected_total_size,
            opened is Err ==> opened->Err_0 == Error::StreamAbort,
            opened is Ok ==> {
                let pipe = opened->Ok_0;
                &&& pipe.wf()
                &&& !pipe@.aborted
                &&& pipe@.queue == (QueueView {
                    pending: Seq::empty(),
                    capacity: capacity as nat,
                    closed: false,
                    sent: Seq::empty(),
                    received: Seq::empty(),
                })
                &&& pipe@.session == (SessionView {
                    checkpoint_offset: checkpoint_offset as nat,
                    expected_total_size: expected_total_size as nat,
                    bytes_transferred: checkpoint_offset as nat,
                })
                &&& pipe@.progress == (Progress {
                    total: expected_total_size,
                    position: checkpoint_offset,
                    finished: false,
                })
            },
    {
        match TransferSession::start(checkpoint_offset, expected_total_size) {
            Ok(session) => Ok(
                TransferPipe {
                    queue: ChunkQueue::new(capacity),
                    session,
                    progress: Progress::start(expected_total_size, checkpoint_offset),
                    aborted: false,
                },
            ),
            Err(e) => Err(e),
        }
    }

    /// The number of bytes that the file holds once all that was handed to
    /// the writer is appended.
    pub fn bytes_transferred(&self) -> (count: u64)
        ensures
            count == self@.session.bytes_transferred,
    {
        self.session.bytes_transferred()
    }

    /// What the display shows.
    pub fn progress(&self) -> (progress: Progress)
        ensures
            progress == self@.progress,
    {
        self.progress
    }

    /// Hands what a read from the network returned to the queue.
    ///
    /// A read of no bytes means that the stream is exhausted: the queue is
    /// closed. Any other read is offered to the queue as one chunk; a full
    /// queue hands it back, which holds the reader until there is room.
    /// What is read after the queue was closed is dropped.
    pub fn offer(&mut self, read: Vec<u8>) -> (step: ReaderStep)
        requires
            old(self).wf(),
        ensures
            final(self).wf(),
            final(self)@.session == old(self)@.session,
            final(self)@.progress == old(self)@.progress,
            final(self)@.aborted == old(self)@.aborted,
            final(self)@.queue.capacity == old(self)@.queue.capacity,
            final(self)@.queue.received == old(self)@.queue.received,
            read@.len() == 0 || old(self)@.queue.closed ==> {
                &&& step == ReaderStep::Ended
                &&& final(self)@.queue == (QueueView { closed: true, ..old(self)@.queue })
            },
            read@.len() > 0 && !old(self)@.queue.closed && old(self)@.queue.is_full() ==> {
                &&& step == ReaderStep::Retry(read)
                &&& final(self)@.queue == old(self)@.queue
            },
            read@.len() > 0 && !old(self)@.queue.closed && !old(self)@.queue.is_full() ==> {
                &&& step == ReaderStep::Queued
                &&& !final(self)@.queue.closed
                &&& final(self)@.queue.pending == old(self)@.queue.pending.push(read@)
                &&& final(self)@.queue.sent == old(self)@.queue.sent + read@
            },
    {
        if read.len() == 0 || self.queue.is_closed() {
            self.queue.close();
            return ReaderStep::Ended;
        }
        match self.queue.try_push(read) {
            Push::Accepted => ReaderStep::Queued,
            Push::Full(back) => ReaderStep::Retry(back),
            Push::Closed(_) => ReaderStep::Ended,
        }
    }

    /// Reports that the reader or the writer has failed. The transfer is
    /// aborted and the queue is closed, so that the other side stops too.
    /// The file is left as it is.
    pub fn abort(&mut self)
        requires
            old(self).wf(),
        ensures
            final(self).wf(),
            final(self)@ == (PipeView {
                aborted: true,
                queue: QueueView { closed: true, ..old(self)@.queue },
                ..old(self)@
            }),
    {
        self.aborted = true;
        self.queue.close();
    }

    /// Takes the next chunk for the writer and accounts for it.
    ///
    /// The oldest chunk of the queue is counted, shown by the display, and
    /// handed out to be appended to the file. A chunk that would take the
    /// file beyond its expected size aborts the transfer. An empty queue
    /// makes the writer wait while the reader may still push, and flush once
    /// the reader has closed it. An aborted transfer hands out nothing.
    pub fn take(&mut self) -> (step: WriterStep)
        requires
            old(self).wf(),
        ensures
            final(self).wf(),
            final(self)@.queue.capacity == old(self)@.queue.capacity,
            final(self)@.queue.sent == old(self)@.queue.sent,
            final(self)@.progress.position >= old(self)@.progress.position,
            old(self)@.aborted ==> {
                &&& step == WriterStep::Abort(Error::StreamAbort)
                &&& final(self)@ == old(self)@
            },
            !old(self)@.aborted && old(self)@.queue.pending.len() == 0 ==> {
                &&& step == (if old(self)@.queue.closed {
                    WriterStep::Flush
                } else {
                    WriterStep::Wait
                })
                &&& final(self)@ == old(self)@
            },
            !old(self)@.aborted && old(self)@.queue.pending.len() > 0 && old(self)@.session.record(
                old(self)@.queue.pending.first().len(),
            ) is Some ==> {
                &&& step matches WriterStep::Append(bytes)
                &&& bytes@ == old(self)@.queue.pending.first()
                &&& !final(self)@.aborted
                &&& final(self)@.queue.closed == old(self)@.queue.closed
                &&& final(self)@.queue.pending == old(self)@.queue.pending.drop_first()
                &&& final(self)@.queue.received == old(self)@.queue.received + bytes@
                &&& final(self)@.session == old(self)@.session.record(bytes@.len())->0
            },
            !old(self)@.aborted && old(self)@.queue.pending.len() > 0 && old(self)@.session.record(
                old(self)@.queue.pending.first().len(),
            ) is None ==> {
                &&& step == WriterStep::Abort(Error::StreamAbort)
                &&& final(self)@.aborted
                &&& final(self)@.session == old(self)@.session
                &&& final(self)@.progress == old(self)@.progress
            },
    {
        if self.aborted {
            return WriterStep::Abort(Error::StreamAbort);
        }
        match self.queue.try_pop() {
            Pop::Chunk(bytes) => {
                let len = bytes.len() as u64;
                match self.session.record_chunk(len) {
                    Ok(()) => {
                        self.progress.observe(self.session.bytes_transferred());
                        WriterStep::Append(bytes)
                    },
                    Err(e) => {
                        self.aborted = true;
                        self.queue.close();
                        WriterStep::Abort(e)
                    },
                }
            },
            Pop::Empty => WriterStep::Wait,
            Pop::Finished => WriterStep::Flush,
        }
    }

    /// Judges the transfer once both sides have stopped: it has succeeded if
    /// and only if it was not aborted, everything that was read was handed
    /// to the writer, and the file has its expected size. The display is
    /// cleared either way.
    pub fn finish(&mut self) -> (ended: Result<(), Error>)
        requires
            old(self).wf(),
        ensures
            final(self).wf(),
            final(self)@ == (PipeView {
                progress: Progress { finished: true, ..old(self)@.progress },
                ..old(self)@
            }),
            ended == if old(self)@.succeeded() {
                Ok::<(), Error>(())
            } else {
                Err::<(), Error>(Error::StreamAbort)
            },
    {
        self.progress.finish();
        if !self.aborted && self.queue.is_closed() && self.queue.len() == 0
            && self.session.is_complete() {
            Ok(())
        } else {
            Err(Error::StreamAbort)
        }
    }
}

/// A transfer that succeeds has conserved the bytes and kept their order:
/// what was handed to the writer is exactly what was read from the network,
/// the bytes transferred beyond the checkpoint are as many as were read,
/// and the file has its expected size.
pub proof fn lemma_successful_transfer(pipe: PipeView)
    requires
        pipe.wf(),
        pipe.succeeded(),
    ensures
        pipe.queue.received == pipe.queue.sent,
        pipe.session.bytes_transferred - pipe.session.checkpoint_offset == pipe.queue.sent.len(),
        pipe.session.bytes_transferred == pipe.session.expected_total_size,
{
    crate::queue::lemma_drained_queue_delivered_all(pipe.queue);
}

/// At every moment of a transfer that is not aborted, the file holds the
/// checkpoint's bytes and a prefix of what was read, and never more than its
/// expected size.
pub proof fn lemma_transfer_in_flight(pipe: PipeView)
    requires
        pipe.wf(),
        !pipe.aborted,
    ensures
        pipe.queue.received.len() <= pipe.queue.sent.len(),
        pipe.queue.sent.subrange(0, pipe.queue.received.len() as int) == pipe.queue.received,
        pipe.session.checkpoint_offset <= pipe.session.bytes_transferred
            <= pipe.session.expected_total_size,
        pipe.session.bytes_transferred == pipe.session.checkpoint_offset
            + pipe.queue.received.len(),
{
    crate::queue::lemma_received_is_prefix(pipe.queue);
}

} // verus!
