use vstd::prelude::*;
use std::collections::VecDeque;

verus! {

/// The number of chunks that the queue between the reader and the writer of
/// a transfer holds at most.
pub const QUEUE_CAPACITY: usize = 1024;

/// The bytes of the chunks of a list, one chunk after the other.
pub open spec fn concat_all(chunks: Seq<Seq<u8>>) -> Seq<u8>
    decreases chunks.len(),
{
    if chunks.len() == 0 {
        Seq::empty()
    } else {
        concat_all(chunks.drop_last()) + chunks.last()
    }
}

/// The bytes of each chunk of a list.
pub open spec fn chunks_view(chunks: Seq<Vec<u8>>) -> Seq<Seq<u8>> {
    Seq::new(chunks.len(), |i: int| chunks[i]@)
}

/// Taking the first chunk off a list takes its bytes off the front.
pub proof fn lemma_concat_all_first(chunks: Seq<Seq<u8>>)
    requires
        chunks.len() > 0,
    ensures
        concat_all(chunks) == chunks.first() + concat_all(chunks.drop_first()),
    decreases chunks.len(),
{
    if chunks.len() == 1 {
        assert(chunks.drop_last() =~= Seq::<Seq<u8>>::empty());
        assert(chunks.drop_first() =~= Seq::<Seq<u8>>::empty());
        assert(concat_all(chunks) =~= chunks.first() + concat_all(chunks.drop_first()));
    } else {
        lemma_concat_all_first(chunks.drop_last());
        assert(chunks.drop_last().drop_first() =~= chunks.drop_first().drop_last());
        assert(chunks.drop_last().first() == chunks.first());
        assert(chunks.drop_first().last() == chunks.last());
        assert(concat_all(chunks) =~= chunks.first() + concat_all(chunks.drop_first()));
    }
}

/// A bounded first-in, first-out queue of byte chunks with one producer and
/// one consumer.
///
/// The producer pushes until it closes the queue; a full queue refuses the
/// chunk, which holds the producer back. The consumer pops until the queue
/// is closed and empty.
pub struct ChunkQueue {
    chunks: VecDeque<Vec<u8>>,
    capacity: usize,
    closed: bool,
    sent: Ghost<Seq<u8>>,
    received: Ghost<Seq<u8>>,
}

/// The mathematical value of a [`ChunkQueue`].
pub struct QueueView {
    /// The chunks that wait in the queue, the oldest first.
    pub pending: Seq<Seq<u8>>,
    /// The largest number of chunks that may wait.
    pub capacity: nat,
    /// Whether the producer has closed the queue.
    pub closed: bool,
    /// Every byte that was ever accepted, in the order of acceptance.
    pub sent: Seq<u8>,
    /// Every byte that was ever handed out, in the order of handing out.
    pub received: Seq<u8>,
}

impl QueueView {
    /// The queue is within its bound, and what was accepted is what was
    /// handed out followed by what still waits.
    pub open spec fn wf(self) -> bool {
        &&& 1 <= self.capacity
        &&& self.pending.len() <= self.capacity
        &&& self.sent == self.received + concat_all(self.pending)
    }

    /// Whether the queue holds as many chunks as it may.
    pub open spec fn is_full(self) -> bool {
        self.pending.len() >= self.capacity
    }

    /// Whether the consumer has seen everything: the queue is closed and empty.
    pub open spec fn is_drained(self) -> bool {
        self.closed && self.pending.len() == 0
    }
}

/// What became of a chunk that was offered to the queue.
#[derive(Debug, PartialEq, Eq)]
pub enum Push {
    /// The chunk waits in the queue.
    Accepted,
    /// The queue is full: the chunk comes back and is to be offered again
    /// once the consumer has taken one.
    Full(Vec<u8>),
    /// The queue is closed: the chunk comes back and is never accepted.
    Closed(Vec<u8>),
}

/// What the consumer gets when it asks for a chunk.
#[derive(Debug, PartialEq, Eq)]
pub enum Pop {
    /// The oldest chunk.
    Chunk(Vec<u8>),
    /// Nothing waits, but the producer may still push.
    Empty,
    /// Nothing waits and nothing will come.
    Finished,
}

impl View for ChunkQueue {
    type V = QueueView;

    closed spec fn view(&self) -> QueueView {
        QueueView {
            pending: chunks_view(self.chunks@),
            capacity: self.capacity as nat,
            closed: self.closed,
            sent: self.sent@,
            received: self.received@,
        }
    }
}

impl ChunkQueue {
    /// Whether the queue is within its bound and has lost no byte.
    pub open spec fn wf(&self) -> bool {
        self@.wf()
    }

    /// An open, empty queue that holds up to `capacity` chunks.
    pub fn new(capacity: usize) -> (queue: ChunkQueue)
        requires
            capacity >= 1,
        ensures
            queue.wf(),
            queue@ == (QueueView {
                pending: Seq::empty(),
                capacity: capacity as nat,
                closed: false,
                sent: Seq::empty(),
                received: Seq::empty(),
            }),
    {
        let queue = ChunkQueue {
            chunks: VecDeque::new(),
            capacity,
            closed: false,
            sent: Ghost(Seq::empty()),
            received: Ghost(Seq::empty()),
        };
        assert(queue@.pending =~= Seq::<Seq<u8>>::empty());
        assert(queue@.sent =~= queue@.received + concat_all(queue@.pending));
        queue
    }

    /// The number of chunks that wait.
    pub fn len(&self) -> (count: usize)
        ensures
            count == self@.pending.len(),
    {
        self.chunks.len()
    }

    /// The largest number of chunks that may wait.
    pub fn capacity(&self) -> (capacity: usize)
        ensures
            capacity == self@.capacity,
    {
        self.capacity
    }

    /// Whether the producer has closed the queue.
    pub fn is_closed(&self) -> (closed: bool)
        ensures
            closed == self@.closed,
    {
        self.closed
    }

    /// Whether a chunk offered now would be refused for want of room.
    pub fn is_full(&self) -> (full: bool)
        ensures
            full == self@.is_full(),
    {
        self.chunks.len() >= self.capacity
    }

    /// Offers a chunk to the queue.
    ///
    /// An open queue with room takes it behind all that wait. A closed queue
    /// and a full one hand it back and stay as they were.
    pub fn try_push(&mut self, chunk: Vec<u8>) -> (pushed: Push)
        requires
            old(self).wf(),
        ensures
            final(self).wf(),
            final(self)@.capacity == old(self)@.capacity,
            final(self)@.closed == old(self)@.closed,
            final(self)@.received == old(self)@.received,
            old(self)@.closed ==> pushed == Push::Closed(chunk) && final(self)@ == old(self)@,
            !old(self)@.closed && old(self)@.is_full() ==> {
                &&& pushed == Push::Full(chunk)
                &&& final(self)@ == old(self)@
            },
            !old(self)@.closed && !old(self)@.is_full() ==> {
                &&& pushed == Push::Accepted
                &&& final(self)@.pending == old(self)@.pending.push(chunk@)
                &&& final(self)@.sent == old(self)@.sent + chunk@
            },
    {
        if self.closed {
            return Push::Closed(chunk);
        }
        if self.chunks.len() >= self.capacity {
            return Push::Full(chunk);
        }
        proof {
            let before = chunks_view(self.chunks@);
            let after = before.push(chunk@);
            assert(after.drop_last() =~= before);
            assert(chunks_view(self.chunks@.push(chunk)) =~= after);
            assert(self.received@ + (concat_all(before) + chunk@) =~= (self.received@ + concat_all(
                before,
            )) + chunk@);
        }
        self.sent = Ghost(self.sent@ + chunk@);
        self.chunks.push_back(chunk);
        Push::Accepted
    }

    /// Closes the queue: what waits can still be taken, nothing more is accepted.
    pub fn close(&mut self)
        requires
            old(self).wf(),
        ensures
            final(self).wf(),
            final(self)@ == (QueueView { closed: true, ..old(self)@ }),
    {
        self.closed = true;
    }

    /// Asks for the oldest chunk.
    ///
    /// Chunks come out in the order they were accepted. An empty queue says
    /// whether more may come.
    pub fn try_pop(&mut self) -> (popped: Pop)
        requires
            old(self).wf(),
        ensures
            final(self).wf(),
            final(self)@.capacity == old(self)@.capacity,
            final(self)@.closed == old(self)@.closed,
            final(self)@.sent == old(self)@.sent,
            old(self)@.pending.len() > 0 ==> {
                &&& popped matches Pop::Chunk(chunk)
                &&& chunk@ == old(self)@.pending.first()
                &&& final(self)@.pending == old(self)@.pending.drop_first()
                &&& final(self)@.received == old(self)@.received + chunk@
            },
            old(self)@.pending.len() == 0 && old(self)@.closed ==> {
                &&& popped == Pop::Finished
                &&& final(self)@ == old(self)@
            },
            old(self)@.pending.len() == 0 && !old(self)@.closed ==> {
                &&& popped == Pop::Empty
                &&& final(self)@ == old(self)@
            },
    {
        let ghost before = chunks_view(self.chunks@);
        match self.chunks.pop_front() {
            Some(chunk) => {
                proof {
                    lemma_concat_all_first(before);
                    assert(chunks_view(self.chunks@) =~= before.drop_first());
                    assert(before.first() == chunk@);
                    assert(self.received@ + (chunk@ + concat_all(before.drop_first())) =~= (
                    self.received@ + chunk@) + concat_all(before.drop_first()));
                }
                self.received = Ghost(self.received@ + chunk@);
                Pop::Chunk(chunk)
            },
            None => {
                assert(chunks_view(self.chunks@) =~= before);
                if self.closed {
                    Pop::Finished
                } else {
                    Pop::Empty
                }
            },
        }
    }
}

/// Once the consumer has taken every chunk, the bytes it was handed are
/// exactly the bytes that were accepted, in the same order: nothing is
/// missing, doubled or out of place.
pub proof fn lemma_drained_queue_delivered_all(queue: QueueView)
    requires
        queue.wf(),
        queue.pending.len() == 0,
    ensures
        queue.received == queue.sent,
{
    assert(concat_all(queue.pending) =~= Seq::<u8>::empty());
    assert(queue.received + concat_all(queue.pending) =~= queue.received);
}

/// At every moment the bytes handed out are a prefix of the bytes accepted.
pub proof fn lemma_received_is_prefix(queue: QueueView)
    requires
        queue.wf(),
    ensures
        queue.received.len() <= queue.sent.len(),
        queue.sent.subrange(0, queue.received.len() as int) == queue.received,
{
    assert(queue.sent.subrange(0, queue.received.len() as int) =~= queue.received);
}

/// A chunk that joins a list at its end adds its bytes at the end: how a
/// stream is cut into chunks does not change the bytes that wait.
pub proof fn lemma_concat_all_push(chunks: Seq<Seq<u8>>, chunk: Seq<u8>)
    ensures
        concat_all(chunks.push(chunk)) == concat_all(chunks) + chunk,
{
    assert(chunks.push(chunk).drop_last() =~= chunks);
}

} // verus!
