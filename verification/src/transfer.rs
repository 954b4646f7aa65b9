use vstd::prelude::*;
use crate::error::Error;
use crate::text::{joined_text, decimal_text, digits_value, is_digits, parse_u64, u64_text};

verus! {

/// The user agent that every request for a stream carries; without it the
/// server answers with a client error.
pub const USER_AGENT: &'static str =
    "Mozilla/5.0 (Macintosh; Intel Mac OS X 10_15_7) AppleWebKit/537.36 (KHTML, like Gecko) Chrome/98.0.4758.80 Safari/537.36";

/// The referer that every request for a stream carries.
pub const REFERER: &'static str = "https://www.bilibili.com";

/// The number of bytes that one read from the network asks for, and so the
/// largest chunk that is queued.
pub const CHUNK_SIZE: usize = 262144;

/// The value of the `Range` header that asks for everything from `begin` on.
pub open spec fn range_text(begin: u64) -> Seq<char> {
    "bytes="@ + decimal_text(begin as int) + "-"@
}

/// The value of the `Range` header of a request that resumes at `begin`.
pub fn range_header(begin: u64) -> (value: String)
    ensures
        value@ == range_text(begin),
{
    let offset = u64_text(begin);
    let head = joined_text("bytes=", offset.as_str());
    joined_text(head.as_str(), "-")
}

/// A header of a request: its name and its value.
#[derive(Clone, Debug, PartialEq, Eq)]
pub struct Header {
    pub name: String,
    pub value: String,
}

/// The names and values of the headers of a request for a stream: the user
/// agent and the referer, and a range where the request resumes at an offset.
pub open spec fn headers_of(begin: Option<u64>) -> Seq<(Seq<char>, Seq<char>)> {
    let fixed = seq![("user-agent"@, USER_AGENT@), ("referer"@, REFERER@)];
    match begin {
        Some(offset) => fixed.push(("Range"@, range_text(offset))),
        None => fixed,
    }
}

/// The names and values of a list of headers.
pub open spec fn headers_view(headers: Seq<Header>) -> Seq<(Seq<char>, Seq<char>)> {
    Seq::new(headers.len(), |i: int| (headers[i].name@, headers[i].value@))
}

/// The headers of a request for a stream, which asks for the bytes from
/// `begin` on where an offset is given and for all of them otherwise.
pub fn request_headers(begin: Option<u64>) -> (headers: Vec<Header>)
    ensures
        headers_view(headers@) == headers_of(begin),
{
    let mut headers: Vec<Header> = Vec::new();
    headers.push(Header { name: "user-agent".to_owned(), value: USER_AGENT.to_owned() });
    headers.push(Header { name: "referer".to_owned(), value: REFERER.to_owned() });
    if let Some(offset) = begin {
        headers.push(Header { name: "Range".to_owned(), value: range_header(offset) });
    }
    assert(headers_view(headers@) =~= headers_of(begin));
    headers
}

/// Whether a status code reports a client or a server error.
pub open spec fn is_error_status(status: u16) -> bool {
    400 <= status < 600
}

/// Judges the status of a response: a client or server error stops the
/// transfer, any other status lets it go on.
pub fn check_status(status: u16) -> (checked: Result<(), Error>)
    ensures
        checked == if is_error_status(status) {
            Err::<(), Error>(Error::HTTPStatusError(status))
        } else {
            Ok::<(), Error>(())
        },
{
    if 400 <= status && status < 600 {
        Err(Error::HTTPStatusError(status))
    } else {
        Ok(())
    }
}

/// Whether a header value declares a length: decimal digits that fit 64 bits.
pub open spec fn declares_length(value: Seq<char>) -> bool {
    value.len() > 0 && is_digits(value) && digits_value(value) <= u64::MAX
}

/// Reads the declared size of a response from its `content-length` header.
///
/// A missing header, and one that is not a decimal number of 64 bits, leave
/// the size unknown, which is an error.
pub fn content_length(header: Option<&str>) -> (size: Result<u64, Error>)
    ensures
        size is Ok <==> header is Some && declares_length(header->0@),
        size is Ok ==> size->Ok_0 == digits_value(header->0@),
        size is Err ==> size->Err_0 == Error::ContentLengthMissing,
{
    match header {
        Some(value) => match parse_u64(value) {
            Some(n) => Ok(n),
            None => Err(Error::ContentLengthMissing),
        },
        None => Err(Error::ContentLengthMissing),
    }
}

/// The offset that a transfer starts from: the size of the file that is
/// already there where resuming is enabled, zero otherwise.
pub open spec fn checkpoint_of(resume_enabled: bool, existing_size: Option<u64>) -> u64 {
    if resume_enabled && existing_size is Some {
        existing_size->0
    } else {
        0
    }
}

/// Determines the checkpoint of a transfer. `existing_size` is the size of
/// the destination file, `None` where there is no such file.
pub fn checkpoint(resume_enabled: bool, existing_size: Option<u64>) -> (offset: u64)
    ensures
        offset == checkpoint_of(resume_enabled, existing_size),
{
    if resume_enabled {
        match existing_size {
            Some(size) => size,
            None => 0,
        }
    } else {
        0
    }
}

/// How a transfer proceeds once the remote size is known.
#[derive(Clone, Copy, Debug, PartialEq, Eq, Structural)]
pub enum TransferPlan {
    /// The file is complete: nothing is requested, read or written.
    Skip,
    /// Nothing usable is on disk: the file is created and the body of the
    /// response that declared the size is streamed into it.
    Fresh,
    /// Part of the file is on disk: one request asks for the bytes from the
    /// given offset on, and they are appended to the file.
    Resume(u64),
}

/// The plan for a checkpoint and a remote size.
pub open spec fn plan_of(checkpoint: u64, remote_size: u64) -> TransferPlan {
    if checkpoint == remote_size {
        TransferPlan::Skip
    } else if checkpoint == 0 {
        TransferPlan::Fresh
    } else {
        TransferPlan::Resume(checkpoint)
    }
}

/// The number of requests that a plan issues.
pub open spec fn requests_of(plan: TransferPlan) -> nat {
    match plan {
        TransferPlan::Skip => 0,
        TransferPlan::Fresh => 0,
        TransferPlan::Resume(_) => 1,
    }
}

/// Whether a plan reads from the network stream at all.
pub open spec fn reads_stream(plan: TransferPlan) -> bool {
    plan != TransferPlan::Skip
}

/// Decides how to proceed from the checkpoint and the declared remote size.
pub fn plan_transfer(checkpoint: u64, remote_size: u64) -> (plan: TransferPlan)
    ensures
        plan == plan_of(checkpoint, remote_size),
{
    if checkpoint == remote_size {
        TransferPlan::Skip
    } else if checkpoint == 0 {
        TransferPlan::Fresh
    } else {
        TransferPlan::Resume(checkpoint)
    }
}

/// The byte counters of one transfer of one asset to one file.
#[derive(Clone, Copy, Debug, PartialEq, Eq)]
pub struct TransferSession {
    checkpoint_offset: u64,
    expected_total_size: u64,
    bytes_transferred: u64,
}

/// The mathematical value of a [`TransferSession`].
pub struct SessionView {
    /// The offset at which the transfer began.
    pub checkpoint_offset: nat,
    /// The size that the file must reach.
    pub expected_total_size: nat,
    /// The size that the file has reached.
    pub bytes_transferred: nat,
}

impl SessionView {
    /// The counters are in order: the file never shrinks below the
    /// checkpoint and never grows beyond the expected size.
    pub open spec fn wf(self) -> bool {
        self.checkpoint_offset <= self.bytes_transferred <= self.expected_total_size
    }

    /// Whether the file has reached its expected size.
    pub open spec fn is_complete(self) -> bool {
        self.bytes_transferred == self.expected_total_size
    }

    /// The session after a chunk of `len` bytes was written; `None` where the
    /// chunk would take the file beyond its expected size.
    pub open spec fn record(self, len: nat) -> Option<SessionView> {
        if self.bytes_transferred + len <= self.expected_total_size {
            Some(SessionView { bytes_transferred: self.bytes_transferred + len, ..self })
        } else {
            None
        }
    }

    /// The session after the chunks of the given lengths were written in
    /// order; `None` where one of them would take the file beyond its size.
    pub open spec fn record_all(self, lens: Seq<nat>) -> Option<SessionView>
        decreases lens.len(),
    {
        if lens.len() == 0 {
            Some(self)
        } else {
            match self.record_all(lens.drop_last()) {
                Some(before) => before.record(lens.last()),
                None => None,
            }
        }
    }
}

/// The sum of a list of lengths.
pub open spec fn total_length(lens: Seq<nat>) -> nat
    decreases lens.len(),
{
    if lens.len() == 0 {
        0
    } else {
        total_length(lens.drop_last()) + lens.last()
    }
}

impl View for TransferSession {
    type V = SessionView;

    closed spec fn view(&self) -> SessionView {
        SessionView {
            checkpoint_offset: self.checkpoint_offset as nat,
            expected_total_size: self.expected_total_size as nat,
            bytes_transferred: self.bytes_transferred as nat,
        }
    }
}

impl TransferSession {
    /// Whether the counters are in order.
    pub open spec fn wf(&self) -> bool {
        self@.wf()
    }

    /// Begins a session at `checkpoint_offset` for a file that is to reach
    /// `expected_total_size`. A checkpoint beyond that size cannot be
    /// completed by any stream and is refused.
    pub fn start(checkpoint_offset: u64, expected_total_size: u64) -> (started: Result<
        TransferSession,
        Error,
    >)
        ensures
            started is Ok <==> checkpoint_offset <= expected_total_size,
            started is Ok ==> (started->Ok_0).wf() && (started->Ok_0)@ == (SessionView {
                checkpoint_offset: checkpoint_offset as nat,
                expected_total_size: expected_total_size as nat,
                bytes_transferred: checkpoint_offset as nat,
            }),
            started is Err ==> started->Err_0 == Error::StreamAbort,
    {
        if checkpoint_offset <= expected_total_size {
            Ok(
                TransferSession {
                    checkpoint_offset,
                    expected_total_size,
                    bytes_transferred: checkpoint_offset,
                },
            )
        } else {
            Err(Error::StreamAbort)
        }
    }

    /// The offset at which the transfer began.
    pub fn checkpoint_offset(&self) -> (offset: u64)
        ensures
            offset == self@.checkpoint_offset,
    {
        self.checkpoint_offset
    }

    /// The size that the file must reach.
    pub fn expected_total_size(&self) -> (size: u64)
        ensures
            size == self@.expected_total_size,
    {
        self.expected_total_size
    }

    /// The size that the file has reached.
    pub fn bytes_transferred(&self) -> (count: u64)
        ensures
            count == self@.bytes_transferred,
    {
        self.bytes_transferred
    }

    /// The number of bytes that are still to come.
    pub fn remaining(&self) -> (count: u64)
        requires
            self.wf(),
        ensures
            count == self@.expected_total_size - self@.bytes_transferred,
    {
        self.expected_total_size - self.bytes_transferred
    }

    /// Accounts for a chunk of `len` bytes that was appended to the file.
    ///
    /// A chunk that would take the file beyond its expected size aborts the
    /// stream and leaves the counters as they were.
    pub fn record_chunk(&mut self, len: u64) -> (recorded: Result<(), Error>)
        requires
            old(self).wf(),
        ensures
            final(self).wf(),
            recorded is Ok <==> old(self)@.record(len as nat) is Some,
            recorded is Ok ==> final(self)@ == old(self)@.record(len as nat)->0,
            recorded is Err ==> recorded->Err_0 == Error::StreamAbort && final(self)@ == old(self)@,
    {
        if len <= self.expected_total_size - self.bytes_transferred {
            self.bytes_transferred = self.bytes_transferred + len;
            Ok(())
        } else {
            Err(Error::StreamAbort)
        }
    }

    /// Whether the file has reached its expected size.
    pub fn is_complete(&self) -> (complete: bool)
        ensures
            complete == self@.is_complete(),
    {
        self.bytes_transferred == self.expected_total_size
    }

    /// Judges the session once the stream has ended: it succeeded if and only
    /// if the file has reached its expected size.
    pub fn finish(&self) -> (ended: Result<(), Error>)
        ensures
            ended == if self@.is_complete() {
                Ok::<(), Error>(())
            } else {
                Err::<(), Error>(Error::StreamAbort)
            },
    {
        if self.bytes_transferred == self.expected_total_size {
            Ok(())
        } else {
            Err(Error::StreamAbort)
        }
    }
}

/// A file that already has the remote size is skipped: no request is issued
/// and nothing is read, for every such size.
pub proof fn lemma_complete_file_is_skipped(checkpoint: u64, remote_size: u64)
    requires
        checkpoint == remote_size,
    ensures
        plan_of(checkpoint, remote_size) == TransferPlan::Skip,
        requests_of(plan_of(checkpoint, remote_size)) == 0,
        !reads_stream(plan_of(checkpoint, remote_size)),
{
}

/// Only a complete file is skipped, and a transfer resumes exactly at the
/// checkpoint.
pub proof fn lemma_plan_follows_checkpoint(checkpoint: u64, remote_size: u64)
    ensures
        plan_of(checkpoint, remote_size) == TransferPlan::Skip <==> checkpoint == remote_size,
        plan_of(checkpoint, remote_size) == TransferPlan::Fresh ==> checkpoint == 0,
        forall|offset: u64|
            plan_of(checkpoint, remote_size) == TransferPlan::Resume(offset) ==> offset
                == checkpoint && offset != 0,
{
}

/// Writing chunks keeps the counters in order and moves only the count of
/// transferred bytes, by the sum of the chunks' lengths.
pub proof fn lemma_record_all(session: SessionView, lens: Seq<nat>)
    requires
        session.wf(),
    ensures
        session.record_all(lens) is Some <==> session.bytes_transferred + total_length(lens)
            <= session.expected_total_size,
        session.record_all(lens) is Some ==> {
            let after = session.record_all(lens)->0;
            &&& after.wf()
            &&& after.checkpoint_offset == session.checkpoint_offset
            &&& after.expected_total_size == session.expected_total_size
            &&& after.bytes_transferred == session.bytes_transferred + total_length(lens)
        },
    decreases lens.len(),
{
    if lens.len() > 0 {
        lemma_record_all(session, lens.drop_last());
    }
}

/// Bytes are conserved: when a session that began at its checkpoint has
/// written the chunks read from the network and ends complete, the bytes it
/// transferred beyond the checkpoint are the bytes read, and the file has
/// the expected size.
pub proof fn lemma_byte_conservation(checkpoint: nat, expected: nat, lens: Seq<nat>)
    requires
        checkpoint <= expected,
        (SessionView {
            checkpoint_offset: checkpoint,
            expected_total_size: expected,
            bytes_transferred: checkpoint,
        }).record_all(lens) is Some,
        (SessionView {
            checkpoint_offset: checkpoint,
            expected_total_size: expected,
            bytes_transferred: checkpoint,
        }).record_all(lens)->0.is_complete(),
    ensures
        ({
            let after = (SessionView {
                checkpoint_offset: checkpoint,
                expected_total_size: expected,
                bytes_transferred: checkpoint,
            }).record_all(lens)->0;
            &&& after.bytes_transferred - checkpoint == total_length(lens)
            &&& after.bytes_transferred == expected
        }),
{
    lemma_record_all(
        SessionView {
            checkpoint_offset: checkpoint,
            expected_total_size: expected,
            bytes_transferred: checkpoint,
        },
        lens,
    );
}

} // verus!
