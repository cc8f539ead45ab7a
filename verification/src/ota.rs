//! Over-the-air firmware update: which error each failing call is reported
//! as, and the bookkeeping of the download loop.
use vstd::prelude::*;

verus! {

/// Why a firmware update failed.
#[derive(Clone, Copy, Debug, PartialEq, Eq, Structural)]
pub enum OtaError {
    UrlUnavailable,
    ConnectionInterrupted,
    EspBackendFailure,
    FileTooBig,
}

/// The human-readable description of an update error.
pub open spec fn ota_error_message(e: OtaError) -> Seq<char> {
    match e {
        OtaError::UrlUnavailable => "Url is unavailable"@,
        OtaError::ConnectionInterrupted => "Firmware download was interrupted"@,
        OtaError::EspBackendFailure => "ESP-IDF stack error"@,
        OtaError::FileTooBig => "Firmware does not fit the partition"@,
    }
}

impl OtaError {
    /// The human-readable description of this error.
    pub fn message(&self) -> (r: &'static str)
        ensures
            r@ == ota_error_message(*self),
    {
        match self {
            OtaError::UrlUnavailable => "Url is unavailable",
            OtaError::ConnectionInterrupted => "Firmware download was interrupted",
            OtaError::EspBackendFailure => "ESP-IDF stack error",
            OtaError::FileTooBig => "Firmware does not fit the partition",
        }
    }
}

/// The calls an update makes whose failure ends it.
#[derive(Clone, Copy, Debug, PartialEq, Eq, Structural)]
pub enum OtaCall {
    /// Opening the update partition.
    InitiateUpdate,
    /// Creating the HTTP connection.
    OpenConnection,
    /// Preparing the GET request for the firmware URL.
    Request,
    /// Sending it and waiting for the response.
    Submit,
    /// Finishing the update and marking the new image bootable.
    Complete,
}

/// The error an update reports when `call` fails: the URL is blamed for
/// request failures, the platform for everything else.
pub open spec fn ota_failure_spec(call: OtaCall) -> OtaError {
    match call {
        OtaCall::Request | OtaCall::Submit => OtaError::UrlUnavailable,
        _ => OtaError::EspBackendFailure,
    }
}

impl OtaError {
    /// The error reported when `call` fails (see [`ota_failure_spec`]).
    pub fn for_failed(call: OtaCall) -> (r: OtaError)
        ensures
            r == ota_failure_spec(call),
    {
        match call {
            OtaCall::Request | OtaCall::Submit => OtaError::UrlUnavailable,
            _ => OtaError::EspBackendFailure,
        }
    }
}

/// Size of the buffer the firmware image is read into.
pub const OTA_CHUNK_SIZE: usize = 100;

/// A step of an update, as a view; `transferred` counts the bytes passed on
/// to the update partition so far.
pub enum OtaView {
    /// Make `call`, then resume with whether it succeeded.
    Call { call: OtaCall, transferred: nat },
    /// Read the next chunk of the image into the buffer, then resume with its size.
    Read { transferred: nat },
    /// Pass the first `len` bytes of the buffer on to the update, then resume;
    /// `more` says whether another chunk follows.
    Write { len: nat, more: bool, transferred: nat },
    /// The update is over: the image size, or why it failed.
    Finished(Result<nat, OtaError>),
}

/// The first step of an update: open the update partition.
pub open spec fn ota_begin_spec() -> OtaView {
    OtaView::Call { call: OtaCall::InitiateUpdate, transferred: 0 }
}

/// The step after `call` succeeded (`ok`) or failed. The calls come in the
/// order partition, connection, request, submission; then the image is read;
/// completing the update ends it with the number of bytes transferred.
pub open spec fn ota_outcome_spec(call: OtaCall, transferred: nat, ok: bool) -> OtaView {
    if !ok {
        OtaView::Finished(Err(ota_failure_spec(call)))
    } else {
        match call {
            OtaCall::InitiateUpdate => OtaView::Call { call: OtaCall::OpenConnection, transferred },
            OtaCall::OpenConnection => OtaView::Call { call: OtaCall::Request, transferred },
            OtaCall::Request => OtaView::Call { call: OtaCall::Submit, transferred },
            OtaCall::Submit => OtaView::Read { transferred },
            OtaCall::Complete => OtaView::Finished(Ok(transferred)),
        }
    }
}

/// The step after a chunk of `size` bytes was read: pass it on, and read
/// again exactly when it filled the buffer.
pub open spec fn ota_read_spec(transferred: nat, size: nat) -> OtaView {
    OtaView::Write { len: size, more: size >= OTA_CHUNK_SIZE, transferred: transferred + size }
}

/// The step after a chunk was passed on.
pub open spec fn ota_written_spec(more: bool, transferred: nat) -> OtaView {
    if more {
        OtaView::Read { transferred }
    } else {
        OtaView::Call { call: OtaCall::Complete, transferred }
    }
}

/// The end of an update whose image could not be read to its end.
pub open spec fn ota_read_failed_spec() -> OtaView {
    OtaView::Finished(Err(OtaError::ConnectionInterrupted))
}

/// The end of an update whose chunk could not be passed on: the image does not
/// fit the partition, or the platform failed otherwise.
pub open spec fn ota_write_failed_spec(exceeds_partition: bool) -> OtaView {
    if exceeds_partition {
        OtaView::Finished(Err(OtaError::FileTooBig))
    } else {
        OtaView::Finished(Err(OtaError::EspBackendFailure))
    }
}

/// Continuation waiting for the outcome of a call.
pub struct AwaitCall {
    call: OtaCall,
    transferred: usize,
}

/// Continuation waiting for the size of the chunk read.
pub struct AwaitRead {
    transferred: usize,
}

/// Continuation waiting for a chunk to be passed on.
pub struct AwaitWrite {
    more: bool,
    transferred: usize,
}

impl AwaitCall {
    /// The call whose outcome this continuation takes.
    pub closed spec fn awaited(&self) -> OtaCall {
        self.call
    }

    /// Bytes passed on so far.
    pub closed spec fn transferred(&self) -> nat {
        self.transferred as nat
    }
}

impl AwaitRead {
    /// Bytes passed on so far.
    pub closed spec fn transferred(&self) -> nat {
        self.transferred as nat
    }
}

impl AwaitWrite {
    /// Whether another chunk follows.
    pub closed spec fn more(&self) -> bool {
        self.more
    }

    /// Bytes passed on once this chunk is.
    pub closed spec fn transferred(&self) -> nat {
        self.transferred as nat
    }
}

/// A step of an update.
pub enum OtaStep {
    /// Make the call `next.call()` names, then resume `next` with whether it
    /// succeeded.
    Call { next: AwaitCall },
    /// Read the next chunk into a buffer of [`OTA_CHUNK_SIZE`] bytes, then
    /// resume `next` with the number of bytes read.
    Read { next: AwaitRead },
    /// Pass the first `len` bytes of the buffer on to the update, then resume `next`.
    Write { len: usize, next: AwaitWrite },
    /// The update is over: the image size, or why it failed.
    Finished(Result<usize, OtaError>),
}

impl View for OtaStep {
    type V = OtaView;

    open spec fn view(&self) -> OtaView {
        match self {
            OtaStep::Call { next } => OtaView::Call { call: next.awaited(), transferred: next.transferred() },
            OtaStep::Read { next } => OtaView::Read { transferred: next.transferred() },
            OtaStep::Write { len, next } => OtaView::Write {
                len: *len as nat,
                more: next.more(),
                transferred: next.transferred(),
            },
            OtaStep::Finished(Ok(n)) => OtaView::Finished(Ok(*n as nat)),
            OtaStep::Finished(Err(e)) => OtaView::Finished(Err(*e)),
        }
    }
}

/// Starts an update (see [`ota_begin_spec`]).
pub fn begin_ota() -> (r: OtaStep)
    ensures
        r@ == ota_begin_spec(),
{
    OtaStep::Call {
                next: AwaitCall { call: OtaCall::InitiateUpdate, transferred: 0 } }
}

impl AwaitCall {
    /// The call to make before resuming.
    pub fn call(&self) -> (r: OtaCall)
        ensures
            r == self.awaited(),
    {
        self.call
    }

    /// Continues with whether the call succeeded (see [`ota_outcome_spec`]).
    pub fn resume(self, ok: bool) -> (r: OtaStep)
        ensures
            r@ == ota_outcome_spec(self.awaited(), self.transferred(), ok),
    {
        let transferred = self.transferred;
        if !ok {
            return OtaStep::Finished(Err(OtaError::for_failed(self.call)));
        }
        match self.call {
            OtaCall::InitiateUpdate => OtaStep::Call {
                next: AwaitCall { call: OtaCall::OpenConnection, transferred },
            },
            OtaCall::OpenConnection => OtaStep::Call {
                next: AwaitCall { call: OtaCall::Request, transferred },
            },
            OtaCall::Request => OtaStep::Call {
                next: AwaitCall { call: OtaCall::Submit, transferred },
            },
            OtaCall::Submit => OtaStep::Read { next: AwaitRead { transferred } },
            OtaCall::Complete => OtaStep::Finished(Ok(transferred)),
        }
    }
}

impl AwaitRead {
    /// Continues with the number of bytes read into the buffer (see
    /// [`ota_read_spec`]). A read fills at most the buffer, and the image
    /// size must fit in a `usize`.
    pub fn resume(self, size: usize) -> (r: OtaStep)
        requires
            size <= OTA_CHUNK_SIZE,
            self.transferred() + size <= usize::MAX,
        ensures
            r@ == ota_read_spec(self.transferred(), size as nat),
            r matches OtaStep::Write { len, .. } && len == size,
    {
        OtaStep::Write {
            len: size,
            next: AwaitWrite { more: size >= OTA_CHUNK_SIZE, transferred: self.transferred + size },
        }
    }

    /// Ends the update when reading the image failed before its end: the
    /// download was interrupted, and the update is not completed.
    pub fn interrupted(self) -> (r: OtaStep)
        ensures
            r@ == ota_read_failed_spec(),
    {
        OtaStep::Finished(Err(OtaError::ConnectionInterrupted))
    }

    /// Bytes passed on so far.
    pub fn transferred_bytes(&self) -> (r: usize)
        ensures
            r == self.transferred(),
    {
        self.transferred
    }
}

impl AwaitWrite {
    /// Continues once the chunk was passed on (see [`ota_written_spec`]).
    pub fn resume(self) -> (r: OtaStep)
        ensures
            r@ == ota_written_spec(self.more(), self.transferred()),
    {
        if self.more {
            OtaStep::Read { next: AwaitRead { transferred: self.transferred } }
        } else {
            OtaStep::Call {
                next: AwaitCall { call: OtaCall::Complete, transferred: self.transferred } }
        }
    }
}

impl AwaitWrite {
    /// Ends the update when passing the chunk on failed; `exceeds_partition`
    /// tells whether the update partition refused it for lack of room. The
    /// update is not completed.
    pub fn failed(self, exceeds_partition: bool) -> (r: OtaStep)
        ensures
            r@ == ota_write_failed_spec(exceeds_partition),
    {
        if exceeds_partition {
            OtaStep::Finished(Err(OtaError::FileTooBig))
        } else {
            OtaStep::Finished(Err(OtaError::EspBackendFailure))
        }
    }
}

/// What the platform answers to a step.
pub enum OtaEvent {
    /// The call succeeded or failed.
    Outcome(bool),
    /// A chunk of this many bytes was read.
    ReadSize(nat),
    /// The chunk was passed on.
    Written,
    /// Reading the image failed.
    ReadFailed,
    /// Passing the chunk on failed; whether for lack of room in the partition.
    WriteFailed(bool),
}

/// Drives an update from `step` with the answers `events`, in order; an
/// answer that does not fit the step stops the run there.
pub open spec fn run_ota(step: OtaView, events: Seq<OtaEvent>) -> OtaView
    decreases events.len(),
{
    if events.len() == 0 {
        step
    } else {
        match (step, events[0]) {
            (OtaView::Call { call, transferred }, OtaEvent::Outcome(ok)) => run_ota(
                ota_outcome_spec(call, transferred, ok),
                events.drop_first(),
            ),
            (OtaView::Read { transferred }, OtaEvent::ReadSize(size)) => run_ota(
                ota_read_spec(transferred, size),
                events.drop_first(),
            ),
            (OtaView::Write { more, transferred, .. }, OtaEvent::Written) => run_ota(
                ota_written_spec(more, transferred),
                events.drop_first(),
            ),
            (OtaView::Read { .. }, OtaEvent::ReadFailed) => run_ota(ota_read_failed_spec(), events.drop_first()),
            (OtaView::Write { .. }, OtaEvent::WriteFailed(exceeds)) => run_ota(
                ota_write_failed_spec(exceeds),
                events.drop_first(),
            ),
            _ => step,
        }
    }
}

/// The number of bytes passed on to the update while driving it from `step`
/// with the answers `events`: the lengths of the chunks whose writes went
/// through, added up.
pub open spec fn written_bytes(step: OtaView, events: Seq<OtaEvent>) -> nat
    decreases events.len(),
{
    if events.len() == 0 {
        0
    } else {
        match (step, events[0]) {
            (OtaView::Call { call, transferred }, OtaEvent::Outcome(ok)) => written_bytes(
                ota_outcome_spec(call, transferred, ok),
                events.drop_first(),
            ),
            (OtaView::Read { transferred }, OtaEvent::ReadSize(size)) => written_bytes(
                ota_read_spec(transferred, size),
                events.drop_first(),
            ),
            (OtaView::Write { len, more, transferred }, OtaEvent::Written) => len + written_bytes(
                ota_written_spec(more, transferred),
                events.drop_first(),
            ),
            (OtaView::Read { .. }, OtaEvent::ReadFailed) => written_bytes(ota_read_failed_spec(), events.drop_first()),
            (OtaView::Write { .. }, OtaEvent::WriteFailed(exceeds)) => written_bytes(
                ota_write_failed_spec(exceeds),
                events.drop_first(),
            ),
            _ => 0,
        }
    }
}

/// A chunk that was read is passed on whole: after reading `size` bytes the
/// update writes exactly those `size` bytes, counts them, and reads again
/// exactly when they filled the buffer.
pub proof fn lemma_read_chunk_is_written(transferred: nat, size: nat)
    ensures
        ota_read_spec(transferred, size) matches OtaView::Write { len, more, transferred: after } && len == size
            && after == transferred + size && more == (size >= OTA_CHUNK_SIZE),
{
}

/// The answers while reading `full` chunks that each fill the buffer and
/// passing each on.
pub open spec fn full_chunk_events(full: nat) -> Seq<OtaEvent>
    decreases full,
{
    if full == 0 {
        Seq::empty()
    } else {
        seq![OtaEvent::ReadSize(OTA_CHUNK_SIZE as nat), OtaEvent::Written] + full_chunk_events((full - 1) as nat)
    }
}

/// The answers that bring an update to its first read: the partition, the
/// connection, the request and its submission all succeed.
pub open spec fn connect_events() -> Seq<OtaEvent> {
    seq![OtaEvent::Outcome(true), OtaEvent::Outcome(true), OtaEvent::Outcome(true), OtaEvent::Outcome(true)]
}

/// Reading full chunks adds their sizes and comes back to reading.
proof fn lemma_full_chunks(transferred: nat, full: nat, rest: Seq<OtaEvent>)
    ensures
        run_ota(OtaView::Read { transferred }, full_chunk_events(full) + rest) == run_ota(
            OtaView::Read { transferred: transferred + (OTA_CHUNK_SIZE as nat) * full },
            rest,
        ),
        written_bytes(OtaView::Read { transferred }, full_chunk_events(full) + rest) == (OTA_CHUNK_SIZE as nat) * full
            + written_bytes(OtaView::Read { transferred: transferred + (OTA_CHUNK_SIZE as nat) * full }, rest),
    decreases full,
{
    if full == 0 {
        assert(full_chunk_events(full) + rest =~= rest);
    } else {
        let events = full_chunk_events(full) + rest;
        let tail = full_chunk_events((full - 1) as nat) + rest;
        reveal_with_fuel(run_ota, 3);
        reveal_with_fuel(written_bytes, 3);
        assert(events.drop_first().drop_first() =~= tail);
        lemma_full_chunks(transferred + (OTA_CHUNK_SIZE as nat), (full - 1) as nat, rest);
        assert(transferred + (OTA_CHUNK_SIZE as nat) + (OTA_CHUNK_SIZE as nat) * (full - 1) == transferred
            + (OTA_CHUNK_SIZE as nat) * full) by (nonlinear_arith);
    }
}

/// The update after the four calls that precede the download succeeded.
proof fn lemma_connect(rest: Seq<OtaEvent>)
    ensures
        run_ota(ota_begin_spec(), connect_events() + rest) == run_ota(OtaView::Read { transferred: 0 }, rest),
        written_bytes(ota_begin_spec(), connect_events() + rest) == written_bytes(OtaView::Read { transferred: 0 }, rest),
{
    let events = connect_events() + rest;
    reveal_with_fuel(run_ota, 5);
    reveal_with_fuel(written_bytes, 5);
    assert(events.drop_first().drop_first().drop_first().drop_first() =~= rest);
}

/// When every call succeeds, an image read as `full` chunks that fill the
/// buffer and one final shorter chunk of `last` bytes is reported as
/// `OTA_CHUNK_SIZE * full + last` bytes long, the sum of the chunk sizes, and
/// the update is completed after the last chunk was passed on; the bytes
/// passed on to the partition add up to that same size.
pub proof fn lemma_download_total(full: nat, last: nat)
    requires
        last < OTA_CHUNK_SIZE,
    ensures
        run_ota(
            ota_begin_spec(),
            connect_events() + full_chunk_events(full) + seq![OtaEvent::ReadSize(last), OtaEvent::Written],
        ) == (OtaView::Call { call: OtaCall::Complete, transferred: (OTA_CHUNK_SIZE as nat) * full + last }),
        run_ota(
            ota_begin_spec(),
            connect_events() + full_chunk_events(full) + seq![
                OtaEvent::ReadSize(last),
                OtaEvent::Written,
                OtaEvent::Outcome(true),
            ],
        ) == OtaView::Finished(Ok((OTA_CHUNK_SIZE as nat) * full + last)),
        written_bytes(
            ota_begin_spec(),
            connect_events() + full_chunk_events(full) + seq![
                OtaEvent::ReadSize(last),
                OtaEvent::Written,
                OtaEvent::Outcome(true),
            ],
        ) == (OTA_CHUNK_SIZE as nat) * full + last,
{
    let tail1 = seq![OtaEvent::ReadSize(last), OtaEvent::Written];
    let tail2 = seq![OtaEvent::ReadSize(last), OtaEvent::Written, OtaEvent::Outcome(true)];
    assert(connect_events() + full_chunk_events(full) + tail1 =~= connect_events() + (full_chunk_events(full) + tail1));
    assert(connect_events() + full_chunk_events(full) + tail2 =~= connect_events() + (full_chunk_events(full) + tail2));
    lemma_connect(full_chunk_events(full) + tail1);
    lemma_connect(full_chunk_events(full) + tail2);
    lemma_full_chunks(0, full, tail1);
    lemma_full_chunks(0, full, tail2);
    reveal_with_fuel(run_ota, 4);
    reveal_with_fuel(written_bytes, 4);
    assert(tail1.drop_first().drop_first() =~= Seq::<OtaEvent>::empty());
    assert(tail2.drop_first().drop_first().drop_first() =~= Seq::<OtaEvent>::empty());
}

/// A failing call before the download ends the update at once with the error
/// for that call: the platform is blamed for the partition and the
/// connection, the URL for the request and its submission; no later call is made.
pub proof fn lemma_call_fails(succeeded: nat)
    requires
        succeeded < 4,
    ensures
        run_ota(ota_begin_spec(), connect_events().take(succeeded as int).push(OtaEvent::Outcome(false)))
            == OtaView::Finished(Err(if succeeded < 2 {
            OtaError::EspBackendFailure
        } else {
            OtaError::UrlUnavailable
        })),
{
    let events = connect_events().take(succeeded as int).push(OtaEvent::Outcome(false));
    reveal_with_fuel(run_ota, 6);
    if succeeded == 0 {
        assert(events =~= seq![OtaEvent::Outcome(false)]);
    } else if succeeded == 1 {
        assert(events =~= seq![OtaEvent::Outcome(true), OtaEvent::Outcome(false)]);
        assert(events.drop_first() =~= seq![OtaEvent::Outcome(false)]);
    } else if succeeded == 2 {
        assert(events.drop_first() =~= seq![OtaEvent::Outcome(true), OtaEvent::Outcome(false)]);
        assert(events.drop_first().drop_first() =~= seq![OtaEvent::Outcome(false)]);
    } else {
        assert(events.drop_first().drop_first() =~= seq![OtaEvent::Outcome(true), OtaEvent::Outcome(false)]);
        assert(events.drop_first().drop_first().drop_first() =~= seq![OtaEvent::Outcome(false)]);
    }
}

/// A download whose reading breaks off after any number of full chunks ends
/// with `ConnectionInterrupted`, and the update is not completed.
pub proof fn lemma_download_interrupted(full: nat)
    ensures
        run_ota(ota_begin_spec(), connect_events() + full_chunk_events(full) + seq![OtaEvent::ReadFailed])
            == OtaView::Finished(Err(OtaError::ConnectionInterrupted)),
{
    let tail = seq![OtaEvent::ReadFailed];
    assert(connect_events() + full_chunk_events(full) + tail =~= connect_events() + (full_chunk_events(full) + tail));
    lemma_connect(full_chunk_events(full) + tail);
    lemma_full_chunks(0, full, tail);
    reveal_with_fuel(run_ota, 2);
    assert(tail.drop_first() =~= Seq::<OtaEvent>::empty());
}

/// An image that the update partition refuses for lack of room, at any chunk,
/// ends the update with `FileTooBig`, and the update is not completed.
pub proof fn lemma_download_too_big(full: nat, size: nat)
    ensures
        run_ota(
            ota_begin_spec(),
            connect_events() + full_chunk_events(full) + seq![OtaEvent::ReadSize(size), OtaEvent::WriteFailed(true)],
        ) == OtaView::Finished(Err(OtaError::FileTooBig)),
{
    let tail = seq![OtaEvent::ReadSize(size), OtaEvent::WriteFailed(true)];
    assert(connect_events() + full_chunk_events(full) + tail =~= connect_events() + (full_chunk_events(full) + tail));
    lemma_connect(full_chunk_events(full) + tail);
    lemma_full_chunks(0, full, tail);
    reveal_with_fuel(run_ota, 3);
    assert(tail.drop_first().drop_first() =~= Seq::<OtaEvent>::empty());
}

} // verus!
