use vstd::prelude::*;

verus! {

/// Why one step of a byte pump did not make progress.
#[derive(Debug, Clone, Copy, PartialEq, Eq, Structural)]
pub enum TransferError {
    /// A read, write or half-close on either half failed.
    InternalError,
    /// The read from the source half did not complete within the timeout.
    TimeoutError,
}

/// What a timed read from the source half came back with.
#[derive(Debug, Clone, Copy, PartialEq, Eq, Structural)]
pub enum ReadOutcome {
    /// This many bytes are now at the start of the buffer; zero means end of stream.
    Data(usize),
    /// The source reported the end of its stream.
    EndOfStream,
    /// The deadline passed first.
    TimedOut,
    /// The read failed.
    Failed,
}

/// The I/O that the pump asks its caller to perform next.
#[derive(Debug, Clone, Copy)]
pub enum PumpAction {
    /// Write the first `n` bytes of the buffer to the sink, whole.
    Write(usize),
    /// Half-close the sink (shutdown-write, or finish the QUIC send half).
    HalfClose,
    /// Nothing to do on the sink: the step ends with this result.
    Done(Result<usize, TransferError>),
}

/// Why a pump direction stopped.
#[derive(Debug, Clone, Copy, PartialEq, Eq, Structural)]
pub enum ExitReason {
    /// The source ended and the sink was half-closed.
    EndOfStream,
    /// A transport error on either half.
    Fatal,
    /// Timed out while the sibling direction made no progress either.
    Stuck,
}

/// What a pump direction does after one step.
#[derive(Debug, Clone, Copy, PartialEq, Eq, Structural)]
pub enum Verdict {
    Continue,
    Exit(ExitReason),
}

/// Where a pump is in its step.
#[derive(Debug, Clone, Copy)]
pub enum Phase {
    /// Ready to read from the source.
    Reading,
    /// Waiting for the write of this many bytes.
    Writing(usize),
    /// Waiting for the half-close of the sink.
    Closing,
    /// The step ended with this result; the epoch decides what follows.
    Concluding(Result<usize, TransferError>),
    /// The direction is over.
    Exited(ExitReason),
}

/// The epoch after `k` increments from `e`; the shared counter wraps.
pub open spec fn epoch_advance(e: i32, k: nat) -> i32 {
    ((((e as int) - i32::MIN) + k) % 0x1_0000_0000 + i32::MIN) as i32
}

/// What a direction does with the result of one step, given the epoch loaded
/// before the step and the epoch that its own increment after the step saw.
pub open spec fn verdict_of(result: Result<usize, TransferError>, epoch_before: i32, epoch_after: i32) -> Verdict {
    match result {
        Ok(n) => if n == 0 { Verdict::Exit(ExitReason::EndOfStream) } else { Verdict::Continue },
        Err(TransferError::InternalError) => Verdict::Exit(ExitReason::Fatal),
        Err(TransferError::TimeoutError) => if epoch_before == epoch_after {
            Verdict::Exit(ExitReason::Stuck)
        } else {
            Verdict::Continue
        },
    }
}

/// The TCP relay: one session per accepted connection and QUIC stream, two
/// pump directions per session.
pub struct TcpTunnel;

impl TcpTunnel {
    /// Decides whether a direction goes on after one step. A timeout is fatal
    /// only when no step of either direction completed while it waited, that is
    /// when the epoch it loaded before the step is still the one it increments.
    pub fn arbitrate(result: Result<usize, TransferError>, epoch_before: i32, epoch_after: i32) -> (v: Verdict)
        ensures
            v == verdict_of(result, epoch_before, epoch_after),
    {
        match result {
            Ok(n) => if n == 0 { Verdict::Exit(ExitReason::EndOfStream) } else { Verdict::Continue },
            Err(TransferError::InternalError) => Verdict::Exit(ExitReason::Fatal),
            Err(TransferError::TimeoutError) => if epoch_before == epoch_after {
                Verdict::Exit(ExitReason::Stuck)
            } else {
                Verdict::Continue
            },
        }
    }
}

/// The I/O asked for after a read.
pub open spec fn action_for(o: ReadOutcome) -> PumpAction {
    match o {
        ReadOutcome::Data(n) => if n == 0 { PumpAction::HalfClose } else { PumpAction::Write(n) },
        ReadOutcome::EndOfStream => PumpAction::HalfClose,
        ReadOutcome::TimedOut => PumpAction::Done(Err(TransferError::TimeoutError)),
        ReadOutcome::Failed => PumpAction::Done(Err(TransferError::InternalError)),
    }
}

/// The phase a pump is in while the I/O asked for is under way.
pub open spec fn phase_for(a: PumpAction) -> Phase {
    match a {
        PumpAction::Write(n) => Phase::Writing(n),
        PumpAction::HalfClose => Phase::Closing,
        PumpAction::Done(res) => Phase::Concluding(res),
    }
}

/// The bytes that a read placed at the start of the buffer.
pub open spec fn read_bytes(o: ReadOutcome, buf: Seq<u8>) -> Seq<u8> {
    match o {
        ReadOutcome::Data(n) => buf.subrange(0, n as int),
        _ => Seq::empty(),
    }
}

/// One direction of a TCP session: the timed copy loop from a source half to
/// a sink half, as decisions. The caller performs the reads, writes and
/// half-closes that it asks for and hands back what came of them.
pub struct Pump {
    transferred: u64,
    phase: Phase,
    source: Ghost<Seq<u8>>,
    delivered: Ghost<Seq<u8>>,
    in_flight: Ghost<Seq<u8>>,
    half_closes: Ghost<nat>,
}

impl Pump {
    /// Bytes written whole to the sink so far.
    pub closed spec fn transferred_spec(&self) -> u64 {
        self.transferred
    }

    pub closed spec fn phase_spec(&self) -> Phase {
        self.phase
    }

    /// The bytes read from the source, in order.
    pub closed spec fn source(&self) -> Seq<u8> {
        self.source@
    }

    /// The bytes whose write to the sink completed, in order.
    pub closed spec fn delivered(&self) -> Seq<u8> {
        self.delivered@
    }

    /// How many half-closes the pump has asked for.
    pub closed spec fn half_closes(&self) -> nat {
        self.half_closes@
    }

    pub closed spec fn wf(&self) -> bool {
        &&& self.transferred == self.delivered@.len()
        &&& match self.phase {
            Phase::Writing(n) => self.in_flight@.len() == n && n > 0 && self.transferred + n <= u64::MAX,
            _ => true,
        }
        &&& self.half_closes@ <= 1
        &&& self.delivered@.is_prefix_of(self.source@)
        &&& (self.phase is Writing ==> self.source@ == self.delivered@ + self.in_flight@)
        &&& (!(self.phase is Writing) && self.phase != Phase::Concluding(Err(TransferError::InternalError))
            && self.phase != Phase::Exited(ExitReason::Fatal) ==> self.source@ == self.delivered@)
        &&& self.half_closes@ <= 1
        &&& (self.half_closes@ == 1 ==> (self.phase is Closing || self.phase == Phase::Concluding(Ok(0))
            || self.phase == Phase::Concluding(Err(TransferError::InternalError))
            || self.phase == Phase::Exited(ExitReason::EndOfStream) || self.phase == Phase::Exited(ExitReason::Fatal)))
        &&& (self.phase is Closing ==> self.half_closes@ == 1)
    }

    /// Asks for the I/O that follows a read from the source half. Bytes read
    /// are to be written whole; an empty read or an end of stream asks for the
    /// one half-close of the sink; a timeout or a failed read ends the step.
    pub fn on_read(&mut self, outcome: ReadOutcome, buf: &[u8]) -> (r: PumpAction)
        requires
            old(self).wf(),
            old(self).phase_spec() is Reading,
            outcome matches ReadOutcome::Data(n) ==> n <= buf@.len() && old(self).transferred_spec() + n <= u64::MAX,
        ensures
            final(self).wf(),
            r == action_for(outcome),
            final(self).phase_spec() == phase_for(r),
            final(self).source() == old(self).source() + read_bytes(outcome, buf@),
            final(self).delivered() == old(self).delivered(),
            final(self).transferred_spec() == old(self).transferred_spec(),
            final(self).half_closes() == old(self).half_closes() + if r is HalfClose { 1nat } else { 0nat },
    {
        let r = match outcome {
            ReadOutcome::Data(n) => if n == 0 { PumpAction::HalfClose } else { PumpAction::Write(n) },
            ReadOutcome::EndOfStream => PumpAction::HalfClose,
            ReadOutcome::TimedOut => PumpAction::Done(Err(TransferError::TimeoutError)),
            ReadOutcome::Failed => PumpAction::Done(Err(TransferError::InternalError)),
        };
        match r {
            PumpAction::Write(n) => {
                self.in_flight = Ghost(buf@.subrange(0, n as int));
                self.source = Ghost(self.source@ + buf@.subrange(0, n as int));
                self.phase = Phase::Writing(n);
                proof {
                    assert(self.delivered@.is_prefix_of(self.source@)) by {
                        assert(self.source@.subrange(0, self.delivered@.len() as int) =~= self.delivered@);
                    }
                }
            },
            PumpAction::HalfClose => {
                self.half_closes = Ghost(self.half_closes@ + 1);
                self.phase = Phase::Closing;
                assert(self.source@ =~= self.source@ + Seq::<u8>::empty());
            },
            PumpAction::Done(res) => {
                self.phase = Phase::Concluding(res);
                assert(self.source@ =~= self.source@ + Seq::<u8>::empty());
            },
        }
        r
    }

    /// Takes the outcome of the write or the half-close that was asked for.
    /// A completed write delivers the bytes in flight and counts them; a
    /// completed half-close ends the step at the end of stream; a failure of
    /// either is an internal error.
    pub fn on_sink(&mut self, ok: bool) -> (r: Result<usize, TransferError>)
        requires
            old(self).wf(),
            old(self).phase_spec() is Writing || old(self).phase_spec() is Closing,
        ensures
            final(self).wf(),
            final(self).phase_spec() == Phase::Concluding(r),
            final(self).source() == old(self).source(),
            final(self).half_closes() == old(self).half_closes(),
            !ok ==> r == Err::<usize, TransferError>(TransferError::InternalError),
            !ok ==> final(self).delivered() == old(self).delivered(),
            !ok ==> final(self).transferred_spec() == old(self).transferred_spec(),
            ok && old(self).phase_spec() is Closing ==> r == Ok::<usize, TransferError>(0)
                && final(self).delivered() == old(self).delivered()
                && final(self).transferred_spec() == old(self).transferred_spec(),
            old(self).phase_spec() matches Phase::Writing(n) ==> (ok ==> r == Ok::<usize, TransferError>(n)
                && final(self).delivered() == old(self).source()
                && final(self).transferred_spec() == old(self).transferred_spec() + n),
    {
        match self.phase {
            Phase::Writing(n) => {
                if ok {
                    self.delivered = Ghost(self.delivered@ + self.in_flight@);
                    self.transferred = self.transferred + n as u64;
                    self.in_flight = Ghost(Seq::empty());
                    self.phase = Phase::Concluding(Ok(n));
                    Ok(n)
                } else {
                    self.phase = Phase::Concluding(Err(TransferError::InternalError));
                    Err(TransferError::InternalError)
                }
            },
            _ => {
                let r = if ok { Ok(0) } else { Err(TransferError::InternalError) };
                self.phase = Phase::Concluding(r);
                r
            },
        }
    }

    /// Ends the step: the verdict on its result given the epoch loaded
    /// before the step and the one seen by the increment after it.
    pub fn conclude(&mut self, epoch_before: i32, epoch_after: i32) -> (v: Verdict)
        requires
            old(self).wf(),
            old(self).phase_spec() is Concluding,
        ensures
            final(self).wf(),
            v == verdict_of(old(self).phase_spec()->Concluding_0, epoch_before, epoch_after),
            v == Verdict::Continue ==> final(self).phase_spec() == Phase::Reading,
            v matches Verdict::Exit(x) ==> final(self).phase_spec() == Phase::Exited(x),
            final(self).source() == old(self).source(),
            final(self).delivered() == old(self).delivered(),
            final(self).transferred_spec() == old(self).transferred_spec(),
            final(self).half_closes() == old(self).half_closes(),
    {
        let res = match self.phase {
            Phase::Concluding(res) => res,
            _ => Err(TransferError::InternalError),
        };
        let v = TcpTunnel::arbitrate(res, epoch_before, epoch_after);
        match v {
            Verdict::Continue => self.phase = Phase::Reading,
            Verdict::Exit(x) => self.phase = Phase::Exited(x),
        }
        v
    }

    /// A pump at the start of its direction.
    pub fn new() -> (p: Pump)
        ensures
            p.wf(),
            p.transferred_spec() == 0,
            p.phase_spec() == Phase::Reading,
            p.source() == Seq::<u8>::empty(),
            p.delivered() == Seq::<u8>::empty(),
            p.half_closes() == 0,
    {
        Pump {
            transferred: 0,
            phase: Phase::Reading,
            source: Ghost(Seq::empty()),
            delivered: Ghost(Seq::empty()),
            in_flight: Ghost(Seq::empty()),
            half_closes: Ghost(0),
        }
    }

    /// Bytes written whole to the sink so far.
    pub fn transferred(&self) -> (r: u64)
        ensures
            r == self.transferred_spec(),
    {
        self.transferred
    }

    pub fn phase(&self) -> (r: Phase)
        ensures
            r == self.phase_spec(),
    {
        self.phase
    }
}

/// Order and count: at every point of a direction the bytes delivered to the
/// sink are a prefix of the bytes read from the source, in the same order; the
/// count that the end-of-session log reports equals the bytes delivered,
/// whether the direction ends normally or not; and after an end of stream
/// every byte read has been delivered.
pub proof fn lemma_order_and_count(p: Pump)
    requires
        p.wf(),
    ensures
        p.delivered().is_prefix_of(p.source()),
        p.transferred_spec() == p.delivered().len(),
        p.phase_spec() == Phase::Exited(ExitReason::EndOfStream) ==> p.delivered() == p.source(),
{
}

/// Idle does not kill: when the sibling direction completed `k` steps while
/// this direction waited (fewer than the counter's period), this
/// direction's timeout is benign and it goes on.
pub proof fn lemma_idle_does_not_kill(epoch_before: i32, k: nat)
    requires
        0 < k < 0x1_0000_0000,
    ensures
        verdict_of(Err(TransferError::TimeoutError), epoch_before, epoch_advance(epoch_before, k))
            == Verdict::Continue,
{
    let x = (epoch_before as int) - i32::MIN;
    let m: int = 0x1_0000_0000;
    if x + k < m {
        assert((x + k) % m == x + k);
    } else {
        assert((x + k) % m == x + k - m);
    }
}

/// Mutual idle kills: when no step of the sibling completed while this
/// direction waited, the epoch its increment sees is the one it loaded, and
/// its timeout ends the direction as stuck.
pub proof fn lemma_mutual_idle_kills(epoch_before: i32)
    ensures
        epoch_advance(epoch_before, 0) == epoch_before,
        verdict_of(Err(TransferError::TimeoutError), epoch_before, epoch_advance(epoch_before, 0))
            == Verdict::Exit(ExitReason::Stuck),
{
    let x = (epoch_before as int) - i32::MIN;
    assert(x % 0x1_0000_0000 == x);
}

/// Half-close is honored: an end of stream asks for one half-close of the
/// sink, the step then ends the direction whatever the epochs say, so the
/// pump never reads again and never asks for a second half-close; nothing of
/// the sibling direction enters the decision.
pub proof fn lemma_half_close_once(p: Pump, buf: Seq<u8>, epoch_before: i32, epoch_after: i32)
    requires
        p.wf(),
    ensures
        action_for(ReadOutcome::EndOfStream) is HalfClose,
        action_for(ReadOutcome::Data(0)) is HalfClose,
        verdict_of(Ok(0), epoch_before, epoch_after) == Verdict::Exit(ExitReason::EndOfStream),
        p.half_closes() <= 1,
        p.half_closes() == 1 ==> !(p.phase_spec() is Reading),
{
}

} // verus!
