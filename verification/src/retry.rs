//! The retrying send engine: repeatedly attempts to deliver one message
//! within an overall deadline, classifying failures into fatal and transient
//! and backing off between transient retries.
//!
//! The engine is a step machine. [`RetrySend::start_attempt`] enqueues one
//! send request and hands back an [`SendStep::Await`]; the runner awaits the
//! reply (never longer than what remains of the overall deadline) and feeds
//! it to [`RetrySend::on_reply`], which answers with the next step. When the
//! overall deadline fires, the runner calls [`RetrySend::on_deadline`] and
//! the operation ends immediately, whatever the attempt count.

use vstd::prelude::*;
use vstd::pervasive::unreached;

use crate::events::{OutEvent, SendError};
use crate::model::{BitswapMessage, ConnectionId, PeerId};
use crate::network::Network;

verus! {

/// A transient per-attempt failure recorded by the retry loop.
#[derive(Debug)]
pub enum TransientError {
    /// The driver reported a delivery failure with this reason.
    Delivery(String),
    /// The reply channel was dropped before any reply arrived.
    ReplyDropped,
}

/// Terminal failure of a whole send operation.
#[derive(Debug)]
pub enum SendMessageError {
    /// An attempt could not even be enqueued: backpressure, reported
    /// immediately and not counted against the retries.
    QueueFull,
    /// The peer cannot speak the negotiated protocol; retrying cannot change
    /// that, so the first such reply ends the operation.
    ProtocolNotSupported,
    /// Every configured attempt failed with a transient error; all of them
    /// are preserved for diagnosis.
    AttemptsExhausted {
        /// The destination the sends were addressed to.
        peer: PeerId,
        /// The transient error of each attempt, in attempt order.
        errors: Vec<TransientError>,
    },
    /// The overall deadline elapsed before the attempts concluded; the
    /// transient errors collected so far are preserved.
    DeadlineExceeded {
        /// The destination the sends were addressed to.
        peer: PeerId,
        /// The transient errors collected before the deadline fired.
        errors: Vec<TransientError>,
    },
}

/// The driver's answer to one send attempt, as the runner observed it.
pub enum SendReply {
    /// The message was delivered.
    Delivered,
    /// The driver reported this delivery failure.
    Failed(SendError),
    /// The reply channel was dropped before any reply arrived.
    Dropped,
}

/// What the engine asks its runner to do next.
pub enum SendStep {
    /// An attempt was enqueued under this ticket: await its reply, but no
    /// longer than what remains of the overall deadline.
    Await {
        /// The reply ticket of the enqueued send request.
        ticket: u64,
    },
    /// Sleep this long (clipped to the remaining deadline), then start the
    /// next attempt.
    Backoff {
        /// The configured backoff, in milliseconds.
        millis: u64,
    },
    /// The operation is over with this outcome.
    Finished(Result<(), SendMessageError>),
}

/// The reply ends the operation successfully.
pub open spec fn reply_is_success(r: SendReply) -> bool {
    r is Delivered
}

/// The reply ends the operation with the fatal protocol error.
pub open spec fn reply_is_fatal(r: SendReply) -> bool {
    r matches SendReply::Failed(SendError::ProtocolNotSupported)
}

/// The reply decides the operation: no further attempts follow it.
pub open spec fn reply_decisive(r: SendReply) -> bool {
    reply_is_success(r) || reply_is_fatal(r)
}

/// The transient error a non-decisive reply records.
pub open spec fn transient_of(r: SendReply) -> TransientError {
    match r {
        SendReply::Failed(SendError::Other(e)) => TransientError::Delivery(e),
        _ => TransientError::ReplyDropped,
    }
}

/// `r` is the exhaustion failure for `peer` aggregating exactly `errs`.
pub open spec fn exhausted_result(
    r: Result<(), SendMessageError>,
    peer: PeerId,
    errs: Seq<TransientError>,
) -> bool {
    match r {
        Err(SendMessageError::AttemptsExhausted { peer: p, errors: e }) => p == peer && e@ == errs,
        _ => false,
    }
}

/// `r` is the deadline failure for `peer` preserving exactly `errs`.
pub open spec fn deadline_result(
    r: Result<(), SendMessageError>,
    peer: PeerId,
    errs: Seq<TransientError>,
) -> bool {
    match r {
        Err(SendMessageError::DeadlineExceeded { peer: p, errors: e }) => p == peer && e@ == errs,
        _ => false,
    }
}

/// `step` finishes with the exhaustion failure for `peer` and `errs`.
pub open spec fn step_finished_exhausted(
    step: SendStep,
    peer: PeerId,
    errs: Seq<TransientError>,
) -> bool {
    match step {
        SendStep::Finished(r) => exhausted_result(r, peer, errs),
        _ => false,
    }
}

/// `step` finishes with the deadline failure for `peer` and `errs`.
pub open spec fn step_finished_deadline(
    step: SendStep,
    peer: PeerId,
    errs: Seq<TransientError>,
) -> bool {
    match step {
        SendStep::Finished(r) => deadline_result(r, peer, errs),
        _ => false,
    }
}

/// `ev` is a send request carrying exactly these coordinates.
pub open spec fn matches_send_event(
    ev: OutEvent,
    peer: PeerId,
    msg: Seq<u8>,
    ticket: u64,
    connection_id: Option<ConnectionId>,
) -> bool {
    match ev {
        OutEvent::SendMessage { peer: p, message: m, ticket: t, connection_id: c } => p == peer
            && m@ == msg && t == ticket && c == connection_id,
        _ => false,
    }
}

/// Where the engine stands between steps.
#[derive(Clone, Copy, PartialEq, Eq, Debug, Structural)]
pub enum SendPhase {
    /// The next attempt may be started.
    Ready,
    /// An attempt is enqueued and its reply is awaited.
    Awaiting,
    /// The operation is over; the engine takes no further steps.
    Done,
}

/// The retrying send engine for one message to one destination.
pub struct RetrySend {
    /// The destination peer.
    pub peer: PeerId,
    /// Established connection to pin each attempt to, if any.
    pub connection_id: Option<ConnectionId>,
    /// The message delivered by every attempt.
    pub message: BitswapMessage,
    /// How many attempts are allowed; at least one.
    pub retries: usize,
    /// The backoff between transient failures, in milliseconds.
    pub backoff_ms: u64,
    /// Attempts started so far.
    pub attempt: usize,
    /// The transient error of each failed attempt, in attempt order.
    pub errors: Vec<TransientError>,
    /// Where the engine stands.
    pub phase: SendPhase,
}

impl RetrySend {
    /// Structural invariant tying the phase, the attempt count and the
    /// recorded errors together.
    pub open spec fn wf(&self) -> bool {
        &&& self.retries >= 1
        &&& self.attempt <= self.retries
        &&& (self.phase is Ready ==> self.attempt < self.retries && self.errors@.len()
            == self.attempt)
        &&& (self.phase is Awaiting ==> 1 <= self.attempt && self.errors@.len() == self.attempt
            - 1)
    }

    /// Destination, message and configuration are those of `pre`.
    pub open spec fn same_send(self, pre: RetrySend) -> bool {
        &&& self.peer == pre.peer
        &&& self.connection_id == pre.connection_id
        &&& self.message == pre.message
        &&& self.retries == pre.retries
        &&& self.backoff_ms == pre.backoff_ms
    }

    /// A fresh engine: no attempt started, no error recorded, ready to go.
    pub fn new(
        peer: PeerId,
        connection_id: Option<ConnectionId>,
        message: BitswapMessage,
        retries: usize,
        backoff_ms: u64,
    ) -> (m: RetrySend)
        requires
            retries >= 1,
        ensures
            m.wf(),
            m.peer == peer,
            m.connection_id == connection_id,
            m.message == message,
            m.retries == retries,
            m.backoff_ms == backoff_ms,
            m.attempt == 0,
            m.errors@ == Seq::<TransientError>::empty(),
            m.phase is Ready,
    {
        let m = RetrySend {
            peer,
            connection_id,
            message,
            retries,
            backoff_ms,
            attempt: 0,
            errors: Vec::new(),
            phase: SendPhase::Ready,
        };
        proof {
            assert(m.errors@ =~= Seq::<TransientError>::empty());
        }
        m
    }

    /// Starts the next attempt: enqueues one send request under a fresh
    /// ticket. When the queue is full the whole operation aborts immediately
    /// with [`SendMessageError::QueueFull`]; the failed enqueue does not count
    /// against the retries.
    pub fn start_attempt(&mut self, net: &mut Network) -> (step: SendStep)
        requires
            old(self).wf(),
            old(self).phase is Ready,
            old(net).wf(),
            old(net).ticket_counter() < u64::MAX,
        ensures
            final(self).wf(),
            final(net).wf(),
            final(self).same_send(*old(self)),
            old(net).is_full() ==> {
                &&& step == SendStep::Finished(
                    Err::<(), SendMessageError>(SendMessageError::QueueFull),
                )
                &&& final(self).phase is Done
                &&& final(self).attempt == old(self).attempt
                &&& final(self).errors@ == old(self).errors@
                &&& final(net).unchanged(*old(net))
            },
            !old(net).is_full() ==> {
                &&& step == SendStep::Await { ticket: old(net).ticket_counter() }
                &&& final(self).phase is Awaiting
                &&& final(self).attempt == old(self).attempt + 1
                &&& final(self).errors@ == old(self).errors@
                &&& final(net).same_config(*old(net))
                &&& final(net).ticket_counter() == old(net).ticket_counter() + 1
                &&& final(net).events() == old(net).events().push(final(net).events().last())
                &&& matches_send_event(
                    final(net).events().last(),
                    old(self).peer,
                    old(self).message@,
                    old(net).ticket_counter(),
                    old(self).connection_id,
                )
            },
    {
        let ticket = net.tickets_issued();
        let ev = OutEvent::SendMessage {
            peer: self.peer,
            message: self.message.duplicate(),
            ticket,
            connection_id: self.connection_id,
        };
        match net.enqueue_fresh(ev) {
            Ok(()) => {
                self.attempt = self.attempt + 1;
                self.phase = SendPhase::Awaiting;
                SendStep::Await { ticket }
            },
            Err(_) => {
                self.phase = SendPhase::Done;
                SendStep::Finished(Err(SendMessageError::QueueFull))
            },
        }
    }

    /// Feeds the awaited reply of the current attempt to the engine. Success
    /// and the fatal protocol error finish the operation at once; a transient
    /// failure is recorded and answered with a backoff when attempts remain,
    /// or with the aggregated exhaustion failure when none do.
    pub fn on_reply(&mut self, reply: SendReply) -> (step: SendStep)
        requires
            old(self).wf(),
            old(self).phase is Awaiting,
        ensures
            final(self).wf(),
            final(self).same_send(*old(self)),
            final(self).attempt == old(self).attempt,
            reply_is_success(reply) ==> step == SendStep::Finished(
                Ok::<(), SendMessageError>(()),
            ) && final(self).phase is Done,
            reply_is_fatal(reply) ==> step == SendStep::Finished(
                Err::<(), SendMessageError>(SendMessageError::ProtocolNotSupported),
            ) && final(self).phase is Done,
            !reply_decisive(reply) && old(self).attempt < old(self).retries ==> {
                &&& step == SendStep::Backoff { millis: old(self).backoff_ms }
                &&& final(self).phase is Ready
                &&& final(self).errors@ == old(self).errors@.push(transient_of(reply))
            },
            !reply_decisive(reply) && old(self).attempt == old(self).retries ==> {
                &&& final(self).phase is Done
                &&& step_finished_exhausted(
                    step,
                    old(self).peer,
                    old(self).errors@.push(transient_of(reply)),
                )
            },
    {
        match reply {
            SendReply::Delivered => {
                self.phase = SendPhase::Done;
                SendStep::Finished(Ok(()))
            },
            SendReply::Failed(SendError::ProtocolNotSupported) => {
                self.phase = SendPhase::Done;
                SendStep::Finished(Err(SendMessageError::ProtocolNotSupported))
            },
            SendReply::Failed(SendError::Other(e)) => self.transient(TransientError::Delivery(e)),
            SendReply::Dropped => self.transient(TransientError::ReplyDropped),
        }
    }

    /// Records the transient error of the current attempt and decides between
    /// backing off and giving up.
    fn transient(&mut self, err: TransientError) -> (step: SendStep)
        requires
            old(self).wf(),
            old(self).phase is Awaiting,
        ensures
            final(self).wf(),
            final(self).same_send(*old(self)),
            final(self).attempt == old(self).attempt,
            old(self).attempt < old(self).retries ==> {
                &&& step == SendStep::Backoff { millis: old(self).backoff_ms }
                &&& final(self).phase is Ready
                &&& final(self).errors@ == old(self).errors@.push(err)
            },
            old(self).attempt == old(self).retries ==> {
                &&& final(self).phase is Done
                &&& step_finished_exhausted(step, old(self).peer, old(self).errors@.push(err))
            },
    {
        self.errors.push(err);
        if self.attempt < self.retries {
            self.phase = SendPhase::Ready;
            SendStep::Backoff { millis: self.backoff_ms }
        } else {
            self.phase = SendPhase::Done;
            let mut errs: Vec<TransientError> = Vec::new();
            core::mem::swap(&mut errs, &mut self.errors);
            SendStep::Finished(
                Err(SendMessageError::AttemptsExhausted { peer: self.peer, errors: errs }),
            )
        }
    }

    /// The overall deadline elapsed: the operation fails now with a deadline
    /// error folding in the transient errors collected so far, whatever the
    /// attempt count. The engine is done afterwards, so no further attempt
    /// can be started: [`RetrySend::start_attempt`] demands a ready engine.
    pub fn on_deadline(&mut self) -> (step: SendStep)
        requires
            old(self).wf(),
            !(old(self).phase is Done),
        ensures
            final(self).wf(),
            final(self).same_send(*old(self)),
            final(self).attempt == old(self).attempt,
            final(self).phase is Done,
            step_finished_deadline(step, old(self).peer, old(self).errors@),
    {
        self.phase = SendPhase::Done;
        let mut errs: Vec<TransientError> = Vec::new();
        core::mem::swap(&mut errs, &mut self.errors);
        SendStep::Finished(Err(SendMessageError::DeadlineExceeded { peer: self.peer, errors: errs }))
    }
}

/// The least index in `[i, n)` whose reply is decisive, or `n` if none is.
pub open spec fn first_decisive_from(replies: Seq<SendReply>, i: int, n: int) -> int
    decreases n - i,
{
    if i < 0 || i >= n {
        n
    } else if reply_decisive(replies[i]) {
        i
    } else {
        first_decisive_from(replies, i + 1, n)
    }
}

/// The least index below `n` whose reply is decisive, or `n` if none is.
pub open spec fn first_decisive(replies: Seq<SendReply>, n: int) -> int {
    first_decisive_from(replies, 0, n)
}

/// How many attempts the engine makes when `replies[i]` answers attempt `i`
/// and up to `n` attempts are allowed: up to and including the first decisive
/// reply, or all `n`.
pub open spec fn script_attempts(replies: Seq<SendReply>, n: int) -> int {
    if first_decisive(replies, n) < n {
        first_decisive(replies, n) + 1
    } else {
        n
    }
}

/// How many backoff sleeps the engine takes: one between consecutive
/// attempts, hence one fewer than the attempts.
pub open spec fn script_backoffs(replies: Seq<SendReply>, n: int) -> int {
    script_attempts(replies, n) - 1
}

/// The operation succeeds: some attempt is answered with success before any
/// fatal reply.
pub open spec fn script_succeeds(replies: Seq<SendReply>, n: int) -> bool {
    let d = first_decisive(replies, n);
    d < n && reply_is_success(replies[d])
}

/// The operation fails fatally: some attempt is answered with the protocol
/// error before any success.
pub open spec fn script_fatal(replies: Seq<SendReply>, n: int) -> bool {
    let d = first_decisive(replies, n);
    d < n && reply_is_fatal(replies[d])
}

/// The transient errors recorded for the first `k` replies, in order.
pub open spec fn script_errors(replies: Seq<SendReply>, k: int) -> Seq<TransientError>
    decreases k,
{
    if k <= 0 {
        Seq::empty()
    } else {
        script_errors(replies, k - 1).push(transient_of(replies[k - 1]))
    }
}

/// What one scripted run of the engine did.
pub struct ScriptOutcome {
    /// How many attempts were started.
    pub attempts: usize,
    /// How many backoff steps the engine took.
    pub backoffs: usize,
    /// The terminal outcome of the operation.
    pub result: Result<(), SendMessageError>,
}

/// Runs the retry engine to completion against a fixed script of replies,
/// `replies[i]` answering attempt `i`. This is the retry loop with the
/// waiting stripped away; a real runner behaves like one iteration per await.
/// No deadline fires in a scripted run: deadlines are the runner's to
/// enforce, through [`RetrySend::on_deadline`].
pub fn run_send_script(
    net: &mut Network,
    peer: PeerId,
    connection_id: Option<ConnectionId>,
    message: BitswapMessage,
    retries: usize,
    backoff_ms: u64,
    replies: Vec<SendReply>,
) -> (out: ScriptOutcome)
    requires
        retries >= 1,
        replies@.len() >= retries,
        old(net).wf(),
        old(net).events().len() + retries <= old(net).cap(),
        old(net).ticket_counter() + retries <= u64::MAX,
    ensures
        final(net).wf(),
        final(net).same_config(*old(net)),
        out.attempts == script_attempts(replies@, retries as int),
        out.backoffs == out.attempts - 1,
        final(net).events().len() == old(net).events().len() + out.attempts,
        final(net).ticket_counter() == old(net).ticket_counter() + out.attempts,
        forall|i: int|
            0 <= i < old(net).events().len() ==> final(net).events()[i] == old(net).events()[i],
        forall|i: int|
            old(net).events().len() <= i < final(net).events().len() ==> matches_send_event(
                #[trigger] final(net).events()[i],
                peer,
                message@,
                (old(net).ticket_counter() + i - old(net).events().len()) as u64,
                connection_id,
            ),
        script_succeeds(replies@, retries as int) ==> out.result == Ok::<(), SendMessageError>(()),
        script_fatal(replies@, retries as int) ==> out.result == Err::<(), SendMessageError>(
            SendMessageError::ProtocolNotSupported,
        ),
        !script_succeeds(replies@, retries as int) && !script_fatal(replies@, retries as int)
            ==> exhausted_result(out.result, peer, script_errors(replies@, retries as int)),
{
    let ghost net0 = *net;
    let ghost replies0 = replies@;
    let ghost msg0 = message@;
    let mut replies = replies;
    let mut m = RetrySend::new(peer, connection_id, message, retries, backoff_ms);
    let mut attempts: usize = 0;
    let mut backoffs: usize = 0;
    let result: Result<(), SendMessageError>;
    loop
        invariant_except_break
            m.wf(),
            m.phase is Ready,
            m.peer == peer,
            m.connection_id == connection_id,
            m.message@ == msg0,
            m.retries == retries,
            m.backoff_ms == backoff_ms,
            m.attempt == attempts,
            backoffs == attempts,
            attempts < retries,
            replies@ == replies0.skip(attempts as int),
            forall|j: int| 0 <= j < attempts ==> !reply_decisive(#[trigger] replies0[j]),
            m.errors@ == script_errors(replies0, attempts as int),
        invariant
            retries >= 1,
            replies0.len() >= retries,
            attempts <= retries,
            net.wf(),
            net.same_config(net0),
            net.events().len() == net0.events().len() + attempts,
            net.ticket_counter() == net0.ticket_counter() + attempts,
            forall|i: int| 0 <= i < net0.events().len() ==> net.events()[i] == net0.events()[i],
            forall|i: int|
                net0.events().len() <= i < net.events().len() ==> matches_send_event(
                    #[trigger] net.events()[i],
                    peer,
                    msg0,
                    (net0.ticket_counter() + i - net0.events().len()) as u64,
                    connection_id,
                ),
            net0.events().len() + retries <= net0.cap(),
            net0.ticket_counter() + retries <= u64::MAX,
        ensures
            attempts >= 1,
            backoffs == attempts - 1,
            attempts == script_attempts(replies0, retries as int),
            script_succeeds(replies0, retries as int) ==> result == Ok::<(), SendMessageError>(()),
            script_fatal(replies0, retries as int) ==> result == Err::<(), SendMessageError>(
                SendMessageError::ProtocolNotSupported,
            ),
            !script_succeeds(replies0, retries as int) && !script_fatal(replies0, retries as int)
                ==> exhausted_result(result, peer, script_errors(replies0, retries as int)),
        decreases retries - attempts,
    {
        let ghost net_pre = *net;
        let step = m.start_attempt(net);
        match step {
            SendStep::Await { .. } => {},
            _ => {
                result = unreached();
                break;
            },
        }
        proof {
            assert(!net_pre.is_full());
            assert forall|i: int| 0 <= i < net0.events().len() implies net.events()[i]
                == net0.events()[i] by {
                assert(net.events()[i] == net_pre.events()[i]);
            }
            assert forall|i: int|
                net0.events().len() <= i < net.events().len() implies matches_send_event(
                #[trigger] net.events()[i],
                peer,
                msg0,
                (net0.ticket_counter() + i - net0.events().len()) as u64,
                connection_id,
            ) by {
                if i < net.events().len() - 1 {
                    assert(net.events()[i] == net_pre.events()[i]);
                } else {
                    assert(net.events()[i] == net.events().last());
                    assert((net0.ticket_counter() + i - net0.events().len()) as u64
                        == net_pre.ticket_counter());
                }
            }
        }
        attempts = attempts + 1;
        proof {
            assert(replies0.skip((attempts - 1) as int).remove(0) =~= replies0.skip(
                attempts as int,
            ));
        }
        let reply = replies.remove(0);
        let step = m.on_reply(reply);
        match step {
            SendStep::Finished(r) => {
                proof {
                    lemma_first_decisive_advance(replies0, 0, (attempts - 1) as int, retries as int);
                    if reply_decisive(reply) {
                        assert(first_decisive(replies0, retries as int) == attempts - 1);
                    } else {
                        assert(m.attempt == retries);
                        lemma_first_decisive_advance(
                            replies0,
                            (attempts - 1) as int,
                            attempts as int,
                            retries as int,
                        );
                        assert(first_decisive(replies0, retries as int) == retries);
                    }
                }
                result = r;
                break;
            },
            SendStep::Backoff { .. } => {
                backoffs = backoffs + 1;
            },
            SendStep::Await { .. } => {
                result = unreached();
                break;
            },
        }
    }
    ScriptOutcome { attempts, backoffs, result }
}

/// Skipping a non-decisive prefix does not move the first decisive index.
proof fn lemma_first_decisive_advance(replies: Seq<SendReply>, i: int, k: int, n: int)
    requires
        0 <= i <= k <= n,
        forall|j: int| i <= j < k ==> !reply_decisive(#[trigger] replies[j]),
    ensures
        first_decisive_from(replies, i, n) == first_decisive_from(replies, k, n),
    decreases k - i,
{
    if i < k {
        lemma_first_decisive_advance(replies, i + 1, k, n);
    }
}

/// The recorded errors of the first `k` replies: one per reply, in order.
proof fn lemma_script_errors_props(replies: Seq<SendReply>, k: int)
    requires
        k >= 0,
    ensures
        script_errors(replies, k).len() == k,
        forall|j: int| 0 <= j < k ==> script_errors(replies, k)[j] == transient_of(
            #[trigger] replies[j],
        ),
    decreases k,
{
    if k > 0 {
        lemma_script_errors_props(replies, k - 1);
    }
}

/// Law: a send whose first attempt is answered with the fatal protocol error
/// performs exactly one attempt, never sleeps for backoff, and fails with
/// that fatal error — for every allowed number of retries.
pub proof fn lemma_fatal_first_reply(replies: Seq<SendReply>, retries: int)
    requires
        retries >= 1,
        replies.len() >= retries,
        reply_is_fatal(replies[0]),
    ensures
        script_attempts(replies, retries) == 1,
        script_backoffs(replies, retries) == 0,
        script_fatal(replies, retries),
        !script_succeeds(replies, retries),
{
    assert(first_decisive(replies, retries) == 0);
}

/// Law: a send answered with a transient failure on every attempt makes
/// exactly `retries` attempts with exactly `retries - 1` backoffs between
/// them, and fails with an aggregation of all `retries` recorded errors — for
/// every allowed number of retries.
pub proof fn lemma_all_transient_exhausts(replies: Seq<SendReply>, retries: int)
    requires
        retries >= 1,
        replies.len() >= retries,
        forall|j: int| 0 <= j < retries ==> !reply_decisive(#[trigger] replies[j]),
    ensures
        script_attempts(replies, retries) == retries,
        script_backoffs(replies, retries) == retries - 1,
        !script_succeeds(replies, retries),
        !script_fatal(replies, retries),
        script_errors(replies, retries).len() == retries,
        forall|j: int| 0 <= j < retries ==> script_errors(replies, retries)[j] == transient_of(
            #[trigger] replies[j],
        ),
{
    lemma_first_decisive_advance(replies, 0, retries, retries);
    lemma_script_errors_props(replies, retries);
}

} // verus!
