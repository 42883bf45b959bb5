//! The decisions of one batch submission attempt, as a state machine driven by the
//! results of the chain reads and writes that its caller performs.
use vstd::prelude::*;

use crate::types::TransactionBatch;
use crate::valset::OrderingError;

verus! {

/// A hard failure of a submission attempt.
#[derive(Clone, Copy, Debug, PartialEq, Eq, Structural)]
pub enum SubmitError {
    /// A chain read, the broadcast or the inclusion poll failed.
    Transport,
    /// The broadcast transaction was not seen included within the caller's bound.
    SubmissionTimedOut,
    /// The confirmations could not be ordered against the validator set.
    Ordering(OrderingError),
}

/// How an attempt ended.
#[derive(Clone, Copy, Debug, PartialEq, Eq, Structural)]
pub enum Outcome {
    /// The call was included; `nonce_matched` tells whether the contract's nonce then equalled
    /// the batch's (a mismatch is only a signal: another relayer may have raced ahead).
    Done { nonce_matched: bool },
    /// The contract already held an equal or newer batch.
    SkippedStale,
    /// The batch's timeout height had passed.
    SkippedTimedOut,
    Failed(SubmitError),
}

#[derive(Clone, Copy, Debug, PartialEq, Eq, Structural)]
pub enum Phase {
    /// Waiting for the contract's current nonce for the token.
    StalenessCheck,
    /// Waiting for the current block height.
    TimeoutCheck,
    /// Waiting for the call to be built and broadcast.
    Submitting,
    /// Waiting for the broadcast transaction to be included.
    AwaitingConfirmation,
    /// Waiting for the contract's nonce after inclusion.
    Reconciling,
    Finished(Outcome),
}

/// What the machine reports back to the state machine.
#[derive(Clone, Copy, Debug, PartialEq, Eq, Structural)]
pub enum Event {
    /// The contract's nonce for the batch's token contract.
    NonceRead(u64),
    /// The current block height.
    HeightRead(u64),
    /// The call was broadcast.
    Broadcast,
    /// Building the call failed.
    CallRejected(OrderingError),
    /// The broadcast transaction was included.
    Included,
    /// Inclusion was not observed within the caller's bound.
    InclusionTimedOut,
    /// A read, the broadcast or the poll failed.
    TransportFault,
}

/// What the caller is to do next.
#[derive(Clone, Copy, Debug, PartialEq, Eq, Structural)]
pub enum Action {
    ReadNonce,
    ReadBlockHeight,
    /// Build the call and broadcast it.
    BuildAndBroadcast,
    /// Wait for inclusion, bounded by the caller's timeout.
    AwaitInclusion,
    /// Nothing new: the pending operation is still outstanding.
    Wait,
    /// The attempt is over, with this outcome.
    Finish(Outcome),
}

/// One submission attempt of one batch.
#[derive(Clone, Copy, Debug)]
pub struct BatchSubmission {
    pub batch_nonce: u64,
    pub batch_timeout: u64,
    pub phase: Phase,
}

pub open spec fn result_of(o: Outcome) -> Result<(), SubmitError> {
    match o {
        Outcome::Failed(e) => Err(e),
        _ => Ok(()),
    }
}

pub open spec fn finish(m: BatchSubmission, o: Outcome) -> (BatchSubmission, Action) {
    (BatchSubmission { phase: Phase::Finished(o), ..m }, Action::Finish(o))
}

pub open spec fn goto(m: BatchSubmission, p: Phase, a: Action) -> (BatchSubmission, Action) {
    (BatchSubmission { phase: p, ..m }, a)
}

/// The transition table. An event that the phase does not wait for leaves the machine as it
/// is; a finished machine stays finished.
pub open spec fn step(m: BatchSubmission, e: Event) -> (BatchSubmission, Action) {
    match m.phase {
        Phase::Finished(o) => (m, Action::Finish(o)),
        _ => match e {
            Event::TransportFault => finish(m, Outcome::Failed(SubmitError::Transport)),
            Event::NonceRead(n) => match m.phase {
                Phase::StalenessCheck => if n >= m.batch_nonce {
                    finish(m, Outcome::SkippedStale)
                } else {
                    goto(m, Phase::TimeoutCheck, Action::ReadBlockHeight)
                },
                Phase::Reconciling => finish(m, Outcome::Done { nonce_matched: n == m.batch_nonce }),
                _ => (m, Action::Wait),
            },
            Event::HeightRead(h) => match m.phase {
                Phase::TimeoutCheck => if h > m.batch_timeout {
                    finish(m, Outcome::SkippedTimedOut)
                } else {
                    goto(m, Phase::Submitting, Action::BuildAndBroadcast)
                },
                _ => (m, Action::Wait),
            },
            Event::Broadcast => match m.phase {
                Phase::Submitting => goto(m, Phase::AwaitingConfirmation, Action::AwaitInclusion),
                _ => (m, Action::Wait),
            },
            Event::CallRejected(err) => match m.phase {
                Phase::Submitting => finish(m, Outcome::Failed(SubmitError::Ordering(err))),
                _ => (m, Action::Wait),
            },
            Event::Included => match m.phase {
                Phase::AwaitingConfirmation => goto(m, Phase::Reconciling, Action::ReadNonce),
                _ => (m, Action::Wait),
            },
            Event::InclusionTimedOut => match m.phase {
                Phase::AwaitingConfirmation => finish(
                    m,
                    Outcome::Failed(SubmitError::SubmissionTimedOut),
                ),
                _ => (m, Action::Wait),
            },
        },
    }
}

pub open spec fn start(batch_nonce: u64, batch_timeout: u64) -> BatchSubmission {
    BatchSubmission { batch_nonce, batch_timeout, phase: Phase::StalenessCheck }
}

/// The machine after each of `es` in turn, and the actions it returned.
pub open spec fn run(m: BatchSubmission, es: Seq<Event>) -> (BatchSubmission, Seq<Action>)
    decreases es.len(),
{
    if es.len() == 0 {
        (m, Seq::empty())
    } else {
        let (m1, acts) = run(m, es.drop_last());
        let (m2, a) = step(m1, es.last());
        (m2, acts.push(a))
    }
}

/// How many of `acts` ask for a broadcast.
pub open spec fn broadcast_count(acts: Seq<Action>) -> nat
    decreases acts.len(),
{
    if acts.len() == 0 {
        0
    } else {
        broadcast_count(acts.drop_last()) + if acts.last() is BuildAndBroadcast {
            1nat
        } else {
            0nat
        }
    }
}

/// The call has been asked for, or the attempt is over.
pub open spec fn past_broadcast(p: Phase) -> bool {
    ||| p is Submitting
    ||| p is AwaitingConfirmation
    ||| p is Reconciling
    ||| p is Finished
}

/// Once the call has been asked for, or the attempt is over, no sequence of events asks for
/// another broadcast.
pub proof fn lemma_no_second_broadcast(m: BatchSubmission, es: Seq<Event>)
    requires
        past_broadcast(m.phase),
    ensures
        past_broadcast(run(m, es).0.phase),
        broadcast_count(run(m, es).1) == 0,
        run(m, es).0.batch_nonce == m.batch_nonce,
        run(m, es).0.batch_timeout == m.batch_timeout,
    decreases es.len(),
{
    if es.len() > 0 {
        lemma_no_second_broadcast(m, es.drop_last());
        let (m1, acts) = run(m, es.drop_last());
        let (m2, a) = step(m1, es.last());
        assert(acts.push(a).drop_last() =~= acts);
    }
}

/// A batch whose nonce the contract already holds, or exceeds, ends the attempt at once in
/// success, and no event that follows leads to a broadcast.
pub proof fn lemma_stale_batch_skipped(
    batch_nonce: u64,
    batch_timeout: u64,
    chain_nonce: u64,
    es: Seq<Event>,
)
    requires
        chain_nonce >= batch_nonce,
    ensures
        ({
            let (m1, a1) = step(start(batch_nonce, batch_timeout), Event::NonceRead(chain_nonce));
            &&& a1 == Action::Finish(Outcome::SkippedStale)
            &&& result_of(Outcome::SkippedStale) is Ok
            &&& broadcast_count(run(m1, es).1) == 0
        }),
{
    let (m1, a1) = step(start(batch_nonce, batch_timeout), Event::NonceRead(chain_nonce));
    lemma_no_second_broadcast(m1, es);
}

/// A fresh batch whose timeout height has passed ends the attempt in success after the
/// height is read, and no event that follows leads to a broadcast.
pub proof fn lemma_timed_out_batch_skipped(
    batch_nonce: u64,
    batch_timeout: u64,
    chain_nonce: u64,
    height: u64,
    es: Seq<Event>,
)
    requires
        chain_nonce < batch_nonce,
        height > batch_timeout,
    ensures
        ({
            let (m1, a1) = step(start(batch_nonce, batch_timeout), Event::NonceRead(chain_nonce));
            let (m2, a2) = step(m1, Event::HeightRead(height));
            &&& a1 == Action::ReadBlockHeight
            &&& a2 == Action::Finish(Outcome::SkippedTimedOut)
            &&& result_of(Outcome::SkippedTimedOut) is Ok
            &&& broadcast_count(run(m2, es).1) == 0
        }),
{
    let (m1, a1) = step(start(batch_nonce, batch_timeout), Event::NonceRead(chain_nonce));
    let (m2, a2) = step(m1, Event::HeightRead(height));
    lemma_no_second_broadcast(m2, es);
}

/// A fresh batch within its timeout is broadcast once the height is read, and no event that
/// follows leads to a second broadcast.
pub proof fn lemma_fresh_batch_broadcast_once(
    batch_nonce: u64,
    batch_timeout: u64,
    chain_nonce: u64,
    height: u64,
    es: Seq<Event>,
)
    requires
        chain_nonce < batch_nonce,
        height <= batch_timeout,
    ensures
        ({
            let (m1, a1) = step(start(batch_nonce, batch_timeout), Event::NonceRead(chain_nonce));
            let (m2, a2) = step(m1, Event::HeightRead(height));
            &&& a1 == Action::ReadBlockHeight
            &&& a2 == Action::BuildAndBroadcast
            &&& broadcast_count(run(m2, es).1) == 0
        }),
{
    let (m1, a1) = step(start(batch_nonce, batch_timeout), Event::NonceRead(chain_nonce));
    let (m2, a2) = step(m1, Event::HeightRead(height));
    lemma_no_second_broadcast(m2, es);
}

/// Once broadcast, a transaction whose inclusion is not seen in time ends the attempt with
/// `SubmissionTimedOut`, told apart from a transport fault.
pub proof fn lemma_inclusion_timeout_distinct(m: BatchSubmission)
    requires
        m.phase is AwaitingConfirmation,
    ensures
        step(m, Event::InclusionTimedOut).1 == Action::Finish(
            Outcome::Failed(SubmitError::SubmissionTimedOut),
        ),
        step(m, Event::TransportFault).1 == Action::Finish(Outcome::Failed(SubmitError::Transport)),
        SubmitError::SubmissionTimedOut != SubmitError::Transport,
{
}

impl Outcome {
    /// The result reported to the caller: success for a completed or skipped attempt.
    pub fn to_result(&self) -> (r: Result<(), SubmitError>)
        ensures
            r == result_of(*self),
    {
        match self {
            Outcome::Failed(e) => Err(*e),
            _ => Ok(()),
        }
    }
}

impl BatchSubmission {
    /// A fresh attempt for `batch`, and its first action: read the contract's nonce.
    pub fn new(batch: &TransactionBatch) -> (r: (BatchSubmission, Action))
        ensures
            r.0 == start(batch.nonce, batch.batch_timeout),
            r.1 == Action::ReadNonce,
    {
        (
            BatchSubmission {
                batch_nonce: batch.nonce,
                batch_timeout: batch.batch_timeout,
                phase: Phase::StalenessCheck,
            },
            Action::ReadNonce,
        )
    }

    fn finish(&mut self, o: Outcome) -> (a: Action)
        ensures
            (*final(self), a) == finish(*old(self), o),
    {
        self.phase = Phase::Finished(o);
        Action::Finish(o)
    }

    /// Takes the result of the last action and returns the next one.
    pub fn on_event(&mut self, e: Event) -> (a: Action)
        ensures
            (*final(self), a) == step(*old(self), e),
    {
        match self.phase {
            Phase::Finished(o) => {
                return Action::Finish(o);
            },
            _ => {},
        }
        match e {
            Event::TransportFault => self.finish(Outcome::Failed(SubmitError::Transport)),
            Event::NonceRead(n) => match self.phase {
                Phase::StalenessCheck => {
                    if n >= self.batch_nonce {
                        self.finish(Outcome::SkippedStale)
                    } else {
                        self.phase = Phase::TimeoutCheck;
                        Action::ReadBlockHeight
                    }
                },
                Phase::Reconciling => self.finish(
                    Outcome::Done { nonce_matched: n == self.batch_nonce },
                ),
                _ => Action::Wait,
            },
            Event::HeightRead(h) => match self.phase {
                Phase::TimeoutCheck => {
                    if h > self.batch_timeout {
                        self.finish(Outcome::SkippedTimedOut)
                    } else {
                        self.phase = Phase::Submitting;
                        Action::BuildAndBroadcast
                    }
                },
                _ => Action::Wait,
            },
            Event::Broadcast => match self.phase {
                Phase::Submitting => {
                    self.phase = Phase::AwaitingConfirmation;
                    Action::AwaitInclusion
                },
                _ => Action::Wait,
            },
            Event::CallRejected(err) => match self.phase {
                Phase::Submitting => self.finish(Outcome::Failed(SubmitError::Ordering(err))),
                _ => Action::Wait,
            },
            Event::Included => match self.phase {
                Phase::AwaitingConfirmation => {
                    self.phase = Phase::Reconciling;
                    Action::ReadNonce
                },
                _ => Action::Wait,
            },
            Event::InclusionTimedOut => match self.phase {
                Phase::AwaitingConfirmation => self.finish(
                    Outcome::Failed(SubmitError::SubmissionTimedOut),
                ),
                _ => Action::Wait,
            },
        }
    }

    /// Whether the attempt is over.
    pub fn is_finished(&self) -> (r: bool)
        ensures
            r == (self.phase is Finished),
    {
        match self.phase {
            Phase::Finished(_) => true,
            _ => false,
        }
    }
}

} // verus!
