//! Waiting for and replaying the response of a concurrent request that holds
//! the same idempotency key.
//!
//! The caller performs each action (a database lookup, a pause, decoding a
//! stored JSON body) and hands its result back as the next event.

use vstd::prelude::*;

use crate::errors::{is_conflict, AppError, DatabaseFailure};
use crate::models::payment::Payment;
use crate::repositories::idempotency_repository::IdempotencyRecord;
use crate::services::payment_service::{
    replayed_result, stored_response, IdempotentCreationError, PaymentCreationResult,
    IDEMPOTENCY_REPLAY_WAIT_ATTEMPTS, IDEMPOTENCY_REPLAY_WAIT_MILLIS,
};
use crate::text::str_eq;

verus! {

/// Where a replay stands.
#[derive(Debug, Clone, Copy, PartialEq, Eq, Structural)]
pub enum ReplayStage {
    /// Nothing done yet.
    Start,
    /// A lookup of the key's active record was requested.
    LookingUp,
    /// A pause before the next lookup was requested.
    Sleeping,
    /// Decoding the stored body was requested; the stored status code waits.
    Decoding { status_code: i16 },
    /// The answer was given.
    Finished,
}

/// The result of the last action, handed back by the caller.
#[derive(Debug)]
pub enum ReplayEvent {
    Started,
    LookedUp(Result<Option<IdempotencyRecord>, DatabaseFailure>),
    Slept,
    /// The stored body as a payment, or `None` where it does not decode.
    Decoded(Option<Payment>),
}

/// What the caller must do next.
#[derive(Debug)]
pub enum ReplayAction {
    /// Read the unexpired record of `key`, without locking it.
    FindActive { key: String },
    /// Pause for `millis` milliseconds.
    Sleep { millis: u64 },
    /// Decode `body` as the JSON of a payment.
    Decode { body: String },
    /// Answer the request.
    Finish(Result<PaymentCreationResult, AppError>),
}

/// The state of a replay as the specification sees it.
pub struct ReplayView {
    pub key: Seq<char>,
    pub request_hash: Seq<char>,
    pub round: nat,
    pub stage: ReplayStage,
}

/// A request waiting for the stored response of the request that holds its
/// idempotency key.
#[derive(Debug)]
pub struct ReplayPoll {
    key: String,
    request_hash: String,
    round: usize,
    stage: ReplayStage,
}

impl View for ReplayPoll {
    type V = ReplayView;

    closed spec fn view(&self) -> ReplayView {
        ReplayView {
            key: self.key@,
            request_hash: self.request_hash@,
            round: self.round as nat,
            stage: self.stage,
        }
    }
}

pub open spec fn still_processing_message() -> Seq<char> {
    "an identical payment request is still being processed; retry with the same idempotency key"@
}

pub open spec fn different_request_message() -> Seq<char> {
    "idempotency key was already used with a different request"@
}

/// Which events each stage accepts.
pub open spec fn replay_accepts(stage: ReplayStage, event: ReplayEvent) -> bool {
    match stage {
        ReplayStage::Start => event is Started,
        ReplayStage::LookingUp => event is LookedUp,
        ReplayStage::Sleeping => event is Slept,
        ReplayStage::Decoding { .. } => event is Decoded,
        ReplayStage::Finished => false,
    }
}

/// The rounds used so far never reach the limit.
pub open spec fn replay_wf(v: ReplayView) -> bool {
    v.round < IDEMPOTENCY_REPLAY_WAIT_ATTEMPTS
}

/// `post` keeps the key, the hash and the round of `pre` and is finished.
pub open spec fn replay_finished(pre: ReplayView, post: ReplayView) -> bool {
    post == ReplayView { stage: ReplayStage::Finished, ..pre }
}

/// `post` keeps everything of `pre` but moves to `stage`.
pub open spec fn replay_moved(pre: ReplayView, post: ReplayView, stage: ReplayStage) -> bool {
    post == ReplayView { stage, ..pre }
}

/// One step of a replay: from `pre`, the event gives `post` and `action`.
pub open spec fn replay_step(
    pre: ReplayView,
    event: ReplayEvent,
    post: ReplayView,
    action: ReplayAction,
) -> bool {
    &&& replay_accepts(pre.stage, event)
    &&& match pre.stage {
        ReplayStage::Start => {
            &&& replay_moved(pre, post, ReplayStage::LookingUp)
            &&& action matches ReplayAction::FindActive { key } && key@ == pre.key
        },
        ReplayStage::LookingUp => match event {
            ReplayEvent::LookedUp(Err(_)) => replay_finished(pre, post) && action
                == ReplayAction::Finish(Err(AppError::Internal)),
            ReplayEvent::LookedUp(Ok(Some(record))) => if record.request_hash@ != pre.request_hash {
                &&& replay_finished(pre, post)
                &&& action matches ReplayAction::Finish(Err(e))
                &&& is_conflict(e, different_request_message())
            } else {
                match record.response_body {
                    None => replay_moved(pre, post, ReplayStage::Sleeping) && action
                        == ReplayAction::Sleep { millis: IDEMPOTENCY_REPLAY_WAIT_MILLIS },
                    Some(body) => match record.status_code {
                        None => replay_finished(pre, post) && action == ReplayAction::Finish(
                            Err(AppError::Internal),
                        ),
                        Some(code) => replay_moved(
                            pre,
                            post,
                            ReplayStage::Decoding { status_code: code },
                        ) && action == ReplayAction::Decode { body },
                    },
                }
            },
            _ => replay_moved(pre, post, ReplayStage::Sleeping) && action == ReplayAction::Sleep {
                millis: IDEMPOTENCY_REPLAY_WAIT_MILLIS,
            },
        },
        ReplayStage::Sleeping => if pre.round + 1 < IDEMPOTENCY_REPLAY_WAIT_ATTEMPTS {
            &&& post == ReplayView { round: pre.round + 1, stage: ReplayStage::LookingUp, ..pre }
            &&& action matches ReplayAction::FindActive { key } && key@ == pre.key
        } else {
            &&& replay_finished(pre, post)
            &&& action matches ReplayAction::Finish(Err(e))
            &&& is_conflict(e, still_processing_message())
        },
        ReplayStage::Decoding { status_code } => {
            &&& replay_finished(pre, post)
            &&& match event {
                ReplayEvent::Decoded(Some(payment)) => action == ReplayAction::Finish(
                    Ok(PaymentCreationResult { payment, status_code: status_code as u16 }),
                ),
                _ => action == ReplayAction::Finish(Err(AppError::Internal)),
            }
        },
        ReplayStage::Finished => false,
    }
}

/// How many more events a replay can take at most.
pub open spec fn replay_remaining(v: ReplayView) -> int {
    match v.stage {
        ReplayStage::Start => 2 * IDEMPOTENCY_REPLAY_WAIT_ATTEMPTS + 1,
        ReplayStage::LookingUp => 2 * (IDEMPOTENCY_REPLAY_WAIT_ATTEMPTS - v.round),
        ReplayStage::Sleeping => 2 * (IDEMPOTENCY_REPLAY_WAIT_ATTEMPTS - v.round) - 1,
        ReplayStage::Decoding { .. } => 1,
        ReplayStage::Finished => 0,
    }
}

/// A replay always ends: every step lowers the number of events that can
/// still come, which starts at 41, so a replay looks its key up at most
/// 20 times. It keeps its key and the hash it expects.
pub proof fn lemma_replay_progress(
    pre: ReplayView,
    event: ReplayEvent,
    post: ReplayView,
    action: ReplayAction,
)
    requires
        replay_wf(pre),
        replay_step(pre, event, post, action),
    ensures
        replay_wf(post),
        0 <= replay_remaining(post) < replay_remaining(pre),
        post.key == pre.key,
        post.request_hash == pre.request_hash,
{
}

/// Each answer of a replay names its cause: an internal error only for a
/// failed lookup, a stored record without a status code, or a stored body
/// that did not decode; a refusal for reuse only for a record made by another
/// request; giving up only after the last pause of the last round. A missing
/// or unfinished record of the same request leads to a pause of 25 ms.
pub proof fn lemma_replay_answers_name_their_cause(
    pre: ReplayView,
    event: ReplayEvent,
    post: ReplayView,
    action: ReplayAction,
)
    requires
        replay_step(pre, event, post, action),
    ensures
        action == ReplayAction::Finish(Err(AppError::Internal)) ==> (event matches ReplayEvent::LookedUp(
            Err(_),
        ) || event == ReplayEvent::Decoded(None) || (event matches ReplayEvent::LookedUp(
            Ok(Some(record)),
        ) && record.request_hash@ == pre.request_hash && record.response_body is Some
            && record.status_code is None)),
        event matches ReplayEvent::LookedUp(Err(_)) ==> action == ReplayAction::Finish(
            Err(AppError::Internal),
        ),
        action matches ReplayAction::Finish(Err(e)) && is_conflict(e, different_request_message())
            ==> (event matches ReplayEvent::LookedUp(Ok(Some(record))) && record.request_hash@
            != pre.request_hash),
        action matches ReplayAction::Finish(Err(e)) && is_conflict(e, still_processing_message())
            ==> (pre.stage == ReplayStage::Sleeping && pre.round + 1 >= 20),
        event matches ReplayEvent::LookedUp(Ok(None)) ==> action == (ReplayAction::Sleep {
            millis: 25,
        }),
        event matches ReplayEvent::LookedUp(Ok(Some(record))) ==> (record.request_hash@
            == pre.request_hash && record.response_body is None ==> action == (ReplayAction::Sleep {
            millis: 25,
        })),
        pre.stage == ReplayStage::Sleeping && pre.round + 1 < 20 ==> (post.round == pre.round + 1
            && (action matches ReplayAction::FindActive { key } && key@ == pre.key)),
{
    reveal_strlit("idempotency key was already used with a different request");
    reveal_strlit("an identical payment request is still being processed; retry with the same idempotency key");
    assert(still_processing_message()[0] != different_request_message()[0]);
}

/// `states`, `events` and `actions` form a run of a replay.
pub open spec fn is_replay_run(
    states: Seq<ReplayView>,
    events: Seq<ReplayEvent>,
    actions: Seq<ReplayAction>,
) -> bool {
    &&& states.len() == events.len() + 1
    &&& actions.len() == events.len()
    &&& forall|i: int|
        0 <= i < events.len() ==> replay_step(states[i], #[trigger] events[i], states[i + 1], actions[i])
}

/// Along a run from a well-formed state, the number of events that can
/// still come drops by at least one per event.
pub proof fn lemma_replay_run_progress(
    states: Seq<ReplayView>,
    events: Seq<ReplayEvent>,
    actions: Seq<ReplayAction>,
    j: int,
)
    requires
        is_replay_run(states, events, actions),
        replay_wf(states[0]),
        0 <= j < states.len(),
    ensures
        replay_wf(states[j]),
        0 <= replay_remaining(states[j]) <= replay_remaining(states[0]) - j,
    decreases j,
{
    if j > 0 {
        lemma_replay_run_progress(states, events, actions, j - 1);
        let _ = events[j - 1];
        lemma_replay_progress(states[j - 1], events[j - 1], states[j], actions[j - 1]);
    }
}

/// A replay started fresh takes at most 41 events, so it looks the key up
/// at most 20 times before answering.
pub proof fn lemma_replay_run_is_bounded(
    states: Seq<ReplayView>,
    events: Seq<ReplayEvent>,
    actions: Seq<ReplayAction>,
)
    requires
        is_replay_run(states, events, actions),
        states[0].stage == ReplayStage::Start,
        states[0].round == 0,
    ensures
        events.len() <= 2 * IDEMPOTENCY_REPLAY_WAIT_ATTEMPTS + 1,
{
    lemma_replay_run_progress(states, events, actions, events.len() as int);
}

/// A replay answers with a payment only by decoding the response stored in
/// a record made by the same request: the step that asked for the decoding
/// read a record with the expected hash, its stored body and its status code.
pub proof fn lemma_replay_answers_stored_response(
    pre: ReplayView,
    event: ReplayEvent,
    post: ReplayView,
    action: ReplayAction,
)
    requires
        replay_step(pre, event, post, action),
    ensures
        action matches ReplayAction::Finish(Ok(result)) ==> (pre.stage matches ReplayStage::Decoding { status_code }
            && result.status_code == status_code as u16
            && event == ReplayEvent::Decoded(Some(result.payment))),
        post.stage matches ReplayStage::Decoding { status_code } ==> (event matches ReplayEvent::LookedUp(Ok(Some(record)))
            && record.request_hash@ == pre.request_hash
            && record.status_code == Some(status_code)
            && (record.response_body matches Some(body) && action == ReplayAction::Decode { body })),
{
}

/// How a replay answers a stored record that cannot be replayed.
fn replay_error(error: IdempotentCreationError) -> (answer: AppError)
    ensures
        match error {
            IdempotentCreationError::Conflict(message) => answer == AppError::Conflict(message),
            _ => answer == AppError::Internal,
        },
{
    match error {
        IdempotentCreationError::Conflict(message) => AppError::Conflict(message),
        IdempotentCreationError::InvalidStoredResponse => AppError::Internal,
        IdempotentCreationError::Database(failure) => AppError::from(failure),
    }
}

impl ReplayPoll {
    /// A replay for `key`, expecting a record made by the request with
    /// `request_hash`.
    pub fn new(key: &str, request_hash: &str) -> (poll: ReplayPoll)
        ensures
            poll@ == (ReplayView {
                key: key@,
                request_hash: request_hash@,
                round: 0,
                stage: ReplayStage::Start,
            }),
    {
        ReplayPoll {
            key: key.to_owned(),
            request_hash: request_hash.to_owned(),
            round: 0,
            stage: ReplayStage::Start,
        }
    }

    pub fn stage(&self) -> (stage: ReplayStage)
        ensures
            stage == self@.stage,
    {
        self.stage
    }

    /// Whether `event` is the kind of result that the last action gives.
    pub fn accepts(&self, event: &ReplayEvent) -> (accepted: bool)
        ensures
            accepted == replay_accepts(self@.stage, *event),
    {
        match (self.stage, event) {
            (ReplayStage::Start, ReplayEvent::Started) => true,
            (ReplayStage::LookingUp, ReplayEvent::LookedUp(_)) => true,
            (ReplayStage::Sleeping, ReplayEvent::Slept) => true,
            (ReplayStage::Decoding { .. }, ReplayEvent::Decoded(_)) => true,
            _ => false,
        }
    }

    /// Takes the result of the last action and gives the next one.
    pub fn step(&mut self, event: ReplayEvent) -> (action: ReplayAction)
        requires
            replay_wf(old(self)@),
            replay_accepts(old(self)@.stage, event),
        ensures
            replay_wf(final(self)@),
            replay_step(old(self)@, event, final(self)@, action),
    {
        match self.stage {
            ReplayStage::Start => {
                self.stage = ReplayStage::LookingUp;
                ReplayAction::FindActive { key: self.key.clone() }
            },
            ReplayStage::LookingUp => match event {
                ReplayEvent::LookedUp(Err(failure)) => {
                    self.stage = ReplayStage::Finished;
                    ReplayAction::Finish(Err(AppError::from(failure)))
                },
                ReplayEvent::LookedUp(Ok(Some(record))) => {
                    if !str_eq(record.request_hash.as_str(), self.request_hash.as_str()) {
                        self.stage = ReplayStage::Finished;
                        return ReplayAction::Finish(
                            Err(
                                AppError::conflict(
                                    "idempotency key was already used with a different request",
                                ),
                            ),
                        );
                    }
                    if record.response_body.is_none() {
                        self.stage = ReplayStage::Sleeping;
                        return ReplayAction::Sleep { millis: IDEMPOTENCY_REPLAY_WAIT_MILLIS };
                    }
                    match stored_response(record) {
                        Ok((body, code)) => {
                            self.stage = ReplayStage::Decoding { status_code: code };
                            ReplayAction::Decode { body }
                        },
                        Err(error) => {
                            self.stage = ReplayStage::Finished;
                            ReplayAction::Finish(Err(replay_error(error)))
                        },
                    }
                },
                _ => {
                    self.stage = ReplayStage::Sleeping;
                    ReplayAction::Sleep { millis: IDEMPOTENCY_REPLAY_WAIT_MILLIS }
                },
            },
            ReplayStage::Sleeping => {
                if self.round + 1 < IDEMPOTENCY_REPLAY_WAIT_ATTEMPTS {
                    self.round = self.round + 1;
                    self.stage = ReplayStage::LookingUp;
                    ReplayAction::FindActive { key: self.key.clone() }
                } else {
                    self.stage = ReplayStage::Finished;
                    ReplayAction::Finish(
                        Err(
                            AppError::conflict(
                                "an identical payment request is still being processed; retry with the same idempotency key",
                            ),
                        ),
                    )
                }
            },
            ReplayStage::Decoding { status_code } => {
                self.stage = ReplayStage::Finished;
                let decoded = match event {
                    ReplayEvent::Decoded(decoded) => decoded,
                    _ => None,
                };
                match replayed_result(decoded, status_code) {
                    Ok(result) => ReplayAction::Finish(Ok(result)),
                    Err(error) => ReplayAction::Finish(Err(replay_error(error))),
                }
            },
            ReplayStage::Finished => ReplayAction::Finish(Err(AppError::Internal)),
        }
    }
}

} // verus!
