//! The snatch orchestrator: a state machine over one `PurchaseTask` that
//! sequences wait -> create-order -> think -> submit-order, retrying failed
//! cycles on a fixed cadence under a bounded budget.
//!
//! The machine is pure: `step` maps the current state and an observed event
//! (a timer firing, a cancellation signal, a classified gateway result) to
//! the next state and the single action the driver must perform next. All
//! sleeping and network I/O is done by the driver outside this crate.

use vstd::prelude::*;

use crate::task::PurchaseTask;

verus! {

/// Why a run ended without an order.
pub enum FailReason {
    /// The retry budget was used up by transient failures.
    AttemptsExhausted,
    /// The gateway rejected the request as malformed; replaying cannot help.
    Fatal,
    /// The session stayed expired even after a token rotation; a new login
    /// is needed.
    SessionInvalid,
}

/// The single terminal result of a run.
pub enum SnatchOutcome {
    Success { order_ref: String },
    Failed { reason: FailReason },
    Cancelled,
}

/// A gateway call's result as the orchestrator sees it, after the
/// per-call session-refresh handling has run its course.
pub enum CallFailure {
    /// Rate limit, sold out, transport trouble or an unknown code: worth
    /// another cycle.
    Transient,
    /// Malformed request: never retried.
    Fatal,
    /// Session expired twice in one logical call: never retried.
    SessionInvalid,
}

/// What the driver observed since the last step.
pub enum Event {
    /// The pending sleep finished.
    WokeUp,
    /// Cancellation was observed during a sleep.
    CancelSignal,
    /// Order creation succeeded and minted this single-use token.
    CreateOk { order_token: String },
    /// Order submission succeeded with this order reference.
    SubmitOk { order_ref: String },
    /// The pending gateway call failed with this classification.
    CallFailed { failure: CallFailure },
}

/// What the driver must do next. Exactly one action is pending at a time.
pub enum Action {
    /// Suspend until the absolute instant (milliseconds since the epoch).
    SleepUntil { target_ms: i64 },
    /// Suspend for the given duration in milliseconds.
    SleepFor { duration_ms: u64 },
    /// Issue the order-creation call for the task's target.
    CallCreate { ticket_id: String, perform_id: String, sku_id: String, quantity: u64 },
    /// Issue the order-submission call consuming this token.
    CallSubmit { order_token: String, real_names: Vec<String> },
    /// The run is over; report the outcome and stop.
    Finish { outcome: SnatchOutcome },
}

/// The orchestrator's control state. An order token exists only in the
/// `ThinkDelay` and `SubmittingOrder` states: every path back to
/// `CreatingOrder` passes through token-free states, so a token from a
/// failed cycle cannot survive into the next one.
pub enum State {
    WaitingForWindow,
    CreatingOrder,
    ThinkDelay { order_token: String },
    SubmittingOrder { order_token: String },
    Retrying,
    Done { outcome: SnatchOutcome },
}

/// One snatch run: the immutable task, the control state, and the retry
/// budget still standing.
pub struct Orchestrator {
    pub task: PurchaseTask,
    pub state: State,
    pub attempts_left: u64,
}

impl Orchestrator {
    /// Well-formedness: the task is in range, the budget never exceeds the
    /// configured count, and a live run always has at least one attempt.
    pub open spec fn wf(&self) -> bool {
        &&& self.task.valid()
        &&& self.attempts_left <= self.task.retry_count
        &&& !(self.state is Done) ==> 1 <= self.attempts_left
    }

    /// Which events the driver may deliver in which state: timers and
    /// cancellation only while suspended, call results only while a call
    /// is in flight, nothing once the run is done.
    pub open spec fn event_allowed(&self, e: Event) -> bool {
        match self.state {
            State::WaitingForWindow => e is WokeUp || e is CancelSignal,
            State::CreatingOrder => e is CreateOk || e is CallFailed,
            State::ThinkDelay { .. } => e is WokeUp || e is CancelSignal,
            State::SubmittingOrder { .. } => e is SubmitOk || e is CallFailed,
            State::Retrying => e is WokeUp || e is CancelSignal,
            State::Done { .. } => false,
        }
    }

    /// The exact transition relation of the machine: what the next state,
    /// the remaining budget and the emitted action must be for each
    /// state/event pair the machine admits.
    pub open spec fn step_rel(pre: Orchestrator, e: Event, post: Orchestrator, act: Action) -> bool {
        &&& post.task == pre.task
        &&& match (pre.state, e) {
            (State::WaitingForWindow, Event::WokeUp) => {
                &&& post.state is CreatingOrder
                &&& post.attempts_left == pre.attempts_left
                &&& Self::is_create_action(act, pre.task)
            },
            (State::WaitingForWindow, Event::CancelSignal) => Self::cancelled_step(pre, post, act),
            (State::CreatingOrder, Event::CreateOk { order_token }) => {
                &&& post.state matches State::ThinkDelay { order_token: t } && t@ == order_token@
                &&& post.attempts_left == pre.attempts_left
                &&& act matches Action::SleepFor { duration_ms } && duration_ms == pre.task.think_time_ms
            },
            (State::CreatingOrder, Event::CallFailed { failure }) => Self::failed_call_step(pre, failure, post, act),
            (State::ThinkDelay { order_token }, Event::WokeUp) => {
                &&& post.state matches State::SubmittingOrder { order_token: t } && t@ == order_token@
                &&& post.attempts_left == pre.attempts_left
                &&& act matches Action::CallSubmit { order_token: k, real_names }
                    && k@ == order_token@
                    && real_names@.map_values(|s: String| s@) == pre.task.real_names@.map_values(|s: String| s@)
            },
            (State::ThinkDelay { .. }, Event::CancelSignal) => Self::cancelled_step(pre, post, act),
            (State::SubmittingOrder { .. }, Event::SubmitOk { order_ref }) => {
                &&& post.attempts_left == pre.attempts_left
                &&& post.state matches State::Done { outcome: SnatchOutcome::Success { order_ref: r } }
                    && r@ == order_ref@
                &&& act matches Action::Finish { outcome: SnatchOutcome::Success { order_ref: r } }
                    && r@ == order_ref@
            },
            (State::SubmittingOrder { .. }, Event::CallFailed { failure }) => Self::failed_call_step(pre, failure, post, act),
            (State::Retrying, Event::WokeUp) => {
                &&& post.attempts_left == pre.attempts_left - 1
                &&& if pre.attempts_left >= 2 {
                    &&& post.state is CreatingOrder
                    &&& Self::is_create_action(act, pre.task)
                } else {
                    &&& post.state matches State::Done {
                        outcome: SnatchOutcome::Failed { reason: FailReason::AttemptsExhausted },
                    }
                    &&& act matches Action::Finish {
                        outcome: SnatchOutcome::Failed { reason: FailReason::AttemptsExhausted },
                    }
                }
            },
            (State::Retrying, Event::CancelSignal) => Self::cancelled_step(pre, post, act),
            _ => false,
        }
    }

    /// The action that enters `CreatingOrder`: an order-creation call for
    /// exactly the task's target and quantity.
    pub open spec fn is_create_action(act: Action, task: PurchaseTask) -> bool {
        act matches Action::CallCreate { ticket_id, perform_id, sku_id, quantity }
            && ticket_id@ == task.ticket_id@
            && perform_id@ == task.perform_id@
            && sku_id@ == task.sku_id@
            && quantity == task.quantity
    }

    /// A cancellation observed while suspended ends the run at once.
    pub open spec fn cancelled_step(pre: Orchestrator, post: Orchestrator, act: Action) -> bool {
        &&& post.state matches State::Done { outcome: SnatchOutcome::Cancelled }
        &&& post.attempts_left == pre.attempts_left
        &&& act matches Action::Finish { outcome: SnatchOutcome::Cancelled }
    }

    /// Failure routing shared by `CreatingOrder` and `SubmittingOrder`:
    /// transient failures enter `Retrying` (any order token is dropped),
    /// fatal classifications end the run, bypassing the budget.
    pub open spec fn failed_call_step(pre: Orchestrator, failure: CallFailure, post: Orchestrator, act: Action) -> bool {
        match failure {
            CallFailure::Transient => {
                &&& post.state is Retrying
                &&& post.attempts_left == pre.attempts_left
                &&& act matches Action::SleepFor { duration_ms } && duration_ms == pre.task.retry_interval_ms
            },
            CallFailure::Fatal => {
                &&& post.attempts_left == pre.attempts_left
                &&& post.state matches State::Done {
                    outcome: SnatchOutcome::Failed { reason: FailReason::Fatal },
                }
                &&& act matches Action::Finish {
                    outcome: SnatchOutcome::Failed { reason: FailReason::Fatal },
                }
            },
            CallFailure::SessionInvalid => {
                &&& post.attempts_left == pre.attempts_left
                &&& post.state matches State::Done {
                    outcome: SnatchOutcome::Failed { reason: FailReason::SessionInvalid },
                }
                &&& act matches Action::Finish {
                    outcome: SnatchOutcome::Failed { reason: FailReason::SessionInvalid },
                }
            },
        }
    }

    /// Position of a state within one create/submit cycle; later stages
    /// rank lower, terminal states rank zero.
    pub open spec fn rank(s: State) -> nat {
        match s {
            State::WaitingForWindow => 5,
            State::CreatingOrder => 4,
            State::ThinkDelay { .. } => 3,
            State::SubmittingOrder { .. } => 2,
            State::Retrying => 1,
            State::Done { .. } => 0,
        }
    }

    /// Termination measure of a run: the remaining budget weighted above
    /// the position within the current cycle; zero exactly at the end.
    pub open spec fn measure(&self) -> nat {
        if self.state is Done {
            0
        } else {
            (self.attempts_left * 10 + Self::rank(self.state)) as nat
        }
    }

    /// Every step from a live state strictly shrinks `measure`, and keeps
    /// the machine well-formed; with `lemma_terminal_absorbing` this shows
    /// that a run driven to quiescence reaches exactly one terminal state
    /// and never loops unboundedly: each visit to `Retrying` leaves with a
    /// strictly smaller budget.
    pub proof fn lemma_step_terminates(pre: Orchestrator, e: Event, post: Orchestrator, act: Action)
        requires
            pre.wf(),
            pre.event_allowed(e),
            Self::step_rel(pre, e, post, act),
        ensures
            post.wf(),
            post.measure() < pre.measure(),
    {
    }

    /// Terminal states admit no further event: once `Done`, a run stays in
    /// that one terminal state.
    pub proof fn lemma_terminal_absorbing(pre: Orchestrator, e: Event)
        requires
            pre.state is Done,
        ensures
            !pre.event_allowed(e),
    {
    }

    /// An order token of a failed submission is dropped on the spot: the
    /// successor state is `Retrying` or `Done` and carries no token, so the
    /// token cannot reach a later create/submit pair.
    pub proof fn lemma_failed_submission_discards_token(pre: Orchestrator, e: Event, post: Orchestrator, act: Action)
        requires
            Self::step_rel(pre, e, post, act),
            pre.state is SubmittingOrder,
            e is CallFailed,
        ensures
            !(post.state is ThinkDelay),
            !(post.state is SubmittingOrder),
    {
    }

    /// A submission call only ever consumes the token minted by the
    /// creation step of the same cycle: `CallSubmit` arises only from
    /// `ThinkDelay`, and `ThinkDelay` is entered only from `CreatingOrder`
    /// through a fresh `CreateOk` carrying that very token. Creation,
    /// think delay and submission thus keep their strict order within a
    /// cycle, also under retry.
    pub proof fn lemma_submitted_token_is_fresh(pre: Orchestrator, e: Event, post: Orchestrator, act: Action)
        requires
            Self::step_rel(pre, e, post, act),
        ensures
            act matches Action::CallSubmit { order_token, .. }
                ==> pre.state matches State::ThinkDelay { order_token: t } && t@ == order_token@,
            post.state matches State::ThinkDelay { order_token: t }
                ==> pre.state is CreatingOrder && (e matches Event::CreateOk { order_token }
                && order_token@ == t@),
            post.state is SubmittingOrder ==> pre.state is ThinkDelay,
    {
    }

    /// A fresh run: full budget, waiting for the purchase window.
    pub fn new(task: PurchaseTask) -> (r: Orchestrator)
        requires
            task.valid(),
        ensures
            r.task == task,
            r.state is WaitingForWindow,
            r.attempts_left == task.retry_count,
            r.wf(),
    {
        let attempts_left = task.retry_count;
        Orchestrator { task, state: State::WaitingForWindow, attempts_left }
    }

    /// The first pending action of a fresh run: sleep until the instant
    /// `sale_time - priority_window_minutes * 60000 + clock_offset_ms`.
    pub fn start(&self) -> (act: Action)
        requires
            self.wf(),
            self.state is WaitingForWindow,
        ensures
            act matches Action::SleepUntil { target_ms } && target_ms == self.task.spec_wait_target(),
    {
        Action::SleepUntil { target_ms: self.task.wait_target() }
    }

    /// Advance the machine by one observed event; returns the next pending
    /// action. The transition taken is exactly `step_rel`.
    pub fn step(&mut self, e: Event) -> (act: Action)
        requires
            old(self).wf(),
            old(self).event_allowed(e),
        ensures
            Self::step_rel(*old(self), e, *final(self), act),
            final(self).wf(),
    {
        let mut cur = State::Done { outcome: SnatchOutcome::Cancelled };
        core::mem::swap(&mut cur, &mut self.state);
        match (cur, e) {
            (State::WaitingForWindow, Event::WokeUp) => {
                self.state = State::CreatingOrder;
                self.create_action()
            },
            (State::WaitingForWindow, Event::CancelSignal) => self.finish_cancelled(),
            (State::CreatingOrder, Event::CreateOk { order_token }) => {
                self.state = State::ThinkDelay { order_token };
                Action::SleepFor { duration_ms: self.task.think_time_ms }
            },
            (State::CreatingOrder, Event::CallFailed { failure }) => self.route_failure(failure),
            (State::ThinkDelay { order_token }, Event::WokeUp) => {
                let submitted = order_token.clone();
                self.state = State::SubmittingOrder { order_token };
                Action::CallSubmit {
                    order_token: submitted,
                    real_names: self.clone_real_names(),
                }
            },
            (State::ThinkDelay { .. }, Event::CancelSignal) => self.finish_cancelled(),
            (State::SubmittingOrder { .. }, Event::SubmitOk { order_ref }) => {
                self.state = State::Done {
                    outcome: SnatchOutcome::Success { order_ref: order_ref.clone() },
                };
                Action::Finish { outcome: SnatchOutcome::Success { order_ref } }
            },
            (State::SubmittingOrder { .. }, Event::CallFailed { failure }) => self.route_failure(failure),
            (State::Retrying, Event::WokeUp) => {
                self.attempts_left = self.attempts_left - 1;
                if self.attempts_left >= 1 {
                    self.state = State::CreatingOrder;
                    self.create_action()
                } else {
                    self.state = State::Done {
                        outcome: SnatchOutcome::Failed { reason: FailReason::AttemptsExhausted },
                    };
                    Action::Finish {
                        outcome: SnatchOutcome::Failed { reason: FailReason::AttemptsExhausted },
                    }
                }
            },
            (State::Retrying, Event::CancelSignal) => self.finish_cancelled(),
            // `event_allowed` rules these pairs out; the arm only makes the
            // match total.
            (s, _) => {
                self.state = s;
                proof {
                    assert(false);
                }
                Action::Finish { outcome: SnatchOutcome::Cancelled }
            },
        }
    }

    /// True once the run has ended; no further event is admissible then.
    pub fn is_done(&self) -> (r: bool)
        ensures
            r == (self.state is Done),
    {
        match self.state {
            State::Done { .. } => true,
            _ => false,
        }
    }

    fn finish_cancelled(&mut self) -> (act: Action)
        ensures
            Self::cancelled_step(*old(self), *final(self), act),
            final(self).task == old(self).task,
            final(self).attempts_left == old(self).attempts_left,
    {
        self.state = State::Done { outcome: SnatchOutcome::Cancelled };
        Action::Finish { outcome: SnatchOutcome::Cancelled }
    }

    fn route_failure(&mut self, failure: CallFailure) -> (act: Action)
        ensures
            Self::failed_call_step(*old(self), failure, *final(self), act),
            final(self).task == old(self).task,
            final(self).attempts_left == old(self).attempts_left,
    {
        match failure {
            CallFailure::Transient => {
                self.state = State::Retrying;
                Action::SleepFor { duration_ms: self.task.retry_interval_ms }
            },
            CallFailure::Fatal => {
                self.state = State::Done {
                    outcome: SnatchOutcome::Failed { reason: FailReason::Fatal },
                };
                Action::Finish { outcome: SnatchOutcome::Failed { reason: FailReason::Fatal } }
            },
            CallFailure::SessionInvalid => {
                self.state = State::Done {
                    outcome: SnatchOutcome::Failed { reason: FailReason::SessionInvalid },
                };
                Action::Finish { outcome: SnatchOutcome::Failed { reason: FailReason::SessionInvalid } }
            },
        }
    }

    fn create_action(&self) -> (act: Action)
        ensures
            Self::is_create_action(act, self.task),
    {
        Action::CallCreate {
            ticket_id: self.task.ticket_id.clone(),
            perform_id: self.task.perform_id.clone(),
            sku_id: self.task.sku_id.clone(),
            quantity: self.task.quantity,
        }
    }

    fn clone_real_names(&self) -> (r: Vec<String>)
        ensures
            r@.map_values(|s: String| s@) == self.task.real_names@.map_values(|s: String| s@),
    {
        let mut out: Vec<String> = Vec::new();
        let mut i: usize = 0;
        while i < self.task.real_names.len()
            invariant
                i <= self.task.real_names.len(),
                out@.len() == i,
                forall|j: int| 0 <= j < i ==> out@[j]@ == self.task.real_names@[j]@,
            decreases self.task.real_names.len() - i,
        {
            out.push(self.task.real_names[i].clone());
            i = i + 1;
        }
        proof {
            assert(out@.map_values(|s: String| s@) =~= self.task.real_names@.map_values(
                |s: String| s@,
            ));
        }
        out
    }
}

} // verus!
