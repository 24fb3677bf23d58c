//! The single-process service's decisions: where a payment is sent next and
//! how each processor's answer is read, and how settled payments and summary
//! requests reach the ledger.
use vstd::prelude::*;
use vstd::string::StringExecFns;
use crate::app_state::SummaryQuery;
use crate::database::{DbError, PaymentKind, PaymentPost, PaymentsDb, Stats, lemma_bounded_window_ignores_clock, recorded, summary_of_window,
    summary_owed, window_end,
};
use crate::processing::{HttpOutcome, is_error_status};

verus! {

/// A payment processor.
#[derive(Debug, Clone, Copy, PartialEq, Eq, Structural)]
pub enum Processor {
    /// The cheaper processor, tried first.
    Default,
    /// The processor tried when the default one fails.
    Fallback,
}

impl Processor {
    /// The processor's base URL.
    pub open spec fn base_url(self) -> Seq<char> {
        match self {
            Processor::Default => "http://localhost:8001"@,
            Processor::Fallback => "http://localhost:8002"@,
        }
    }

    /// The processor's base URL: `http://localhost:8001` for the default
    /// processor, `http://localhost:8002` for the fallback one.
    pub fn service_url(&self) -> (url: &'static str)
        ensures
            url@ == self.base_url(),
    {
        match self {
            Processor::Default => "http://localhost:8001",
            Processor::Fallback => "http://localhost:8002",
        }
    }
}

/// How a processor answered a payment.
#[derive(Debug, Clone, Copy, PartialEq, Eq, Structural)]
pub enum SendToServiceResult {
    /// The processor took the payment.
    Success,
    /// The processor already had the payment.
    AlreadyProcessed,
    /// The processor did not take it; try elsewhere or later.
    ErrRetry,
}

/// Whether a processor already has a payment.
#[derive(Debug, Clone, Copy, PartialEq, Eq, Structural)]
pub enum GetPaymentResult {
    IsCreated,
    Unknown,
}

/// A lookup of a payment: status 200 means the processor has it; any other
/// answer, or none, tells nothing.
pub fn classify_get_outcome(outcome: HttpOutcome) -> (found: GetPaymentResult)
    ensures
        found == (if outcome == HttpOutcome::Responded(200) {
            GetPaymentResult::IsCreated
        } else {
            GetPaymentResult::Unknown
        }),
{
    match outcome {
        HttpOutcome::Responded(code) => if code == 200 {
            GetPaymentResult::IsCreated
        } else {
            GetPaymentResult::Unknown
        },
        _ => GetPaymentResult::Unknown,
    }
}

/// A posted payment: a non-error status means the processor took it; a
/// timeout, a failed request or an error status (4xx, 5xx) means try again.
pub fn classify_post_outcome(outcome: HttpOutcome) -> (result: SendToServiceResult)
    ensures
        result == (match outcome {
            HttpOutcome::Responded(code) => if is_error_status(code) {
                SendToServiceResult::ErrRetry
            } else {
                SendToServiceResult::Success
            },
            _ => SendToServiceResult::ErrRetry,
        }),
        forall|code: u16|
            400 <= code <= 599 && outcome == HttpOutcome::Responded(code) ==> result == SendToServiceResult::ErrRetry,
        forall|code: u16|
            (code < 400 || code > 599) && outcome == HttpOutcome::Responded(code) ==> result
                == SendToServiceResult::Success,
        result == SendToServiceResult::Success ==> exists|code: u16|
            (code < 400 || code > 599) && outcome == HttpOutcome::Responded(code),
        result != SendToServiceResult::AlreadyProcessed,
{
    match outcome {
        HttpOutcome::Responded(code) => if code < 400 || code > 599 {
            assert(outcome == HttpOutcome::Responded(code));
            SendToServiceResult::Success
        } else {
            SendToServiceResult::ErrRetry
        },
        _ => SendToServiceResult::ErrRetry,
    }
}

/// The next step of sending a payment to one processor.
#[derive(Debug, Clone, Copy, PartialEq, Eq, Structural)]
pub enum SendStep {
    /// Ask the processor whether it already has the payment.
    CheckExisting,
    /// Post the payment.
    Post,
    /// Done, with this answer.
    Finish(SendToServiceResult),
}

/// A retried payment is first looked up at the processor; a first attempt is
/// posted straight away.
pub fn send_start(is_retry: bool) -> (step: SendStep)
    ensures
        step == (if is_retry { SendStep::CheckExisting } else { SendStep::Post }),
{
    if is_retry {
        SendStep::CheckExisting
    } else {
        SendStep::Post
    }
}

/// After the lookup: a payment the processor already has is done as
/// `AlreadyProcessed`; otherwise it is posted.
pub fn after_existence_check(found: GetPaymentResult) -> (step: SendStep)
    ensures
        step == (match found {
            GetPaymentResult::IsCreated => SendStep::Finish(SendToServiceResult::AlreadyProcessed),
            GetPaymentResult::Unknown => SendStep::Post,
        }),
{
    match found {
        GetPaymentResult::IsCreated => SendStep::Finish(SendToServiceResult::AlreadyProcessed),
        GetPaymentResult::Unknown => SendStep::Post,
    }
}

/// The URL of one payment at a processor: `{base}/payments/{correlation_id}`.
pub fn payment_status_url(base: &str, correlation_id: &str) -> (url: String)
    ensures
        url@ == base@ + "/payments/"@ + correlation_id@,
{
    base.to_owned().concat("/payments/").concat(correlation_id)
}

/// Milliseconds to wait after both processors failed, before starting over.
pub const COOLDOWN_MILLIS: u64 = 1000;

/// Where an attempt to settle a payment stands.
#[derive(Debug, Clone, Copy, PartialEq, Eq, Structural)]
pub enum AttemptPhase {
    /// The payment goes to the default processor next.
    AtDefault,
    /// The default processor failed: the payment goes to the fallback one next.
    AtFallback,
    /// Both failed: wait, then start over with the default processor.
    CoolingDown,
}

/// What the attempt asks of its driver.
#[derive(Debug, Clone, Copy, PartialEq, Eq, Structural)]
pub enum AttemptAction {
    /// Send the payment to this processor (`is_retry`: look it up first).
    Send { processor: Processor, is_retry: bool },
    /// Wait this many milliseconds.
    Sleep { millis: u64 },
}

/// What each phase asks for: every send is made as a retry (the processor is
/// asked first whether it already has the payment).
pub open spec fn action_for(phase: AttemptPhase) -> AttemptAction {
    match phase {
        AttemptPhase::AtDefault => AttemptAction::Send { processor: Processor::Default, is_retry: true },
        AttemptPhase::AtFallback => AttemptAction::Send { processor: Processor::Fallback, is_retry: true },
        AttemptPhase::CoolingDown => AttemptAction::Sleep { millis: COOLDOWN_MILLIS },
    }
}

/// An answer that settles the payment with the processor that gave it.
pub open spec fn settles(result: SendToServiceResult) -> bool {
    result == SendToServiceResult::Success || result == SendToServiceResult::AlreadyProcessed
}

/// The phase after an answer to a send; `None` when the answer settles the
/// payment. A phase that sends nothing ignores answers.
pub open spec fn phase_after_send(phase: AttemptPhase, result: SendToServiceResult) -> Option<AttemptPhase> {
    match phase {
        AttemptPhase::AtDefault => if settles(result) {
            None
        } else {
            Some(AttemptPhase::AtFallback)
        },
        AttemptPhase::AtFallback => if settles(result) {
            None
        } else {
            Some(AttemptPhase::CoolingDown)
        },
        AttemptPhase::CoolingDown => Some(AttemptPhase::CoolingDown),
    }
}

/// The phase after the wait: the cooldown ends with the default processor; a
/// phase that waits for nothing ignores it.
pub open spec fn phase_after_sleep(phase: AttemptPhase) -> AttemptPhase {
    match phase {
        AttemptPhase::CoolingDown => AttemptPhase::AtDefault,
        _ => phase,
    }
}

/// A settled payment, with the processor that took it.
pub enum PaymentTryResult {
    CheapOk(PaymentPost),
    FallbackOk(PaymentPost),
}

/// The attempt to settle one payment with a processor.
pub struct PaymentAttempt {
    post: PaymentPost,
    phase: AttemptPhase,
}

/// What an answer did to an attempt.
pub enum AttemptStep {
    /// The attempt goes on.
    Continue(PaymentAttempt),
    /// The payment is settled.
    Finished(PaymentTryResult),
}

impl PaymentAttempt {
    /// The payment being settled.
    pub closed spec fn payment(&self) -> PaymentPost {
        self.post
    }

    /// Where the attempt stands.
    pub closed spec fn phase(&self) -> AttemptPhase {
        self.phase
    }

    /// A new attempt: the default processor comes first.
    pub fn new(post: PaymentPost) -> (attempt: PaymentAttempt)
        ensures
            attempt.payment() == post,
            attempt.phase() == AttemptPhase::AtDefault,
    {
        PaymentAttempt { post, phase: AttemptPhase::AtDefault }
    }

    /// The payment being settled.
    pub fn post(&self) -> (post: &PaymentPost)
        ensures
            *post == self.payment(),
    {
        &self.post
    }

    /// What the driver must do next.
    pub fn next_action(&self) -> (action: AttemptAction)
        ensures
            action == action_for(self.phase()),
    {
        match self.phase {
            AttemptPhase::AtDefault => AttemptAction::Send { processor: Processor::Default, is_retry: true },
            AttemptPhase::AtFallback => AttemptAction::Send { processor: Processor::Fallback, is_retry: true },
            AttemptPhase::CoolingDown => AttemptAction::Sleep { millis: COOLDOWN_MILLIS },
        }
    }

    /// Takes the answer to the send the attempt asked for: an answer that
    /// settles the payment finishes it, credited to the processor that gave
    /// it; a failure moves on to the next phase.
    pub fn on_send_result(self, result: SendToServiceResult) -> (step: AttemptStep)
        ensures
            phase_after_send(self.phase(), result) is None ==> step == (if self.phase() == AttemptPhase::AtDefault {
                AttemptStep::Finished(PaymentTryResult::CheapOk(self.payment()))
            } else {
                AttemptStep::Finished(PaymentTryResult::FallbackOk(self.payment()))
            }),
            phase_after_send(self.phase(), result) is Some ==> step is Continue
                && step->Continue_0.payment() == self.payment()
                && Some(step->Continue_0.phase()) == phase_after_send(self.phase(), result),
            self.phase() == AttemptPhase::AtDefault && (result == SendToServiceResult::Success || result
                == SendToServiceResult::AlreadyProcessed) ==> step == AttemptStep::Finished(
                PaymentTryResult::CheapOk(self.payment()),
            ),
            self.phase() == AttemptPhase::AtFallback && (result == SendToServiceResult::Success || result
                == SendToServiceResult::AlreadyProcessed) ==> step == AttemptStep::Finished(
                PaymentTryResult::FallbackOk(self.payment()),
            ),
            self.phase() == AttemptPhase::AtDefault && result == SendToServiceResult::ErrRetry ==> step is Continue
                && step->Continue_0.payment() == self.payment() && step->Continue_0.phase()
                == AttemptPhase::AtFallback,
            self.phase() == AttemptPhase::AtFallback && result == SendToServiceResult::ErrRetry ==> step is Continue
                && step->Continue_0.payment() == self.payment() && step->Continue_0.phase()
                == AttemptPhase::CoolingDown,
            self.phase() == AttemptPhase::CoolingDown ==> step is Continue && step->Continue_0.payment()
                == self.payment() && step->Continue_0.phase() == AttemptPhase::CoolingDown,
            step matches AttemptStep::Finished(PaymentTryResult::CheapOk(p)) ==> p == self.payment()
                && self.phase() == AttemptPhase::AtDefault && result != SendToServiceResult::ErrRetry,
            step matches AttemptStep::Finished(PaymentTryResult::FallbackOk(p)) ==> p == self.payment()
                && self.phase() == AttemptPhase::AtFallback && result != SendToServiceResult::ErrRetry,
    {
        let settled = match result {
            SendToServiceResult::ErrRetry => false,
            _ => true,
        };
        match self.phase {
            AttemptPhase::AtDefault => if settled {
                AttemptStep::Finished(PaymentTryResult::CheapOk(self.post))
            } else {
                AttemptStep::Continue(PaymentAttempt { post: self.post, phase: AttemptPhase::AtFallback })
            },
            AttemptPhase::AtFallback => if settled {
                AttemptStep::Finished(PaymentTryResult::FallbackOk(self.post))
            } else {
                AttemptStep::Continue(PaymentAttempt { post: self.post, phase: AttemptPhase::CoolingDown })
            },
            AttemptPhase::CoolingDown => AttemptStep::Continue(self),
        }
    }

    /// Takes the end of the wait the attempt asked for.
    pub fn on_slept(self) -> (attempt: PaymentAttempt)
        ensures
            attempt.payment() == self.payment(),
            attempt.phase() == phase_after_sleep(self.phase()),
    {
        match self.phase {
            AttemptPhase::CoolingDown => PaymentAttempt { post: self.post, phase: AttemptPhase::AtDefault },
            _ => self,
        }
    }
}

/// The phase reached from a new attempt after `n` failed sends, each failed
/// round followed by its wait.
pub open spec fn phase_after_failures(n: nat) -> AttemptPhase
    decreases n,
{
    if n == 0 {
        AttemptPhase::AtDefault
    } else {
        let next = phase_after_send(phase_after_failures((n - 1) as nat), SendToServiceResult::ErrRetry)->Some_0;
        phase_after_sleep(next)
    }
}

/// Sends alternate between the processors, the default one first: after `n`
/// failed sends (and the waits between rounds) the next send goes to the
/// default processor when `n` is even and to the fallback one when it is odd,
/// and every send is made as a retry.
pub proof fn lemma_processors_alternate(n: nat)
    ensures
        action_for(phase_after_failures(n)) == (AttemptAction::Send {
            processor: if n % 2 == 0 { Processor::Default } else { Processor::Fallback },
            is_retry: true,
        }),
    decreases n,
{
    if n > 0 {
        lemma_processors_alternate((n - 1) as nat);
    }
}

/// Exactly the answers `Success` and `AlreadyProcessed` settle a payment: an
/// `AlreadyProcessed` answer finishes any sending phase just as `Success`
/// does, and only `ErrRetry` moves the attempt on.
pub proof fn lemma_already_processed_settles(phase: AttemptPhase, result: SendToServiceResult)
    ensures
        settles(result) <==> (result == SendToServiceResult::Success || result == SendToServiceResult::AlreadyProcessed),
        phase != AttemptPhase::CoolingDown ==> (phase_after_send(phase, result) is None <==> result
            != SendToServiceResult::ErrRetry),
        phase_after_send(AttemptPhase::AtDefault, SendToServiceResult::AlreadyProcessed) is None,
        phase_after_send(AttemptPhase::AtFallback, SendToServiceResult::AlreadyProcessed) is None,
{
}

/// A posted payment counts as taken exactly when its status is not a client
/// or server error (400..=599).
pub proof fn lemma_post_statuses_by_number(code: u16)
    ensures
        is_error_status(code) <==> (400 <= code && code <= 599),
{
}

/// A round in which both processors fail ends in the wait, and the wait ends
/// with the default processor again; an answer that settles the payment
/// finishes any sending phase.
pub proof fn lemma_failed_round_starts_over(result: SendToServiceResult)
    ensures
        phase_after_send(AttemptPhase::AtDefault, SendToServiceResult::ErrRetry) == Some(AttemptPhase::AtFallback),
        phase_after_send(AttemptPhase::AtFallback, SendToServiceResult::ErrRetry) == Some(AttemptPhase::CoolingDown),
        action_for(AttemptPhase::CoolingDown) == (AttemptAction::Sleep { millis: COOLDOWN_MILLIS }),
        phase_after_sleep(AttemptPhase::CoolingDown) == AttemptPhase::AtDefault,
        settles(result) ==> phase_after_send(AttemptPhase::AtDefault, result) is None
            && phase_after_send(AttemptPhase::AtFallback, result) is None,
{
}

/// The summary window's bound: the given text, or the default.
pub open spec fn bound_text(given: Option<String>, default: Seq<char>) -> Seq<char> {
    match given {
        Some(text) => text@,
        None => default,
    }
}

/// The state the single-process service shares between its requests.
pub struct AppState {
    pub db: PaymentsDb,
}

impl AppState {
    /// Records a payment taken by the default processor.
    pub fn add_payment_cheap(&mut self, payment: PaymentPost) -> (r: Result<(), DbError>)
        ensures
            recorded(old(self).db.table(), final(self).db.table(), payment, PaymentKind::Default, r),
            old(self).db.accepts_new(payment) ==> r is Ok,
            old(self).db.well_formed() ==> final(self).db.well_formed(),
    {
        self.db.insert_payment(&payment, PaymentKind::Default)
    }

    /// Records a payment taken by the fallback processor.
    pub fn add_payment_fallback(&mut self, payment: PaymentPost) -> (r: Result<(), DbError>)
        ensures
            recorded(old(self).db.table(), final(self).db.table(), payment, PaymentKind::Fallback, r),
            old(self).db.accepts_new(payment) ==> r is Ok,
            old(self).db.well_formed() ==> final(self).db.well_formed(),
    {
        self.db.insert_payment(&payment, PaymentKind::Fallback)
    }

    /// Records a settled payment under the processor that took it.
    pub fn record_result(&mut self, result: PaymentTryResult) -> (r: Result<(), DbError>)
        ensures
            match result {
                PaymentTryResult::CheapOk(p) => recorded(old(self).db.table(), final(self).db.table(), p, PaymentKind::Default, r),
                PaymentTryResult::FallbackOk(p) => recorded(old(self).db.table(), final(self).db.table(), p, PaymentKind::Fallback, r),
            },
            match result {
                PaymentTryResult::CheapOk(p) => old(self).db.accepts_new(p) ==> r is Ok,
                PaymentTryResult::FallbackOk(p) => old(self).db.accepts_new(p) ==> r is Ok,
            },
            old(self).db.well_formed() ==> final(self).db.well_formed(),
    {
        match result {
            PaymentTryResult::CheapOk(payment) => self.add_payment_cheap(payment),
            PaymentTryResult::FallbackOk(payment) => self.add_payment_fallback(payment),
        }
    }

    /// The summary of the window a query names; an absent bound stands for
    /// `1970-01-01T00:00:00.000Z` (start) or `9999-12-31T23:59:59.999Z` (end).
    /// Both bounds are then given, so the clock plays no part.
    pub fn get_state(&self, query: &SummaryQuery) -> (r: Result<Stats, DbError>)
        ensures
            forall|now: i64|
                #[trigger] summary_of_window(
                    self.db.table(),
                    Some(bound_text(query.from, "1970-01-01T00:00:00.000Z"@)),
                    Some(bound_text(query.to, "9999-12-31T23:59:59.999Z"@)),
                    now,
                    r,
                ) && (self.db.well_formed() ==> summary_owed(
                    self.db.table(),
                    Some(bound_text(query.from, "1970-01-01T00:00:00.000Z"@)),
                    Some(bound_text(query.to, "9999-12-31T23:59:59.999Z"@)),
                    now,
                    r,
                )),
    {
        let start = match &query.from {
            Some(text) => text.clone(),
            None => "1970-01-01T00:00:00.000Z".to_owned(),
        };
        let end = match &query.to {
            Some(text) => text.clone(),
            None => "9999-12-31T23:59:59.999Z".to_owned(),
        };
        let r = self.db.get_stats(Some(start.as_str()), Some(end.as_str()));
        proof {
            let from_text = Some(bound_text(query.from, "1970-01-01T00:00:00.000Z"@));
            let to_text = Some(bound_text(query.to, "9999-12-31T23:59:59.999Z"@));
            let read_at = choose|now: i64|
                #[trigger] summary_of_window(self.db.table(), from_text, to_text, now, r) && (self.db.well_formed()
                    ==> summary_owed(self.db.table(), from_text, to_text, now, r));
            assert forall|now: i64|
                #[trigger] summary_of_window(self.db.table(), from_text, to_text, now, r) && (self.db.well_formed()
                    ==> summary_owed(self.db.table(), from_text, to_text, now, r)) by {
                lemma_bounded_window_ignores_clock(self.db.table(), from_text, to_text, read_at, now, r);
                assert(window_end(to_text, now) == window_end(to_text, read_at));
            }
        }
        r
    }
}

} // verus!
