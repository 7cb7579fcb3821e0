//! The decisions of the authentication request processor: which requests are
//! queued, whether a verification can start, and what a result from the watch
//! means for the waiting request, the challenge and the session.

use vstd::prelude::*;

use std::collections::VecDeque;

use crate::cancel_signal::{poll_cancellation, CancelPoll};
use crate::auth_session::{AuthSession, SessionView, mark_outcome, state_after_mark, verified_at_time};
use crate::challenge_draw::ChallengeDraw;
use crate::clock::{read_clock, ClockReading};
use crate::current_challenge::{CurrentChallenge, state_after_take, take_outcome};
use crate::identity::{AuthIdentity, IdentityView};

verus! {

/// How long the processor waits for the watch's answer, in seconds.
pub const AUTH_TIMEOUT_SECONDS: u64 = 30;

/// The watch's answer to a challenge, as the response characteristic hands it
/// to the processor. Failures are not results: they are reported as errors.
/// `Denied` is an explicit denial by the user or an approval timeout on the watch.
#[derive(Clone, Copy)]
pub enum AuthResult {
    Success { challenge: [u8; 32] },
    Denied { challenge: [u8; 32] },
}

/// The abstract value of an `AuthResult`.
pub ghost enum AuthResultView {
    Success(Seq<u8>),
    Denied(Seq<u8>),
}

impl View for AuthResult {
    type V = AuthResultView;

    open spec fn view(&self) -> AuthResultView {
        match self {
            AuthResult::Success { challenge } => AuthResultView::Success(challenge@),
            AuthResult::Denied { challenge } => AuthResultView::Denied(challenge@),
        }
    }
}

/// What waiting for the watch's answer gave: an answer, a closed channel, or
/// the end of the waiting time.
#[derive(Clone, Copy)]
pub enum WristOutcome {
    Received(AuthResult),
    ChannelClosed,
    TimedOut,
}

/// An authentication request from the PAM socket: who asks, where the verdict
/// goes, and the signal by which the client cancels.
pub struct AuthRequest {
    pub identity: AuthIdentity,
    pub result_tx: tokio::sync::mpsc::Sender<bool>,
    pub cancel_rx: tokio::sync::oneshot::Receiver<()>,
}

/// What polling a request's cancellation signal found.
#[derive(Debug, Clone, Copy, PartialEq, Eq, Structural)]
pub enum CancelState {
    /// The client sent the cancellation signal.
    Signalled,
    /// The client's end is gone.
    Closed,
    /// Nothing yet.
    Pending,
}

/// Whether a request whose cancellation signal is in `state` is dropped
/// unprocessed: a request is processed only while nothing has arrived.
pub fn skips_request(state: CancelState) -> (skip: bool)
    ensures
        skip == (state != CancelState::Pending),
{
    match state {
        CancelState::Pending => false,
        _ => true,
    }
}

/// Whether the client has cancelled `req` before its processing starts
/// (sent the signal or went away): the answer is `skips_request` of what one
/// poll of the request's signal found. The identity and the reply channel are
/// left as they were; what the poll finds depends on the client's task.
pub fn cancelled_before_processing(req: &mut AuthRequest) -> (cancelled: bool)
    ensures
        exists|poll: CancelPoll| cancelled == (#[trigger] poll.state() != CancelState::Pending),
        final(req).identity == old(req).identity,
        final(req).result_tx == old(req).result_tx,
{
    let poll = poll_cancellation(&mut req.cancel_rx);
    let state = poll.found();
    skips_request(state)
}

/// The requests waiting to be processed, first come first served.
pub struct RequestQueue {
    queue: VecDeque<AuthRequest>,
}

impl View for RequestQueue {
    type V = Seq<IdentityView>;

    closed spec fn view(&self) -> Seq<IdentityView> {
        self.queue@.map_values(|r: AuthRequest| r.identity@)
    }
}

impl Default for RequestQueue {
    /// An empty queue.
    fn default() -> (q: Self)
        ensures
            q@ == Seq::<IdentityView>::empty(),
    {
        let q = RequestQueue { queue: VecDeque::new() };
        assert(q@ =~= Seq::<IdentityView>::empty());
        q
    }
}

impl RequestQueue {
    /// The waiting requests with their reply and cancellation channels,
    /// longest-waiting first.
    pub closed spec fn requests(&self) -> Seq<AuthRequest> {
        self.queue@
    }

    /// The identities are those of the waiting requests, in order.
    pub proof fn lemma_view_is_identities(&self)
        ensures
            self@ == self.requests().map_values(|r: AuthRequest| r.identity@),
    {
    }

    /// The number of waiting requests.
    pub fn len(&self) -> (n: usize)
        ensures
            n == self@.len(),
    {
        self.queue.len()
    }

    /// Whether no request is waiting.
    pub fn is_empty(&self) -> (empty: bool)
        ensures
            empty == (self@.len() == 0),
    {
        self.queue.len() == 0
    }

    /// Queues `req` at the back unless a request with the same identity is
    /// already waiting; a duplicate is handed back unqueued as `Err`.
    pub fn enqueue(&mut self, req: AuthRequest) -> (r: Result<(), AuthRequest>)
        ensures
            old(self)@.contains(req.identity@) <==> r is Err,
            r matches Err(back) ==> back == req && final(self)@ == old(self)@
                && final(self).requests() == old(self).requests(),
            r is Ok ==> final(self)@ == old(self)@.push(req.identity@),
            r is Ok ==> final(self).requests() == old(self).requests().push(req),
            old(self)@.no_duplicates() ==> final(self)@.no_duplicates(),
    {
        let n = self.queue.len();
        let mut i: usize = 0;
        while i < n
            invariant
                n == self@.len(),
                n == self.queue@.len(),
                i <= n,
                forall|j: int| 0 <= j < i ==> self@[j] != req.identity@,
            decreases n - i,
        {
            assert(self@[i as int] == self.queue@[i as int].identity@);
            if self.queue[i].identity.same_identity(&req.identity) {
                assert(self@[i as int] == req.identity@);
                return Err(req);
            }
            i = i + 1;
        }
        let ghost before = self@;
        let ghost id = req.identity@;
        let ghost pushed = req;
        self.queue.push_back(req);
        assert(self.queue@ =~= old(self).queue@.push(pushed));
        assert(self@ =~= before.push(id));
        proof {
            if before.no_duplicates() {
                assert forall|a: int, b: int| 0 <= a < b < self@.len() implies self@[a] != self@[b] by {
                    if b == before.len() {
                        assert(self@[a] == before[a]);
                    }
                }
            }
        }
        Ok(())
    }

    /// Takes the request that has waited longest.
    pub fn pop_next(&mut self) -> (r: Option<AuthRequest>)
        ensures
            old(self)@.len() == 0 ==> r is None && final(self)@ == old(self)@,
            old(self)@.len() > 0 ==> (r matches Some(req) && req.identity@ == old(self)@[0]
                && final(self)@ == old(self)@.drop_first()),
            old(self)@.len() > 0 ==> r == Some(old(self).requests()[0]) && final(self).requests()
                == old(self).requests().drop_first(),
            old(self)@.len() == 0 ==> final(self).requests() == old(self).requests(),
            old(self)@.no_duplicates() ==> final(self)@.no_duplicates(),
    {
        let ghost before = self.queue@;
        let r = self.queue.pop_front();
        proof {
            if before.len() > 0 {
                assert(self@ =~= old(self)@.drop_first());
                assert(self.queue@ =~= before.drop_first());
            }
        }
        r
    }
}

/// What the processor does next with its queue.
pub enum NextWork {
    /// The incoming request duplicates a waiting one: answer it `false`.
    RejectDuplicate(AuthRequest),
    /// Nothing is waiting: wait for the next request.
    Idle,
    /// The request that waited longest was cancelled before its turn: drop it.
    Skip(AuthRequest),
    /// The request that waited longest is due: verify it and answer it.
    Verify(AuthRequest),
}

/// Whether `incoming` duplicates a request waiting in `queue`.
pub open spec fn is_duplicate(queue: Seq<IdentityView>, incoming: Option<AuthRequest>) -> bool {
    incoming matches Some(req) && queue.contains(req.identity@)
}

/// The queue once `incoming`, if any and not a duplicate, has been queued.
pub open spec fn queue_with_incoming(queue: Seq<IdentityView>, incoming: Option<AuthRequest>) -> Seq<IdentityView> {
    match incoming {
        Some(req) => if queue.contains(req.identity@) { queue } else { queue.push(req.identity@) },
        None => queue,
    }
}

/// The waiting requests once `incoming`, if any and not a duplicate, has been queued.
pub open spec fn requests_with_incoming(requests: Seq<AuthRequest>, queue: Seq<IdentityView>, incoming: Option<AuthRequest>) -> Seq<AuthRequest> {
    match incoming {
        Some(req) => if queue.contains(req.identity@) { requests } else { requests.push(req) },
        None => requests,
    }
}

/// One turn of the processor: queues the incoming request (a duplicate is
/// handed back to be answered `false`), then takes the request that waited
/// longest and tells whether it is still to be verified or was cancelled
/// before its turn. Whether the client cancelled depends on the client's task.
pub fn next_work(queue: &mut RequestQueue, incoming: Option<AuthRequest>) -> (work: NextWork)
    ensures
        is_duplicate(old(queue)@, incoming) ==> (incoming matches Some(req) && work matches NextWork::RejectDuplicate(r)
            && r == req && final(queue)@ == old(queue)@),
        !is_duplicate(old(queue)@, incoming) && queue_with_incoming(old(queue)@, incoming).len() == 0 ==> (work is Idle
            && final(queue)@ == queue_with_incoming(old(queue)@, incoming)),
        !is_duplicate(old(queue)@, incoming) && queue_with_incoming(old(queue)@, incoming).len() > 0 ==> (
        final(queue)@ == queue_with_incoming(old(queue)@, incoming).drop_first() && match work {
            NextWork::Skip(r) => r.identity@ == queue_with_incoming(old(queue)@, incoming)[0],
            NextWork::Verify(r) => r.identity@ == queue_with_incoming(old(queue)@, incoming)[0],
            _ => false,
        }),
        !is_duplicate(old(queue)@, incoming) && queue_with_incoming(old(queue)@, incoming).len() > 0 ==> ({
            let waiting = requests_with_incoming(old(queue).requests(), old(queue)@, incoming);
            &&& final(queue).requests() == waiting.drop_first()
            &&& match work {
                NextWork::Skip(r) => r.identity == waiting[0].identity && r.result_tx == waiting[0].result_tx,
                NextWork::Verify(r) => r.identity == waiting[0].identity && r.result_tx == waiting[0].result_tx,
                _ => false,
            }
        }),
        is_duplicate(old(queue)@, incoming) || queue_with_incoming(old(queue)@, incoming).len() == 0 ==>
            final(queue).requests() == requests_with_incoming(old(queue).requests(), old(queue)@, incoming),
        !is_duplicate(old(queue)@, incoming) && queue_with_incoming(old(queue)@, incoming).len() > 0 ==> exists|
            poll: CancelPoll,
        | (work is Skip) == (#[trigger] poll.state() != CancelState::Pending),
        old(queue)@.no_duplicates() ==> final(queue)@.no_duplicates(),
{
    match incoming {
        Some(req) => {
            match queue.enqueue(req) {
                Ok(()) => {},
                Err(duplicate) => {
                    return NextWork::RejectDuplicate(duplicate);
                },
            }
        },
        None => {},
    }
    match queue.pop_next() {
        None => NextWork::Idle,
        Some(mut req) => {
            if cancelled_before_processing(&mut req) {
                NextWork::Skip(req)
            } else {
                NextWork::Verify(req)
            }
        },
    }
}

/// A request whose identity is already waiting is never queued a second
/// time: it is handed back and the queue is unchanged.
pub proof fn law_duplicate_never_queued(queue: Seq<IdentityView>, req: AuthRequest)
    requires
        queue.contains(req.identity@),
    ensures
        is_duplicate(queue, Some(req)),
        queue_with_incoming(queue, Some(req)) == queue,
{
}

/// What the pre-checks of a verification decide when the clock reads `now`:
/// `Some(true)` when the session is still verified, `Some(false)` when the
/// watch has not subscribed to challenge notifications, `None` when a
/// challenge must be sent.
pub open spec fn precheck_outcome(s: SessionView, notify_ready: bool, now: Option<u64>) -> Option<bool> {
    if (now matches Some(t) && verified_at_time(s, t as nat)) {
        Some(true)
    } else if !notify_ready {
        Some(false)
    } else {
        None
    }
}

/// The pre-checks of a verification, with the clock read once.
pub fn precheck_verification(session: &AuthSession, notify_ready: bool) -> (decision: Option<bool>)
    ensures
        exists|reading: ClockReading| decision == #[trigger] precheck_outcome(session@, notify_ready, reading.secs()),
{
    let reading = read_clock();
    let now = reading.seconds();
    precheck_verification_with(session, notify_ready, now)
}

/// The pre-checks of a verification for the clock reading `now`.
pub fn precheck_verification_with(session: &AuthSession, notify_ready: bool, now: Option<u64>) -> (decision: Option<bool>)
    ensures
        decision == precheck_outcome(session@, notify_ready, now),
{
    let verified = match now {
        Some(t) => session.is_verified_at(t),
        None => false,
    };
    if verified {
        Some(true)
    } else if !notify_ready {
        Some(false)
    } else {
        None
    }
}

/// The challenge to send to the watch when the client cancels a verification
/// in progress; `None` when no challenge is outstanding.
pub fn challenge_for_cancel(challenge: &CurrentChallenge) -> (ch: Option<[u8; 32]>)
    ensures
        match challenge@ {
            None => ch is None,
            Some(c) => (ch matches Some(a) && a@ == c),
        },
{
    match challenge.peek() {
        Ok(ch) => Some(ch),
        Err(_) => None,
    }
}

/// Whether the watch's answer settles the request as verified, for the clock
/// reading `now` taken when the session is marked.
pub open spec fn wrist_verdict(ch: Option<Seq<u8>>, s: SessionView, outcome: WristOutcome, now: Option<u64>) -> bool {
    match outcome {
        WristOutcome::Received(AuthResult::Success { challenge }) =>
            take_outcome(ch, challenge@) == Ok::<bool, crate::current_challenge::ChallengeError>(true)
                && mark_outcome(s, now) is Ok,
        _ => false,
    }
}

/// The challenge after the watch's answer: an answer carrying the outstanding
/// challenge consumes it, whether it grants or denies.
pub open spec fn challenge_after_wrist(ch: Option<Seq<u8>>, outcome: WristOutcome) -> Option<Seq<u8>> {
    match outcome {
        WristOutcome::Received(AuthResult::Success { challenge }) => state_after_take(ch, challenge@),
        WristOutcome::Received(AuthResult::Denied { challenge }) => state_after_take(ch, challenge@),
        _ => ch,
    }
}

/// The session after the watch's answer: marked only when a granting answer
/// carries the outstanding challenge.
pub open spec fn session_after_wrist(ch: Option<Seq<u8>>, s: SessionView, outcome: WristOutcome, now: Option<u64>) -> SessionView {
    match outcome {
        WristOutcome::Received(AuthResult::Success { challenge }) =>
            if take_outcome(ch, challenge@) == Ok::<bool, crate::current_challenge::ChallengeError>(true) {
                state_after_mark(s, now)
            } else {
                s
            },
        _ => s,
    }
}

/// Settles a verification with the watch's answer, reading the clock once.
pub fn handle_wrist_result(challenge: &mut CurrentChallenge, session: &mut AuthSession, outcome: WristOutcome) -> (verified: bool)
    ensures
        exists|reading: ClockReading| {
            &&& verified == #[trigger] wrist_verdict(old(challenge)@, old(session)@, outcome, reading.secs())
            &&& final(session)@ == session_after_wrist(old(challenge)@, old(session)@, outcome, reading.secs())
        },
        final(challenge)@ == challenge_after_wrist(old(challenge)@, outcome),
{
    let reading = read_clock();
    let now = reading.seconds();
    let verified = handle_wrist_result_with(challenge, session, outcome, now);
    assert(final(session)@ == session_after_wrist(old(challenge)@, old(session)@, outcome, now));
    verified
}

/// Settles a verification with the watch's answer for the clock reading `now`.
/// A granting answer that carries the outstanding challenge consumes it and
/// marks the session; a denying answer that carries it consumes it; any other
/// answer, a closed channel or a timeout leaves the request unverified.
pub fn handle_wrist_result_with(
    challenge: &mut CurrentChallenge,
    session: &mut AuthSession,
    outcome: WristOutcome,
    now: Option<u64>,
) -> (verified: bool)
    ensures
        verified == wrist_verdict(old(challenge)@, old(session)@, outcome, now),
        final(session)@ == session_after_wrist(old(challenge)@, old(session)@, outcome, now),
        final(challenge)@ == challenge_after_wrist(old(challenge)@, outcome),
{
    match outcome {
        WristOutcome::Received(AuthResult::Success { challenge: answered }) => {
            match challenge.take_if_matches(&answered) {
                Ok(true) => {
                    match session.mark_verified_with(now) {
                        Ok(()) => true,
                        Err(_) => false,
                    }
                },
                Ok(false) => false,
                Err(_) => false,
            }
        },
        WristOutcome::Received(AuthResult::Denied { challenge: answered }) => {
            let _ = challenge.take_if_matches(&answered);
            false
        },
        WristOutcome::ChannelClosed => false,
        WristOutcome::TimedOut => false,
    }
}

/// While the session is verified, a request is answered as verified at once,
/// without a challenge and whether or not the watch is subscribed.
pub proof fn law_verified_session_bypasses_challenge(s: SessionView, notify_ready: bool, t: u64)
    requires
        verified_at_time(s, t as nat),
    ensures
        precheck_outcome(s, notify_ready, Some(t)) == Some(true),
{
}

/// Without a verified session and without a subscribed watch, a request is
/// answered as not verified; with a subscribed watch, a challenge is sent.
pub proof fn law_unverified_session_needs_watch(s: SessionView, notify_ready: bool, now: Option<u64>)
    requires
        !(now matches Some(t) && verified_at_time(s, t as nat)),
    ensures
        precheck_outcome(s, notify_ready, now) == (if notify_ready { None::<bool> } else { Some(false) }),
{
}

/// A pre-check at a clock reading at or after the session's expiry never
/// answers at once as verified: the request is refused when the watch is not
/// subscribed and otherwise runs the challenge.
pub proof fn law_expired_session_runs_challenge(s: SessionView, notify_ready: bool, reading: ClockReading, t: u64)
    requires
        reading.secs() == Some(t),
        s.expires_at <= t,
    ensures
        precheck_outcome(s, notify_ready, reading.secs()) == (if notify_ready { None::<bool> } else { Some(false) }),
{
}

/// With a time-to-live of zero every request runs the challenge: after the
/// session has been marked at the reading `marked`, no pre-check at a reading
/// taken no earlier answers at once as verified.
pub proof fn law_zero_ttl_precheck_runs_challenge(
    s: SessionView,
    notify_ready: bool,
    marked: ClockReading,
    now: ClockReading,
    t1: u64,
    t2: u64,
)
    requires
        s.ttl_seconds == 0,
        marked.secs() == Some(t1),
        now.secs() == Some(t2),
        t1 <= t2,
    ensures
        precheck_outcome(state_after_mark(s, marked.secs()), notify_ready, now.secs()) == (if notify_ready {
            None::<bool>
        } else {
            Some(false)
        }),
{
}

/// A request whose client cancelled before its turn is dropped for good: the
/// turn takes it off the head of the queue, and with no identity queued twice
/// it is not among the requests still waiting, so no later turn hands it out.
pub proof fn law_skipped_request_not_handed_out_again(waiting: Seq<IdentityView>)
    requires
        waiting.len() > 0,
        waiting.no_duplicates(),
    ensures
        !waiting.drop_first().contains(waiting[0]),
{
    if waiting.drop_first().contains(waiting[0]) {
        let j = choose|j: int| 0 <= j < waiting.drop_first().len() && waiting.drop_first()[j] == waiting[0];
        assert(waiting[j + 1] == waiting[0]);
    }
}

/// What the processor must do next in the verification of one request.
pub enum VerificationAction {
    /// The verification is over: send this verdict (`None`: the request was
    /// cancelled and gets none).
    Answer(Option<bool>),
    /// Discard the watch's answers left over from earlier challenges.
    DrainStaleResults,
    /// A fresh challenge stands: wake the notification handler, which sends it.
    TriggerWatch,
    /// Race the client's cancellation against the watch's answer, waiting at
    /// most `AUTH_TIMEOUT_SECONDS` for the answer.
    AwaitOutcome,
    /// Tell the watch that this challenge is cancelled.
    NotifyCancel([u8; 32]),
}

/// What the processor reports after performing an action.
pub enum VerificationEvent {
    /// The stale answers were discarded.
    Drained,
    /// The notification handler was woken.
    Triggered,
    /// The client cancelled (or went away) before the watch answered.
    Cancelled,
    /// Waiting for the watch's answer ended this way.
    Outcome(WristOutcome),
    /// The cancellation notice was handed to the watch's channel (or could not be).
    CancelSent,
}

/// Where the verification of one request stands.
pub ghost enum VerificationStage {
    AwaitDrain,
    AwaitTrigger,
    Waiting,
    AwaitCancelSent,
    Done,
}

enum RunStage {
    AwaitDrain,
    AwaitTrigger,
    Waiting,
    AwaitCancelSent,
    Done,
}

/// The verification of one request, from the pre-checks to the verdict.
pub struct VerificationRun {
    stage: RunStage,
}

/// Whether `event` answers the action asked for at `stage`.
pub open spec fn run_answers(stage: VerificationStage, event: VerificationEvent) -> bool {
    match stage {
        VerificationStage::AwaitDrain => event is Drained,
        VerificationStage::AwaitTrigger => event is Triggered,
        VerificationStage::Waiting => event is Cancelled || event is Outcome,
        VerificationStage::AwaitCancelSent => event is CancelSent,
        VerificationStage::Done => false,
    }
}

impl VerificationRun {
    /// Where the verification stands.
    pub closed spec fn stage(&self) -> VerificationStage {
        match self.stage {
            RunStage::AwaitDrain => VerificationStage::AwaitDrain,
            RunStage::AwaitTrigger => VerificationStage::AwaitTrigger,
            RunStage::Waiting => VerificationStage::Waiting,
            RunStage::AwaitCancelSent => VerificationStage::AwaitCancelSent,
            RunStage::Done => VerificationStage::Done,
        }
    }

    /// Starts a verification with the pre-checks, reading the clock once: a
    /// verified session or an unsubscribed watch decides the verdict at once;
    /// otherwise stale answers are discarded first.
    pub fn start(session: &AuthSession, notify_ready: bool) -> (r: (Self, VerificationAction))
        ensures
            exists|reading: ClockReading| {
                let decision = #[trigger] precheck_outcome(session@, notify_ready, reading.secs());
                &&& decision is Some ==> r.0.stage() == VerificationStage::Done
                    && r.1 == VerificationAction::Answer(decision)
                &&& decision is None ==> r.0.stage() == VerificationStage::AwaitDrain
                    && r.1 == VerificationAction::DrainStaleResults
            },
    {
        let decision = precheck_verification(session, notify_ready);
        match decision {
            Some(v) => (VerificationRun { stage: RunStage::Done }, VerificationAction::Answer(Some(v))),
            None => (VerificationRun { stage: RunStage::AwaitDrain }, VerificationAction::DrainStaleResults),
        }
    }

    /// Takes the report of the last action and answers the next one, working
    /// on the shared challenge and session.
    pub fn step(
        &mut self,
        challenge: &mut CurrentChallenge,
        session: &mut AuthSession,
        event: VerificationEvent,
    ) -> (action: VerificationAction)
        requires
            run_answers(old(self).stage(), event),
        ensures
            match (old(self).stage(), event) {
                (VerificationStage::AwaitDrain, VerificationEvent::Drained) => {
                    &&& final(self).stage() == VerificationStage::AwaitTrigger
                    &&& action == VerificationAction::TriggerWatch
                    &&& final(challenge)@ is Some
                    &&& exists|draw: ChallengeDraw| final(challenge)@ == Some(#[trigger] draw.bytes())
                    &&& final(session)@ == old(session)@
                },
                (VerificationStage::AwaitTrigger, VerificationEvent::Triggered) => {
                    &&& final(self).stage() == VerificationStage::Waiting
                    &&& action == VerificationAction::AwaitOutcome
                    &&& final(challenge)@ == old(challenge)@
                    &&& final(session)@ == old(session)@
                },
                (VerificationStage::Waiting, VerificationEvent::Cancelled) => {
                    &&& final(challenge)@ == old(challenge)@
                    &&& final(session)@ == old(session)@
                    &&& match old(challenge)@ {
                        Some(c) => final(self).stage() == VerificationStage::AwaitCancelSent
                            && (action matches VerificationAction::NotifyCancel(a) && a@ == c),
                        None => final(self).stage() == VerificationStage::Done
                            && action == VerificationAction::Answer(None),
                    }
                },
                (VerificationStage::Waiting, VerificationEvent::Outcome(outcome)) => {
                    &&& final(self).stage() == VerificationStage::Done
                    &&& final(challenge)@ == challenge_after_wrist(old(challenge)@, outcome)
                    &&& exists|reading: ClockReading| {
                        &&& action == VerificationAction::Answer(
                            Some(#[trigger] wrist_verdict(old(challenge)@, old(session)@, outcome, reading.secs())),
                        )
                        &&& final(session)@ == session_after_wrist(old(challenge)@, old(session)@, outcome, reading.secs())
                    }
                },
                (VerificationStage::AwaitCancelSent, VerificationEvent::CancelSent) => {
                    &&& final(self).stage() == VerificationStage::Done
                    &&& action == VerificationAction::Answer(None)
                    &&& final(challenge)@ == old(challenge)@
                    &&& final(session)@ == old(session)@
                },
                _ => false,
            },
    {
        match (&self.stage, event) {
            (RunStage::AwaitDrain, VerificationEvent::Drained) => {
                challenge.refresh();
                self.stage = RunStage::AwaitTrigger;
                VerificationAction::TriggerWatch
            },
            (RunStage::AwaitTrigger, VerificationEvent::Triggered) => {
                self.stage = RunStage::Waiting;
                VerificationAction::AwaitOutcome
            },
            (RunStage::Waiting, VerificationEvent::Cancelled) => {
                match challenge_for_cancel(challenge) {
                    Some(c) => {
                        self.stage = RunStage::AwaitCancelSent;
                        VerificationAction::NotifyCancel(c)
                    },
                    None => {
                        self.stage = RunStage::Done;
                        VerificationAction::Answer(None)
                    },
                }
            },
            (RunStage::Waiting, VerificationEvent::Outcome(outcome)) => {
                let verified = handle_wrist_result(challenge, session, outcome);
                self.stage = RunStage::Done;
                VerificationAction::Answer(Some(verified))
            },
            (_, _) => {
                self.stage = RunStage::Done;
                VerificationAction::Answer(None)
            },
        }
    }
}

/// The waiting requests after `k` turns that bring no new request: each turn
/// takes the request at the head, whether it is then verified or skipped.
pub open spec fn after_turns(waiting: Seq<AuthRequest>, k: nat) -> Seq<AuthRequest>
    decreases k,
{
    if k == 0 {
        waiting
    } else {
        after_turns(waiting, (k - 1) as nat).drop_first()
    }
}

/// Requests are handed out one per turn in the order they were queued, each
/// with its own reply and cancellation channels: turn `k` hands out the
/// `k`-th waiting request, so every waiting request is handed out exactly once.
pub proof fn law_requests_handed_out_in_order(waiting: Seq<AuthRequest>, k: nat)
    requires
        k < waiting.len(),
    ensures
        after_turns(waiting, k) == waiting.skip(k as int),
        after_turns(waiting, k)[0] == waiting[k as int],
    decreases k,
{
    if k > 0 {
        law_requests_handed_out_in_order(waiting, (k - 1) as nat);
        assert(waiting.skip((k - 1) as int).drop_first() =~= waiting.skip(k as int));
    } else {
        assert(waiting.skip(0) =~= waiting);
    }
}

/// An answer granted with the outstanding challenge verifies the request,
/// consumes the challenge, and keeps the session verified from the clock
/// reading until the time-to-live has passed.
pub proof fn law_granted_answer_verifies_session(a: [u8; 32], s: SessionView, t: u64, later: nat)
    requires
        t > 0,
        t + s.ttl_seconds <= u64::MAX,
        t <= later < t + s.ttl_seconds,
    ensures
        wrist_verdict(Some(a@), s, WristOutcome::Received(AuthResult::Success { challenge: a }), Some(t)),
        challenge_after_wrist(Some(a@), WristOutcome::Received(AuthResult::Success { challenge: a })) is None,
        verified_at_time(
            session_after_wrist(Some(a@), s, WristOutcome::Received(AuthResult::Success { challenge: a }), Some(t)),
            later,
        ),
{
}

/// A denial never verifies the request and never touches the session.
pub proof fn law_denial_never_verifies(ch: Option<Seq<u8>>, s: SessionView, a: [u8; 32], now: Option<u64>)
    ensures
        !wrist_verdict(ch, s, WristOutcome::Received(AuthResult::Denied { challenge: a }), now),
        session_after_wrist(ch, s, WristOutcome::Received(AuthResult::Denied { challenge: a }), now) == s,
{
}

/// An answer that carries another challenge than the outstanding one (a stale
/// or forged answer) verifies nothing and leaves challenge and session as they were.
pub proof fn law_stale_answer_changes_nothing(ch: Seq<u8>, s: SessionView, result: AuthResult, now: Option<u64>)
    requires
        match result {
            AuthResult::Success { challenge } => challenge@ != ch,
            AuthResult::Denied { challenge } => challenge@ != ch,
        },
    ensures
        !wrist_verdict(Some(ch), s, WristOutcome::Received(result), now),
        challenge_after_wrist(Some(ch), WristOutcome::Received(result)) == Some(ch),
        session_after_wrist(Some(ch), s, WristOutcome::Received(result), now) == s,
{
}

} // verus!
