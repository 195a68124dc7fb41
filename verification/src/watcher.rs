//! The watcher of one site.  It is a state machine: it says what to ask the
//! service next, takes in the reply, and says what to show.  It never sends
//! or shows anything itself.

use vstd::prelude::*;
use vstd::string::*;

use crate::api::{
    queue_expired, reply_view, ApiResultView, Reply, TransportError, WatchError, WatchErrorView,
};
use crate::decode::{
    decode_poll_reply, decode_registration_reply, poll_reply_in, registration_reply_in,
};
use crate::dispatch::{outputs_view, Output, OutputView};
use crate::event::{events_view, Event, EventView, PollEventQueue};
use crate::json::Json;
use crate::queue::{
    poll_path, poll_request, polled, reconnected, register_request, registered, EventQueue,
    PollOutcome, PollOutcomeView, QueueView, RegisterEventQueue, RegistrationView,
};
use crate::site::{api_url_text, Request, RequestView, SiteView, ZulipSite};

verus! {

/// Where a watcher stands.
#[derive(Debug, PartialEq, Eq)]
pub enum Phase {
    /// The first registration has been asked for.
    Registering,
    /// The queue has been polled.
    Polling(EventQueue),
    /// The queue has expired, and a fresh registration has been asked for.
    Reconnecting(EventQueue),
    /// The watcher has failed for good, for this reason.
    Stopped(WatchError),
}

/// A [`Phase`], over views.
pub enum PhaseView {
    Registering,
    Polling(QueueView),
    Reconnecting(QueueView),
    Stopped(WatchErrorView),
}

impl View for Phase {
    type V = PhaseView;

    open spec fn view(&self) -> PhaseView {
        match self {
            Phase::Registering => PhaseView::Registering,
            Phase::Polling(queue) => PhaseView::Polling(queue@),
            Phase::Reconnecting(queue) => PhaseView::Reconnecting(queue@),
            Phase::Stopped(error) => PhaseView::Stopped(error@),
        }
    }
}

/// The watcher of one site.
#[derive(Debug, PartialEq, Eq)]
pub struct SiteWatcher {
    pub site: ZulipSite,
    pub phase: Phase,
}

/// What a [`SiteWatcher`] holds.
pub struct WatcherView {
    pub site: SiteView,
    pub phase: PhaseView,
}

impl View for SiteWatcher {
    type V = WatcherView;

    open spec fn view(&self) -> WatcherView {
        WatcherView { site: self.site@, phase: self.phase@ }
    }
}

/// What the service sent back, by the kind of request that it answers.
#[derive(Debug, PartialEq, Eq)]
pub enum Response {
    Register(Reply<RegisterEventQueue>),
    Poll(Reply<PollEventQueue>),
}

/// A [`Response`], over views.
pub enum ResponseView {
    Register(Result<ApiResultView<RegistrationView>, Seq<char>>),
    Poll(Result<ApiResultView<Seq<EventView>>, Seq<char>>),
}

impl View for Response {
    type V = ResponseView;

    open spec fn view(&self) -> ResponseView {
        match self {
            Response::Register(reply) => ResponseView::Register(reply_view(*reply)),
            Response::Poll(reply) => ResponseView::Poll(reply_view(*reply)),
        }
    }
}

/// What a watcher wants done next.
#[derive(Debug, PartialEq, Eq)]
pub enum Next {
    /// Send this registration, and hand back the reply as
    /// [`Response::Register`].
    Register(Request),
    /// Send this poll, and hand back the reply as [`Response::Poll`].
    Poll(Request),
    /// Nothing: the watcher has failed for good.  Its phase holds the
    /// reason.
    Stop,
}

/// A [`Next`], over views.
pub enum NextView {
    Register(RequestView),
    Poll(RequestView),
    Stop,
}

impl View for Next {
    type V = NextView;

    open spec fn view(&self) -> NextView {
        match self {
            Next::Register(request) => NextView::Register(request@),
            Next::Poll(request) => NextView::Poll(request@),
            Next::Stop => NextView::Stop,
        }
    }
}

/// One step of a watcher: what to show now, which events to show after
/// that, and what to do next.
#[derive(Debug, PartialEq, Eq)]
pub struct Step {
    /// What to show first, in this order.
    pub outputs: Vec<Output>,
    /// The events that were delivered, in the order of delivery.  Each is
    /// shown as [`dispatch`](crate::dispatch::dispatch) says, in this order
    /// and before anything else is asked of the service.
    pub events: Vec<Event>,
    /// What to do when all that has been shown.
    pub next: Next,
}

/// A [`Step`], over views.
pub struct StepView {
    pub outputs: Seq<OutputView>,
    pub events: Seq<EventView>,
    pub next: NextView,
}

impl View for Step {
    type V = StepView;

    open spec fn view(&self) -> StepView {
        StepView {
            outputs: outputs_view(self.outputs@),
            events: events_view(self.events@),
            next: self.next@,
        }
    }
}

/// What came of a request, as text: the body of the answer, or what is
/// said of the failure.
pub open spec fn raw_view(reply: Result<String, TransportError>) -> Result<Seq<char>, Seq<char>> {
    match reply {
        Ok(body) => Ok(body@),
        Err(error) => Err(error@),
    }
}

/// What a watcher in `phase` reads `reply` as.  A watcher that has polled
/// reads a body as the answer to a poll, and every other watcher as the
/// answer to a registration.  A failure of the exchange stays what it is.
pub open spec fn read(phase: PhaseView, reply: Result<Seq<char>, Seq<char>>) -> ResponseView {
    match phase {
        PhaseView::Polling(_) => ResponseView::Poll(
            match reply {
                Ok(body) => poll_reply_in(body),
                Err(error) => Err(error),
            },
        ),
        _ => ResponseView::Register(
            match reply {
                Ok(body) => registration_reply_in(body),
                Err(error) => Err(error),
            },
        ),
    }
}

/// The line that says that a site is being watched.
pub open spec fn watching_line(site: Seq<char>) -> Seq<char> {
    "watching "@ + site
}

/// The line that names the queue that a site gave.
pub open spec fn queue_line(site: Seq<char>, queue_id: Seq<char>) -> Seq<char> {
    "queue for "@ + site + ": "@ + queue_id
}

/// The failure of a watcher that was handed a response of a kind that it
/// had not asked for.
pub open spec fn out_of_turn() -> WatchErrorView {
    WatchErrorView::Transport("unexpected response"@)
}

/// A fresh watcher of `site`, and its first step: it says that it watches
/// the site and asks for a registration.
pub open spec fn started(site: SiteView) -> (WatcherView, StepView) {
    (
        WatcherView { site, phase: PhaseView::Registering },
        StepView {
            outputs: seq![OutputView::Console(watching_line(site.name))],
            events: Seq::empty(),
            next: NextView::Register(register_request(site)),
        },
    )
}

/// The watcher of `site` stopped for the reason `error`, showing nothing.
pub open spec fn halted(site: SiteView, error: WatchErrorView) -> (WatcherView, StepView) {
    (
        WatcherView { site, phase: PhaseView::Stopped(error) },
        StepView { outputs: Seq::empty(), events: Seq::empty(), next: NextView::Stop },
    )
}

/// The watcher of `site` about to poll `queue`, after `outputs` and
/// `events` have been shown.
pub open spec fn polling(
    site: SiteView,
    queue: QueueView,
    outputs: Seq<OutputView>,
    events: Seq<EventView>,
) -> (WatcherView, StepView) {
    (
        WatcherView { site, phase: PhaseView::Polling(queue) },
        StepView { outputs, events, next: NextView::Poll(poll_request(queue)) },
    )
}

/// What a watcher does with a response: the watcher after it, and the step
/// it takes.
///
/// - The reply to the first registration gives the queue, which is named on
///   the console and polled.
/// - The reply to a poll gives events, which are handed on to be shown, and
///   the queue is polled again with the cursor moved.  Where the reply says that the
///   queue has expired, nothing is shown and a fresh registration is asked
///   for.
/// - The reply to that registration gives a fresh queue, which is polled.
/// - Any other failure stops the watcher, which then stays stopped,
///   whatever it is handed.  So does a response of a kind that the watcher
///   had not asked for.
pub open spec fn stepped(watcher: WatcherView, response: ResponseView) -> (WatcherView, StepView) {
    let site = watcher.site;
    match (watcher.phase, response) {
        (PhaseView::Stopped(error), _) => halted(site, error),
        (PhaseView::Registering, ResponseView::Register(reply)) => match registered(site, reply) {
            Ok(queue) => polling(
                site,
                queue,
                seq![OutputView::Console(queue_line(site.name, queue.queue_id))],
                Seq::empty(),
            ),
            Err(error) => halted(site, error),
        },
        (PhaseView::Polling(queue), ResponseView::Poll(reply)) => match polled(queue, reply) {
            (queue, PollOutcomeView::Events(events)) => polling(site, queue, Seq::empty(), events),
            (queue, PollOutcomeView::Expired) => (
                WatcherView { site, phase: PhaseView::Reconnecting(queue) },
                StepView {
                    outputs: Seq::empty(),
                    events: Seq::empty(),
                    next: NextView::Register(register_request(queue.site)),
                },
            ),
            (_, PollOutcomeView::Failed(error)) => halted(site, error),
        },
        (PhaseView::Reconnecting(queue), ResponseView::Register(reply)) => match reconnected(
            queue,
            reply,
        ) {
            (fresh, Ok(events)) => polling(site, fresh, Seq::empty(), events),
            (_, Err(error)) => halted(site, error),
        },
        _ => halted(site, out_of_turn()),
    }
}

fn halt(error: WatchError) -> (halted: (Phase, Step))
    ensures
        halted.0@ == PhaseView::Stopped(error@),
        halted.1@ == (StepView {
            outputs: Seq::empty(),
            events: Seq::empty(),
            next: NextView::Stop,
        }),
{
    (Phase::Stopped(error), Step { outputs: nothing(), events: no_events(), next: Next::Stop })
}

fn nothing() -> (outputs: Vec<Output>)
    ensures
        outputs_view(outputs@) == Seq::<OutputView>::empty(),
{
    let outputs: Vec<Output> = Vec::new();
    assert(outputs_view(outputs@) =~= Seq::empty());
    outputs
}

fn no_events() -> (events: Vec<Event>)
    ensures
        events_view(events@) == Seq::<EventView>::empty(),
{
    let events: Vec<Event> = Vec::new();
    assert(events_view(events@) =~= Seq::empty());
    events
}

fn poll(queue: EventQueue, outputs: Vec<Output>, events: Vec<Event>) -> (polling: (Phase, Step))
    ensures
        polling.0@ == PhaseView::Polling(queue@),
        polling.1@ == (StepView {
            outputs: outputs_view(outputs@),
            events: events_view(events@),
            next: NextView::Poll(poll_request(queue@)),
        }),
{
    let request = queue.poll_request();
    (Phase::Polling(queue), Step { outputs, events, next: Next::Poll(request) })
}

fn advance(site: &ZulipSite, phase: Phase, response: Response) -> (advanced: (Phase, Step))
    ensures
        (WatcherView { site: site@, phase: advanced.0@ }, advanced.1@) == stepped(
            WatcherView { site: site@, phase: phase@ },
            response@,
        ),
{
    match phase {
        Phase::Stopped(error) => halt(error),
        Phase::Registering => match response {
            Response::Register(reply) => match EventQueue::register_new(site.clone(), reply) {
                Ok(queue) => {
                    let mut line = String::from_str("queue for ");
                    line.append(site.name.as_str());
                    line.append(": ");
                    line.append(queue.queue_id.0.as_str());
                    let mut outputs: Vec<Output> = Vec::new();
                    outputs.push(Output::Console(line));
                    assert(outputs_view(outputs@) =~= seq![
                        OutputView::Console(queue_line(site@.name, queue@.queue_id)),
                    ]);
                    poll(queue, outputs, no_events())
                },
                Err(error) => halt(error),
            },
            Response::Poll(_) => halt(unexpected()),
        },
        Phase::Polling(queue) => match response {
            Response::Poll(reply) => {
                let mut queue = queue;
                match queue.long_poll(reply) {
                    PollOutcome::Events(events) => poll(queue, nothing(), events),
                    PollOutcome::Expired => {
                        let request = EventQueue::register_request(&queue.site);
                        (
                            Phase::Reconnecting(queue),
                            Step {
                                outputs: nothing(),
                                events: no_events(),
                                next: Next::Register(request),
                            },
                        )
                    },
                    PollOutcome::Failed(error) => halt(error),
                }
            },
            Response::Register(_) => halt(unexpected()),
        },
        Phase::Reconnecting(queue) => match response {
            Response::Register(reply) => {
                let mut queue = queue;
                match queue.reconnect(reply) {
                    Ok(events) => poll(queue, nothing(), events),
                    Err(error) => halt(error),
                }
            },
            Response::Poll(_) => halt(unexpected()),
        },
    }
}

fn unexpected() -> (error: WatchError)
    ensures
        error@ == out_of_turn(),
{
    WatchError::Transport(TransportError { message: String::from_str("unexpected response") })
}

impl SiteWatcher {
    /// A fresh watcher of `site`, and its first step.
    pub fn start(site: ZulipSite) -> (fresh: (SiteWatcher, Step))
        ensures
            (fresh.0@, fresh.1@) == started(site@),
    {
        let mut line = String::from_str("watching ");
        line.append(site.name.as_str());
        let mut outputs: Vec<Output> = Vec::new();
        outputs.push(Output::Console(line));
        assert(outputs_view(outputs@) =~= seq![OutputView::Console(watching_line(site@.name))]);
        let request = EventQueue::register_request(&site);
        (
            SiteWatcher { site, phase: Phase::Registering },
            Step { outputs, events: no_events(), next: Next::Register(request) },
        )
    }

    /// Why this watcher has failed for good, if it has.
    pub fn failure(&self) -> (reason: Option<&WatchError>)
        ensures
            match reason {
                Some(error) => self@.phase == PhaseView::Stopped(error@),
                None => !(self@.phase is Stopped),
            },
    {
        match &self.phase {
            Phase::Stopped(error) => Some(error),
            _ => None,
        }
    }

    /// Takes in what came of the request of the step before, as it came: the
    /// body of the answer, or the failure of the exchange.  The watcher
    /// reads the body as the answer to what it asked and takes the next
    /// step.
    pub fn receive(&mut self, reply: Result<String, TransportError>) -> (step: Step)
        ensures
            (final(self)@, step@) == stepped(old(self)@, read(old(self)@.phase, raw_view(reply))),
    {
        let response = match &self.phase {
            Phase::Polling(_) => Response::Poll(
                match reply {
                    Ok(body) => decode_poll_reply(body.as_str()),
                    Err(error) => Err(error),
                },
            ),
            _ => Response::Register(
                match reply {
                    Ok(body) => decode_registration_reply(body.as_str()),
                    Err(error) => Err(error),
                },
            ),
        };
        self.handle(response)
    }

    /// Takes in the response to the request of the step before, and takes
    /// the next step.
    pub fn handle(&mut self, response: Response) -> (step: Step)
        ensures
            (final(self)@, step@) == stepped(old(self)@, response@),
    {
        let mut phase = Phase::Registering;
        core::mem::swap(&mut self.phase, &mut phase);
        let (phase, step) = advance(&self.site, phase, response);
        self.phase = phase;
        step
    }
}


/// A watcher whose queue has expired recovers without showing anything.
/// Handed the error that says so, it asks for one registration at the site
/// of the queue.  Handed the answer to that registration, it polls the fresh
/// queue: the request names the new queue and starts from the new cursor.
pub proof fn expired_queue_is_replaced(
    site: SiteView,
    queue: QueueView,
    payload: Json,
    registration: RegistrationView,
)
    requires
        queue_expired(payload),
    ensures
        ({
            let waiting = WatcherView { site, phase: PhaseView::Polling(queue) };
            let asked = stepped(waiting, ResponseView::Poll(Ok(ApiResultView::Error(payload))));
            let fresh = QueueView {
                site: queue.site,
                queue_id: registration.queue_id,
                last_event_id: registration.last_event_id,
            };
            let resumed = stepped(
                asked.0,
                ResponseView::Register(Ok(ApiResultView::Success(registration))),
            );
            &&& asked.0 == WatcherView { site, phase: PhaseView::Reconnecting(queue) }
            &&& asked.1 == StepView {
                outputs: Seq::empty(),
                events: Seq::empty(),
                next: NextView::Register(register_request(queue.site)),
            }
            &&& resumed.0 == WatcherView { site, phase: PhaseView::Polling(fresh) }
            &&& resumed.1 == StepView {
                outputs: Seq::empty(),
                events: Seq::empty(),
                next: NextView::Poll(poll_request(fresh)),
            }
            &&& poll_request(fresh).url == api_url_text(
                queue.site.name,
                poll_path(registration.queue_id, registration.last_event_id),
            )
        }),
{
}

/// A watcher that is handed an empty batch shows nothing and polls again
/// with the same request: neither the queue nor its cursor has changed.
pub proof fn empty_batch_is_polled_again(site: SiteView, queue: QueueView)
    ensures
        stepped(
            WatcherView { site, phase: PhaseView::Polling(queue) },
            ResponseView::Poll(Ok(ApiResultView::Success(Seq::<EventView>::empty()))),
        ) == polling(site, queue, Seq::empty(), Seq::empty()),
{
}

/// Of all that can go wrong with a poll, only an expired queue is cured.  A
/// poll that could not be completed stops the watcher with that failure,
/// and a structured error stops it with its payload unless it says that the
/// queue has expired.
pub proof fn only_an_expired_queue_is_cured(
    site: SiteView,
    queue: QueueView,
    payload: Json,
    failure: Seq<char>,
)
    ensures
        stepped(
            WatcherView { site, phase: PhaseView::Polling(queue) },
            ResponseView::Poll(Err(failure)),
        ) == halted(site, WatchErrorView::Transport(failure)),
        !queue_expired(payload) ==> stepped(
            WatcherView { site, phase: PhaseView::Polling(queue) },
            ResponseView::Poll(Ok(ApiResultView::Error(payload))),
        ) == halted(site, WatchErrorView::Api(payload)),
        queue_expired(payload) ==> !(stepped(
            WatcherView { site, phase: PhaseView::Polling(queue) },
            ResponseView::Poll(Ok(ApiResultView::Error(payload))),
        ).0.phase is Stopped),
{
}

/// A watcher stops exactly when it has failed: the step says so if and only
/// if the phase holds a reason.  A watcher that has failed stays as it is,
/// whatever it is handed.  No step changes the site that is watched.
pub proof fn watcher_stops_for_good(watcher: WatcherView, response: ResponseView)
    ensures
        stepped(watcher, response).1.next is Stop <==> stepped(watcher, response).0.phase
            is Stopped,
        watcher.phase is Stopped ==> stepped(watcher, response).0 == watcher,
        watcher.phase is Stopped ==> stepped(watcher, response).1.outputs.len() == 0,
        watcher.phase is Stopped ==> stepped(watcher, response).1.events.len() == 0,
        stepped(watcher, response).0.site == watcher.site,
{
}

} // verus!
