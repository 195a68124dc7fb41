//! One event queue of one site: how it is registered, how it is polled, how
//! its cursor moves, and what is done when the service no longer knows it.

use vstd::prelude::*;
use vstd::string::*;

use crate::api::{
    queue_expired, reply_view, ApiResult, ApiResultView, Reply, WatchError, WatchErrorView,
};
use crate::event::{events_view, Event, EventView, PollEventQueue};
use crate::site::{request_to, Method, Request, RequestView, SiteView, ZulipSite};
use crate::text::{append_decimal, decimal};

verus! {

/// The name that the service gives to a queue.  Nothing is read out of it.
#[derive(Debug, PartialEq, Eq)]
pub struct EventQueueId(pub String);

impl View for EventQueueId {
    type V = Seq<char>;

    open spec fn view(&self) -> Seq<char> {
        self.0@
    }
}

/// The answer to a registration: the name of the new queue and the cursor
/// from which it starts.
#[derive(Debug, PartialEq, Eq)]
pub struct RegisterEventQueue {
    pub last_event_id: i64,
    pub queue_id: EventQueueId,
}

/// What a [`RegisterEventQueue`] holds.
pub struct RegistrationView {
    pub last_event_id: int,
    pub queue_id: Seq<char>,
}

impl View for RegisterEventQueue {
    type V = RegistrationView;

    open spec fn view(&self) -> RegistrationView {
        RegistrationView { last_event_id: self.last_event_id as int, queue_id: self.queue_id@ }
    }
}

/// A queue of events at a site, and how far it has been read: every poll
/// asks for the events after `last_event_id`.
#[derive(Debug, PartialEq, Eq)]
pub struct EventQueue {
    pub site: ZulipSite,
    pub queue_id: EventQueueId,
    pub last_event_id: i64,
}

/// What an [`EventQueue`] holds.
pub struct QueueView {
    pub site: SiteView,
    pub queue_id: Seq<char>,
    pub last_event_id: int,
}

impl View for EventQueue {
    type V = QueueView;

    open spec fn view(&self) -> QueueView {
        QueueView {
            site: self.site@,
            queue_id: self.queue_id@,
            last_event_id: self.last_event_id as int,
        }
    }
}

/// What came of one poll.
#[derive(Debug, PartialEq, Eq)]
pub enum PollOutcome {
    /// The events that were delivered, in the order of delivery.  There may
    /// be none.
    Events(Vec<Event>),
    /// The service no longer knows the queue.  A fresh registration, handed
    /// to [`EventQueue::reconnect`], puts a new queue in its place.
    Expired,
    /// The poll failed for good.
    Failed(WatchError),
}

/// A [`PollOutcome`], over views.
pub enum PollOutcomeView {
    Events(Seq<EventView>),
    Expired,
    Failed(WatchErrorView),
}

impl View for PollOutcome {
    type V = PollOutcomeView;

    open spec fn view(&self) -> PollOutcomeView {
        match self {
            PollOutcome::Events(events) => PollOutcomeView::Events(events_view(events@)),
            PollOutcome::Expired => PollOutcomeView::Expired,
            PollOutcome::Failed(error) => PollOutcomeView::Failed(error@),
        }
    }
}

/// The endpoint that registers a queue for message events in the streams
/// that the account itself sees.
pub open spec fn register_path() -> Seq<char> {
    "register?event_types=%5B%22message%22%5D&all_public_streams=false"@
}

/// The request that registers a queue at `site`.
pub open spec fn register_request(site: SiteView) -> RequestView {
    request_to(site, Method::Post, register_path())
}

/// The endpoint that delivers the events of the queue `queue_id` after the
/// event `last_event_id`, and holds the answer back until there is one.
pub open spec fn poll_path(queue_id: Seq<char>, last_event_id: int) -> Seq<char> {
    "events?queue_id="@ + queue_id + "&last_event_id="@ + decimal(last_event_id)
        + "&dont_block=false"@
}

/// The request that polls `queue`: it names the queue and the cursor that
/// the queue holds.
pub open spec fn poll_request(queue: QueueView) -> RequestView {
    request_to(queue.site, Method::Get, poll_path(queue.queue_id, queue.last_event_id))
}

/// What a registration at `site` comes to: a queue with the name and the
/// cursor that the service gave, or the reason why there is none.
pub open spec fn registered(
    site: SiteView,
    reply: Result<ApiResultView<RegistrationView>, Seq<char>>,
) -> Result<QueueView, WatchErrorView> {
    match reply {
        Ok(ApiResultView::Success(registration)) => Ok(
            QueueView {
                site,
                queue_id: registration.queue_id,
                last_event_id: registration.last_event_id,
            },
        ),
        Ok(ApiResultView::Error(payload)) => Err(WatchErrorView::Api(payload)),
        Err(error) => Err(WatchErrorView::Transport(error)),
    }
}

/// The later of two event ids.
pub open spec fn later(a: int, b: int) -> int {
    if a >= b {
        a
    } else {
        b
    }
}

/// Where the cursor stands after a batch of events: at the greatest id among
/// the cursor before and the ids of the batch.
pub open spec fn advanced(cursor: int, events: Seq<EventView>) -> int
    decreases events.len(),
{
    if events.len() == 0 {
        cursor
    } else {
        later(advanced(cursor, events.drop_last()), events.last().id)
    }
}

/// What a poll of `queue` comes to: the queue after it, and the outcome.
/// Events move the cursor.  An error that says the queue has expired leaves
/// the queue as it is and asks for a fresh registration.  Every other error
/// leaves the queue as it is and is final.
pub open spec fn polled(
    queue: QueueView,
    reply: Result<ApiResultView<Seq<EventView>>, Seq<char>>,
) -> (QueueView, PollOutcomeView) {
    match reply {
        Ok(ApiResultView::Success(events)) => (
            QueueView { last_event_id: advanced(queue.last_event_id, events), ..queue },
            PollOutcomeView::Events(events),
        ),
        Ok(ApiResultView::Error(payload)) => if queue_expired(payload) {
            (queue, PollOutcomeView::Expired)
        } else {
            (queue, PollOutcomeView::Failed(WatchErrorView::Api(payload)))
        },
        Err(error) => (queue, PollOutcomeView::Failed(WatchErrorView::Transport(error))),
    }
}

/// What the registration made for an expired `queue` comes to: the queue
/// after it, and the batch of this round.  A fresh queue takes the place of
/// the expired one and the batch is empty; a failed registration leaves the
/// queue as it is and is final.
pub open spec fn reconnected(
    queue: QueueView,
    reply: Result<ApiResultView<RegistrationView>, Seq<char>>,
) -> (QueueView, Result<Seq<EventView>, WatchErrorView>) {
    match registered(queue.site, reply) {
        Ok(fresh) => (fresh, Ok(Seq::empty())),
        Err(reason) => (queue, Err(reason)),
    }
}

/// The view of a batch of events or of the reason why there is none.
pub open spec fn batch_result_view(result: Result<Vec<Event>, WatchError>) -> Result<
    Seq<EventView>,
    WatchErrorView,
> {
    match result {
        Ok(events) => Ok(events_view(events@)),
        Err(error) => Err(error@),
    }
}

/// The view of a queue or of the reason why there is none.
pub open spec fn queue_result_view(result: Result<EventQueue, WatchError>) -> Result<
    QueueView,
    WatchErrorView,
> {
    match result {
        Ok(queue) => Ok(queue@),
        Err(error) => Err(error@),
    }
}

impl EventQueue {
    /// The request that registers a queue at `site`.
    pub fn register_request(site: &ZulipSite) -> (request: Request)
        ensures
            request@ == register_request(site@),
    {
        site.post("register?event_types=%5B%22message%22%5D&all_public_streams=false")
    }

    /// The queue that the reply to a registration at `site` describes, or
    /// the reason why there is none: the structured error that the service
    /// answered with, or the failure of the exchange.
    pub fn register_new(site: ZulipSite, reply: Reply<RegisterEventQueue>) -> (result: Result<
        EventQueue,
        WatchError,
    >)
        ensures
            queue_result_view(result) == registered(site@, reply_view(reply)),
    {
        let answer = match reply {
            Ok(answer) => answer,
            Err(error) => {
                return Err(WatchError::Transport(error));
            },
        };
        match answer.into_result() {
            Ok(registration) => Ok(
                EventQueue {
                    site,
                    queue_id: registration.queue_id,
                    last_event_id: registration.last_event_id,
                },
            ),
            Err(error) => Err(error),
        }
    }

    /// The request that polls this queue.
    pub fn poll_request(&self) -> (request: Request)
        ensures
            request@ == poll_request(self@),
    {
        let mut api = String::from_str("events?queue_id=");
        api.append(self.queue_id.0.as_str());
        api.append("&last_event_id=");
        append_decimal(&mut api, self.last_event_id);
        api.append("&dont_block=false");
        self.site.get(api.as_str())
    }

    /// Takes in the reply to a poll of this queue.  Delivered events move
    /// the cursor to the greatest id seen so far and are handed on; an empty
    /// batch moves nothing.  Where the service no longer knows the queue,
    /// the outcome says so and the queue waits for
    /// [`reconnect`](EventQueue::reconnect).  Every other failure is handed
    /// on as it is.
    pub fn long_poll(&mut self, reply: Reply<PollEventQueue>) -> (outcome: PollOutcome)
        ensures
            (final(self)@, outcome@) == polled(old(self)@, reply_view(reply)),
    {
        let answer = match reply {
            Ok(answer) => answer,
            Err(error) => {
                return PollOutcome::Failed(WatchError::Transport(error));
            },
        };
        let expired = match &answer {
            ApiResult::Error(payload) => payload.is_bad_event_queue_id(),
            ApiResult::Success(_) => false,
        };
        if expired {
            return PollOutcome::Expired;
        }
        let batch = match answer.into_result() {
            Ok(batch) => batch,
            Err(error) => {
                return PollOutcome::Failed(error);
            },
        };
        let mut cursor = self.last_event_id;
        let mut seen: usize = 0;
        assert(batch@.take(0) =~= Seq::empty());
        while seen < batch.events.len()
            invariant
                seen <= batch.events.len(),
                cursor == advanced(self.last_event_id as int, batch@.take(seen as int)),
            decreases batch.events.len() - seen,
        {
            proof {
                let ghost upto = batch@.take(seen + 1);
                assert(upto.drop_last() =~= batch@.take(seen as int));
                assert(upto.last() == batch.events@[seen as int]@);
            }
            if batch.events[seen].id > cursor {
                cursor = batch.events[seen].id;
            }
            seen = seen + 1;
        }
        assert(batch@.take(seen as int) =~= batch@);
        self.last_event_id = cursor;
        PollOutcome::Events(batch.events)
    }

    /// Takes in the reply to the registration that was made because this
    /// queue had expired.  A fresh queue takes the place of this one, with
    /// the name and the cursor that the service gave, and the batch for this
    /// round is empty.  Where the registration failed, the queue stays as it
    /// is and the failure is handed on.
    pub fn reconnect(&mut self, reply: Reply<RegisterEventQueue>) -> (result: Result<
        Vec<Event>,
        WatchError,
    >)
        ensures
            (final(self)@, batch_result_view(result)) == reconnected(old(self)@, reply_view(reply)),
    {
        match EventQueue::register_new(self.site.clone(), reply) {
            Ok(fresh) => {
                *self = fresh;
                let events: Vec<Event> = Vec::new();
                assert(events_view(events@) =~= Seq::empty());
                Ok(events)
            },
            Err(error) => Err(error),
        }
    }
}

/// A poll never moves the cursor back, and after a poll that delivered
/// events the cursor is at or beyond the id of each of them.  The cursor is
/// the one before or the id of a delivered event, and the poll changes
/// neither the site nor the name of the queue.
pub proof fn poll_moves_cursor_forward(
    queue: QueueView,
    reply: Result<ApiResultView<Seq<EventView>>, Seq<char>>,
)
    ensures
        polled(queue, reply).0.last_event_id >= queue.last_event_id,
        polled(queue, reply).0.site == queue.site,
        polled(queue, reply).0.queue_id == queue.queue_id,
        reply matches Ok(ApiResultView::Success(events)) ==> {
            &&& forall|i: int|
                0 <= i < events.len() ==> polled(queue, reply).0.last_event_id
                    >= #[trigger] events[i].id
            &&& (polled(queue, reply).0.last_event_id == queue.last_event_id || exists|i: int|
                0 <= i < events.len() && polled(queue, reply).0.last_event_id
                    == #[trigger] events[i].id)
        },
{
    if let Ok(ApiResultView::Success(events)) = reply {
        cursor_is_greatest(queue.last_event_id, events);
    }
}

/// The cursor after a batch is at or beyond the cursor before and the id of
/// every event of the batch, and it is one of these.
pub proof fn cursor_is_greatest(cursor: int, events: Seq<EventView>)
    ensures
        advanced(cursor, events) >= cursor,
        forall|i: int| 0 <= i < events.len() ==> advanced(cursor, events) >= #[trigger] events[i].id,
        advanced(cursor, events) == cursor || exists|i: int|
            0 <= i < events.len() && advanced(cursor, events) == #[trigger] events[i].id,
    decreases events.len(),
{
    if events.len() > 0 {
        let ghost front = events.drop_last();
        cursor_is_greatest(cursor, front);
        assert forall|i: int| 0 <= i < events.len() implies advanced(cursor, events)
            >= #[trigger] events[i].id by {
            if i < front.len() {
                assert(front[i] == events[i]);
            }
        }
        if advanced(cursor, events) != cursor {
            if advanced(cursor, events) == events.last().id {
                assert(events[events.len() - 1].id == advanced(cursor, events));
            } else {
                let i = choose|i: int|
                    0 <= i < front.len() && advanced(cursor, front) == #[trigger] front[i].id;
                assert(events[i].id == advanced(cursor, events));
            }
        }
    }
}

/// Where the service delivers events in ascending order of their ids, all
/// of them beyond the cursor, the cursor after the batch is the id of the
/// last event.
pub proof fn cursor_follows_last_event(cursor: int, events: Seq<EventView>)
    requires
        events.len() > 0,
        cursor <= events[0].id,
        forall|i: int, j: int| 0 <= i < j < events.len() ==> events[i].id < events[j].id,
    ensures
        advanced(cursor, events) == events.last().id,
{
    cursor_is_greatest(cursor, events);
}

/// A poll that delivers no events is no failure and changes nothing: the
/// outcome is an empty batch, and the queue is as it was.
pub proof fn empty_batch_changes_nothing(queue: QueueView)
    ensures
        polled(queue, Ok(ApiResultView::Success(Seq::<EventView>::empty()))) == (
            queue,
            PollOutcomeView::Events(Seq::<EventView>::empty()),
        ),
{
}

} // verus!
