use zulip_watch::api::{ApiErrorPayload, ApiResult, TransportError, WatchError};
use zulip_watch::dispatch::{dispatch, Output};
use zulip_watch::event::{Event, EventType, PollEventQueue};
use zulip_watch::message::{Message, MessageFlag, MessageRecipients, Timestamp, ZoneOffset};
use zulip_watch::queue::{EventQueue, EventQueueId, RegisterEventQueue};
use zulip_watch::site::{Method, Request, ZulipSite};
use zulip_watch::watcher::{Next, Phase, Response, SiteWatcher, Step};

fn site() -> ZulipSite {
    ZulipSite {
        name: "rust-lang".to_string(),
        user: "bot@example.org".to_string(),
        token: "secret".to_string(),
    }
}

fn queue(id: &str, cursor: i64) -> EventQueue {
    EventQueue { site: site(), queue_id: EventQueueId(id.to_string()), last_event_id: cursor }
}

fn registration(id: &str, cursor: i64) -> Response {
    Response::Register(Ok(ApiResult::Success(RegisterEventQueue {
        last_event_id: cursor,
        queue_id: EventQueueId(id.to_string()),
    })))
}

fn batch(events: Vec<Event>) -> Response {
    Response::Poll(Ok(ApiResult::Success(PollEventQueue { events })))
}

fn expired() -> Response {
    Response::Poll(Ok(ApiResult::Error(ApiErrorPayload(
        serde_json::from_str(r#"{"result":"error","code":"BAD_EVENT_QUEUE_ID"}"#).unwrap(),
    ))))
}

fn lost(message: &str) -> TransportError {
    TransportError { message: message.to_string() }
}

fn register_request() -> Request {
    Request {
        method: Method::Post,
        url: "https://rust-lang.example-chat-host/api/v1/register?event_types=%5B%22message%22%5D&all_public_streams=false".to_string(),
        user: "bot@example.org".to_string(),
        token: "secret".to_string(),
    }
}

fn poll_request(id: &str, cursor: i64) -> Request {
    Request {
        method: Method::Get,
        url: format!(
            "https://rust-lang.example-chat-host/api/v1/events?queue_id={}&last_event_id={}&dont_block=false",
            id, cursor
        ),
        user: "bot@example.org".to_string(),
        token: "secret".to_string(),
    }
}

fn polling(id: &str, cursor: i64) -> SiteWatcher {
    SiteWatcher { site: site(), phase: Phase::Polling(queue(id, cursor)) }
}

fn shown(watcher: &SiteWatcher, step: &Step, offset: ZoneOffset) -> Vec<Output> {
    let mut outputs = Vec::new();
    for event in &step.events {
        dispatch(&watcher.site.name, event, offset, &mut outputs);
    }
    outputs
}

fn mention(id: i64) -> Event {
    Event {
        id,
        rest: EventType::Message {
            flags: vec![MessageFlag::Mentioned],
            message: Message {
                content: "hello".to_string(),
                display_recipient: MessageRecipients::Stream("general".to_string()),
                sender_full_name: "Alice".to_string(),
                timestamp: Timestamp::from_seconds(1_600_000_000).unwrap(),
                type_: "stream".to_string(),
            },
        },
    }
}

#[test]
fn a_fresh_watcher_announces_itself_and_registers() {
    let (watcher, step) = SiteWatcher::start(site());
    assert_eq!(watcher, SiteWatcher { site: site(), phase: Phase::Registering });
    assert_eq!(
        step,
        Step {
            outputs: vec![Output::Console("watching rust-lang".to_string())],
            events: vec![],
            next: Next::Register(register_request()),
        }
    );
    assert_eq!(watcher.failure(), None);
}

#[test]
fn a_registered_watcher_names_its_queue_and_polls() {
    let (mut watcher, _) = SiteWatcher::start(site());
    let step = watcher.handle(registration("Q1", 5));
    assert_eq!(watcher, polling("Q1", 5));
    assert_eq!(
        step,
        Step {
            outputs: vec![Output::Console("queue for rust-lang: Q1".to_string())],
            events: vec![],
            next: Next::Poll(poll_request("Q1", 5)),
        }
    );
}

#[test]
fn a_failed_first_registration_stops_the_watcher() {
    let (mut watcher, _) = SiteWatcher::start(site());
    let step = watcher.handle(Response::Register(Err(lost("connection refused"))));
    assert_eq!(step, Step { outputs: vec![], events: vec![], next: Next::Stop });
    assert_eq!(watcher.failure(), Some(&WatchError::Transport(lost("connection refused"))));
}

#[test]
fn register_then_heartbeat_and_mention() {
    let (mut watcher, _) = SiteWatcher::start(site());
    watcher.handle(registration("Q1", 5));
    let step = watcher.handle(batch(vec![Event { id: 6, rest: EventType::Heartbeat }, mention(7)]));
    assert_eq!(watcher, polling("Q1", 7));
    assert_eq!(
        step,
        Step {
            outputs: vec![],
            events: vec![Event { id: 6, rest: EventType::Heartbeat }, mention(7)],
            next: Next::Poll(poll_request("Q1", 7)),
        }
    );
    assert_eq!(
        shown(&watcher, &step, ZoneOffset::utc()),
        vec![
            Output::Console(
                "! rust-lang            [12:26:40] @Alice -> #general: hello".to_string()
            ),
            Output::Notify {
                summary: "rust-lang [12:26:40] @Alice -> #general".to_string(),
                body: "hello".to_string(),
            },
        ]
    );
}

#[test]
fn an_empty_batch_is_polled_again_with_the_same_cursor() {
    let mut watcher = polling("Q1", 5);
    let step = watcher.handle(batch(vec![]));
    assert_eq!(watcher, polling("Q1", 5));
    assert_eq!(step, Step { outputs: vec![], events: vec![], next: Next::Poll(poll_request("Q1", 5)) });
}

#[test]
fn an_expired_queue_is_registered_anew_once() {
    let mut watcher = polling("Q1", 5);
    let step = watcher.handle(expired());
    assert_eq!(watcher, SiteWatcher { site: site(), phase: Phase::Reconnecting(queue("Q1", 5)) });
    assert_eq!(step, Step { outputs: vec![], events: vec![], next: Next::Register(register_request()) });
    assert_eq!(watcher.failure(), None);
}

#[test]
fn after_a_reconnect_the_new_queue_is_polled() {
    let mut watcher = polling("Q1", 5);
    watcher.handle(expired());
    let step = watcher.handle(registration("Q2", 40));
    assert_eq!(watcher, polling("Q2", 40));
    assert_eq!(step, Step { outputs: vec![], events: vec![], next: Next::Poll(poll_request("Q2", 40)) });
    let step = watcher.handle(batch(vec![Event { id: 41, rest: EventType::Heartbeat }]));
    assert_eq!(
        step,
        Step {
            outputs: vec![],
            events: vec![Event { id: 41, rest: EventType::Heartbeat }],
            next: Next::Poll(poll_request("Q2", 41)),
        }
    );
}

#[test]
fn a_failed_reconnect_stops_the_watcher() {
    let mut watcher = polling("Q1", 5);
    watcher.handle(expired());
    let step = watcher.handle(Response::Register(Err(lost("connection reset"))));
    assert_eq!(step, Step { outputs: vec![], events: vec![], next: Next::Stop });
    assert_eq!(watcher.failure(), Some(&WatchError::Transport(lost("connection reset"))));
}

#[test]
fn another_api_error_stops_the_watcher() {
    let payload = || {
        ApiErrorPayload(serde_json::from_str(r#"{"result":"error","code":"RATE_LIMIT_HIT"}"#).unwrap())
    };
    let mut watcher = polling("Q1", 5);
    let step = watcher.handle(Response::Poll(Ok(ApiResult::Error(payload()))));
    assert_eq!(step, Step { outputs: vec![], events: vec![], next: Next::Stop });
    assert_eq!(watcher.failure(), Some(&WatchError::Api(payload())));
}

#[test]
fn a_lost_poll_stops_the_watcher() {
    let mut watcher = polling("Q1", 5);
    let step = watcher.handle(Response::Poll(Err(lost("timed out"))));
    assert_eq!(step, Step { outputs: vec![], events: vec![], next: Next::Stop });
    assert_eq!(
        watcher,
        SiteWatcher { site: site(), phase: Phase::Stopped(WatchError::Transport(lost("timed out"))) }
    );
}

#[test]
fn a_stopped_watcher_stays_stopped() {
    let mut watcher = polling("Q1", 5);
    watcher.handle(Response::Poll(Err(lost("timed out"))));
    for response in [registration("Q2", 0), batch(vec![mention(9)]), expired()] {
        let step = watcher.handle(response);
        assert_eq!(step, Step { outputs: vec![], events: vec![], next: Next::Stop });
        assert_eq!(watcher.failure(), Some(&WatchError::Transport(lost("timed out"))));
    }
}

#[test]
fn a_response_out_of_turn_stops_the_watcher() {
    let (mut watcher, _) = SiteWatcher::start(site());
    let step = watcher.handle(batch(vec![]));
    assert_eq!(step, Step { outputs: vec![], events: vec![], next: Next::Stop });
    assert_eq!(watcher.failure(), Some(&WatchError::Transport(lost("unexpected response"))));

    let mut watcher = polling("Q1", 5);
    watcher.handle(registration("Q2", 0));
    assert_eq!(watcher.failure(), Some(&WatchError::Transport(lost("unexpected response"))));

    let mut watcher = polling("Q1", 5);
    watcher.handle(expired());
    watcher.handle(batch(vec![]));
    assert_eq!(watcher.failure(), Some(&WatchError::Transport(lost("unexpected response"))));
}

#[test]
fn bodies_are_read_as_the_answer_to_what_was_asked() {
    let (mut watcher, _) = SiteWatcher::start(site());
    let step = watcher.receive(Ok(
        r#"{"result":"success","msg":"","queue_id":"Q1","last_event_id":5}"#.to_string(),
    ));
    assert_eq!(
        step,
        Step {
            outputs: vec![Output::Console("queue for rust-lang: Q1".to_string())],
            events: vec![],
            next: Next::Poll(poll_request("Q1", 5)),
        }
    );
    let step = watcher.receive(Ok(r#"{
        "result": "success",
        "msg": "",
        "events": [
            {"type": "heartbeat", "id": 6},
            {"type": "message", "id": 7, "flags": ["mentioned"], "message": {
                "content": "hello",
                "display_recipient": "general",
                "sender_full_name": "Alice",
                "timestamp": 1600000000,
                "type": "stream"
            }}
        ]
    }"#
    .to_string()));
    assert_eq!(watcher, polling("Q1", 7));
    assert_eq!(
        step,
        Step {
            outputs: vec![],
            events: vec![Event { id: 6, rest: EventType::Heartbeat }, mention(7)],
            next: Next::Poll(poll_request("Q1", 7)),
        }
    );
    assert_eq!(
        shown(&watcher, &step, ZoneOffset::from_seconds(7_200).unwrap()),
        vec![
            Output::Console(
                "! rust-lang            [14:26:40] @Alice -> #general: hello".to_string()
            ),
            Output::Notify {
                summary: "rust-lang [14:26:40] @Alice -> #general".to_string(),
                body: "hello".to_string(),
            },
        ]
    );
}

#[test]
fn an_expired_queue_is_cured_from_bodies() {
    let mut watcher = polling("Q1", 5);
    let step = watcher.receive(Ok(
        r#"{"result":"error","msg":"Bad event queue id: Q1","code":"BAD_EVENT_QUEUE_ID","queue_id":"Q1"}"#
            .to_string(),
    ));
    assert_eq!(step, Step { outputs: vec![], events: vec![], next: Next::Register(register_request()) });
    let step =
        watcher.receive(Ok(r#"{"result":"success","queue_id":"Q2","last_event_id":-1}"#.to_string()));
    assert_eq!(step, Step { outputs: vec![], events: vec![], next: Next::Poll(poll_request("Q2", -1)) });
    assert_eq!(watcher, polling("Q2", -1));
}

#[test]
fn an_empty_batch_in_a_body_is_polled_again() {
    let mut watcher = polling("Q1", 5);
    let step = watcher.receive(Ok(r#"{"result":"success","events":[]}"#.to_string()));
    assert_eq!(step, Step { outputs: vec![], events: vec![], next: Next::Poll(poll_request("Q1", 5)) });
    assert_eq!(watcher, polling("Q1", 5));
}

#[test]
fn an_unreadable_body_stops_the_watcher() {
    let mut watcher = polling("Q1", 5);
    let step = watcher.receive(Ok("<html>".to_string()));
    assert_eq!(step, Step { outputs: vec![], events: vec![], next: Next::Stop });
    assert_eq!(
        watcher.failure(),
        Some(&WatchError::Transport(lost("undecodable response: <html>")))
    );
}

#[test]
fn a_body_of_the_other_kind_stops_the_watcher() {
    let (mut watcher, _) = SiteWatcher::start(site());
    let body = r#"{"result":"success","events":[]}"#;
    watcher.receive(Ok(body.to_string()));
    assert_eq!(
        watcher.failure(),
        Some(&WatchError::Transport(lost(&format!("undecodable response: {}", body))))
    );
}

#[test]
fn a_lost_exchange_stops_the_watcher() {
    let mut watcher = polling("Q1", 5);
    let step = watcher.receive(Err(lost("dns failure")));
    assert_eq!(step, Step { outputs: vec![], events: vec![], next: Next::Stop });
    assert_eq!(watcher.failure(), Some(&WatchError::Transport(lost("dns failure"))));
}
