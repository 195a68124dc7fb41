//! How the bodies of the service's answers are read, and the configuration.
//!
//! An answer is a JSON object.  Its member `result` says whether it is a
//! success, which then holds what was asked for, or an error, which is kept
//! whole.  Members that are not asked for are passed over.  A body that is
//! no JSON, or that lacks a member that is asked for, or holds it in another
//! form, cannot be read: that is a failure of the exchange.

use vstd::prelude::*;
use vstd::string::*;

use crate::api::{
    reply_view, viewed, ApiErrorPayload, ApiResult, ApiResultView, Reply, TransportError,
};
use crate::event::{events_view, Event, EventType, EventTypeView, EventView, PollEventQueue};
use crate::json::{
    integer_at, integer_member, items_of, json, json_of, jsons, member, member_of, parse, text_at,
    text_member, text_of, Json,
};
use crate::message::{
    flags_named, on_calendar, texts, user_names, Message, MessageFlag, MessageRecipients,
    MessageView, RecipientsView, Timestamp, User,
};
use crate::queue::{EventQueueId, RegisterEventQueue, RegistrationView};
use crate::site::{sites_view, Config, SiteView, ZulipSite};
use crate::text::same_text;

verus! {

/// What every tree of `items` reads as, in their order, where `one` reads
/// each of them; `None` where it cannot read one of them.
pub open spec fn all_in<T>(items: Seq<Json>, one: spec_fn(Json) -> Option<T>) -> Option<Seq<T>> {
    if forall|i: int| 0 <= i < items.len() ==> one(#[trigger] items[i]) is Some {
        Some(Seq::new(items.len(), |i: int| one(items[i])->0))
    } else {
        None
    }
}

/// The user that `tree` describes: an object with the user's full name.
pub open spec fn user_in(tree: Json) -> Option<Seq<char>> {
    text_member(tree, "full_name"@)
}

/// Reads [`user_in`].
pub open spec fn user_reader() -> spec_fn(Json) -> Option<Seq<char>> {
    |tree: Json| user_in(tree)
}

/// The recipients that `tree` describes: the name of a stream, or a list of
/// users.
pub open spec fn recipients_in(tree: Json) -> Option<RecipientsView> {
    match text_of(tree) {
        Some(stream) => Some(RecipientsView::Stream(stream)),
        None => match items_of(tree) {
            Some(items) => match all_in(items, user_reader()) {
                Some(names) => Some(RecipientsView::Users(names)),
                None => None,
            },
            None => None,
        },
    }
}

/// Reads the recipients of a message.
pub fn decode_recipients(value: &serde_json::Value) -> (recipients: Option<MessageRecipients>)
    ensures
        viewed(recipients) == recipients_in(json(*value)),
{
    match value.as_str() {
        Some(stream) => {
            return Some(MessageRecipients::Stream(stream.to_owned()));
        },
        None => {},
    }
    let list = match value.as_array() {
        Some(list) => list,
        None => {
            return None;
        },
    };
    let ghost items = jsons(list@);
    let mut users: Vec<User> = Vec::new();
    let mut read: usize = 0;
    while read < list.len()
        invariant
            text_of(json(*value)) is None,
            items_of(json(*value)) == Some(items),
            items == jsons(list@),
            read <= list.len(),
            users@.len() == read,
            forall|i: int| 0 <= i < read ==> user_in(#[trigger] items[i]) == Some(users@[i]@),
        decreases list.len() - read,
    {
        match text_at(&list[read], "full_name") {
            Some(full_name) => {
                users.push(User { full_name });
            },
            None => {
                assert(user_reader()(items[read as int]) is None);
                return None;
            },
        }
        read = read + 1;
    }
    assert(all_in(items, user_reader()) == Some(user_names(users@))) by {
        assert forall|i: int| 0 <= i < items.len() implies user_reader()(#[trigger] items[i])
            is Some by {}
        assert(all_in(items, user_reader())->0 =~= user_names(users@));
    }
    Some(MessageRecipients::Users(users))
}

/// The message that `tree` describes: an object that holds what the
/// message says, its recipients, the full name of its sender, the second in
/// which it was sent, which the calendar must reach, and its kind.
pub open spec fn message_in(tree: Json) -> Option<MessageView> {
    match (
        text_member(tree, "content"@),
        member_of(tree, "display_recipient"@),
        text_member(tree, "sender_full_name"@),
        integer_member(tree, "timestamp"@),
        text_member(tree, "type"@),
    ) {
        (Some(content), Some(to), Some(sender_full_name), Some(seconds), Some(type_)) => match recipients_in(
            to,
        ) {
            Some(display_recipient) => if on_calendar(seconds as int) {
                Some(
                    MessageView {
                        content,
                        display_recipient,
                        sender_full_name,
                        timestamp: seconds as int,
                        type_,
                    },
                )
            } else {
                None
            },
            None => None,
        },
        _ => None,
    }
}

/// Reads a message.
pub fn decode_message(value: &serde_json::Value) -> (message: Option<Message>)
    ensures
        viewed(message) == message_in(json(*value)),
{
    let content = match text_at(value, "content") {
        Some(content) => content,
        None => {
            return None;
        },
    };
    let to = match member(value, "display_recipient") {
        Some(to) => to,
        None => {
            return None;
        },
    };
    let display_recipient = match decode_recipients(to) {
        Some(display_recipient) => display_recipient,
        None => {
            return None;
        },
    };
    let sender_full_name = match text_at(value, "sender_full_name") {
        Some(sender_full_name) => sender_full_name,
        None => {
            return None;
        },
    };
    let seconds = match integer_at(value, "timestamp") {
        Some(seconds) => seconds,
        None => {
            return None;
        },
    };
    let timestamp = match Timestamp::from_seconds(seconds) {
        Some(timestamp) => timestamp,
        None => {
            return None;
        },
    };
    let type_ = match text_at(value, "type") {
        Some(type_) => type_,
        None => {
            return None;
        },
    };
    Some(Message { content, display_recipient, sender_full_name, timestamp, type_ })
}

/// Reads [`text_of`].
pub open spec fn text_reader() -> spec_fn(Json) -> Option<Seq<char>> {
    |tree: Json| text_of(tree)
}

/// The flags that `tree` lists: a list of names, of which the known ones
/// count and the others are passed over.
pub open spec fn flags_in(tree: Json) -> Option<Seq<MessageFlag>> {
    match items_of(tree) {
        Some(items) => match all_in(items, text_reader()) {
            Some(names) => Some(flags_named(names)),
            None => None,
        },
        None => None,
    }
}

/// Reads the flags of a message.
pub fn decode_flags(value: &serde_json::Value) -> (flags: Option<Vec<MessageFlag>>)
    ensures
        viewed(flags) == flags_in(json(*value)),
{
    let list = match value.as_array() {
        Some(list) => list,
        None => {
            return None;
        },
    };
    let ghost items = jsons(list@);
    let mut names: Vec<String> = Vec::new();
    let mut read: usize = 0;
    while read < list.len()
        invariant
            items_of(json(*value)) == Some(items),
            items == jsons(list@),
            read <= list.len(),
            names@.len() == read,
            forall|i: int| 0 <= i < read ==> text_of(#[trigger] items[i]) == Some(names@[i]@),
        decreases list.len() - read,
    {
        match list[read].as_str() {
            Some(name) => {
                names.push(name.to_owned());
            },
            None => {
                assert(text_reader()(items[read as int]) is None);
                return None;
            },
        }
        read = read + 1;
    }
    assert(all_in(items, text_reader()) == Some(texts(names@))) by {
        assert forall|i: int| 0 <= i < items.len() implies text_reader()(#[trigger] items[i])
            is Some by {}
        assert(all_in(items, text_reader())->0 =~= texts(names@));
    }
    Some(MessageFlag::from_names(&names))
}

/// The event that `tree` describes: an object that holds the id of the
/// event and the name of its kind.  A heartbeat holds no more.  A message holds its flags and the
/// message.  Any other name is an event of a kind that is not known here,
/// and no failure.
pub open spec fn event_in(tree: Json) -> Option<EventView> {
    match (integer_member(tree, "id"@), text_member(tree, "type"@)) {
        (Some(id), Some(kind)) => if kind == "heartbeat"@ {
            Some(EventView { id: id as int, rest: EventTypeView::Heartbeat })
        } else if kind == "message"@ {
            match (member_of(tree, "flags"@), member_of(tree, "message"@)) {
                (Some(flags), Some(message)) => match (flags_in(flags), message_in(message)) {
                    (Some(flags), Some(message)) => Some(
                        EventView {
                            id: id as int,
                            rest: EventTypeView::Message { flags, message },
                        },
                    ),
                    _ => None,
                },
                _ => None,
            }
        } else {
            Some(EventView { id: id as int, rest: EventTypeView::Other })
        },
        _ => None,
    }
}

/// An event of a kind that is not known here is no failure: whatever name
/// other than `heartbeat` and `message` its kind has, and whatever else it
/// holds, it is read as an event of an unknown kind.
pub proof fn unknown_kinds_are_no_failure(tree: Json, id: i64, kind: Seq<char>)
    requires
        integer_member(tree, "id"@) == Some(id),
        text_member(tree, "type"@) == Some(kind),
        kind != "heartbeat"@,
        kind != "message"@,
    ensures
        event_in(tree) == Some(EventView { id: id as int, rest: EventTypeView::Other }),
{
}

/// Reads [`event_in`].
pub open spec fn event_reader() -> spec_fn(Json) -> Option<EventView> {
    |tree: Json| event_in(tree)
}

/// Reads an event.
pub fn decode_event(value: &serde_json::Value) -> (event: Option<Event>)
    ensures
        viewed(event) == event_in(json(*value)),
{
    let id = match integer_at(value, "id") {
        Some(id) => id,
        None => {
            return None;
        },
    };
    let kind = match text_at(value, "type") {
        Some(kind) => kind,
        None => {
            return None;
        },
    };
    if same_text(kind.as_str(), "heartbeat") {
        return Some(Event { id, rest: EventType::Heartbeat });
    }
    if !same_text(kind.as_str(), "message") {
        return Some(Event { id, rest: EventType::Other });
    }
    let flags = match member(value, "flags") {
        Some(flags) => flags,
        None => {
            return None;
        },
    };
    let message = match member(value, "message") {
        Some(message) => message,
        None => {
            return None;
        },
    };
    let flags = match decode_flags(flags) {
        Some(flags) => flags,
        None => {
            return None;
        },
    };
    let message = match decode_message(message) {
        Some(message) => message,
        None => {
            return None;
        },
    };
    Some(Event { id, rest: EventType::Message { flags, message } })
}

/// The batch of events that `tree` describes: an object that holds the
/// list of events.
pub open spec fn batch_in(tree: Json) -> Option<Seq<EventView>> {
    match member_of(tree, "events"@) {
        Some(events) => match items_of(events) {
            Some(items) => all_in(items, event_reader()),
            None => None,
        },
        None => None,
    }
}

/// Reads a batch of events.
pub fn decode_batch(value: &serde_json::Value) -> (batch: Option<PollEventQueue>)
    ensures
        viewed(batch) == batch_in(json(*value)),
{
    let list = match member(value, "events") {
        Some(events) => match events.as_array() {
            Some(list) => list,
            None => {
                return None;
            },
        },
        None => {
            return None;
        },
    };
    let ghost items = jsons(list@);
    let mut events: Vec<Event> = Vec::new();
    let mut read: usize = 0;
    while read < list.len()
        invariant
            batch_in(json(*value)) == all_in(items, event_reader()),
            items == jsons(list@),
            read <= list.len(),
            events@.len() == read,
            forall|i: int| 0 <= i < read ==> event_in(#[trigger] items[i]) == Some(events@[i]@),
        decreases list.len() - read,
    {
        match decode_event(&list[read]) {
            Some(event) => {
                events.push(event);
            },
            None => {
                assert(event_reader()(items[read as int]) is None);
                return None;
            },
        }
        read = read + 1;
    }
    assert(all_in(items, event_reader()) == Some(events_view(events@))) by {
        assert forall|i: int| 0 <= i < items.len() implies event_reader()(#[trigger] items[i])
            is Some by {}
        assert(all_in(items, event_reader())->0 =~= events_view(events@));
    }
    Some(PollEventQueue { events })
}

/// The registration that `tree` describes: an object that holds the name of
/// the queue and the cursor from which it starts.
pub open spec fn registration_in(tree: Json) -> Option<RegistrationView> {
    match (integer_member(tree, "last_event_id"@), text_member(tree, "queue_id"@)) {
        (Some(last_event_id), Some(queue_id)) => Some(
            RegistrationView { last_event_id: last_event_id as int, queue_id },
        ),
        _ => None,
    }
}

/// Reads a registration.
pub fn decode_registration(value: &serde_json::Value) -> (registration: Option<
    RegisterEventQueue,
>)
    ensures
        viewed(registration) == registration_in(json(*value)),
{
    let last_event_id = match integer_at(value, "last_event_id") {
        Some(last_event_id) => last_event_id,
        None => {
            return None;
        },
    };
    let queue_id = match text_at(value, "queue_id") {
        Some(queue_id) => queue_id,
        None => {
            return None;
        },
    };
    Some(RegisterEventQueue { last_event_id, queue_id: EventQueueId(queue_id) })
}

/// The kinds of answer.
#[derive(Debug, Clone, Copy, PartialEq, Eq, Structural)]
pub enum AnswerKind {
    Success,
    Error,
}

/// The kind of answer that `tree` is: what its member `result` names.
pub open spec fn answer_kind_in(tree: Json) -> Option<AnswerKind> {
    match text_member(tree, "result"@) {
        Some(result) => if result == "success"@ {
            Some(AnswerKind::Success)
        } else if result == "error"@ {
            Some(AnswerKind::Error)
        } else {
            None
        },
        None => None,
    }
}

/// The answer that `tree` is, where `content` is what it holds if it is a
/// success: the success with its content, or the error, which is the whole
/// tree.
pub open spec fn answer_in<T>(tree: Json, content: Option<T>) -> Option<ApiResultView<T>> {
    match answer_kind_in(tree) {
        Some(AnswerKind::Success) => match content {
            Some(content) => Some(ApiResultView::Success(content)),
            None => None,
        },
        Some(AnswerKind::Error) => Some(ApiResultView::Error(tree)),
        None => None,
    }
}

fn answer_kind(value: &serde_json::Value) -> (kind: Option<AnswerKind>)
    ensures
        kind == answer_kind_in(json(*value)),
{
    match text_at(value, "result") {
        Some(result) => if same_text(result.as_str(), "success") {
            Some(AnswerKind::Success)
        } else if same_text(result.as_str(), "error") {
            Some(AnswerKind::Error)
        } else {
            None
        },
        None => None,
    }
}

/// What is said of a body that cannot be read.
pub open spec fn undecodable(body: Seq<char>) -> Seq<char> {
    "undecodable response: "@ + body
}

fn unreadable(body: &str) -> (error: TransportError)
    ensures
        error@ == undecodable(body@),
{
    let mut message = String::from_str("undecodable response: ");
    message.append(body);
    TransportError { message }
}

/// What the body of the answer to a registration reads as.
pub open spec fn registration_reply_in(body: Seq<char>) -> Result<
    ApiResultView<RegistrationView>,
    Seq<char>,
> {
    match json_of(body) {
        Some(tree) => match answer_in(tree, registration_in(tree)) {
            Some(answer) => Ok(answer),
            None => Err(undecodable(body)),
        },
        None => Err(undecodable(body)),
    }
}

/// What the body of the answer to a poll reads as.
pub open spec fn poll_reply_in(body: Seq<char>) -> Result<ApiResultView<Seq<EventView>>, Seq<char>> {
    match json_of(body) {
        Some(tree) => match answer_in(tree, batch_in(tree)) {
            Some(answer) => Ok(answer),
            None => Err(undecodable(body)),
        },
        None => Err(undecodable(body)),
    }
}

/// Reads the body of the answer to a registration.
pub fn decode_registration_reply(body: &str) -> (reply: Reply<RegisterEventQueue>)
    ensures
        reply_view(reply) == registration_reply_in(body@),
{
    let value = match parse(body) {
        Ok(value) => value,
        Err(_) => {
            return Err(unreadable(body));
        },
    };
    match answer_kind(&value) {
        Some(AnswerKind::Success) => match decode_registration(&value) {
            Some(registration) => Ok(ApiResult::Success(registration)),
            None => Err(unreadable(body)),
        },
        Some(AnswerKind::Error) => Ok(ApiResult::Error(ApiErrorPayload(value))),
        None => Err(unreadable(body)),
    }
}

/// Reads the body of the answer to a poll.
pub fn decode_poll_reply(body: &str) -> (reply: Reply<PollEventQueue>)
    ensures
        reply_view(reply) == poll_reply_in(body@),
{
    let value = match parse(body) {
        Ok(value) => value,
        Err(_) => {
            return Err(unreadable(body));
        },
    };
    match answer_kind(&value) {
        Some(AnswerKind::Success) => match decode_batch(&value) {
            Some(batch) => Ok(ApiResult::Success(batch)),
            None => Err(unreadable(body)),
        },
        Some(AnswerKind::Error) => Ok(ApiResult::Error(ApiErrorPayload(value))),
        None => Err(unreadable(body)),
    }
}

/// The site that `tree` describes: an object that holds the name of the
/// site, the user that signs in, and the user's token.
pub open spec fn site_in(tree: Json) -> Option<SiteView> {
    match (text_member(tree, "name"@), text_member(tree, "user"@), text_member(tree, "token"@)) {
        (Some(name), Some(user), Some(token)) => Some(SiteView { name, user, token }),
        _ => None,
    }
}

/// Reads [`site_in`].
pub open spec fn site_reader() -> spec_fn(Json) -> Option<SiteView> {
    |tree: Json| site_in(tree)
}

/// The configuration that `text` writes down: a JSON object that holds the
/// list of sites.
pub open spec fn config_in(text: Seq<char>) -> Option<Seq<SiteView>> {
    match json_of(text) {
        Some(tree) => match member_of(tree, "sites"@) {
            Some(sites) => match items_of(sites) {
                Some(items) => all_in(items, site_reader()),
                None => None,
            },
            None => None,
        },
        None => None,
    }
}

fn decode_site(value: &serde_json::Value) -> (site: Option<ZulipSite>)
    ensures
        viewed(site) == site_in(json(*value)),
{
    let name = match text_at(value, "name") {
        Some(name) => name,
        None => {
            return None;
        },
    };
    let user = match text_at(value, "user") {
        Some(user) => user,
        None => {
            return None;
        },
    };
    let token = match text_at(value, "token") {
        Some(token) => token,
        None => {
            return None;
        },
    };
    Some(ZulipSite { name, user, token })
}

/// Reads the configuration: the sites to watch, in the order in which the
/// text lists them, or `None` where the text is no such list.
pub fn decode_config(text: &str) -> (config: Option<Config>)
    ensures
        viewed(config) == config_in(text@),
{
    let value = match parse(text) {
        Ok(value) => value,
        Err(_) => {
            return None;
        },
    };
    let list = match member(&value, "sites") {
        Some(sites) => match sites.as_array() {
            Some(list) => list,
            None => {
                return None;
            },
        },
        None => {
            return None;
        },
    };
    let ghost items = jsons(list@);
    let mut sites: Vec<ZulipSite> = Vec::new();
    let mut read: usize = 0;
    while read < list.len()
        invariant
            config_in(text@) == all_in(items, site_reader()),
            items == jsons(list@),
            read <= list.len(),
            sites@.len() == read,
            forall|i: int| 0 <= i < read ==> site_in(#[trigger] items[i]) == Some(sites@[i]@),
        decreases list.len() - read,
    {
        match decode_site(&list[read]) {
            Some(site) => {
                sites.push(site);
            },
            None => {
                assert(site_reader()(items[read as int]) is None);
                return None;
            },
        }
        read = read + 1;
    }
    assert(all_in(items, site_reader()) == Some(sites_view(sites@))) by {
        assert forall|i: int| 0 <= i < items.len() implies site_reader()(#[trigger] items[i])
            is Some by {}
        assert(all_in(items, site_reader())->0 =~= sites_view(sites@));
    }
    Some(Config { sites })
}

} // verus!
