//! Chat messages: who wrote to whom and when, which flags the service put on
//! them, and how they are shown.

use vstd::prelude::*;
use vstd::string::*;

use crate::text::{digit, same_text};

verus! {

/// The first second that chrono's calendar reaches: the first second of
/// the year -262143, which is `DateTime::<Utc>::MIN_UTC`.
pub const FIRST_SECOND: i64 = -8_334_601_228_800;

/// The last second that chrono's calendar reaches: the last second of the
/// year 262142, in which `DateTime::<Utc>::MAX_UTC` lies.
pub const LAST_SECOND: i64 = 8_210_266_876_799;

/// Whether chrono's calendar reaches the instant `seconds` after the Unix
/// epoch.
pub open spec fn on_calendar(seconds: int) -> bool {
    FIRST_SECOND <= seconds <= LAST_SECOND
}

/// The two digits that write a number under a hundred.
pub open spec fn two_digits(n: int) -> Seq<char> {
    seq![digit(n / 10), digit(n % 10)]
}

/// The time of day at `second` seconds after midnight, as a clock shows it:
/// hours, minutes and seconds, two digits each, with colons between them.
pub open spec fn time_of_day(second: int) -> Seq<char> {
    two_digits(second / 3600) + seq![':'] + two_digits(second / 60 % 60) + seq![':'] + two_digits(
        second % 60,
    )
}

/// What a clock shows at the instant `seconds` after the Unix epoch in a
/// time zone that is `offset` seconds ahead of Greenwich.
pub open spec fn clock_at(seconds: int, offset: int) -> Seq<char> {
    time_of_day((seconds + offset) % 86_400)
}

/// Whether a time zone can be `offset` seconds ahead of Greenwich: no time
/// zone is a day or more away from it.
pub open spec fn is_zone_offset(offset: int) -> bool {
    -86_400 < offset < 86_400
}

/// Asks chrono for the time of day at the instant `seconds` after the Unix
/// epoch in a time zone that is `offset` seconds ahead of Greenwich:
/// `DateTime::from_timestamp`, `FixedOffset::east_opt`, then
/// `DateTime::with_timezone`, `DateTime::time` and the `Display` of
/// `NaiveTime`.
///
/// `DateTime::from_timestamp` returns `None` for a number of seconds that is
/// out of range, and its range is that of chrono's dates, the years -262143
/// to 262142.  `FixedOffset::east_opt` returns `None` for an offset of a day
/// or more.  The contract says that there is an answer for exactly the other
/// instants and offsets.  `DateTime::time` adds the offset to the time of
/// day at Greenwich and starts again at midnight, and `NaiveTime` is shown
/// as hours, minutes and seconds of two digits each: the contract says that
/// the answer is that text.
#[verifier::external_body]
fn clock_text_at(seconds: i64, offset: i32) -> (clock: Option<String>)
    ensures
        clock is Some <==> (on_calendar(seconds as int) && is_zone_offset(offset as int)),
        clock matches Some(text) ==> text@ == clock_at(seconds as int, offset as int),
{
    match (chrono::DateTime::from_timestamp(seconds, 0), chrono::FixedOffset::east_opt(offset)) {
        (Some(instant), Some(zone)) => Some(instant.with_timezone(&zone).time().to_string()),
        _ => None,
    }
}

/// How far a time zone is ahead of Greenwich at some instant, in seconds;
/// behind, where the number is negative.  It is always under a day.
#[derive(Debug, Clone, Copy, PartialEq, Eq)]
pub struct ZoneOffset {
    seconds: i32,
}

impl View for ZoneOffset {
    type V = int;

    closed spec fn view(&self) -> int {
        self.seconds as int
    }
}

impl ZoneOffset {
    #[verifier::type_invariant]
    spec fn under_a_day(self) -> bool {
        is_zone_offset(self.seconds as int)
    }

    /// The offset of `seconds` seconds; `None` where that is a day or more.
    pub fn from_seconds(seconds: i32) -> (offset: Option<ZoneOffset>)
        ensures
            offset is Some <==> is_zone_offset(seconds as int),
            offset matches Some(o) ==> o@ == seconds,
    {
        if -86_400 < seconds && seconds < 86_400 {
            Some(ZoneOffset { seconds })
        } else {
            None
        }
    }

    /// The offset of Greenwich itself.
    pub fn utc() -> (offset: ZoneOffset)
        ensures
            offset@ == 0,
    {
        ZoneOffset { seconds: 0 }
    }

    /// This offset in seconds.
    pub fn seconds(&self) -> (seconds: i32)
        ensures
            seconds == self@,
            is_zone_offset(seconds as int),
    {
        proof {
            use_type_invariant(self);
        }
        self.seconds
    }
}

/// An instant that the calendar reaches, to the second.
#[derive(Debug, Clone, Copy, PartialEq, Eq)]
pub struct Timestamp {
    seconds: i64,
}

impl View for Timestamp {
    type V = int;

    closed spec fn view(&self) -> int {
        self.seconds as int
    }
}

impl Timestamp {
    #[verifier::type_invariant]
    spec fn reached(self) -> bool {
        on_calendar(self.seconds as int)
    }

    /// The instant `seconds` after the Unix epoch; `None` where the calendar
    /// does not reach that instant.
    pub fn from_seconds(seconds: i64) -> (stamp: Option<Timestamp>)
        ensures
            stamp is Some <==> on_calendar(seconds as int),
            stamp matches Some(t) ==> t@ == seconds,
    {
        // The calendar is chrono's: it has a time of day at Greenwich for
        // exactly the instants that it reaches.
        match clock_text_at(seconds, 0) {
            Some(_) => Some(Timestamp { seconds }),
            None => None,
        }
    }

    /// Seconds since the Unix epoch.
    pub fn seconds(&self) -> (seconds: i64)
        ensures
            seconds == self@,
            on_calendar(seconds as int),
    {
        proof {
            use_type_invariant(self);
        }
        self.seconds
    }

    /// What a clock shows at this instant in a time zone that is `offset`
    /// ahead of Greenwich.
    pub fn clock(&self, offset: ZoneOffset) -> (text: String)
        ensures
            text@ == clock_at(self@, offset@),
    {
        proof {
            use_type_invariant(self);
            use_type_invariant(offset);
        }
        match clock_text_at(self.seconds, offset.seconds) {
            Some(text) => text,
            None => {
                assert(false);
                String::new()
            },
        }
    }
}

/// Someone a private message is addressed to.
#[derive(Debug, PartialEq, Eq)]
pub struct User {
    pub full_name: String,
}

impl View for User {
    type V = Seq<char>;

    open spec fn view(&self) -> Seq<char> {
        self.full_name@
    }
}

/// How a user is shown: an at sign, then the full name.
pub open spec fn user_text(full_name: Seq<char>) -> Seq<char> {
    "@"@ + full_name
}

/// How a non-empty list of users is shown: each as [`user_text`] shows it,
/// with commas between them.
pub open spec fn users_text(names: Seq<Seq<char>>) -> Seq<char>
    decreases names.len(),
{
    if names.len() == 0 {
        Seq::empty()
    } else if names.len() == 1 {
        user_text(names[0])
    } else {
        users_text(names.drop_last()) + ","@ + user_text(names.last())
    }
}

impl User {
    /// This user as shown: an at sign, then the full name.
    pub fn to_text(&self) -> (text: String)
        ensures
            text@ == user_text(self@),
    {
        let mut text = String::from_str("@");
        text.append(self.full_name.as_str());
        text
    }
}

/// Where a message went: into a stream, or to a list of users.
#[derive(Debug, PartialEq, Eq)]
pub enum MessageRecipients {
    Stream(String),
    Users(Vec<User>),
}

/// [`MessageRecipients`], as text.
pub enum RecipientsView {
    Stream(Seq<char>),
    Users(Seq<Seq<char>>),
}

/// The full names of a list of users.
pub open spec fn user_names(users: Seq<User>) -> Seq<Seq<char>> {
    users.map_values(|user: User| user@)
}

impl View for MessageRecipients {
    type V = RecipientsView;

    open spec fn view(&self) -> RecipientsView {
        match self {
            MessageRecipients::Stream(stream) => RecipientsView::Stream(stream@),
            MessageRecipients::Users(users) => RecipientsView::Users(user_names(users@)),
        }
    }
}

/// How the recipients of a message are shown: a stream as a hash sign and
/// its name, users as [`users_text`] shows them, and no users at all as
/// `<no users>`.
pub open spec fn recipients_text(recipients: RecipientsView) -> Seq<char> {
    match recipients {
        RecipientsView::Stream(stream) => "#"@ + stream,
        RecipientsView::Users(names) => if names.len() == 0 {
            "<no users>"@
        } else {
            users_text(names)
        },
    }
}

impl MessageRecipients {
    /// These recipients as shown.
    pub fn to_text(&self) -> (text: String)
        ensures
            text@ == recipients_text(self@),
    {
        match self {
            MessageRecipients::Stream(stream) => {
                let mut text = String::from_str("#");
                text.append(stream.as_str());
                text
            },
            MessageRecipients::Users(users) => {
                if users.len() == 0 {
                    return String::from_str("<no users>");
                }
                let ghost names = user_names(users@);
                let mut text = users[0].to_text();
                let mut shown: usize = 1;
                assert(names.take(1) =~= seq![names[0]]);
                while shown < users.len()
                    invariant
                        names == user_names(users@),
                        1 <= shown <= users.len(),
                        text@ == users_text(names.take(shown as int)),
                    decreases users.len() - shown,
                {
                    text.append(",");
                    let next = users[shown].to_text();
                    text.append(next.as_str());
                    shown = shown + 1;
                    proof {
                        let ghost upto = names.take(shown as int);
                        assert(upto.drop_last() =~= names.take(shown - 1));
                        assert(upto.last() == users@[shown - 1]@);
                    }
                }
                assert(names.take(shown as int) =~= names);
                text
            },
        }
    }
}

/// A chat message.
#[derive(Debug, PartialEq, Eq)]
pub struct Message {
    pub content: String,
    pub display_recipient: MessageRecipients,
    pub sender_full_name: String,
    pub timestamp: Timestamp,
    /// `stream` or `private`.
    pub type_: String,
}

/// What a [`Message`] holds, as text.
pub struct MessageView {
    pub content: Seq<char>,
    pub display_recipient: RecipientsView,
    pub sender_full_name: Seq<char>,
    /// Seconds since the Unix epoch.
    pub timestamp: int,
    pub type_: Seq<char>,
}

impl View for Message {
    type V = MessageView;

    open spec fn view(&self) -> MessageView {
        MessageView {
            content: self.content@,
            display_recipient: self.display_recipient@,
            sender_full_name: self.sender_full_name@,
            timestamp: self.timestamp@,
            type_: self.type_@,
        }
    }
}

/// The header of a message for a reader whose time zone is `offset` seconds
/// ahead of Greenwich when the message is sent: the time of day in square
/// brackets, the sender behind an at sign, an arrow, and the recipients.
pub open spec fn header_text(message: MessageView, offset: int) -> Seq<char> {
    "["@ + clock_at(message.timestamp, offset) + "] @"@ + message.sender_full_name + " -> "@
        + recipients_text(message.display_recipient)
}

/// A message as shown to such a reader: its header, a colon and a space,
/// and what it says.
pub open spec fn message_text(message: MessageView, offset: int) -> Seq<char> {
    header_text(message, offset) + ": "@ + message.content
}

/// The kinds of message that the service knows.
#[derive(Debug, Clone, Copy, PartialEq, Eq, Structural)]
pub enum MessageType {
    Stream,
    Private,
}

/// The kind of message that the service calls `name`.
pub open spec fn message_type_named(name: Seq<char>) -> Option<MessageType> {
    if name == "stream"@ {
        Some(MessageType::Stream)
    } else if name == "private"@ {
        Some(MessageType::Private)
    } else {
        None
    }
}

impl MessageType {
    /// The kind of message that the service calls `name`, if it is one of
    /// the kinds known here.
    pub fn from_name(name: &str) -> (kind: Option<MessageType>)
        ensures
            kind == message_type_named(name@),
    {
        if same_text(name, "stream") {
            Some(MessageType::Stream)
        } else if same_text(name, "private") {
            Some(MessageType::Private)
        } else {
            None
        }
    }
}

impl Message {
    /// The header of this message for a reader whose time zone is `offset`
    /// ahead of Greenwich when the message is sent.
    pub fn header(&self, offset: ZoneOffset) -> (text: String)
        ensures
            text@ == header_text(self@, offset@),
    {
        let mut text = String::from_str("[");
        let clock = self.timestamp.clock(offset);
        text.append(clock.as_str());
        text.append("] @");
        text.append(self.sender_full_name.as_str());
        text.append(" -> ");
        let recipients = self.display_recipient.to_text();
        text.append(recipients.as_str());
        text
    }

    /// This message as shown to such a reader.
    pub fn to_text(&self, offset: ZoneOffset) -> (text: String)
        ensures
            text@ == message_text(self@, offset@),
    {
        let mut text = self.header(offset);
        text.append(": ");
        text.append(self.content.as_str());
        text
    }

    /// Whether this went into a stream or to users, as far as the service
    /// said so in a way known here.
    pub fn kind(&self) -> (kind: Option<MessageType>)
        ensures
            kind == message_type_named(self@.type_),
    {
        MessageType::from_name(self.type_.as_str())
    }
}

/// What the service says of a message from the point of view of the account
/// that reads it.
#[derive(Debug, Clone, Copy, PartialEq, Eq, Structural)]
pub enum MessageFlag {
    Read,
    Mentioned,
    HasAlertWord,
}

/// The flag that the service calls `name`.  The service has more flags than
/// are known here.
pub open spec fn flag_named(name: Seq<char>) -> Option<MessageFlag> {
    if name == "read"@ {
        Some(MessageFlag::Read)
    } else if name == "mentioned"@ {
        Some(MessageFlag::Mentioned)
    } else if name == "has_alert_word"@ {
        Some(MessageFlag::HasAlertWord)
    } else {
        None
    }
}

/// The known flags among `names`, in their order; unknown names are passed
/// over.
pub open spec fn flags_named(names: Seq<Seq<char>>) -> Seq<MessageFlag>
    decreases names.len(),
{
    if names.len() == 0 {
        Seq::empty()
    } else {
        match flag_named(names.last()) {
            Some(flag) => flags_named(names.drop_last()).push(flag),
            None => flags_named(names.drop_last()),
        }
    }
}

/// A name that is not the name of a known flag makes no difference to the
/// flags that a list of names gives.
pub proof fn unknown_flags_are_passed_over(names: Seq<Seq<char>>, name: Seq<char>)
    requires
        flag_named(name) is None,
    ensures
        flags_named(names.push(name)) == flags_named(names),
{
    assert(names.push(name).drop_last() =~= names);
}

/// The texts of a list of strings.
pub open spec fn texts(names: Seq<String>) -> Seq<Seq<char>> {
    names.map_values(|name: String| name@)
}

impl MessageFlag {
    /// The flag that the service calls `name`, if it is known here.
    pub fn from_name(name: &str) -> (flag: Option<MessageFlag>)
        ensures
            flag == flag_named(name@),
    {
        if same_text(name, "read") {
            Some(MessageFlag::Read)
        } else if same_text(name, "mentioned") {
            Some(MessageFlag::Mentioned)
        } else if same_text(name, "has_alert_word") {
            Some(MessageFlag::HasAlertWord)
        } else {
            None
        }
    }

    /// The known flags among `names`, in their order.  A name that is not
    /// known is passed over: it is no error.
    pub fn from_names(names: &Vec<String>) -> (flags: Vec<MessageFlag>)
        ensures
            flags@ == flags_named(texts(names@)),
    {
        let mut flags: Vec<MessageFlag> = Vec::new();
        let mut read: usize = 0;
        assert(texts(names@).take(0) =~= Seq::empty());
        while read < names.len()
            invariant
                read <= names.len(),
                flags@ == flags_named(texts(names@).take(read as int)),
            decreases names.len() - read,
        {
            let found = MessageFlag::from_name(names[read].as_str());
            proof {
                let ghost upto = texts(names@).take(read + 1);
                assert(upto.drop_last() =~= texts(names@).take(read as int));
                assert(upto.last() == names@[read as int]@);
            }
            match found {
                Some(flag) => {
                    flags.push(flag);
                },
                None => {},
            }
            read = read + 1;
        }
        assert(texts(names@).take(read as int) =~= texts(names@));
        flags
    }
}

/// Whether a set of flags marks a message as important: it holds
/// `Mentioned` or `HasAlertWord`.
pub open spec fn important(flags: Set<MessageFlag>) -> bool {
    flags.contains(MessageFlag::Mentioned) || flags.contains(MessageFlag::HasAlertWord)
}

/// The flag `Read` makes no difference to whether a message is important.
pub proof fn reading_changes_nothing(flags: Set<MessageFlag>)
    ensures
        important(flags.insert(MessageFlag::Read)) == important(flags),
        important(flags.remove(MessageFlag::Read)) == important(flags),
{
}

/// Whether a message with these flags is important: whether it mentions the
/// reader or holds one of the reader's alert words.  How often a flag
/// occurs, and in which order, makes no difference.
pub fn is_important(flags: &Vec<MessageFlag>) -> (verdict: bool)
    ensures
        verdict == important(flags@.to_set()),
{
    let mut seen: usize = 0;
    while seen < flags.len()
        invariant
            seen <= flags.len(),
            forall|i: int|
                0 <= i < seen ==> flags@[i] != MessageFlag::Mentioned && flags@[i]
                    != MessageFlag::HasAlertWord,
        decreases flags.len() - seen,
    {
        match flags[seen] {
            MessageFlag::Mentioned => {
                assert(flags@.contains(MessageFlag::Mentioned));
                return true;
            },
            MessageFlag::HasAlertWord => {
                assert(flags@.contains(MessageFlag::HasAlertWord));
                return true;
            },
            MessageFlag::Read => {},
        }
        seen = seen + 1;
    }
    false
}

} // verus!
