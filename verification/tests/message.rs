use chrono::{Offset, TimeZone};
use zulip_watch::message::{
    is_important, Message, MessageFlag, MessageRecipients, MessageType, Timestamp, User,
    ZoneOffset, FIRST_SECOND, LAST_SECOND,
};

fn user(name: &str) -> User {
    User { full_name: name.to_string() }
}

fn at(seconds: i64) -> Timestamp {
    Timestamp::from_seconds(seconds).unwrap()
}

fn ahead(seconds: i32) -> ZoneOffset {
    ZoneOffset::from_seconds(seconds).unwrap()
}

fn stream_message() -> Message {
    Message {
        content: "hello there".to_string(),
        display_recipient: MessageRecipients::Stream("general".to_string()),
        sender_full_name: "Alice".to_string(),
        timestamp: at(1_600_000_000),
        type_: "stream".to_string(),
    }
}

fn names(list: &[&str]) -> Vec<String> {
    list.iter().map(|name| name.to_string()).collect()
}

#[test]
fn only_read_is_not_important() {
    assert!(!is_important(&vec![MessageFlag::Read]));
}

#[test]
fn read_and_mentioned_is_important() {
    assert!(is_important(&vec![MessageFlag::Read, MessageFlag::Mentioned]));
}

#[test]
fn no_flags_is_not_important() {
    assert!(!is_important(&vec![]));
}

#[test]
fn an_alert_word_is_important() {
    assert!(is_important(&vec![MessageFlag::HasAlertWord]));
    assert!(is_important(&vec![MessageFlag::HasAlertWord, MessageFlag::Mentioned]));
}

#[test]
fn order_and_repetition_of_flags_make_no_difference() {
    assert!(is_important(&vec![MessageFlag::Mentioned, MessageFlag::Read]));
    assert!(is_important(&vec![MessageFlag::Read, MessageFlag::Read, MessageFlag::Mentioned]));
    assert!(!is_important(&vec![MessageFlag::Read, MessageFlag::Read]));
}

#[test]
fn flags_are_known_by_their_names() {
    assert_eq!(MessageFlag::from_name("read"), Some(MessageFlag::Read));
    assert_eq!(MessageFlag::from_name("mentioned"), Some(MessageFlag::Mentioned));
    assert_eq!(MessageFlag::from_name("has_alert_word"), Some(MessageFlag::HasAlertWord));
}

#[test]
fn other_names_are_no_flags() {
    assert_eq!(MessageFlag::from_name("starred"), None);
    assert_eq!(MessageFlag::from_name("Mentioned"), None);
    assert_eq!(MessageFlag::from_name("wildcard_mentioned"), None);
    assert_eq!(MessageFlag::from_name(""), None);
}

#[test]
fn unknown_flag_names_are_passed_over() {
    assert_eq!(
        MessageFlag::from_names(&names(&["read", "starred", "mentioned", "historical"])),
        vec![MessageFlag::Read, MessageFlag::Mentioned]
    );
    assert_eq!(MessageFlag::from_names(&names(&["starred"])), vec![]);
    assert_eq!(MessageFlag::from_names(&names(&[])), vec![]);
}

#[test]
fn known_flag_names_keep_their_order() {
    assert_eq!(
        MessageFlag::from_names(&names(&["has_alert_word", "read", "has_alert_word"])),
        vec![MessageFlag::HasAlertWord, MessageFlag::Read, MessageFlag::HasAlertWord]
    );
}

#[test]
fn unknown_flags_do_not_make_a_message_important() {
    assert!(!is_important(&MessageFlag::from_names(&names(&["read", "wildcard_mentioned"]))));
    assert!(is_important(&MessageFlag::from_names(&names(&["starred", "mentioned"]))));
}

#[test]
fn a_user_is_shown_behind_an_at_sign() {
    assert_eq!(user("Alice Smith").to_text(), "@Alice Smith");
    assert_eq!(user("").to_text(), "@");
}

#[test]
fn a_stream_is_shown_behind_a_hash_sign() {
    assert_eq!(MessageRecipients::Stream("general".to_string()).to_text(), "#general");
}

#[test]
fn users_are_shown_with_commas_between_them() {
    assert_eq!(MessageRecipients::Users(vec![user("A"), user("B")]).to_text(), "@A,@B");
    assert_eq!(
        MessageRecipients::Users(vec![user("A"), user("B"), user("C D")]).to_text(),
        "@A,@B,@C D"
    );
}

#[test]
fn one_user_is_shown_without_a_comma() {
    assert_eq!(MessageRecipients::Users(vec![user("A")]).to_text(), "@A");
}

#[test]
fn no_users_are_shown_as_a_placeholder() {
    assert_eq!(MessageRecipients::Users(vec![]).to_text(), "<no users>");
}

#[test]
fn header_of_a_stream_message() {
    assert_eq!(stream_message().header(ZoneOffset::utc()), "[12:26:40] @Alice -> #general");
}

#[test]
fn header_shows_the_time_at_the_offset() {
    assert_eq!(stream_message().header(ahead(7_200)), "[14:26:40] @Alice -> #general");
    assert_eq!(stream_message().header(ahead(-34_200)), "[02:56:40] @Alice -> #general");
}

#[test]
fn header_of_a_private_message() {
    let message = Message {
        content: "psst".to_string(),
        display_recipient: MessageRecipients::Users(vec![user("Alice"), user("Bob")]),
        sender_full_name: "Bob".to_string(),
        timestamp: at(1),
        type_: "private".to_string(),
    };
    assert_eq!(message.header(ZoneOffset::utc()), "[00:00:01] @Bob -> @Alice,@Bob");
}

#[test]
fn a_message_is_shown_as_header_and_content() {
    assert_eq!(
        stream_message().to_text(ZoneOffset::utc()),
        "[12:26:40] @Alice -> #general: hello there"
    );
    assert_eq!(
        stream_message().to_text(ahead(3_600)),
        "[13:26:40] @Alice -> #general: hello there"
    );
}

#[test]
fn a_message_without_content_keeps_the_colon() {
    let mut message = stream_message();
    message.content = String::new();
    assert_eq!(message.to_text(ZoneOffset::utc()), "[12:26:40] @Alice -> #general: ");
}

#[test]
fn the_kind_of_a_message_is_known_by_its_name() {
    assert_eq!(MessageType::from_name("stream"), Some(MessageType::Stream));
    assert_eq!(MessageType::from_name("private"), Some(MessageType::Private));
    assert_eq!(MessageType::from_name("huddle"), None);
    assert_eq!(stream_message().kind(), Some(MessageType::Stream));
}

#[test]
fn a_timestamp_keeps_its_seconds() {
    assert_eq!(at(1_600_000_000).seconds(), 1_600_000_000);
    assert_eq!(at(-5).seconds(), -5);
}

#[test]
fn the_clock_at_greenwich() {
    assert_eq!(at(0).clock(ZoneOffset::utc()), "00:00:00");
    assert_eq!(at(59).clock(ZoneOffset::utc()), "00:00:59");
    assert_eq!(at(3_600).clock(ZoneOffset::utc()), "01:00:00");
    assert_eq!(at(86_399).clock(ZoneOffset::utc()), "23:59:59");
    assert_eq!(at(86_400).clock(ZoneOffset::utc()), "00:00:00");
    assert_eq!(at(1_600_000_000).clock(ZoneOffset::utc()), "12:26:40");
}

#[test]
fn the_clock_before_the_epoch_counts_from_midnight() {
    assert_eq!(at(-1).clock(ZoneOffset::utc()), "23:59:59");
    assert_eq!(at(-86_400).clock(ZoneOffset::utc()), "00:00:00");
}

#[test]
fn the_clock_ahead_of_and_behind_greenwich() {
    assert_eq!(at(1_600_000_000).clock(ahead(7_200)), "14:26:40");
    assert_eq!(at(1_600_000_000).clock(ahead(-34_200)), "02:56:40");
    assert_eq!(at(0).clock(ahead(-1)), "23:59:59");
}

#[test]
fn the_clock_at_the_greatest_offsets_starts_again_at_midnight() {
    assert_eq!(at(1_600_000_000).clock(ahead(86_399)), "12:26:39");
    assert_eq!(at(1_600_000_000).clock(ahead(-86_399)), "12:26:41");
}

#[test]
fn the_clock_is_hours_minutes_and_seconds_of_the_shifted_second() {
    for seconds in [
        0i64,
        -1,
        86_399,
        -86_401,
        951_782_400,
        1_600_000_000,
        4_102_444_799,
        FIRST_SECOND,
        LAST_SECOND,
    ] {
        for offset in [0i32, 1, -1, 3_600, -18_000, 20_700, 45_900, 86_399, -86_399] {
            let second = (seconds + i64::from(offset)).rem_euclid(86_400);
            assert_eq!(
                at(seconds).clock(ahead(offset)),
                format!("{:02}:{:02}:{:02}", second / 3_600, second / 60 % 60, second % 60)
            );
        }
    }
}

#[test]
fn the_clock_at_the_local_offset_is_local_time() {
    for seconds in [0i64, 1_600_000_000, 1_700_000_123, -86_400] {
        let instant = chrono::DateTime::from_timestamp(seconds, 0).unwrap();
        let local = instant.with_timezone(&chrono::Local);
        let offset = chrono::Local.offset_from_utc_datetime(&instant.naive_utc()).fix();
        assert_eq!(
            at(seconds).clock(ahead(offset.local_minus_utc())),
            local.time().to_string()
        );
    }
}

#[test]
fn the_clock_is_not_the_number_of_seconds() {
    assert_ne!(at(1_600_000_000).clock(ZoneOffset::utc()), "1600000000");
    assert_ne!(
        at(1_600_000_000).clock(ZoneOffset::utc()),
        at(1_600_000_001).clock(ZoneOffset::utc())
    );
}

#[test]
fn the_calendar_ends_where_chrono_says() {
    assert_eq!(chrono::DateTime::<chrono::Utc>::MIN_UTC.timestamp(), FIRST_SECOND);
    assert_eq!(chrono::DateTime::<chrono::Utc>::MAX_UTC.timestamp(), LAST_SECOND);
}

#[test]
fn a_timestamp_on_the_calendar_is_accepted() {
    assert!(Timestamp::from_seconds(FIRST_SECOND).is_some());
    assert!(Timestamp::from_seconds(LAST_SECOND).is_some());
    assert!(Timestamp::from_seconds(-1).is_some());
}

#[test]
fn a_timestamp_off_the_calendar_is_refused() {
    assert_eq!(Timestamp::from_seconds(FIRST_SECOND - 1), None);
    assert_eq!(Timestamp::from_seconds(LAST_SECOND + 1), None);
    assert_eq!(Timestamp::from_seconds(i64::MIN), None);
    assert_eq!(Timestamp::from_seconds(i64::MAX), None);
}

#[test]
fn an_offset_under_a_day_is_accepted() {
    assert_eq!(ahead(0), ZoneOffset::utc());
    assert_eq!(ahead(3_600).seconds(), 3_600);
    assert_eq!(ahead(-86_399).seconds(), -86_399);
    assert_eq!(ahead(86_399).seconds(), 86_399);
    assert_eq!(ZoneOffset::utc().seconds(), 0);
}

#[test]
fn an_offset_of_a_day_or_more_is_refused() {
    assert_eq!(ZoneOffset::from_seconds(86_400), None);
    assert_eq!(ZoneOffset::from_seconds(-86_400), None);
    assert_eq!(ZoneOffset::from_seconds(i32::MAX), None);
    assert_eq!(ZoneOffset::from_seconds(i32::MIN), None);
}

#[test]
fn offsets_are_those_that_chrono_takes() {
    for seconds in [0, 1, -1, 86_399, 86_400, -86_399, -86_400, i32::MAX, i32::MIN] {
        assert_eq!(
            ZoneOffset::from_seconds(seconds).is_some(),
            chrono::FixedOffset::east_opt(seconds).is_some()
        );
    }
}
