//! What is shown for an event: a line on the console for every message, and
//! a notification for the important ones.

use vstd::prelude::*;
use vstd::string::*;

use crate::event::{instant_of, Event, EventType, EventTypeView, EventView};
use crate::message::{
    header_text, important, is_important, message_text, Message, MessageView, ZoneOffset,
};
use crate::text::{append_padded, padded};

verus! {

/// Something to show.  Whoever owns the console and the desktop shows it.
#[derive(Debug, PartialEq, Eq)]
pub enum Output {
    /// A line for the console.
    Console(String),
    /// A notification for the desktop.
    Notify { summary: String, body: String },
}

/// An [`Output`], as text.
pub enum OutputView {
    Console(Seq<char>),
    Notify { summary: Seq<char>, body: Seq<char> },
}

impl View for Output {
    type V = OutputView;

    open spec fn view(&self) -> OutputView {
        match self {
            Output::Console(line) => OutputView::Console(line@),
            Output::Notify { summary, body } => OutputView::Notify {
                summary: summary@,
                body: body@,
            },
        }
    }
}

/// The views of a list of outputs.
pub open spec fn outputs_view(outputs: Seq<Output>) -> Seq<OutputView> {
    outputs.map_values(|output: Output| output@)
}

/// The width of the column that holds the site's name in a console line.
pub const SITE_COLUMN: usize = 20;

/// The console line for a message, for a reader whose time zone is
/// `offset` seconds ahead of Greenwich when the message is sent: an
/// exclamation mark if the message is important and a space if not, the
/// site's name in a column of [`SITE_COLUMN`] characters, and the message as
/// shown, with single spaces between the three.
pub open spec fn console_line(
    site: Seq<char>,
    marked: bool,
    message: MessageView,
    offset: int,
) -> Seq<char> {
    (if marked {
        "!"@
    } else {
        " "@
    }) + " "@ + padded(site, SITE_COLUMN as nat) + " "@ + message_text(message, offset)
}

/// The summary of the notification for a message: the site's name, a space,
/// and the header of the message.
pub open spec fn notice_summary(site: Seq<char>, message: MessageView, offset: int) -> Seq<char> {
    site + " "@ + header_text(message, offset)
}

/// What is shown for one event of the site called `site` to a reader whose
/// time zone is `offset` seconds ahead of Greenwich.  A heartbeat shows
/// nothing.  A message shows its console line, and an important one a
/// notification after it.  An event of an unknown kind shows a remark.  The
/// offset makes a difference to messages alone.
pub open spec fn event_outputs(site: Seq<char>, event: EventView, offset: int) -> Seq<OutputView> {
    match event.rest {
        EventTypeView::Heartbeat => Seq::empty(),
        EventTypeView::Message { flags, message } => if important(flags.to_set()) {
            seq![
                OutputView::Console(console_line(site, true, message, offset)),
                OutputView::Notify {
                    summary: notice_summary(site, message, offset),
                    body: message.content,
                },
            ]
        } else {
            seq![OutputView::Console(console_line(site, false, message, offset))]
        },
        EventTypeView::Other => seq![OutputView::Console("unknown event"@)],
    }
}

/// The offset makes a difference to messages alone: an event that has no
/// [instant](instant_of) is shown alike to every reader.
pub proof fn offset_matters_to_messages_alone(
    site: Seq<char>,
    event: EventView,
    here: int,
    there: int,
)
    requires
        instant_of(event) is None,
    ensures
        event_outputs(site, event, here) == event_outputs(site, event, there),
{
}

fn message_line(site: &str, marked: bool, message: &Message, offset: ZoneOffset) -> (line: String)
    ensures
        line@ == console_line(site@, marked, message@, offset@),
{
    let mut line = String::from_str(
        if marked {
            "!"
        } else {
            " "
        },
    );
    line.append(" ");
    append_padded(&mut line, site, SITE_COLUMN);
    line.append(" ");
    let shown = message.to_text(offset);
    line.append(shown.as_str());
    line
}

fn message_notice(site: &str, message: &Message, offset: ZoneOffset) -> (notice: Output)
    ensures
        notice@ == (OutputView::Notify {
            summary: notice_summary(site@, message@, offset@),
            body: message@.content,
        }),
{
    let mut summary = String::from_str(site);
    summary.append(" ");
    let header = message.header(offset);
    summary.append(header.as_str());
    Output::Notify { summary, body: message.content.clone() }
}

/// Appends to `outputs` what is shown for `event`, an event of the site
/// called `site`, to a reader whose time zone is `offset` ahead of Greenwich
/// at the [instant](Event::instant) of the event.
pub fn dispatch(site: &str, event: &Event, offset: ZoneOffset, outputs: &mut Vec<Output>)
    ensures
        outputs_view(final(outputs)@) == outputs_view(old(outputs)@) + event_outputs(
            site@,
            event@,
            offset@,
        ),
{
    let ghost before = outputs@;
    match &event.rest {
        EventType::Heartbeat => {
            assert(outputs_view(outputs@) =~= outputs_view(before) + event_outputs(
                site@,
                event@,
                offset@,
            ));
        },
        EventType::Message { flags, message } => {
            let marked = is_important(flags);
            outputs.push(Output::Console(message_line(site, marked, message, offset)));
            if marked {
                outputs.push(message_notice(site, message, offset));
            }
            assert(outputs_view(outputs@) =~= outputs_view(before) + event_outputs(
                site@,
                event@,
                offset@,
            ));
        },
        EventType::Other => {
            outputs.push(Output::Console(String::from_str("unknown event")));
            assert(outputs_view(outputs@) =~= outputs_view(before) + event_outputs(
                site@,
                event@,
                offset@,
            ));
        },
    }
}

} // verus!
