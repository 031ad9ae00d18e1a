//! Messages as the command line shows them.
use vstd::prelude::*;

use crate::appservice::CONTACT_SELF;
use crate::numbers::{decimal, digits};
use crate::protocol::{
    ask_delta, delta, listed, listed_as, ChatItem, ContactInfo, DeltaRequest, DownloadState, Listed,
    LoggedMessage, MessageState, Reply, ReplyModel, Step, StepModel, Value, VideochatInvitation,
};
use crate::task::{Task, TaskModel};
use crate::text::{join2, or_empty};

verus! {

/// The line between messages.
pub const RULE: &'static str =
    "--------------------------------------------------------------------------------\n";

/// How a message is shown.
#[derive(Debug, PartialEq, Eq)]
pub enum LogMsg<T = String> {
    Start { prefix: T, message: LoggedMessage },
    Known { prefix: T, message: LoggedMessage },
}

/// The same over mathematical text.
pub type LogMsgModel = LogMsg<Seq<char>>;

impl View for LogMsg {
    type V = LogMsgModel;

    open spec fn view(&self) -> LogMsgModel {
        match self {
            LogMsg::Start { prefix, message } => LogMsg::Start { prefix: prefix@, message: *message },
            LogMsg::Known { prefix, message } => LogMsg::Known { prefix: prefix@, message: *message },
        }
    }
}

/// How a list of messages is shown.
#[derive(Debug, PartialEq, Eq)]
pub enum Journal<T = String> {
    Start { list: Vec<ChatItem> },
    Loaded { list: Vec<ChatItem>, at: usize, text: T },
    Shown { list: Vec<ChatItem>, at: usize, text: T },
}

/// The same over mathematical text.
pub type JournalModel = Journal<Seq<char>>;

impl View for Journal {
    type V = JournalModel;

    open spec fn view(&self) -> JournalModel {
        match self {
            Journal::Start { list } => Journal::Start { list: *list },
            Journal::Loaded { list, at, text } => Journal::Loaded { list: *list, at: *at, text: text@ },
            Journal::Shown { list, at, text } => Journal::Shown { list: *list, at: *at, text: text@ },
        }
    }
}

/// A text that stands there only under a condition.
pub open spec fn only_if(condition: bool, text: Seq<char>) -> Seq<char> {
    if condition {
        text
    } else {
        ""@
    }
}

/// The text if the condition holds, else the empty one.
pub(crate) fn text_if(condition: bool, text: &'static str) -> (r: &'static str)
    ensures
        r@ == only_if(condition, text@),
{
    if condition {
        text
    } else {
        ""
    }
}

/// How far an outgoing message has got, as it is shown.
pub open spec fn state_mark(state: MessageState) -> Seq<char> {
    match state {
        MessageState::OutPending => " o"@,
        MessageState::OutDelivered => " √"@,
        MessageState::OutMdnRcvd => " √√"@,
        MessageState::OutFailed => " !!"@,
        _ => ""@,
    }
}

/// Shows how far an outgoing message has got.
pub(crate) fn show_state(state: MessageState) -> (r: &'static str)
    ensures
        r@ == state_mark(state),
{
    match state {
        MessageState::OutPending => " o",
        MessageState::OutDelivered => " √",
        MessageState::OutMdnRcvd => " √√",
        MessageState::OutFailed => " !!",
        _ => "",
    }
}

/// How far the download of a message has got, as it is shown.
pub open spec fn download_mark(state: DownloadState) -> Seq<char> {
    match state {
        DownloadState::Done => ""@,
        DownloadState::Available => " [⬇ Download available]"@,
        DownloadState::InProgress => " [⬇ Download in progress...]\u{fe0f}"@,
        DownloadState::Failure => " [⬇ Download failed]"@,
    }
}

fn show_download(state: DownloadState) -> (r: &'static str)
    ensures
        r@ == download_mark(state),
{
    match state {
        DownloadState::Done => "",
        DownloadState::Available => " [⬇ Download available]",
        DownloadState::InProgress => " [⬇ Download in progress...]\u{fe0f}",
        DownloadState::Failure => " [⬇ Download failed]",
    }
}

/// Whether a message was looked at, as it is shown; nothing for one's own messages.
pub open spec fn seen_mark(from_id: u32, state: MessageState) -> Seq<char> {
    if from_id == CONTACT_SELF {
        ""@
    } else {
        match state {
            MessageState::InSeen => "[SEEN]"@,
            MessageState::InNoticed => "[NOTICED]"@,
            _ => "[FRESH]"@,
        }
    }
}

fn show_seen(from_id: u32, state: MessageState) -> (r: &'static str)
    ensures
        r@ == seen_mark(from_id, state),
{
    if from_id == CONTACT_SELF {
        ""
    } else {
        match state {
            MessageState::InSeen => "[SEEN]",
            MessageState::InNoticed => "[NOTICED]",
            _ => "[FRESH]",
        }
    }
}

/// The author of a message, as it is shown.
pub open spec fn author(message: LoggedMessage, contact: ContactInfo) -> Seq<char> {
    match message.override_name {
        Some(name) => "~"@ + name@,
        None => contact.display_name@,
    }
}

fn show_author(message: &LoggedMessage, contact: &ContactInfo) -> (r: String)
    ensures
        r@ == author(*message, *contact),
{
    match &message.override_name {
        Some(name) => join2("~", name.as_str()),
        None => contact.display_name.clone(),
    }
}

/// An invitation to a video chat, as it is shown.
pub open spec fn invitation(videochat: Option<VideochatInvitation>) -> Seq<char> {
    match videochat {
        Some(v) => "[VIDEOCHAT-INVITATION: "@ + or_empty(v.url) + ", type="@ + v.kind@ + "]"@,
        None => ""@,
    }
}

fn show_invitation(videochat: &Option<VideochatInvitation>) -> (r: String)
    ensures
        r@ == invitation(*videochat),
{
    match videochat {
        Some(v) => {
            let mut r: String = "[VIDEOCHAT-INVITATION: ".to_owned();
            match &v.url {
                Some(url) => r.append(url.as_str()),
                None => r.append(""),
            }
            r.append(", type=");
            r.append(v.kind.as_str());
            r.append("]");
            r
        },
        None => "".to_owned(),
    }
}

/// The line that shows a message.
pub open spec fn message_line(
    prefix: Seq<char>,
    message: LoggedMessage,
    contact: ContactInfo,
) -> Seq<char> {
    prefix + message.label@ + only_if(message.padlock, "🔒"@) + only_if(message.location, "📍"@)
        + ": "@ + author(message, contact) + " (Contact#"@ + digits(contact.id as nat) + "): "@
        + or_empty(message.text) + " "@ + only_if(message.html, "[HAS-HTML]\u{fe0f}"@) + seen_mark(
        message.from_id,
        message.state,
    ) + only_if(message.info, "[INFO]"@) + invitation(message.videochat) + only_if(
        message.forwarded,
        "[FORWARDED]"@,
    ) + state_mark(message.state) + download_mark(message.download) + " ["@ + message.time@
        + "]\n"@
}

/// Writes the line that shows a message.
pub fn show_message(prefix: &str, message: &LoggedMessage, contact: &ContactInfo) -> (r: String)
    ensures
        r@ == message_line(prefix@, *message, *contact),
{
    let mut r: String = prefix.to_owned();
    r.append(message.label.as_str());
    r.append(text_if(message.padlock, "🔒"));
    r.append(text_if(message.location, "📍"));
    r.append(": ");
    r.append(show_author(message, contact).as_str());
    r.append(" (Contact#");
    r.append(decimal(contact.id as u64).as_str());
    r.append("): ");
    match &message.text {
        Some(text) => r.append(text.as_str()),
        None => r.append(""),
    }
    r.append(" ");
    r.append(text_if(message.html, "[HAS-HTML]\u{fe0f}"));
    r.append(show_seen(message.from_id, message.state));
    r.append(text_if(message.info, "[INFO]"));
    r.append(show_invitation(&message.videochat).as_str());
    r.append(text_if(message.forwarded, "[FORWARDED]"));
    r.append(show_state(message.state));
    r.append(show_download(message.download));
    r.append(" [");
    r.append(message.time.as_str());
    r.append("]\n");
    r
}

/// How a message is shown: its author is looked up, who has to be there.
pub open spec fn log_msg_next(s: LogMsgModel, reply: ReplyModel) -> StepModel {
    match (s, reply) {
        (LogMsg::Start { prefix, message }, Reply::Start) => delta(
            DeltaRequest::GetContact { id: message.from_id },
            Task::LogMsg(LogMsg::Known { prefix, message }),
        ),
        (LogMsg::Known { prefix, message }, Reply::Contact(contact)) => Step::Return(
            Value::Text(message_line(prefix, message, contact)),
        ),
        (LogMsg::Known { .. }, Reply::Failed(error)) => Step::Panic(error),
        _ => Step::Mismatch,
    }
}

/// Goes on with showing a message.
pub(crate) fn log_msg_resume(s: LogMsg, reply: Reply) -> (step: Step)
    ensures
        step@ == log_msg_next(s@, reply@),
{
    match (s, reply) {
        (LogMsg::Start { prefix, message }, Reply::Start) => ask_delta(
            DeltaRequest::GetContact { id: message.from_id },
            Task::LogMsg(LogMsg::Known { prefix, message }),
        ),
        (LogMsg::Known { prefix, message }, Reply::Contact(contact)) => Step::Return(
            Value::Text(show_message(prefix.as_str(), &message, &contact)),
        ),
        (LogMsg::Known { .. }, Reply::Failed(error)) => Step::Panic(error),
        _ => Step::Mismatch,
    }
}

/// Shows a message.
pub fn log_msg(prefix: &str, message: LoggedMessage) -> (t: Task)
    ensures
        t@ == TaskModel::LogMsg(LogMsg::Start { prefix: prefix@, message }),
{
    Task::LogMsg(LogMsg::Start { prefix: prefix.to_owned(), message })
}

/// Goes on to the next message of a list. A mark between days is a line. A line opens the first
/// message, and a line closes the list if there is any in it. What else the list holds is passed
/// over.
pub open spec fn journal_on(list: Vec<ChatItem>, at: int, text: Seq<char>, open: bool) -> StepModel
    decreases list@.len() - at,
{
    if at < 0 || at >= list@.len() {
        Step::Return(
            Value::Text(
                if open {
                    text + RULE@
                } else {
                    text
                },
            ),
        )
    } else {
        match listed(list@[at]) {
            Listed::Day => journal_on(list, at + 1, text + RULE@, true),
            Listed::Special => journal_on(list, at + 1, text, open),
            Listed::Message(id) => delta(
                DeltaRequest::LoadLogged { id },
                Task::Journal(
                    Journal::Loaded {
                        list,
                        at: (at + 1) as usize,
                        text: if open {
                            text
                        } else {
                            text + RULE@
                        },
                    },
                ),
            ),
        }
    }
}

/// How a list of messages is shown.
pub open spec fn journal_next(s: JournalModel, reply: ReplyModel) -> StepModel {
    match (s, reply) {
        (Journal::Start { list }, Reply::Start) => journal_on(list, 0, ""@, false),
        (Journal::Loaded { list, at, text }, Reply::Logged(message)) => Step::Call(
            Task::LogMsg(LogMsg::Start { prefix: ""@, message }),
            Task::Journal(Journal::Shown { list, at, text }),
        ),
        (Journal::Loaded { .. }, Reply::Failed(error)) => Step::Raise(error),
        (Journal::Shown { list, at, text }, Reply::Got(Value::Text(line))) => journal_on(
            list,
            at as int,
            text + line,
            true,
        ),
        _ => Step::Mismatch,
    }
}

fn journal_from(list: Vec<ChatItem>, at: usize, text: String, open: bool) -> (s: Step)
    ensures
        s@ == journal_on(list, at as int, text@, open),
{
    let mut k: usize = at;
    let mut r: String = text;
    let mut begun: bool = open;
    while k < list.len()
        invariant
            at <= k,
            journal_on(list, k as int, r@, begun) == journal_on(list, at as int, text@, open),
        decreases list.len() - k,
    {
        match listed_as(list[k]) {
            Listed::Day => {
                r.append(RULE);
                begun = true;
            },
            Listed::Special => {},
            Listed::Message(id) => {
                if !begun {
                    r.append(RULE);
                }
                return ask_delta(
                    DeltaRequest::LoadLogged { id },
                    Task::Journal(Journal::Loaded { list, at: k + 1, text: r }),
                );
            },
        }
        k = k + 1;
    }
    if begun {
        r.append(RULE);
    }
    Step::Return(Value::Text(r))
}

/// Goes on with showing a list of messages.
pub(crate) fn journal_resume(s: Journal, reply: Reply) -> (step: Step)
    ensures
        step@ == journal_next(s@, reply@),
{
    match (s, reply) {
        (Journal::Start { list }, Reply::Start) => journal_from(list, 0, "".to_owned(), false),
        (Journal::Loaded { list, at, text }, Reply::Logged(message)) => Step::Call(
            Task::LogMsg(LogMsg::Start { prefix: "".to_owned(), message }),
            Task::Journal(Journal::Shown { list, at, text }),
        ),
        (Journal::Loaded { .. }, Reply::Failed(error)) => Step::Raise(error),
        (Journal::Shown { list, at, text }, Reply::Got(Value::Text(line))) => {
            let mut r: String = text;
            r.append(line.as_str());
            journal_from(list, at, r, true)
        },
        _ => Step::Mismatch,
    }
}

/// Shows a list of messages.
pub fn log_msglist(list: Vec<ChatItem>) -> (t: Task)
    ensures
        t@ == TaskModel::Journal(Journal::Start { list }),
{
    Task::Journal(Journal::Start { list })
}

}
