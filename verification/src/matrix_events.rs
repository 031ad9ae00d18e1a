//! What the bridge does when something happens in a Matrix room.
use vstd::prelude::*;

use crate::appservice::{Caches, DeltaAppservice, Settings};
use crate::control_room::Control;
use crate::matrix_intents::{ChatRoom, Clear};
use crate::outside::{parse_user_id, user_id_parts};
use crate::protocol::{
    ask_delta, ask_matrix, delta, done, finish, finished, matrix, missing, note, noted, settle,
    settled, Actor, DeltaRequest, LogLevel, MatrixRequest, Reply, ReplyModel, Step, StepModel, Value,
    MISSING,
};
use crate::task::{Task, TaskModel};
use crate::text::{holds, join2, opt_text, own_words, same, strip_quotation};
use crate::types::DeltaMessageEvent;
use crate::util::Lookup;

verus! {

/// What is answered to a reply whose message is not known.
pub const NO_CHAT: &'static str = "Reply not sent: No chat_id in replied-to message";

/// What is answered when a chat is to become a room and is one already.
pub const ALREADY_A_ROOM: &'static str = "Chat is already a room.";

/// What is answered to an invitation to a second control room.
pub const OTHER_INVITE: &'static str = "Not joining other invite!";

/// The reaction that makes a room out of a chat.
pub const THUMBS_UP: char = '👍';

/// The reaction that blocks a chat.
pub const THUMBS_DOWN: char = '👎';

/// A message in a room.
#[derive(Debug, PartialEq, Eq)]
pub struct RoomMessageEvent {
    pub room_id: String,
    /// Whether the bridge is in the room.
    pub joined: bool,
    pub sender: String,
    pub event_id: String,
    /// What it says, if it is a text.
    pub body: Option<String>,
    /// The event that it is a reply to.
    pub reply_to: Option<String>,
}

/// What becomes of a member of a room.
#[derive(Clone, Copy, Debug, PartialEq, Eq, Structural)]
pub enum Membership {
    Invite,
    Leave,
    Other,
}

/// A change among the members of a room.
#[derive(Debug, PartialEq, Eq)]
pub struct RoomMemberEvent {
    pub room_id: String,
    pub sender: String,
    /// The member.
    pub state_key: String,
    pub membership: Membership,
}

/// A new topic of a room.
#[derive(Debug, PartialEq, Eq)]
pub struct RoomTopicEvent {
    pub room_id: String,
    pub topic: String,
}

/// A reaction to an event of a room.
#[derive(Debug, PartialEq, Eq)]
pub struct ReactionEvent {
    pub room_id: String,
    /// Whether the bridge is in the room.
    pub joined: bool,
    pub sender: String,
    /// The event that it is a reaction to.
    pub event_id: String,
    pub emoji: String,
}

/// How a message in a room is dealt with.
#[derive(Debug, PartialEq, Eq)]
pub enum Heard<T = String> {
    Start { event: RoomMessageEvent },
    MainKnown { event: RoomMessageEvent },
    Tested { event: RoomMessageEvent },
    ControlKnown { room_id: T, event_id: T, body: T, reply_to: Option<T> },
    Finish,
}

/// The same over mathematical text.
pub type HeardModel = Heard<Seq<char>>;

impl View for Heard {
    type V = HeardModel;

    open spec fn view(&self) -> HeardModel {
        match self {
            Heard::Start { event } => Heard::Start { event: *event },
            Heard::MainKnown { event } => Heard::MainKnown { event: *event },
            Heard::Tested { event } => Heard::Tested { event: *event },
            Heard::ControlKnown { room_id, event_id, body, reply_to } => Heard::ControlKnown { room_id: room_id@, event_id: event_id@, body: body@, reply_to: opt_text(*reply_to) },
            Heard::Finish => Heard::Finish,
        }
    }
}

/// How a text is sent to a chat.
#[derive(Debug, PartialEq, Eq)]
pub enum Spoken<T = String> {
    InChat { room_id: T, event_id: T, body: T },
    ChatKnown { event_id: T, body: T },
    Reply { room_id: T, event_id: T, body: T, reply_to: T },
    Found { room_id: T, event_id: T, body: T },
    Accepted { event_id: T, chat_id: u32, text: T },
    Sent { event_id: T },
    Finish,
}

/// The same over mathematical text.
pub type SpokenModel = Spoken<Seq<char>>;

impl View for Spoken {
    type V = SpokenModel;

    open spec fn view(&self) -> SpokenModel {
        match self {
            Spoken::InChat { room_id, event_id, body } => Spoken::InChat { room_id: room_id@, event_id: event_id@, body: body@ },
            Spoken::ChatKnown { event_id, body } => Spoken::ChatKnown { event_id: event_id@, body: body@ },
            Spoken::Reply { room_id, event_id, body, reply_to } => Spoken::Reply { room_id: room_id@, event_id: event_id@, body: body@, reply_to: reply_to@ },
            Spoken::Found { room_id, event_id, body } => Spoken::Found { room_id: room_id@, event_id: event_id@, body: body@ },
            Spoken::Accepted { event_id, chat_id, text } => Spoken::Accepted { event_id: event_id@, chat_id: *chat_id, text: text@ },
            Spoken::Sent { event_id } => Spoken::Sent { event_id: event_id@ },
            Spoken::Finish => Spoken::Finish,
        }
    }
}

/// How a change among the members of a room is dealt with.
#[derive(Debug, PartialEq, Eq)]
pub enum Member<T = String> {
    Start { event: RoomMemberEvent },
    MainKnown { event: RoomMemberEvent, localpart: T },
    Tested { event: RoomMemberEvent, is_main: bool },
    Leave { room_id: T },
    LeftChat { room_id: T },
    Cleared { room_id: T },
    Gone,
    Invite { room_id: T, sender: T },
    ControlKnown { room_id: T, sender: T },
    Entered { room_id: T, sender: T },
    RoomSaved { sender: T },
    Finish,
}

/// The same over mathematical text.
pub type MemberModel = Member<Seq<char>>;

impl View for Member {
    type V = MemberModel;

    open spec fn view(&self) -> MemberModel {
        match self {
            Member::Start { event } => Member::Start { event: *event },
            Member::MainKnown { event, localpart } => Member::MainKnown { event: *event, localpart: localpart@ },
            Member::Tested { event, is_main } => Member::Tested { event: *event, is_main: *is_main },
            Member::Leave { room_id } => Member::Leave { room_id: room_id@ },
            Member::LeftChat { room_id } => Member::LeftChat { room_id: room_id@ },
            Member::Cleared { room_id } => Member::Cleared { room_id: room_id@ },
            Member::Gone => Member::Gone,
            Member::Invite { room_id, sender } => Member::Invite { room_id: room_id@, sender: sender@ },
            Member::ControlKnown { room_id, sender } => Member::ControlKnown { room_id: room_id@, sender: sender@ },
            Member::Entered { room_id, sender } => Member::Entered { room_id: room_id@, sender: sender@ },
            Member::RoomSaved { sender } => Member::RoomSaved { sender: sender@ },
            Member::Finish => Member::Finish,
        }
    }
}

/// How a new topic is dealt with.
#[derive(Debug, PartialEq, Eq)]
pub enum Topic<T = String> {
    Start { event: RoomTopicEvent },
    ChatKnown { topic: T },
    Renamed,
}

/// The same over mathematical text.
pub type TopicModel = Topic<Seq<char>>;

impl View for Topic {
    type V = TopicModel;

    open spec fn view(&self) -> TopicModel {
        match self {
            Topic::Start { event } => Topic::Start { event: *event },
            Topic::ChatKnown { topic } => Topic::ChatKnown { topic: topic@ },
            Topic::Renamed => Topic::Renamed,
        }
    }
}

/// How a reaction is dealt with.
#[derive(Debug, PartialEq, Eq)]
pub enum Reaction<T = String> {
    Start { event: ReactionEvent },
    MainKnown { event: ReactionEvent },
    Tested { event: ReactionEvent },
    ControlKnown { event: ReactionEvent },
    Found { room_id: T, emoji: T },
    ThumbsUp { room_id: T, chat_id: u32 },
    UpRoom { room_id: T, chat_id: u32 },
    ThumbsDown { chat_id: u32 },
    Blocked,
    Finish,
}

/// The same over mathematical text.
pub type ReactionModel = Reaction<Seq<char>>;

impl View for Reaction {
    type V = ReactionModel;

    open spec fn view(&self) -> ReactionModel {
        match self {
            Reaction::Start { event } => Reaction::Start { event: *event },
            Reaction::MainKnown { event } => Reaction::MainKnown { event: *event },
            Reaction::Tested { event } => Reaction::Tested { event: *event },
            Reaction::ControlKnown { event } => Reaction::ControlKnown { event: *event },
            Reaction::Found { room_id, emoji } => Reaction::Found { room_id: room_id@, emoji: emoji@ },
            Reaction::ThumbsUp { room_id, chat_id } => Reaction::ThumbsUp { room_id: room_id@, chat_id: *chat_id },
            Reaction::UpRoom { room_id, chat_id } => Reaction::UpRoom { room_id: room_id@, chat_id: *chat_id },
            Reaction::ThumbsDown { chat_id } => Reaction::ThumbsDown { chat_id: *chat_id },
            Reaction::Blocked => Reaction::Blocked,
            Reaction::Finish => Reaction::Finish,
        }
    }
}

/// How a message is dealt with. What the bridge or one of its users says is passed over, and so
/// is what is no text or is said where the bridge is not. A reply goes to the chat of what it
/// replies to; else a message in the control room is a command, and any other one goes to the
/// chat of its room.
pub open spec fn heard_next(s: HeardModel, reply: ReplyModel) -> StepModel {
    match (s, reply) {
        (Heard::Start { event }, Reply::Start) => matrix(
            MatrixRequest::UserId { who: Actor::Main },
            Task::Heard(Heard::MainKnown { event }),
        ),
        (Heard::MainKnown { event }, Reply::Got(Value::MaybeText(main))) => match main {
            Some(main) => if event.sender@ == main {
                Step::Return(Value::Unit)
            } else {
                matrix(
                    MatrixRequest::InNamespace { user: event.sender@ },
                    Task::Heard(Heard::Tested { event }),
                )
            },
            None => Step::Panic(MISSING@),
        },
        (Heard::Tested { event }, Reply::Got(Value::Flag(ours))) => match opt_text(event.body) {
            Some(body) => if !ours && event.joined {
                Step::Call(
                    Task::Settings(Settings::GetControlRoomId),
                    Task::Heard(
                        Heard::ControlKnown {
                            room_id: event.room_id@,
                            event_id: event.event_id@,
                            body,
                            reply_to: opt_text(event.reply_to),
                        },
                    ),
                )
            } else {
                Step::Return(Value::Unit)
            },
            None => Step::Return(Value::Unit),
        },
        (Heard::Tested { .. }, Reply::Failed(error)) => Step::Raise(error),
        (
            Heard::ControlKnown { room_id, event_id, body, reply_to },
            Reply::Got(Value::MaybeText(control)),
        ) => Step::Call(
            match reply_to {
                Some(reply_to) => Task::Spoken(Spoken::Reply { room_id, event_id, body, reply_to }),
                None => if control == Some(room_id) {
                    Task::Control(Control::Start { room_id, event_id, body })
                } else {
                    Task::Spoken(Spoken::InChat { room_id, event_id, body })
                },
            },
            Task::Heard(Heard::Finish),
        ),
        (Heard::Finish, reply) => finished(reply),
        _ => Step::Mismatch,
    }
}

/// Goes on with dealing with a message.
pub(crate) fn heard_resume(s: Heard, reply: Reply) -> (step: Step)
    ensures
        step@ == heard_next(s@, reply@),
{
    match (s, reply) {
        (Heard::Start { event }, Reply::Start) => ask_matrix(
            MatrixRequest::UserId { who: Actor::Main },
            Task::Heard(Heard::MainKnown { event }),
        ),
        (Heard::MainKnown { event }, Reply::Got(Value::MaybeText(main))) => match main {
            Some(main) => {
                if same(event.sender.as_str(), main.as_str()) {
                    done()
                } else {
                    ask_matrix(
                        MatrixRequest::InNamespace { user: event.sender.clone() },
                        Task::Heard(Heard::Tested { event }),
                    )
                }
            },
            None => missing(),
        },
        (Heard::Tested { event }, Reply::Got(Value::Flag(ours))) => match event.body {
            Some(body) => {
                if !ours && event.joined {
                    Step::Call(
                        Task::Settings(Settings::GetControlRoomId),
                        Task::Heard(
                            Heard::ControlKnown {
                                room_id: event.room_id,
                                event_id: event.event_id,
                                body,
                                reply_to: event.reply_to,
                            },
                        ),
                    )
                } else {
                    done()
                }
            },
            None => done(),
        },
        (Heard::Tested { .. }, Reply::Failed(error)) => Step::Raise(error),
        (
            Heard::ControlKnown { room_id, event_id, body, reply_to },
            Reply::Got(Value::MaybeText(control)),
        ) => {
            let callee: Task = match reply_to {
                Some(reply_to) => Task::Spoken(Spoken::Reply { room_id, event_id, body, reply_to }),
                None => if holds(&control, room_id.as_str()) {
                    Task::Control(Control::Start { room_id, event_id, body })
                } else {
                    Task::Spoken(Spoken::InChat { room_id, event_id, body })
                },
            };
            Step::Call(callee, Task::Heard(Heard::Finish))
        },
        (Heard::Finish, reply) => finish(reply),
        _ => Step::Mismatch,
    }
}

/// Deals with a message in a room.
pub fn handle_room_message(event: RoomMessageEvent) -> (t: Task)
    ensures
        t@ == TaskModel::Heard(Heard::Start { event }),
{
    Task::Heard(Heard::Start { event })
}

/// The chat that a bridged event belongs to, if it says so.
pub open spec fn chat_of_event(event: Option<DeltaMessageEvent>) -> Option<u32> {
    match event {
        Some(event) => match event.content.delta_fields {
            Some(fields) => Some(fields.chat_id),
            None => None,
        },
        None => None,
    }
}

fn find_chat(event: &Option<DeltaMessageEvent>) -> (r: Option<u32>)
    ensures
        r == chat_of_event(*event),
{
    match event {
        Some(event) => match &event.content.delta_fields {
            Some(fields) => Some(fields.chat_id),
            None => None,
        },
        None => None,
    }
}

/// How a text is sent to a chat: the chat of the room, or the chat of the message that is replied
/// to, which is accepted with that and gets the reply without the quotation. The event becomes
/// the event of the message that was sent.
pub open spec fn spoken_next(s: SpokenModel, reply: ReplyModel, caches: Caches) -> (
    Caches,
    StepModel,
) {
    match (s, reply) {
        (Spoken::Sent { event_id }, Reply::Got(Value::Number(msg_id))) => (
            Caches { events: caches.events.insert(msg_id, event_id), ..caches },
            Step::Return(Value::Unit),
        ),
        _ => (caches, spoken_step(s, reply)),
    }
}

/// The steps of sending a text to a chat that leave the caches alone.
pub open spec fn spoken_step(s: SpokenModel, reply: ReplyModel) -> StepModel {
    match (s, reply) {
        (Spoken::InChat { room_id, event_id, body }, Reply::Start) => Step::Call(
            Task::Settings(Settings::GetChat { room_id }),
            Task::Spoken(Spoken::ChatKnown { event_id, body }),
        ),
        (Spoken::ChatKnown { event_id, body }, Reply::Got(Value::MaybeNumber(chat))) => {
            match chat {
                Some(chat) => delta(
                    DeltaRequest::SendText { chat, text: body },
                    Task::Spoken(Spoken::Sent { event_id }),
                ),
                None => Step::Return(Value::Unit),
            }
        },
        (Spoken::Reply { room_id, event_id, body, reply_to }, Reply::Start) => Step::Call(
            Task::Lookup(Lookup::Fetch { who: Actor::Main, room_id, event_id: reply_to }),
            Task::Spoken(Spoken::Found { room_id, event_id, body }),
        ),
        (Spoken::Found { room_id, event_id, body }, Reply::Got(Value::Event(event))) => {
            match chat_of_event(event) {
                Some(chat_id) => delta(
                    DeltaRequest::AcceptChat { chat: chat_id },
                    Task::Spoken(Spoken::Accepted { event_id, chat_id, text: own_words(body) }),
                ),
                None => matrix(
                    MatrixRequest::SendText { who: Actor::Main, room: room_id, text: NO_CHAT@ },
                    Task::Spoken(Spoken::Finish),
                ),
            }
        },
        (Spoken::Found { .. }, Reply::Failed(error)) => Step::Raise(error),
        (Spoken::Accepted { event_id, chat_id, text }, Reply::Got(_)) => delta(
            DeltaRequest::SendText { chat: chat_id, text },
            Task::Spoken(Spoken::Sent { event_id }),
        ),
        (Spoken::Accepted { .. } | Spoken::Sent { .. }, Reply::Failed(error)) => Step::Panic(error),
        (Spoken::Finish, reply) => finished(reply),
        _ => Step::Mismatch,
    }
}

/// Goes on with sending a text to a chat.
pub(crate) fn spoken_resume(s: Spoken, reply: Reply, da: &mut DeltaAppservice) -> (step: Step)
    ensures
        (final(da)@, step@) == spoken_next(s@, reply@, old(da)@),
{
    match (s, reply) {
        (Spoken::Sent { event_id }, Reply::Got(Value::Number(msg_id))) => {
            da.remember_event(msg_id, event_id);
            done()
        },
        (s, reply) => spoken_on(s, reply),
    }
}

fn spoken_on(s: Spoken, reply: Reply) -> (step: Step)
    ensures
        step@ == spoken_step(s@, reply@),
{
    match (s, reply) {
        (Spoken::InChat { room_id, event_id, body }, Reply::Start) => Step::Call(
            Task::Settings(Settings::GetChat { room_id }),
            Task::Spoken(Spoken::ChatKnown { event_id, body }),
        ),
        (Spoken::ChatKnown { event_id, body }, Reply::Got(Value::MaybeNumber(chat))) => {
            match chat {
                Some(chat) => ask_delta(
                    DeltaRequest::SendText { chat, text: body },
                    Task::Spoken(Spoken::Sent { event_id }),
                ),
                None => done(),
            }
        },
        (Spoken::Reply { room_id, event_id, body, reply_to }, Reply::Start) => Step::Call(
            Task::Lookup(
                Lookup::Fetch { who: Actor::Main, room_id: room_id.clone(), event_id: reply_to },
            ),
            Task::Spoken(Spoken::Found { room_id, event_id, body }),
        ),
        (Spoken::Found { room_id, event_id, body }, Reply::Got(Value::Event(event))) => {
            match find_chat(&event) {
                Some(chat_id) => ask_delta(
                    DeltaRequest::AcceptChat { chat: chat_id },
                    Task::Spoken(
                        Spoken::Accepted { event_id, chat_id, text: strip_quotation(body.as_str()) },
                    ),
                ),
                None => ask_matrix(
                    MatrixRequest::SendText {
                        who: Actor::Main,
                        room: room_id,
                        text: NO_CHAT.to_owned(),
                    },
                    Task::Spoken(Spoken::Finish),
                ),
            }
        },
        (Spoken::Found { .. }, Reply::Failed(error)) => Step::Raise(error),
        (Spoken::Accepted { event_id, chat_id, text }, Reply::Got(_)) => ask_delta(
            DeltaRequest::SendText { chat: chat_id, text },
            Task::Spoken(Spoken::Sent { event_id }),
        ),
        (Spoken::Accepted { .. } | Spoken::Sent { .. }, Reply::Failed(error)) => Step::Panic(error),
        (Spoken::Finish, reply) => finish(reply),
        _ => Step::Mismatch,
    }
}

/// How a change among the members of a room is dealt with. Where the bridge is invited it makes
/// the room its control room and the one who invited it its owner, but only if it is in no control
/// room yet. Where somebody leaves whom the bridge does not manage, the bridge parts the room from
/// its chat and leaves it.
pub open spec fn member_next(s: MemberModel, reply: ReplyModel) -> StepModel {
    match (s, reply) {
        (Member::Start { event }, Reply::Start) => match user_id_parts(event.state_key@) {
            Ok(parts) => matrix(
                MatrixRequest::SenderLocalpart,
                Task::Member(Member::MainKnown { event, localpart: parts.0 }),
            ),
            Err(error) => Step::Raise(error),
        },
        (Member::MainKnown { event, localpart }, Reply::Got(Value::Text(main))) => matrix(
            MatrixRequest::InNamespace { user: event.state_key@ },
            Task::Member(Member::Tested { event, is_main: localpart == main }),
        ),
        (Member::Tested { event, is_main }, Reply::Got(Value::Flag(ours))) => {
            if is_main && event.membership == Membership::Invite {
                Step::Call(
                    Task::Member(
                        Member::Invite { room_id: event.room_id@, sender: event.sender@ },
                    ),
                    Task::Member(Member::Finish),
                )
            } else if !ours && event.membership == Membership::Leave {
                Step::Call(
                    Task::Member(Member::Leave { room_id: event.room_id@ }),
                    Task::Member(Member::Finish),
                )
            } else {
                Step::Return(Value::Unit)
            }
        },
        (Member::Leave { room_id }, Reply::Start) => Step::Call(
            Task::Settings(Settings::GetChat { room_id }),
            Task::Member(Member::LeftChat { room_id }),
        ),
        (Member::LeftChat { room_id }, Reply::Got(Value::MaybeNumber(chat))) => match chat {
            Some(chat_id) => Step::Call(
                Task::Settings(Settings::Clear { room_id, chat_id }),
                Task::Member(Member::Cleared { room_id }),
            ),
            None => Step::Return(Value::Unit),
        },
        (Member::Cleared { room_id }, Reply::Got(_)) => Step::Call(
            Task::Clear(Clear::Start { room_id }),
            Task::Member(Member::Gone),
        ),
        (Member::Gone, reply) => settled(reply),
        (Member::Invite { room_id, sender }, Reply::Start) => Step::Call(
            Task::Settings(Settings::GetControlRoom),
            Task::Member(Member::ControlKnown { room_id, sender }),
        ),
        (Member::ControlKnown { room_id, sender }, Reply::Got(Value::MaybeText(control))) => {
            match control {
                Some(control) => matrix(
                    MatrixRequest::SendText { who: Actor::Main, room: control, text: OTHER_INVITE@ },
                    Task::Member(Member::Finish),
                ),
                None => matrix(
                    MatrixRequest::JoinRoom { who: Actor::Main, room: room_id },
                    Task::Member(Member::Entered { room_id, sender }),
                ),
            }
        },
        (Member::Entered { room_id, sender }, Reply::Got(_)) => Step::Call(
            Task::Settings(Settings::SetControlRoomId { room_id }),
            Task::Member(Member::RoomSaved { sender }),
        ),
        (Member::RoomSaved { sender }, Reply::Got(_)) => Step::Call(
            Task::Settings(Settings::SetOwner { user_id: sender }),
            Task::Member(Member::Finish),
        ),
        (
            Member::Tested { .. } | Member::Entered { .. } | Member::RoomSaved { .. },
            Reply::Failed(error),
        ) => Step::Raise(error),
        (Member::Finish, reply) => finished(reply),
        _ => Step::Mismatch,
    }
}

/// Goes on with dealing with a change among the members of a room.
pub(crate) fn member_resume(s: Member, reply: Reply) -> (step: Step)
    ensures
        step@ == member_next(s@, reply@),
{
    match (s, reply) {
        (Member::Start { event }, Reply::Start) => match parse_user_id(event.state_key.as_str()) {
            Ok(parts) => ask_matrix(
                MatrixRequest::SenderLocalpart,
                Task::Member(Member::MainKnown { event, localpart: parts.0 }),
            ),
            Err(error) => Step::Raise(error),
        },
        (Member::MainKnown { event, localpart }, Reply::Got(Value::Text(main))) => {
            let is_main: bool = same(localpart.as_str(), main.as_str());
            ask_matrix(
                MatrixRequest::InNamespace { user: event.state_key.clone() },
                Task::Member(Member::Tested { event, is_main }),
            )
        },
        (Member::Tested { event, is_main }, Reply::Got(Value::Flag(ours))) => {
            if is_main && event.membership == Membership::Invite {
                Step::Call(
                    Task::Member(Member::Invite { room_id: event.room_id, sender: event.sender }),
                    Task::Member(Member::Finish),
                )
            } else if !ours && event.membership == Membership::Leave {
                Step::Call(
                    Task::Member(Member::Leave { room_id: event.room_id }),
                    Task::Member(Member::Finish),
                )
            } else {
                done()
            }
        },
        (Member::Leave { room_id }, Reply::Start) => Step::Call(
            Task::Settings(Settings::GetChat { room_id: room_id.clone() }),
            Task::Member(Member::LeftChat { room_id }),
        ),
        (Member::LeftChat { room_id }, Reply::Got(Value::MaybeNumber(chat))) => match chat {
            Some(chat_id) => Step::Call(
                Task::Settings(Settings::Clear { room_id: room_id.clone(), chat_id }),
                Task::Member(Member::Cleared { room_id }),
            ),
            None => done(),
        },
        (Member::Cleared { room_id }, Reply::Got(_)) => Step::Call(
            Task::Clear(Clear::Start { room_id }),
            Task::Member(Member::Gone),
        ),
        (Member::Gone, reply) => settle(reply),
        (Member::Invite { room_id, sender }, Reply::Start) => Step::Call(
            Task::Settings(Settings::GetControlRoom),
            Task::Member(Member::ControlKnown { room_id, sender }),
        ),
        (Member::ControlKnown { room_id, sender }, Reply::Got(Value::MaybeText(control))) => {
            match control {
                Some(control) => ask_matrix(
                    MatrixRequest::SendText {
                        who: Actor::Main,
                        room: control,
                        text: OTHER_INVITE.to_owned(),
                    },
                    Task::Member(Member::Finish),
                ),
                None => ask_matrix(
                    MatrixRequest::JoinRoom { who: Actor::Main, room: room_id.clone() },
                    Task::Member(Member::Entered { room_id, sender }),
                ),
            }
        },
        (Member::Entered { room_id, sender }, Reply::Got(_)) => Step::Call(
            Task::Settings(Settings::SetControlRoomId { room_id }),
            Task::Member(Member::RoomSaved { sender }),
        ),
        (Member::RoomSaved { sender }, Reply::Got(_)) => Step::Call(
            Task::Settings(Settings::SetOwner { user_id: sender }),
            Task::Member(Member::Finish),
        ),
        (
            Member::Tested { .. } | Member::Entered { .. } | Member::RoomSaved { .. },
            Reply::Failed(error),
        ) => Step::Raise(error),
        (Member::Finish, reply) => finish(reply),
        _ => Step::Mismatch,
    }
}

/// Deals with a change among the members of a room.
pub fn handle_room_member_event(event: RoomMemberEvent) -> (t: Task)
    ensures
        t@ == TaskModel::Member(Member::Start { event }),
{
    Task::Member(Member::Start { event })
}

/// How a new topic is dealt with: it becomes the name of the chat of the room.
pub open spec fn topic_next(s: TopicModel, reply: ReplyModel) -> StepModel {
    match (s, reply) {
        (Topic::Start { event }, Reply::Start) => Step::Call(
            Task::Settings(Settings::GetChat { room_id: event.room_id@ }),
            Task::Topic(Topic::ChatKnown { topic: event.topic@ }),
        ),
        (Topic::ChatKnown { topic }, Reply::Got(Value::MaybeNumber(chat))) => match chat {
            Some(chat) => delta(
                DeltaRequest::SetChatName { chat, name: topic },
                Task::Topic(Topic::Renamed),
            ),
            None => Step::Return(Value::Unit),
        },
        (Topic::Renamed, reply) => settled(reply),
        _ => Step::Mismatch,
    }
}

/// Goes on with dealing with a new topic.
pub(crate) fn topic_resume(s: Topic, reply: Reply) -> (step: Step)
    ensures
        step@ == topic_next(s@, reply@),
{
    match (s, reply) {
        (Topic::Start { event }, Reply::Start) => Step::Call(
            Task::Settings(Settings::GetChat { room_id: event.room_id }),
            Task::Topic(Topic::ChatKnown { topic: event.topic }),
        ),
        (Topic::ChatKnown { topic }, Reply::Got(Value::MaybeNumber(chat))) => match chat {
            Some(chat) => ask_delta(
                DeltaRequest::SetChatName { chat, name: topic },
                Task::Topic(Topic::Renamed),
            ),
            None => done(),
        },
        (Topic::Renamed, reply) => settle(reply),
        _ => Step::Mismatch,
    }
}

/// Deals with a new topic of a room.
pub fn handle_room_topic_event(event: RoomTopicEvent) -> (t: Task)
    ensures
        t@ == TaskModel::Topic(Topic::Start { event }),
{
    Task::Topic(Topic::Start { event })
}

/// What is logged of a reaction of the bridge itself.
pub const FROM_OURSELVES: &'static str = "skipping event: came from appservice user";

/// What is logged of a reaction outside the control room.
pub const NOT_IN_CONTROL_ROOM: &'static str = "skipping event: not in control room";

/// What is logged of a reaction in a room that the bridge is not in.
pub const NOT_IN_JOINED_ROOM: &'static str = "skipping event: not in joined room";

/// What is logged before a reaction that means nothing.
pub const UNKNOWN_REACTION: &'static str = "Ignoring unknown reaction ";

/// Says in the log why a reaction is passed over, and ends.
pub open spec fn pass_over(level: LogLevel, reason: Seq<char>) -> StepModel {
    noted(level, reason, Task::Reaction(Reaction::Finish))
}

fn pass_on(level: LogLevel, reason: String) -> (s: Step)
    ensures
        s@ == pass_over(level, reason@),
{
    note(level, reason, Task::Reaction(Reaction::Finish))
}

/// How a reaction is dealt with. It counts only in the control room, with the bridge in it, from
/// somebody whom the bridge does not manage, and to a bridged message. By its first character it
/// makes a room out of the chat of the message, blocks the chat, or does nothing. Why an event is
/// passed over is logged.
pub open spec fn reaction_next(s: ReactionModel, reply: ReplyModel) -> StepModel {
    match (s, reply) {
        (Reaction::Start { event }, Reply::Start) => matrix(
            MatrixRequest::UserId { who: Actor::Main },
            Task::Reaction(Reaction::MainKnown { event }),
        ),
        (Reaction::MainKnown { event }, Reply::Got(Value::MaybeText(main))) => match main {
            Some(main) => if event.sender@ == main {
                pass_over(LogLevel::Debug, FROM_OURSELVES@)
            } else {
                matrix(
                    MatrixRequest::InNamespace { user: event.sender@ },
                    Task::Reaction(Reaction::Tested { event }),
                )
            },
            None => Step::Panic(MISSING@),
        },
        (Reaction::Tested { event }, Reply::Got(Value::Flag(ours))) => if ours {
            pass_over(LogLevel::Debug, FROM_OURSELVES@)
        } else {
            Step::Call(
                Task::Settings(Settings::GetControlRoomId),
                Task::Reaction(Reaction::ControlKnown { event }),
            )
        },
        (Reaction::ControlKnown { event }, Reply::Got(Value::MaybeText(control))) => {
            if control != Some(event.room_id@) {
                pass_over(LogLevel::Debug, NOT_IN_CONTROL_ROOM@)
            } else if !event.joined {
                pass_over(LogLevel::Warning, NOT_IN_JOINED_ROOM@)
            } else {
                Step::Call(
                    Task::Lookup(
                        Lookup::Fetch {
                            who: Actor::Main,
                            room_id: event.room_id@,
                            event_id: event.event_id@,
                        },
                    ),
                    Task::Reaction(Reaction::Found { room_id: event.room_id@, emoji: event.emoji@ }),
                )
            }
        },
        (Reaction::Found { room_id, emoji }, Reply::Got(Value::Event(event))) => {
            match chat_of_event(event) {
                Some(chat_id) => if emoji.len() == 0 {
                    Step::Panic(MISSING@)
                } else if emoji[0] == THUMBS_UP {
                    Step::Call(
                        Task::Reaction(Reaction::ThumbsUp { room_id, chat_id }),
                        Task::Reaction(Reaction::Finish),
                    )
                } else if emoji[0] == THUMBS_DOWN {
                    Step::Call(
                        Task::Reaction(Reaction::ThumbsDown { chat_id }),
                        Task::Reaction(Reaction::Finish),
                    )
                } else {
                    pass_over(LogLevel::Warning, UNKNOWN_REACTION@ + emoji)
                },
                None => Step::Return(Value::Unit),
            }
        },
        (Reaction::Tested { .. } | Reaction::Found { .. }, Reply::Failed(error)) => Step::Raise(
            error,
        ),
        (Reaction::ThumbsUp { room_id, chat_id }, Reply::Start) => Step::Call(
            Task::Settings(Settings::GetRoom { chat_id }),
            Task::Reaction(Reaction::UpRoom { room_id, chat_id }),
        ),
        (Reaction::UpRoom { room_id, chat_id }, Reply::Got(Value::MaybeText(room))) => match room {
            Some(_) => matrix(
                MatrixRequest::SendText { who: Actor::Main, room: room_id, text: ALREADY_A_ROOM@ },
                Task::Reaction(Reaction::Finish),
            ),
            None => Step::Call(
                Task::ChatRoom(ChatRoom::Start { chat_id }),
                Task::Reaction(Reaction::Finish),
            ),
        },
        (Reaction::ThumbsDown { chat_id }, Reply::Start) => delta(
            DeltaRequest::BlockChat { chat: chat_id },
            Task::Reaction(Reaction::Blocked),
        ),
        (Reaction::Blocked, reply) => settled(reply),
        (Reaction::Finish, reply) => finished(reply),
        _ => Step::Mismatch,
    }
}

/// Goes on with dealing with a reaction.
pub(crate) fn reaction_resume(s: Reaction, reply: Reply) -> (step: Step)
    ensures
        step@ == reaction_next(s@, reply@),
{
    match (s, reply) {
        (Reaction::Start { event }, Reply::Start) => ask_matrix(
            MatrixRequest::UserId { who: Actor::Main },
            Task::Reaction(Reaction::MainKnown { event }),
        ),
        (Reaction::MainKnown { event }, Reply::Got(Value::MaybeText(main))) => match main {
            Some(main) => {
                if same(event.sender.as_str(), main.as_str()) {
                    pass_on(LogLevel::Debug, FROM_OURSELVES.to_owned())
                } else {
                    ask_matrix(
                        MatrixRequest::InNamespace { user: event.sender.clone() },
                        Task::Reaction(Reaction::Tested { event }),
                    )
                }
            },
            None => missing(),
        },
        (Reaction::Tested { event }, Reply::Got(Value::Flag(ours))) => {
            if ours {
                pass_on(LogLevel::Debug, FROM_OURSELVES.to_owned())
            } else {
                Step::Call(
                    Task::Settings(Settings::GetControlRoomId),
                    Task::Reaction(Reaction::ControlKnown { event }),
                )
            }
        },
        (Reaction::ControlKnown { event }, Reply::Got(Value::MaybeText(control))) => {
            if !holds(&control, event.room_id.as_str()) {
                pass_on(LogLevel::Debug, NOT_IN_CONTROL_ROOM.to_owned())
            } else if !event.joined {
                pass_on(LogLevel::Warning, NOT_IN_JOINED_ROOM.to_owned())
            } else {
                Step::Call(
                    Task::Lookup(
                        Lookup::Fetch {
                            who: Actor::Main,
                            room_id: event.room_id.clone(),
                            event_id: event.event_id,
                        },
                    ),
                    Task::Reaction(
                        Reaction::Found { room_id: event.room_id, emoji: event.emoji },
                    ),
                )
            }
        },
        (Reaction::Found { room_id, emoji }, Reply::Got(Value::Event(event))) => {
            match find_chat(&event) {
                Some(chat_id) => {
                    if emoji.as_str().unicode_len() == 0 {
                        missing()
                    } else {
                        let first: char = emoji.as_str().get_char(0);
                        if first == THUMBS_UP {
                            Step::Call(
                                Task::Reaction(Reaction::ThumbsUp { room_id, chat_id }),
                                Task::Reaction(Reaction::Finish),
                            )
                        } else if first == THUMBS_DOWN {
                            Step::Call(
                                Task::Reaction(Reaction::ThumbsDown { chat_id }),
                                Task::Reaction(Reaction::Finish),
                            )
                        } else {
                            pass_on(
                                LogLevel::Warning,
                                join2(UNKNOWN_REACTION, emoji.as_str()),
                            )
                        }
                    }
                },
                None => done(),
            }
        },
        (Reaction::Tested { .. } | Reaction::Found { .. }, Reply::Failed(error)) => Step::Raise(
            error,
        ),
        (Reaction::ThumbsUp { room_id, chat_id }, Reply::Start) => Step::Call(
            Task::Settings(Settings::GetRoom { chat_id }),
            Task::Reaction(Reaction::UpRoom { room_id, chat_id }),
        ),
        (Reaction::UpRoom { room_id, chat_id }, Reply::Got(Value::MaybeText(room))) => match room {
            Some(_) => ask_matrix(
                MatrixRequest::SendText {
                    who: Actor::Main,
                    room: room_id,
                    text: ALREADY_A_ROOM.to_owned(),
                },
                Task::Reaction(Reaction::Finish),
            ),
            None => Step::Call(
                Task::ChatRoom(ChatRoom::Start { chat_id }),
                Task::Reaction(Reaction::Finish),
            ),
        },
        (Reaction::ThumbsDown { chat_id }, Reply::Start) => ask_delta(
            DeltaRequest::BlockChat { chat: chat_id },
            Task::Reaction(Reaction::Blocked),
        ),
        (Reaction::Blocked, reply) => settle(reply),
        (Reaction::Finish, reply) => finish(reply),
        _ => Step::Mismatch,
    }
}

/// Deals with a reaction to an event of a room.
pub fn handle_room_reaction_event(event: ReactionEvent) -> (t: Task)
    ensures
        t@ == TaskModel::Reaction(Reaction::Start { event }),
{
    Task::Reaction(Reaction::Start { event })
}

}
