//! What the bridge does when the e-mail core reports something.
use vstd::prelude::*;

use crate::appservice::{Caches, DeltaAppservice, EmailUser, Settings};
use crate::matrix_intents::Bridge;
use crate::protocol::{
    ask_delta, ask_host, ask_matrix, delta, done, finish, finished, host, matrix, note, noted,
    settle, settled, Actor, DeltaRequest, HostRequest, LogLevel, MatrixRequest, MessageInfo, Reply,
    ReplyModel, Step, StepModel, Value,
};
use crate::task::{Task, TaskModel};

verus! {

/// What is logged when a message arrives and there is no control room.
pub const NOWHERE_TO_GO: &'static str = "no control room registered";

/// What is said in a room when a message could not be sent.
pub const SENDING_FAILED: &'static str = "Sending message failed";

/// Something that the e-mail core reports.
#[derive(Debug, PartialEq, Eq)]
pub enum DeltaEvent<T = String> {
    IncomingMsg { chat_id: u32, msg_id: u32 },
    MsgDelivered { chat_id: u32, msg_id: u32 },
    MsgFailed { chat_id: u32, msg_id: u32 },
    MsgRead { chat_id: u32, msg_id: u32, contact_id: u32 },
    /// One contact has changed, or any number of them; with the event as it is shown.
    ContactsChanged { contact: Option<u32>, shown: T },
    Info { text: T },
    Warning { text: T },
    Error { text: T },
    /// Anything else, as it is shown.
    Other { shown: T },
}

/// The same over mathematical text.
pub type DeltaEventModel = DeltaEvent<Seq<char>>;

impl View for DeltaEvent {
    type V = DeltaEventModel;

    open spec fn view(&self) -> DeltaEventModel {
        match self {
            DeltaEvent::IncomingMsg { chat_id, msg_id } => DeltaEvent::IncomingMsg { chat_id: *chat_id, msg_id: *msg_id },
            DeltaEvent::MsgDelivered { chat_id, msg_id } => DeltaEvent::MsgDelivered { chat_id: *chat_id, msg_id: *msg_id },
            DeltaEvent::MsgFailed { chat_id, msg_id } => DeltaEvent::MsgFailed { chat_id: *chat_id, msg_id: *msg_id },
            DeltaEvent::MsgRead { chat_id, msg_id, contact_id } => DeltaEvent::MsgRead { chat_id: *chat_id, msg_id: *msg_id, contact_id: *contact_id },
            DeltaEvent::ContactsChanged { contact, shown } => DeltaEvent::ContactsChanged { contact: *contact, shown: shown@ },
            DeltaEvent::Info { text } => DeltaEvent::Info { text: text@ },
            DeltaEvent::Warning { text } => DeltaEvent::Warning { text: text@ },
            DeltaEvent::Error { text } => DeltaEvent::Error { text: text@ },
            DeltaEvent::Other { shown } => DeltaEvent::Other { shown: shown@ },
        }
    }
}

/// How a report is dealt with.
#[derive(Debug, PartialEq, Eq)]
pub enum Callback<T = String> {
    Start { event: DeltaEvent<T> },
    Handled,
}

/// The same over mathematical text.
pub type CallbackModel = Callback<Seq<char>>;

impl View for Callback {
    type V = CallbackModel;

    open spec fn view(&self) -> CallbackModel {
        match self {
            Callback::Start { event } => Callback::Start { event: event@ },
            Callback::Handled => Callback::Handled,
        }
    }
}

/// How the room of a chat follows what becomes of a message.
#[derive(Debug, PartialEq, Eq)]
pub enum Delivery<T = String> {
    ContactChanged { contact_id: u32 },
    Delivered { chat_id: u32, msg_id: u32 },
    DeliveredRoom { msg_id: u32 },
    DeliveredTried { msg_id: u32, room_id: T },
    Read { chat_id: u32, msg_id: u32, contact_id: u32 },
    ReadRoom { msg_id: u32, contact_id: u32 },
    ReadUser { msg_id: u32, room_id: T },
    Finish,
}

/// The same over mathematical text.
pub type DeliveryModel = Delivery<Seq<char>>;

impl View for Delivery {
    type V = DeliveryModel;

    open spec fn view(&self) -> DeliveryModel {
        match self {
            Delivery::ContactChanged { contact_id } => Delivery::ContactChanged { contact_id: *contact_id },
            Delivery::Delivered { chat_id, msg_id } => Delivery::Delivered { chat_id: *chat_id, msg_id: *msg_id },
            Delivery::DeliveredRoom { msg_id } => Delivery::DeliveredRoom { msg_id: *msg_id },
            Delivery::DeliveredTried { msg_id, room_id } => Delivery::DeliveredTried { msg_id: *msg_id, room_id: room_id@ },
            Delivery::Read { chat_id, msg_id, contact_id } => Delivery::Read { chat_id: *chat_id, msg_id: *msg_id, contact_id: *contact_id },
            Delivery::ReadRoom { msg_id, contact_id } => Delivery::ReadRoom { msg_id: *msg_id, contact_id: *contact_id },
            Delivery::ReadUser { msg_id, room_id } => Delivery::ReadUser { msg_id: *msg_id, room_id: room_id@ },
            Delivery::Finish => Delivery::Finish,
        }
    }
}

/// How an incoming message is brought over.
#[derive(Debug, PartialEq, Eq)]
pub enum Arrival<T = String> {
    Start { chat_id: u32, msg_id: u32 },
    ControlKnown { chat_id: u32, msg_id: u32 },
    Loaded { chat_id: u32, control: T },
    UserReady { chat_id: u32, control: T, message: MessageInfo },
    RoomKnown { chat_id: u32, control: T, message: MessageInfo, localpart: T },
    Noticed { room_id: T, message: MessageInfo, localpart: T },
    Finish,
}

/// The same over mathematical text.
pub type ArrivalModel = Arrival<Seq<char>>;

impl View for Arrival {
    type V = ArrivalModel;

    open spec fn view(&self) -> ArrivalModel {
        match self {
            Arrival::Start { chat_id, msg_id } => Arrival::Start { chat_id: *chat_id, msg_id: *msg_id },
            Arrival::ControlKnown { chat_id, msg_id } => Arrival::ControlKnown { chat_id: *chat_id, msg_id: *msg_id },
            Arrival::Loaded { chat_id, control } => Arrival::Loaded { chat_id: *chat_id, control: control@ },
            Arrival::UserReady { chat_id, control, message } => Arrival::UserReady { chat_id: *chat_id, control: control@, message: *message },
            Arrival::RoomKnown { chat_id, control, message, localpart } => Arrival::RoomKnown { chat_id: *chat_id, control: control@, message: *message, localpart: localpart@ },
            Arrival::Noticed { room_id, message, localpart } => Arrival::Noticed { room_id: room_id@, message: *message, localpart: localpart@ },
            Arrival::Finish => Arrival::Finish,
        }
    }
}

/// How it is said that a message could not be sent.
#[derive(Debug, PartialEq, Eq)]
pub enum Failure<T = String> {
    Start { chat_id: u32, msg_id: u32 },
    Loaded { chat_id: u32 },
    UserReady { chat_id: u32 },
    RoomKnown { localpart: T },
    RoomTried { localpart: T, room_id: T },
    ControlKnown { localpart: T },
    ControlTried { localpart: T, room_id: T },
    Finish,
}

/// The same over mathematical text.
pub type FailureModel = Failure<Seq<char>>;

impl View for Failure {
    type V = FailureModel;

    open spec fn view(&self) -> FailureModel {
        match self {
            Failure::Start { chat_id, msg_id } => Failure::Start { chat_id: *chat_id, msg_id: *msg_id },
            Failure::Loaded { chat_id } => Failure::Loaded { chat_id: *chat_id },
            Failure::UserReady { chat_id } => Failure::UserReady { chat_id: *chat_id },
            Failure::RoomKnown { localpart } => Failure::RoomKnown { localpart: localpart@ },
            Failure::RoomTried { localpart, room_id } => Failure::RoomTried { localpart: localpart@, room_id: room_id@ },
            Failure::ControlKnown { localpart } => Failure::ControlKnown { localpart: localpart@ },
            Failure::ControlTried { localpart, room_id } => Failure::ControlTried { localpart: localpart@, room_id: room_id@ },
            Failure::Finish => Failure::Finish,
        }
    }
}

/// How a report is dealt with: by the handler that it has, or by logging it.
pub open spec fn callback_next(s: CallbackModel, reply: ReplyModel) -> StepModel {
    match (s, reply) {
        (Callback::Start { event }, Reply::Start) => match event {
            DeltaEvent::IncomingMsg { chat_id, msg_id } => Step::Call(
                Task::Arrival(Arrival::Start { chat_id, msg_id }),
                Task::Callback(Callback::Handled),
            ),
            DeltaEvent::MsgDelivered { chat_id, msg_id } => Step::Call(
                Task::Delivery(Delivery::Delivered { chat_id, msg_id }),
                Task::Callback(Callback::Handled),
            ),
            DeltaEvent::MsgFailed { chat_id, msg_id } => Step::Call(
                Task::Failure(Failure::Start { chat_id, msg_id }),
                Task::Callback(Callback::Handled),
            ),
            DeltaEvent::MsgRead { chat_id, msg_id, contact_id } => Step::Call(
                Task::Delivery(Delivery::Read { chat_id, msg_id, contact_id }),
                Task::Callback(Callback::Handled),
            ),
            DeltaEvent::ContactsChanged { contact: Some(contact_id), .. } => Step::Call(
                Task::Delivery(Delivery::ContactChanged { contact_id }),
                Task::Callback(Callback::Handled),
            ),
            DeltaEvent::ContactsChanged { contact: None, shown } | DeltaEvent::Other { shown }
            | DeltaEvent::Info { text: shown } => host(
                HostRequest::Log { level: LogLevel::Info, text: shown },
                Task::Callback(Callback::Handled),
            ),
            DeltaEvent::Warning { text } => host(
                HostRequest::Log { level: LogLevel::Warning, text },
                Task::Callback(Callback::Handled),
            ),
            DeltaEvent::Error { text } => host(
                HostRequest::Log { level: LogLevel::Error, text },
                Task::Callback(Callback::Handled),
            ),
        },
        (Callback::Handled, reply) => settled(reply),
        _ => Step::Mismatch,
    }
}

/// Goes on with dealing with a report.
pub(crate) fn callback_resume(s: Callback, reply: Reply) -> (step: Step)
    ensures
        step@ == callback_next(s@, reply@),
{
    match (s, reply) {
        (Callback::Start { event }, Reply::Start) => match event {
            DeltaEvent::IncomingMsg { chat_id, msg_id } => Step::Call(
                Task::Arrival(Arrival::Start { chat_id, msg_id }),
                Task::Callback(Callback::Handled),
            ),
            DeltaEvent::MsgDelivered { chat_id, msg_id } => Step::Call(
                Task::Delivery(Delivery::Delivered { chat_id, msg_id }),
                Task::Callback(Callback::Handled),
            ),
            DeltaEvent::MsgFailed { chat_id, msg_id } => Step::Call(
                Task::Failure(Failure::Start { chat_id, msg_id }),
                Task::Callback(Callback::Handled),
            ),
            DeltaEvent::MsgRead { chat_id, msg_id, contact_id } => Step::Call(
                Task::Delivery(Delivery::Read { chat_id, msg_id, contact_id }),
                Task::Callback(Callback::Handled),
            ),
            DeltaEvent::ContactsChanged { contact: Some(contact_id), .. } => Step::Call(
                Task::Delivery(Delivery::ContactChanged { contact_id }),
                Task::Callback(Callback::Handled),
            ),
            DeltaEvent::ContactsChanged { contact: None, shown } | DeltaEvent::Other { shown }
            | DeltaEvent::Info { text: shown } => ask_host(
                HostRequest::Log { level: LogLevel::Info, text: shown },
                Task::Callback(Callback::Handled),
            ),
            DeltaEvent::Warning { text } => ask_host(
                HostRequest::Log { level: LogLevel::Warning, text },
                Task::Callback(Callback::Handled),
            ),
            DeltaEvent::Error { text } => ask_host(
                HostRequest::Log { level: LogLevel::Error, text },
                Task::Callback(Callback::Handled),
            ),
        },
        (Callback::Handled, reply) => settle(reply),
        _ => Step::Mismatch,
    }
}

/// Deals with something that the e-mail core reports.
pub fn callback_delta_event(event: DeltaEvent) -> (t: Task)
    ensures
        t@ == TaskModel::Callback(Callback::Start { event: event@ }),
{
    Task::Callback(Callback::Start { event })
}

/// Marks the event of a message as read in a room; does nothing where no event is known.
pub open spec fn mark_read(
    who: Actor<Seq<char>>,
    room_id: Seq<char>,
    msg_id: u32,
    caches: Caches,
) -> StepModel {
    if caches.events.contains_key(msg_id) {
        matrix(
            MatrixRequest::ReadMarker {
                who,
                room: room_id,
                fully_read: caches.events[msg_id],
                receipt: caches.events[msg_id],
            },
            Task::Delivery(Delivery::Finish),
        )
    } else {
        Step::Return(Value::Unit)
    }
}

/// How the room of a chat follows what becomes of a message. Once it is delivered the bridge
/// marks it as read, once a contact has read it the user of the contact does. When a contact
/// has changed, its user is made ready anew.
pub open spec fn delivery_next(s: DeliveryModel, reply: ReplyModel, caches: Caches) -> StepModel {
    match (s, reply) {
        (Delivery::ContactChanged { contact_id }, Reply::Start) => Step::Call(
            Task::EmailUser(EmailUser::ById { contact_id, refresh: true }),
            Task::Delivery(Delivery::Finish),
        ),
        (Delivery::Delivered { chat_id, msg_id }, Reply::Start) => Step::Call(
            Task::Settings(Settings::GetRoom { chat_id }),
            Task::Delivery(Delivery::DeliveredRoom { msg_id }),
        ),
        (Delivery::DeliveredRoom { msg_id }, Reply::Got(Value::MaybeText(room))) => match room {
            Some(room_id) => matrix(
                MatrixRequest::IsJoined { who: Actor::Main, room: room_id },
                Task::Delivery(Delivery::DeliveredTried { msg_id, room_id }),
            ),
            None => Step::Return(Value::Unit),
        },
        (Delivery::DeliveredTried { msg_id, room_id }, Reply::Got(Value::Flag(joined))) => {
            if joined {
                mark_read(Actor::Main, room_id, msg_id, caches)
            } else {
                Step::Return(Value::Unit)
            }
        },
        (Delivery::Read { chat_id, msg_id, contact_id }, Reply::Start) => Step::Call(
            Task::Settings(Settings::GetRoom { chat_id }),
            Task::Delivery(Delivery::ReadRoom { msg_id, contact_id }),
        ),
        (Delivery::ReadRoom { msg_id, contact_id }, Reply::Got(Value::MaybeText(room))) => {
            match room {
                Some(room_id) => Step::Call(
                    Task::EmailUser(EmailUser::ById { contact_id, refresh: false }),
                    Task::Delivery(Delivery::ReadUser { msg_id, room_id }),
                ),
                None => Step::Return(Value::Unit),
            }
        },
        (
            Delivery::ReadUser { msg_id, room_id },
            Reply::Got(Value::EmailUser { localpart, .. }),
        ) => mark_read(Actor::User(localpart), room_id, msg_id, caches),
        (Delivery::ReadUser { .. }, Reply::Failed(_)) => Step::Return(Value::Unit),
        (Delivery::Finish, reply) => finished(reply),
        _ => Step::Mismatch,
    }
}

fn read_up_to(who: Actor, room_id: String, msg_id: u32, da: &DeltaAppservice) -> (s: Step)
    ensures
        s@ == mark_read(who@, room_id@, msg_id, da@),
{
    match da.event_of(msg_id) {
        Some(event_id) => ask_matrix(
            MatrixRequest::ReadMarker {
                who,
                room: room_id,
                fully_read: event_id.clone(),
                receipt: event_id,
            },
            Task::Delivery(Delivery::Finish),
        ),
        None => done(),
    }
}

/// Goes on with following what becomes of a message.
pub(crate) fn delivery_resume(s: Delivery, reply: Reply, da: &DeltaAppservice) -> (step: Step)
    ensures
        step@ == delivery_next(s@, reply@, da@),
{
    match (s, reply) {
        (Delivery::ContactChanged { contact_id }, Reply::Start) => Step::Call(
            Task::EmailUser(EmailUser::ById { contact_id, refresh: true }),
            Task::Delivery(Delivery::Finish),
        ),
        (Delivery::Delivered { chat_id, msg_id }, Reply::Start) => Step::Call(
            Task::Settings(Settings::GetRoom { chat_id }),
            Task::Delivery(Delivery::DeliveredRoom { msg_id }),
        ),
        (Delivery::DeliveredRoom { msg_id }, Reply::Got(Value::MaybeText(room))) => match room {
            Some(room_id) => ask_matrix(
                MatrixRequest::IsJoined { who: Actor::Main, room: room_id.clone() },
                Task::Delivery(Delivery::DeliveredTried { msg_id, room_id }),
            ),
            None => done(),
        },
        (Delivery::DeliveredTried { msg_id, room_id }, Reply::Got(Value::Flag(joined))) => {
            if joined {
                read_up_to(Actor::Main, room_id, msg_id, da)
            } else {
                done()
            }
        },
        (Delivery::Read { chat_id, msg_id, contact_id }, Reply::Start) => Step::Call(
            Task::Settings(Settings::GetRoom { chat_id }),
            Task::Delivery(Delivery::ReadRoom { msg_id, contact_id }),
        ),
        (Delivery::ReadRoom { msg_id, contact_id }, Reply::Got(Value::MaybeText(room))) => {
            match room {
                Some(room_id) => Step::Call(
                    Task::EmailUser(EmailUser::ById { contact_id, refresh: false }),
                    Task::Delivery(Delivery::ReadUser { msg_id, room_id }),
                ),
                None => done(),
            }
        },
        (
            Delivery::ReadUser { msg_id, room_id },
            Reply::Got(Value::EmailUser { localpart, .. }),
        ) => read_up_to(Actor::User(localpart), room_id, msg_id, da),
        (Delivery::ReadUser { .. }, Reply::Failed(_)) => done(),
        (Delivery::Finish, reply) => finish(reply),
        _ => Step::Mismatch,
    }
}

/// How an incoming message is brought over, by the user of its author: into the room of its
/// chat, which then counts as noticed, or into the control room where the chat has none. Without
/// a control room nothing happens but a line in the log.
pub open spec fn arrival_next(s: ArrivalModel, reply: ReplyModel) -> StepModel {
    match (s, reply) {
        (Arrival::Start { chat_id, msg_id }, Reply::Start) => Step::Call(
            Task::Settings(Settings::GetControlRoomId),
            Task::Arrival(Arrival::ControlKnown { chat_id, msg_id }),
        ),
        (Arrival::ControlKnown { chat_id, msg_id }, Reply::Got(Value::MaybeText(room))) => {
            match room {
                Some(control) => delta(
                    DeltaRequest::LoadMessage { id: msg_id },
                    Task::Arrival(Arrival::Loaded { chat_id, control }),
                ),
                None => noted(
                    LogLevel::Error,
                    NOWHERE_TO_GO@,
                    Task::Arrival(Arrival::Finish),
                ),
            }
        },
        (Arrival::Loaded { chat_id, control }, Reply::Message(message)) => Step::Call(
            Task::EmailUser(EmailUser::ById { contact_id: message.from_id, refresh: false }),
            Task::Arrival(Arrival::UserReady { chat_id, control, message }),
        ),
        (Arrival::Loaded { .. }, Reply::Failed(error)) => Step::Panic(error),
        (
            Arrival::UserReady { chat_id, control, message },
            Reply::Got(Value::EmailUser { localpart, .. }),
        ) => Step::Call(
            Task::Settings(Settings::GetRoom { chat_id }),
            Task::Arrival(Arrival::RoomKnown { chat_id, control, message, localpart }),
        ),
        (Arrival::UserReady { .. }, Reply::Failed(error)) => Step::Raise(error),
        (
            Arrival::RoomKnown { chat_id, control, message, localpart },
            Reply::Got(Value::MaybeText(room)),
        ) => match room {
            Some(room_id) => delta(
                DeltaRequest::MarkNoticed { chat: chat_id },
                Task::Arrival(Arrival::Noticed { room_id, message, localpart }),
            ),
            None => Step::Call(
                Task::Bridge(
                    Bridge::Start { who: Actor::User(localpart), room_id: control, message },
                ),
                Task::Arrival(Arrival::Finish),
            ),
        },
        (Arrival::Noticed { room_id, message, localpart }, Reply::Got(_)) => Step::Call(
            Task::Bridge(Bridge::Start { who: Actor::User(localpart), room_id, message }),
            Task::Arrival(Arrival::Finish),
        ),
        (Arrival::Noticed { .. }, Reply::Failed(error)) => Step::Panic(error),
        (Arrival::Finish, reply) => finished(reply),
        _ => Step::Mismatch,
    }
}

/// Goes on with bringing over an incoming message.
pub(crate) fn arrival_resume(s: Arrival, reply: Reply) -> (step: Step)
    ensures
        step@ == arrival_next(s@, reply@),
{
    match (s, reply) {
        (Arrival::Start { chat_id, msg_id }, Reply::Start) => Step::Call(
            Task::Settings(Settings::GetControlRoomId),
            Task::Arrival(Arrival::ControlKnown { chat_id, msg_id }),
        ),
        (Arrival::ControlKnown { chat_id, msg_id }, Reply::Got(Value::MaybeText(room))) => {
            match room {
                Some(control) => ask_delta(
                    DeltaRequest::LoadMessage { id: msg_id },
                    Task::Arrival(Arrival::Loaded { chat_id, control }),
                ),
                None => note(
                    LogLevel::Error,
                    NOWHERE_TO_GO.to_owned(),
                    Task::Arrival(Arrival::Finish),
                ),
            }
        },
        (Arrival::Loaded { chat_id, control }, Reply::Message(message)) => Step::Call(
            Task::EmailUser(EmailUser::ById { contact_id: message.from_id, refresh: false }),
            Task::Arrival(Arrival::UserReady { chat_id, control, message }),
        ),
        (Arrival::Loaded { .. }, Reply::Failed(error)) => Step::Panic(error),
        (
            Arrival::UserReady { chat_id, control, message },
            Reply::Got(Value::EmailUser { localpart, .. }),
        ) => Step::Call(
            Task::Settings(Settings::GetRoom { chat_id }),
            Task::Arrival(Arrival::RoomKnown { chat_id, control, message, localpart }),
        ),
        (Arrival::UserReady { .. }, Reply::Failed(error)) => Step::Raise(error),
        (
            Arrival::RoomKnown { chat_id, control, message, localpart },
            Reply::Got(Value::MaybeText(room)),
        ) => match room {
            Some(room_id) => ask_delta(
                DeltaRequest::MarkNoticed { chat: chat_id },
                Task::Arrival(Arrival::Noticed { room_id, message, localpart }),
            ),
            None => Step::Call(
                Task::Bridge(
                    Bridge::Start { who: Actor::User(localpart), room_id: control, message },
                ),
                Task::Arrival(Arrival::Finish),
            ),
        },
        (Arrival::Noticed { room_id, message, localpart }, Reply::Got(_)) => Step::Call(
            Task::Bridge(Bridge::Start { who: Actor::User(localpart), room_id, message }),
            Task::Arrival(Arrival::Finish),
        ),
        (Arrival::Noticed { .. }, Reply::Failed(error)) => Step::Panic(error),
        (Arrival::Finish, reply) => finish(reply),
        _ => Step::Mismatch,
    }
}

/// Says in a room that sending has failed.
pub open spec fn complain(localpart: Seq<char>, room_id: Seq<char>) -> StepModel {
    matrix(
        MatrixRequest::SendText {
            who: Actor::User(localpart),
            room: room_id,
            text: SENDING_FAILED@,
        },
        Task::Failure(Failure::Finish),
    )
}

/// Asks for the control room.
pub open spec fn turn_to_control(localpart: Seq<char>) -> StepModel {
    Step::Call(
        Task::Settings(Settings::GetControlRoomId),
        Task::Failure(Failure::ControlKnown { localpart }),
    )
}

/// How it is said that a message could not be sent, by the user of its author: in the room of the
/// chat if the user is in it, else in the control room if the user is in that.
pub open spec fn failure_next(s: FailureModel, reply: ReplyModel) -> StepModel {
    match (s, reply) {
        (Failure::Start { chat_id, msg_id }, Reply::Start) => delta(
            DeltaRequest::LoadMessage { id: msg_id },
            Task::Failure(Failure::Loaded { chat_id }),
        ),
        (Failure::Loaded { chat_id }, Reply::Message(message)) => Step::Call(
            Task::EmailUser(EmailUser::ById { contact_id: message.from_id, refresh: false }),
            Task::Failure(Failure::UserReady { chat_id }),
        ),
        (Failure::Loaded { .. }, Reply::Failed(error)) => Step::Panic(error),
        (Failure::UserReady { chat_id }, Reply::Got(Value::EmailUser { localpart, .. })) => Step::Call(
            Task::Settings(Settings::GetRoom { chat_id }),
            Task::Failure(Failure::RoomKnown { localpart }),
        ),
        (Failure::UserReady { .. }, Reply::Failed(error)) => Step::Raise(error),
        (Failure::RoomKnown { localpart }, Reply::Got(Value::MaybeText(room))) => match room {
            Some(room_id) => matrix(
                MatrixRequest::IsJoined { who: Actor::User(localpart), room: room_id },
                Task::Failure(Failure::RoomTried { localpart, room_id }),
            ),
            None => turn_to_control(localpart),
        },
        (Failure::RoomTried { localpart, room_id }, Reply::Got(Value::Flag(joined))) => if joined {
            complain(localpart, room_id)
        } else {
            turn_to_control(localpart)
        },
        (Failure::ControlKnown { localpart }, Reply::Got(Value::MaybeText(room))) => match room {
            Some(room_id) => matrix(
                MatrixRequest::IsJoined { who: Actor::User(localpart), room: room_id },
                Task::Failure(Failure::ControlTried { localpart, room_id }),
            ),
            None => Step::Return(Value::Unit),
        },
        (Failure::ControlTried { localpart, room_id }, Reply::Got(Value::Flag(joined))) => {
            if joined {
                complain(localpart, room_id)
            } else {
                Step::Return(Value::Unit)
            }
        },
        (Failure::Finish, reply) => finished(reply),
        _ => Step::Mismatch,
    }
}

fn complain_in(localpart: String, room_id: String) -> (s: Step)
    ensures
        s@ == complain(localpart@, room_id@),
{
    ask_matrix(
        MatrixRequest::SendText {
            who: Actor::User(localpart),
            room: room_id,
            text: SENDING_FAILED.to_owned(),
        },
        Task::Failure(Failure::Finish),
    )
}

fn seek_control(localpart: String) -> (s: Step)
    ensures
        s@ == turn_to_control(localpart@),
{
    Step::Call(
        Task::Settings(Settings::GetControlRoomId),
        Task::Failure(Failure::ControlKnown { localpart }),
    )
}

/// Goes on with saying that a message could not be sent.
pub(crate) fn failure_resume(s: Failure, reply: Reply) -> (step: Step)
    ensures
        step@ == failure_next(s@, reply@),
{
    match (s, reply) {
        (Failure::Start { chat_id, msg_id }, Reply::Start) => ask_delta(
            DeltaRequest::LoadMessage { id: msg_id },
            Task::Failure(Failure::Loaded { chat_id }),
        ),
        (Failure::Loaded { chat_id }, Reply::Message(message)) => Step::Call(
            Task::EmailUser(EmailUser::ById { contact_id: message.from_id, refresh: false }),
            Task::Failure(Failure::UserReady { chat_id }),
        ),
        (Failure::Loaded { .. }, Reply::Failed(error)) => Step::Panic(error),
        (Failure::UserReady { chat_id }, Reply::Got(Value::EmailUser { localpart, .. })) => Step::Call(
            Task::Settings(Settings::GetRoom { chat_id }),
            Task::Failure(Failure::RoomKnown { localpart }),
        ),
        (Failure::UserReady { .. }, Reply::Failed(error)) => Step::Raise(error),
        (Failure::RoomKnown { localpart }, Reply::Got(Value::MaybeText(room))) => match room {
            Some(room_id) => ask_matrix(
                MatrixRequest::IsJoined {
                    who: Actor::User(localpart.clone()),
                    room: room_id.clone(),
                },
                Task::Failure(Failure::RoomTried { localpart, room_id }),
            ),
            None => seek_control(localpart),
        },
        (Failure::RoomTried { localpart, room_id }, Reply::Got(Value::Flag(joined))) => {
            if joined {
                complain_in(localpart, room_id)
            } else {
                seek_control(localpart)
            }
        },
        (Failure::ControlKnown { localpart }, Reply::Got(Value::MaybeText(room))) => match room {
            Some(room_id) => ask_matrix(
                MatrixRequest::IsJoined {
                    who: Actor::User(localpart.clone()),
                    room: room_id.clone(),
                },
                Task::Failure(Failure::ControlTried { localpart, room_id }),
            ),
            None => done(),
        },
        (Failure::ControlTried { localpart, room_id }, Reply::Got(Value::Flag(joined))) => {
            if joined {
                complain_in(localpart, room_id)
            } else {
                done()
            }
        },
        (Failure::Finish, reply) => finish(reply),
        _ => Step::Mismatch,
    }
}

}
