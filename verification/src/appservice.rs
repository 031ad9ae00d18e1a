//! What the bridge remembers, and the users that stand for contacts.
use dashmap::DashMap;
use vstd::prelude::*;

use crate::numbers::{decimal, digits, parse_u32, read_unsigned};
use crate::outside::{
    cache_get, cache_insert, cached, is_room_id, new_cache, nothing_cached, parse_user_id,
    room_id_is_valid, user_id_parts,
};
use crate::protocol::{
    ask_delta, ask_matrix, delta, dup_contact, finish, finished, matrix, missing, note, noted,
    settle, settled, Actor, ContactInfo, DeltaRequest, LogLevel, MatrixRequest, Reply, ReplyModel, Step, StepModel,
    Value, MISSING,
};
use crate::task::{Task, TaskModel};
use crate::text::{holds, join2, opt_text};
use crate::util::{addr_to_localpart, localpart_of};

verus! {

/// The contact that stands for the owner of the e-mail account.
pub const CONTACT_SELF: u32 = 1;

/// The name of the owner of the account where none is set.
pub const SELF_NAME: &'static str = "Me";

/// The key that the owner of the bridge is kept under.
pub const OWNER_KEY: &'static str = "ui.appservice.owner_user_id";

/// The key that the control room is kept under.
pub const CONTROL_ROOM_KEY: &'static str = "ui.appservice.control_room_id";

/// What is logged before the control room that is kept.
pub const CONTROL_ROOM_NOTE: &'static str = "control room: ";

/// What is logged where no control room is kept.
pub const NO_CONTROL_ROOM: &'static str = "no control room configured!";

/// What is logged behind a user that could not be registered.
pub const REGISTERED_ALREADY: &'static str = ": user already registered, ignoring error";

/// The key that the chat of the command line is kept under.
pub const REPL_CHAT_KEY: &'static str = "ui.appservice.repl_active_chat_id";

/// What the bridge's other keys begin with.
pub const CUSTOM_PREFIX: &'static str = "ui.appservice.custom.";

/// What the keys begin with that rooms are given their chats under.
pub const CHAT_BY_ROOM_PREFIX: &'static str = "chat_id_by_room_id.";

/// What the keys begin with that chats are given their rooms under.
pub const ROOM_BY_CHAT_PREFIX: &'static str = "room_id_by_chat_id.";

/// What the bridge keeps in memory.
pub struct Caches {
    /// The user, by its localpart, that is ready to act for a contact.
    pub clients: Map<u32, Seq<char>>,
    /// The Matrix event of a message.
    pub events: Map<u32, Seq<char>>,
}

/// The caches of a bridge that has just been started.
pub open spec fn empty_caches() -> Caches {
    Caches { clients: nothing_cached(), events: nothing_cached() }
}

/// The bridge between a Matrix homeserver and the e-mail core.
pub struct DeltaAppservice {
    client_cache: DashMap<u32, String>,
    event_message_cache: DashMap<u32, String>,
}

impl View for DeltaAppservice {
    type V = Caches;

    closed spec fn view(&self) -> Caches {
        Caches { clients: cached(self.client_cache), events: cached(self.event_message_cache) }
    }
}

/// The reading and writing of what the bridge keeps in the configuration.
#[derive(Debug, PartialEq, Eq)]
pub enum Settings<T = String> {
    GetOwner,
    GotOwner,
    SetOwner { user_id: T },
    GetControlRoomId,
    GotControlRoomId,
    SetControlRoomId { room_id: T },
    SetReplChat { chat_id: u32 },
    GetReplChat,
    GotReplChat,
    GetControlRoom,
    ControlRoomKnown,
    ControlRoomNoted { room_id: T },
    ControlRoomMissed,
    ControlRoomTried { room_id: T },
    Read { key: T },
    Write { key: T, value: Option<T> },
    Clear { room_id: T, chat_id: u32 },
    ClearOther { chat_id: u32 },
    Link { room_id: T, chat_id: u32 },
    LinkOther { room_id: T, chat_id: u32 },
    GetChat { room_id: T },
    GotChat,
    GetRoom { chat_id: u32 },
    GotRoom,
    /// Wait for a setting, which must not fail.
    Fetched,
    /// Wait for something to be written; the caller learns of a failure.
    Saved,
    /// Wait for something to be written, which must not fail.
    Kept,
}

/// The same over mathematical text.
pub type SettingsModel = Settings<Seq<char>>;

impl View for Settings {
    type V = SettingsModel;

    open spec fn view(&self) -> SettingsModel {
        match self {
            Settings::GetOwner => Settings::GetOwner,
            Settings::GotOwner => Settings::GotOwner,
            Settings::SetOwner { user_id } => Settings::SetOwner { user_id: user_id@ },
            Settings::GetControlRoomId => Settings::GetControlRoomId,
            Settings::GotControlRoomId => Settings::GotControlRoomId,
            Settings::SetControlRoomId { room_id } => Settings::SetControlRoomId { room_id: room_id@ },
            Settings::SetReplChat { chat_id } => Settings::SetReplChat { chat_id: *chat_id },
            Settings::GetReplChat => Settings::GetReplChat,
            Settings::GotReplChat => Settings::GotReplChat,
            Settings::GetControlRoom => Settings::GetControlRoom,
            Settings::ControlRoomKnown => Settings::ControlRoomKnown,
            Settings::ControlRoomNoted { room_id } => Settings::ControlRoomNoted { room_id: room_id@ },
            Settings::ControlRoomMissed => Settings::ControlRoomMissed,
            Settings::ControlRoomTried { room_id } => Settings::ControlRoomTried { room_id: room_id@ },
            Settings::Read { key } => Settings::Read { key: key@ },
            Settings::Write { key, value } => Settings::Write { key: key@, value: opt_text(*value) },
            Settings::Clear { room_id, chat_id } => Settings::Clear { room_id: room_id@, chat_id: *chat_id },
            Settings::ClearOther { chat_id } => Settings::ClearOther { chat_id: *chat_id },
            Settings::Link { room_id, chat_id } => Settings::Link { room_id: room_id@, chat_id: *chat_id },
            Settings::LinkOther { room_id, chat_id } => Settings::LinkOther { room_id: room_id@, chat_id: *chat_id },
            Settings::GetChat { room_id } => Settings::GetChat { room_id: room_id@ },
            Settings::GotChat => Settings::GotChat,
            Settings::GetRoom { chat_id } => Settings::GetRoom { chat_id: *chat_id },
            Settings::GotRoom => Settings::GotRoom,
            Settings::Fetched => Settings::Fetched,
            Settings::Saved => Settings::Saved,
            Settings::Kept => Settings::Kept,
        }
    }
}

/// How the user that stands for a contact is made ready.
#[derive(Debug, PartialEq, Eq)]
pub enum EmailUser<T = String> {
    ById { contact_id: u32, refresh: bool },
    Loaded { refresh: bool },
    Known { contact: ContactInfo },
    Start { contact: ContactInfo, refresh: bool },
    Registered { contact: ContactInfo, localpart: T },
    Ready { contact: ContactInfo, localpart: T },
    SelfNamed { contact_id: u32, localpart: T },
    Named { contact_id: u32, localpart: T, wanted: T },
    Renamed { contact_id: u32, localpart: T },
    RoomKnown { contact_id: u32, localpart: T },
    InviteTried { contact_id: u32, localpart: T, room_id: T },
    Invitable { contact_id: u32, localpart: T, room_id: T },
    Invited { contact_id: u32, localpart: T, room_id: T },
    JoinTried { contact_id: u32, localpart: T, room_id: T },
    Joined { contact_id: u32, localpart: T },
}

/// The same over mathematical text.
pub type EmailUserModel = EmailUser<Seq<char>>;

impl View for EmailUser {
    type V = EmailUserModel;

    open spec fn view(&self) -> EmailUserModel {
        match self {
            EmailUser::ById { contact_id, refresh } => EmailUser::ById { contact_id: *contact_id, refresh: *refresh },
            EmailUser::Loaded { refresh } => EmailUser::Loaded { refresh: *refresh },
            EmailUser::Known { contact } => EmailUser::Known { contact: *contact },
            EmailUser::Start { contact, refresh } => EmailUser::Start { contact: *contact, refresh: *refresh },
            EmailUser::Registered { contact, localpart } => EmailUser::Registered { contact: *contact, localpart: localpart@ },
            EmailUser::Ready { contact, localpart } => EmailUser::Ready { contact: *contact, localpart: localpart@ },
            EmailUser::SelfNamed { contact_id, localpart } => EmailUser::SelfNamed { contact_id: *contact_id, localpart: localpart@ },
            EmailUser::Named { contact_id, localpart, wanted } => EmailUser::Named { contact_id: *contact_id, localpart: localpart@, wanted: wanted@ },
            EmailUser::Renamed { contact_id, localpart } => EmailUser::Renamed { contact_id: *contact_id, localpart: localpart@ },
            EmailUser::RoomKnown { contact_id, localpart } => EmailUser::RoomKnown { contact_id: *contact_id, localpart: localpart@ },
            EmailUser::InviteTried { contact_id, localpart, room_id } => EmailUser::InviteTried { contact_id: *contact_id, localpart: localpart@, room_id: room_id@ },
            EmailUser::Invitable { contact_id, localpart, room_id } => EmailUser::Invitable { contact_id: *contact_id, localpart: localpart@, room_id: room_id@ },
            EmailUser::Invited { contact_id, localpart, room_id } => EmailUser::Invited { contact_id: *contact_id, localpart: localpart@, room_id: room_id@ },
            EmailUser::JoinTried { contact_id, localpart, room_id } => EmailUser::JoinTried { contact_id: *contact_id, localpart: localpart@, room_id: room_id@ },
            EmailUser::Joined { contact_id, localpart } => EmailUser::Joined { contact_id: *contact_id, localpart: localpart@ },
        }
    }
}

/// The full key of a setting of the bridge.
pub open spec fn custom_key(key: Seq<char>) -> Seq<char> {
    CUSTOM_PREFIX@ + key
}

/// The setting that gives a room its chat.
pub open spec fn chat_by_room(room_id: Seq<char>) -> Seq<char> {
    CHAT_BY_ROOM_PREFIX@ + room_id
}

/// The setting that gives a chat its room.
pub open spec fn room_by_chat(chat_id: u32) -> Seq<char> {
    ROOM_BY_CHAT_PREFIX@ + digits(chat_id as nat)
}

fn chat_by_room_key(room_id: &str) -> (r: String)
    ensures
        r@ == chat_by_room(room_id@),
{
    join2(CHAT_BY_ROOM_PREFIX, room_id)
}

fn room_by_chat_key(chat_id: u32) -> (r: String)
    ensures
        r@ == room_by_chat(chat_id),
{
    join2(ROOM_BY_CHAT_PREFIX, decimal(chat_id as u64).as_str())
}

/// The chat that a stored text stands for; no chat where it is no number.
pub open spec fn chat_number(stored: Option<Seq<char>>) -> u32 {
    match stored {
        Some(text) => match read_unsigned(text, 0xffff_ffff) {
            Ok(n) => n as u32,
            Err(_) => 0,
        },
        None => 0,
    }
}

/// How the reading and writing of settings goes on.
pub open spec fn settings_next(s: SettingsModel, reply: ReplyModel) -> StepModel {
    match (s, reply) {
        (Settings::GetOwner, Reply::Start) => delta(
            DeltaRequest::UiGet { key: OWNER_KEY@ },
            Task::Settings(Settings::GotOwner),
        ),
        (Settings::GotOwner, Reply::Got(Value::MaybeText(Some(user_id)))) => match user_id_parts(
            user_id,
        ) {
            Ok(_) => Step::Return(Value::Text(user_id)),
            Err(error) => Step::Panic(error),
        },
        (Settings::GotOwner, Reply::Got(Value::MaybeText(None))) => Step::Panic(MISSING@),
        (Settings::GotOwner, Reply::Failed(error)) => Step::Panic(error),
        (Settings::SetOwner { user_id }, Reply::Start) => delta(
            DeltaRequest::UiSet { key: OWNER_KEY@, value: Some(user_id) },
            Task::Settings(Settings::Saved),
        ),
        (Settings::GetControlRoomId, Reply::Start) => delta(
            DeltaRequest::UiGet { key: CONTROL_ROOM_KEY@ },
            Task::Settings(Settings::GotControlRoomId),
        ),
        (Settings::GotControlRoomId, Reply::Got(Value::MaybeText(Some(room_id)))) => if is_room_id(
            room_id,
        ) {
            Step::Return(Value::MaybeText(Some(room_id)))
        } else {
            Step::Panic(BAD_ROOM_ID@)
        },
        (Settings::GotControlRoomId, Reply::Got(Value::MaybeText(None))) => Step::Return(
            Value::MaybeText(None),
        ),
        (Settings::GotControlRoomId, Reply::Failed(error)) => Step::Panic(error),
        (Settings::SetControlRoomId { room_id }, Reply::Start) => delta(
            DeltaRequest::UiSet { key: CONTROL_ROOM_KEY@, value: Some(room_id) },
            Task::Settings(Settings::Saved),
        ),
        (Settings::SetReplChat { chat_id }, Reply::Start) => delta(
            DeltaRequest::UiSet { key: REPL_CHAT_KEY@, value: Some(digits(chat_id as nat)) },
            Task::Settings(Settings::Kept),
        ),
        (Settings::GetReplChat, Reply::Start) => delta(
            DeltaRequest::UiGet { key: REPL_CHAT_KEY@ },
            Task::Settings(Settings::GotReplChat),
        ),
        (Settings::GotReplChat, Reply::Got(Value::MaybeText(stored))) => Step::Return(
            Value::Number(chat_number(stored)),
        ),
        (Settings::GotReplChat, Reply::Failed(error)) => Step::Panic(error),
        (Settings::GetControlRoom, Reply::Start) => Step::Call(
            Task::Settings(Settings::GetControlRoomId),
            Task::Settings(Settings::ControlRoomKnown),
        ),
        (Settings::ControlRoomKnown, Reply::Got(Value::MaybeText(Some(room_id)))) => noted(
            LogLevel::Info,
            CONTROL_ROOM_NOTE@ + room_id,
            Task::Settings(Settings::ControlRoomNoted { room_id }),
        ),
        (Settings::ControlRoomKnown, Reply::Got(Value::MaybeText(None))) => noted(
            LogLevel::Warning,
            NO_CONTROL_ROOM@,
            Task::Settings(Settings::ControlRoomMissed),
        ),
        (Settings::ControlRoomNoted { room_id }, Reply::Got(_)) => matrix(
            MatrixRequest::IsJoined { who: Actor::Main, room: room_id },
            Task::Settings(Settings::ControlRoomTried { room_id }),
        ),
        (Settings::ControlRoomMissed, Reply::Got(_)) => Step::Return(Value::MaybeText(None)),
        (Settings::ControlRoomTried { room_id }, Reply::Got(Value::Flag(joined))) => Step::Return(
            Value::MaybeText(
                if joined {
                    Some(room_id)
                } else {
                    None
                },
            ),
        ),
        (Settings::Read { key }, Reply::Start) => delta(
            DeltaRequest::UiGet { key: custom_key(key) },
            Task::Settings(Settings::Fetched),
        ),
        (Settings::Write { key, value }, Reply::Start) => delta(
            DeltaRequest::UiSet { key: custom_key(key), value },
            Task::Settings(Settings::Kept),
        ),
        (Settings::Clear { room_id, chat_id }, Reply::Start) => Step::Call(
            Task::Settings(Settings::Write { key: chat_by_room(room_id), value: None }),
            Task::Settings(Settings::ClearOther { chat_id }),
        ),
        (Settings::ClearOther { chat_id }, Reply::Got(_)) => Step::Call(
            Task::Settings(Settings::Write { key: room_by_chat(chat_id), value: None }),
            Task::Settings(Settings::Kept),
        ),
        (Settings::Link { room_id, chat_id }, Reply::Start) => Step::Call(
            Task::Settings(
                Settings::Write { key: chat_by_room(room_id), value: Some(digits(chat_id as nat)) },
            ),
            Task::Settings(Settings::LinkOther { room_id, chat_id }),
        ),
        (Settings::LinkOther { room_id, chat_id }, Reply::Got(_)) => Step::Call(
            Task::Settings(Settings::Write { key: room_by_chat(chat_id), value: Some(room_id) }),
            Task::Settings(Settings::Kept),
        ),
        (Settings::GetChat { room_id }, Reply::Start) => Step::Call(
            Task::Settings(Settings::Read { key: chat_by_room(room_id) }),
            Task::Settings(Settings::GotChat),
        ),
        (Settings::GotChat, Reply::Got(Value::MaybeText(Some(stored)))) => match read_unsigned(
            stored,
            0xffff_ffff,
        ) {
            Ok(n) => Step::Return(Value::MaybeNumber(Some(n as u32))),
            Err(error) => Step::Panic(error.message()),
        },
        (Settings::GotChat, Reply::Got(Value::MaybeText(None))) => Step::Return(
            Value::MaybeNumber(None),
        ),
        (Settings::GetRoom { chat_id }, Reply::Start) => Step::Call(
            Task::Settings(Settings::Read { key: room_by_chat(chat_id) }),
            Task::Settings(Settings::GotRoom),
        ),
        (Settings::GotRoom, Reply::Got(Value::MaybeText(stored))) => Step::Return(
            Value::MaybeText(
                match stored {
                    Some(room_id) => if is_room_id(room_id) {
                        Some(room_id)
                    } else {
                        None
                    },
                    None => None,
                },
            ),
        ),
        (Settings::Fetched, Reply::Got(Value::MaybeText(value))) => Step::Return(
            Value::MaybeText(value),
        ),
        (Settings::Fetched, Reply::Failed(error)) => Step::Panic(error),
        (Settings::Saved, reply) => finished(reply),
        (Settings::Kept, reply) => settled(reply),
        _ => Step::Mismatch,
    }
}

/// Why a text that has to be a room identifier is refused.
pub const BAD_ROOM_ID: &'static str = "not a room identifier";

/// Goes on with the reading or writing of settings.
pub(crate) fn settings_resume(s: Settings, reply: Reply) -> (step: Step)
    ensures
        step@ == settings_next(s@, reply@),
{
    match (s, reply) {
        (Settings::GetOwner, Reply::Start) => ask_delta(
            DeltaRequest::UiGet { key: OWNER_KEY.to_owned() },
            Task::Settings(Settings::GotOwner),
        ),
        (Settings::GotOwner, Reply::Got(Value::MaybeText(Some(user_id)))) => match parse_user_id(
            user_id.as_str(),
        ) {
            Ok(_) => Step::Return(Value::Text(user_id)),
            Err(error) => Step::Panic(error),
        },
        (Settings::GotOwner, Reply::Got(Value::MaybeText(None))) => missing(),
        (Settings::GotOwner, Reply::Failed(error)) => Step::Panic(error),
        (Settings::SetOwner { user_id }, Reply::Start) => ask_delta(
            DeltaRequest::UiSet { key: OWNER_KEY.to_owned(), value: Some(user_id) },
            Task::Settings(Settings::Saved),
        ),
        (Settings::GetControlRoomId, Reply::Start) => ask_delta(
            DeltaRequest::UiGet { key: CONTROL_ROOM_KEY.to_owned() },
            Task::Settings(Settings::GotControlRoomId),
        ),
        (Settings::GotControlRoomId, Reply::Got(Value::MaybeText(Some(room_id)))) => {
            if room_id_is_valid(room_id.as_str()) {
                Step::Return(Value::MaybeText(Some(room_id)))
            } else {
                Step::Panic(BAD_ROOM_ID.to_owned())
            }
        },
        (Settings::GotControlRoomId, Reply::Got(Value::MaybeText(None))) => Step::Return(
            Value::MaybeText(None),
        ),
        (Settings::GotControlRoomId, Reply::Failed(error)) => Step::Panic(error),
        (Settings::SetControlRoomId { room_id }, Reply::Start) => ask_delta(
            DeltaRequest::UiSet { key: CONTROL_ROOM_KEY.to_owned(), value: Some(room_id) },
            Task::Settings(Settings::Saved),
        ),
        (Settings::SetReplChat { chat_id }, Reply::Start) => ask_delta(
            DeltaRequest::UiSet {
                key: REPL_CHAT_KEY.to_owned(),
                value: Some(decimal(chat_id as u64)),
            },
            Task::Settings(Settings::Kept),
        ),
        (Settings::GetReplChat, Reply::Start) => ask_delta(
            DeltaRequest::UiGet { key: REPL_CHAT_KEY.to_owned() },
            Task::Settings(Settings::GotReplChat),
        ),
        (Settings::GotReplChat, Reply::Got(Value::MaybeText(stored))) => {
            let chat_id: u32 = match stored {
                Some(text) => match parse_u32(text.as_str()) {
                    Ok(n) => n,
                    Err(_) => 0,
                },
                None => 0,
            };
            Step::Return(Value::Number(chat_id))
        },
        (Settings::GotReplChat, Reply::Failed(error)) => Step::Panic(error),
        (Settings::GetControlRoom, Reply::Start) => Step::Call(
            Task::Settings(Settings::GetControlRoomId),
            Task::Settings(Settings::ControlRoomKnown),
        ),
        (Settings::ControlRoomKnown, Reply::Got(Value::MaybeText(Some(room_id)))) => note(
            LogLevel::Info,
            join2(CONTROL_ROOM_NOTE, room_id.as_str()),
            Task::Settings(Settings::ControlRoomNoted { room_id }),
        ),
        (Settings::ControlRoomKnown, Reply::Got(Value::MaybeText(None))) => note(
            LogLevel::Warning,
            NO_CONTROL_ROOM.to_owned(),
            Task::Settings(Settings::ControlRoomMissed),
        ),
        (Settings::ControlRoomNoted { room_id }, Reply::Got(_)) => ask_matrix(
            MatrixRequest::IsJoined { who: Actor::Main, room: room_id.clone() },
            Task::Settings(Settings::ControlRoomTried { room_id }),
        ),
        (Settings::ControlRoomMissed, Reply::Got(_)) => Step::Return(Value::MaybeText(None)),
        (Settings::ControlRoomTried { room_id }, Reply::Got(Value::Flag(joined))) => Step::Return(
            Value::MaybeText(
                if joined {
                    Some(room_id)
                } else {
                    None
                },
            ),
        ),
        (Settings::Read { key }, Reply::Start) => ask_delta(
            DeltaRequest::UiGet { key: join2(CUSTOM_PREFIX, key.as_str()) },
            Task::Settings(Settings::Fetched),
        ),
        (Settings::Write { key, value }, Reply::Start) => ask_delta(
            DeltaRequest::UiSet { key: join2(CUSTOM_PREFIX, key.as_str()), value },
            Task::Settings(Settings::Kept),
        ),
        (Settings::Clear { room_id, chat_id }, Reply::Start) => Step::Call(
            Task::Settings(Settings::Write { key: chat_by_room_key(room_id.as_str()), value: None }),
            Task::Settings(Settings::ClearOther { chat_id }),
        ),
        (Settings::ClearOther { chat_id }, Reply::Got(_)) => Step::Call(
            Task::Settings(Settings::Write { key: room_by_chat_key(chat_id), value: None }),
            Task::Settings(Settings::Kept),
        ),
        (Settings::Link { room_id, chat_id }, Reply::Start) => Step::Call(
            Task::Settings(
                Settings::Write {
                    key: chat_by_room_key(room_id.as_str()),
                    value: Some(decimal(chat_id as u64)),
                },
            ),
            Task::Settings(Settings::LinkOther { room_id, chat_id }),
        ),
        (Settings::LinkOther { room_id, chat_id }, Reply::Got(_)) => Step::Call(
            Task::Settings(Settings::Write { key: room_by_chat_key(chat_id), value: Some(room_id) }),
            Task::Settings(Settings::Kept),
        ),
        (Settings::GetChat { room_id }, Reply::Start) => Step::Call(
            Task::Settings(Settings::Read { key: chat_by_room_key(room_id.as_str()) }),
            Task::Settings(Settings::GotChat),
        ),
        (Settings::GotChat, Reply::Got(Value::MaybeText(Some(stored)))) => match parse_u32(
            stored.as_str(),
        ) {
            Ok(n) => Step::Return(Value::MaybeNumber(Some(n))),
            Err(error) => Step::Panic(error.text()),
        },
        (Settings::GotChat, Reply::Got(Value::MaybeText(None))) => Step::Return(
            Value::MaybeNumber(None),
        ),
        (Settings::GetRoom { chat_id }, Reply::Start) => Step::Call(
            Task::Settings(Settings::Read { key: room_by_chat_key(chat_id) }),
            Task::Settings(Settings::GotRoom),
        ),
        (Settings::GotRoom, Reply::Got(Value::MaybeText(stored))) => {
            let room_id: Option<String> = match stored {
                Some(room_id) => if room_id_is_valid(room_id.as_str()) {
                    Some(room_id)
                } else {
                    None
                },
                None => None,
            };
            Step::Return(Value::MaybeText(room_id))
        },
        (Settings::Fetched, Reply::Got(Value::MaybeText(value))) => Step::Return(
            Value::MaybeText(value),
        ),
        (Settings::Fetched, Reply::Failed(error)) => Step::Panic(error),
        (Settings::Saved, reply) => finish(reply),
        (Settings::Kept, reply) => settle(reply),
        _ => Step::Mismatch,
    }
}

/// The name that the user of a contact is to have; nothing where it has to be looked up, as for
/// the owner of the account.
pub open spec fn wanted_name(contact: ContactInfo) -> Option<Seq<char>> {
    if contact.id == CONTACT_SELF {
        None
    } else {
        Some(contact.display_name@)
    }
}

/// Asks what the user is called.
pub open spec fn ask_name(contact_id: u32, localpart: Seq<char>, wanted: Seq<char>) -> StepModel {
    matrix(
        MatrixRequest::DisplayName { who: Actor::User(localpart) },
        Task::EmailUser(EmailUser::Named { contact_id, localpart, wanted }),
    )
}

/// Asks for the control room.
pub open spec fn seek_room(contact_id: u32, localpart: Seq<char>) -> StepModel {
    Step::Call(
        Task::Settings(Settings::GetControlRoom),
        Task::EmailUser(EmailUser::RoomKnown { contact_id, localpart }),
    )
}

/// Asks whether the user is in the control room.
pub open spec fn seek_membership(
    contact_id: u32,
    localpart: Seq<char>,
    room_id: Seq<char>,
) -> StepModel {
    matrix(
        MatrixRequest::IsJoined { who: Actor::User(localpart), room: room_id },
        Task::EmailUser(EmailUser::JoinTried { contact_id, localpart, room_id }),
    )
}

/// Remembers that the user of a contact is ready, and ends.
pub open spec fn ready(contact_id: u32, localpart: Seq<char>, caches: Caches) -> (
    Caches,
    StepModel,
) {
    (
        Caches { clients: caches.clients.insert(contact_id, localpart), ..caches },
        Step::Return(Value::Text(localpart)),
    )
}

/// How the user that stands for a contact is made ready: registered, named as the contact is,
/// invited to the control room and made to join it. One that is ready already is not touched,
/// unless it is to be refreshed. That a user cannot be registered, invited or made to join is
/// logged, and no reason to stop.
pub open spec fn email_user_next(s: EmailUserModel, reply: ReplyModel, caches: Caches) -> (
    Caches,
    StepModel,
) {
    match (s, reply) {
        (EmailUser::ById { contact_id, refresh }, Reply::Start) => (
            caches,
            delta(
                DeltaRequest::LoadContact { id: contact_id },
                Task::EmailUser(EmailUser::Loaded { refresh }),
            ),
        ),
        (EmailUser::Loaded { refresh }, Reply::Contact(contact)) => (
            caches,
            Step::Call(
                Task::EmailUser(EmailUser::Start { contact, refresh }),
                Task::EmailUser(EmailUser::Known { contact }),
            ),
        ),
        (EmailUser::Loaded { .. }, Reply::Failed(error)) => (caches, Step::Panic(error)),
        (EmailUser::Known { contact }, Reply::Got(Value::Text(localpart))) => (
            caches,
            Step::Return(Value::EmailUser { contact, localpart }),
        ),
        (EmailUser::Known { .. }, Reply::Failed(error)) => (caches, Step::Panic(error)),
        (EmailUser::Start { contact, refresh }, Reply::Start) => {
            let localpart = localpart_of(contact.addr@);
            if !refresh && caches.clients.contains_key(contact.id) {
                (caches, Step::Return(Value::Text(caches.clients[contact.id])))
            } else {
                (
                    caches,
                    matrix(
                        MatrixRequest::RegisterUser { localpart },
                        Task::EmailUser(EmailUser::Registered { contact, localpart }),
                    ),
                )
            }
        },
        (EmailUser::Registered { contact, localpart }, Reply::Got(_)) => (
            caches,
            matrix(
                MatrixRequest::UserClient { localpart },
                Task::EmailUser(EmailUser::Ready { contact, localpart }),
            ),
        ),
        (EmailUser::Registered { contact, localpart }, Reply::Failed(_)) => (
            caches,
            noted(
                LogLevel::Debug,
                localpart + REGISTERED_ALREADY@,
                Task::EmailUser(EmailUser::Registered { contact, localpart }),
            ),
        ),
        (EmailUser::Ready { contact, localpart }, Reply::Got(_)) => (
            caches,
            match wanted_name(contact) {
                Some(wanted) => ask_name(contact.id, localpart, wanted),
                None => delta(
                    DeltaRequest::GetDisplayname,
                    Task::EmailUser(EmailUser::SelfNamed { contact_id: contact.id, localpart }),
                ),
            },
        ),
        (EmailUser::SelfNamed { contact_id, localpart }, Reply::Got(Value::MaybeText(name))) => (
            caches,
            ask_name(
                contact_id,
                localpart,
                match name {
                    Some(name) => name,
                    None => SELF_NAME@,
                },
            ),
        ),
        (
            EmailUser::Named { contact_id, localpart, wanted },
            Reply::Got(Value::MaybeText(name)),
        ) => (
            caches,
            if name == Some(wanted) {
                seek_room(contact_id, localpart)
            } else {
                matrix(
                    MatrixRequest::SetDisplayName { who: Actor::User(localpart), name: wanted },
                    Task::EmailUser(EmailUser::Renamed { contact_id, localpart }),
                )
            },
        ),
        (EmailUser::Renamed { contact_id, localpart }, Reply::Got(_)) => (
            caches,
            seek_room(contact_id, localpart),
        ),
        (
            EmailUser::Ready { .. } | EmailUser::SelfNamed { .. } | EmailUser::Named { .. }
            | EmailUser::Renamed { .. },
            Reply::Failed(error),
        ) => (caches, Step::Raise(error)),
        (EmailUser::RoomKnown { contact_id, localpart }, Reply::Got(Value::MaybeText(room))) => {
            match room {
                Some(room_id) => (
                    caches,
                    matrix(
                        MatrixRequest::IsInvited { who: Actor::User(localpart), room: room_id },
                        Task::EmailUser(EmailUser::InviteTried { contact_id, localpart, room_id }),
                    ),
                ),
                None => ready(contact_id, localpart, caches),
            }
        },
        (
            EmailUser::InviteTried { contact_id, localpart, room_id },
            Reply::Got(Value::Flag(invited)),
        ) => (
            caches,
            if invited {
                seek_membership(contact_id, localpart, room_id)
            } else {
                matrix(
                    MatrixRequest::UserId { who: Actor::User(localpart) },
                    Task::EmailUser(EmailUser::Invitable { contact_id, localpart, room_id }),
                )
            },
        ),
        (
            EmailUser::Invitable { contact_id, localpart, room_id },
            Reply::Got(Value::MaybeText(user)),
        ) => (
            caches,
            match user {
                Some(user) => matrix(
                    MatrixRequest::InviteUser { room: room_id, user },
                    Task::EmailUser(EmailUser::Invited { contact_id, localpart, room_id }),
                ),
                None => Step::Panic(MISSING@),
            },
        ),
        (EmailUser::Invited { contact_id, localpart, room_id }, Reply::Got(_)) => (
            caches,
            seek_membership(contact_id, localpart, room_id),
        ),
        (EmailUser::Invited { contact_id, localpart, room_id }, Reply::Failed(error)) => (
            caches,
            noted(
                LogLevel::Debug,
                error,
                Task::EmailUser(EmailUser::Invited { contact_id, localpart, room_id }),
            ),
        ),
        (
            EmailUser::JoinTried { contact_id, localpart, room_id },
            Reply::Got(Value::Flag(joined)),
        ) => {
            if joined {
                ready(contact_id, localpart, caches)
            } else {
                (
                    caches,
                    matrix(
                        MatrixRequest::JoinRoom { who: Actor::User(localpart), room: room_id },
                        Task::EmailUser(EmailUser::Joined { contact_id, localpart }),
                    ),
                )
            }
        },
        (EmailUser::Joined { contact_id, localpart }, Reply::Got(_)) => ready(
            contact_id,
            localpart,
            caches,
        ),
        (EmailUser::Joined { contact_id, localpart }, Reply::Failed(error)) => (
            caches,
            noted(
                LogLevel::Debug,
                error,
                Task::EmailUser(EmailUser::Joined { contact_id, localpart }),
            ),
        ),
        _ => (caches, Step::Mismatch),
    }
}

fn request_name(contact_id: u32, localpart: String, wanted: String) -> (s: Step)
    ensures
        s@ == ask_name(contact_id, localpart@, wanted@),
{
    ask_matrix(
        MatrixRequest::DisplayName { who: Actor::User(localpart.clone()) },
        Task::EmailUser(EmailUser::Named { contact_id, localpart, wanted }),
    )
}

fn request_room(contact_id: u32, localpart: String) -> (s: Step)
    ensures
        s@ == seek_room(contact_id, localpart@),
{
    Step::Call(
        Task::Settings(Settings::GetControlRoom),
        Task::EmailUser(EmailUser::RoomKnown { contact_id, localpart }),
    )
}

fn request_membership(contact_id: u32, localpart: String, room_id: String) -> (s: Step)
    ensures
        s@ == seek_membership(contact_id, localpart@, room_id@),
{
    ask_matrix(
        MatrixRequest::IsJoined { who: Actor::User(localpart.clone()), room: room_id.clone() },
        Task::EmailUser(EmailUser::JoinTried { contact_id, localpart, room_id }),
    )
}

impl DeltaAppservice {
    /// A bridge that remembers nothing yet.
    pub fn new() -> (da: DeltaAppservice)
        ensures
            da@ == empty_caches(),
    {
        DeltaAppservice { client_cache: new_cache(), event_message_cache: new_cache() }
    }

    /// The event of a message, if one is known.
    pub fn event_of(&self, msg_id: u32) -> (r: Option<String>)
        ensures
            match r {
                Some(event) => self@.events.contains_key(msg_id) && event@ == self@.events[msg_id],
                None => !self@.events.contains_key(msg_id),
            },
    {
        cache_get(&self.event_message_cache, msg_id)
    }

    /// Remembers the event of a message.
    pub fn remember_event(&mut self, msg_id: u32, event_id: String)
        ensures
            final(self)@ == (Caches {
                events: old(self)@.events.insert(msg_id, event_id@),
                ..old(self)@
            }),
    {
        cache_insert(&mut self.event_message_cache, msg_id, event_id);
    }

    /// The user that is ready to act for a contact, if there is one.
    pub fn client_of(&self, contact_id: u32) -> (r: Option<String>)
        ensures
            match r {
                Some(localpart) => self@.clients.contains_key(contact_id) && localpart@
                    == self@.clients[contact_id],
                None => !self@.clients.contains_key(contact_id),
            },
    {
        cache_get(&self.client_cache, contact_id)
    }

    fn end_ready(&mut self, contact_id: u32, localpart: String) -> (s: Step)
        ensures
            (final(self)@, s@) == ready(contact_id, localpart@, old(self)@),
    {
        cache_insert(&mut self.client_cache, contact_id, localpart.clone());
        Step::Return(Value::Text(localpart))
    }

    /// Goes on with making a user ready.
    pub(crate) fn email_user_resume(&mut self, s: EmailUser, reply: Reply) -> (step: Step)
        ensures
            (final(self)@, step@) == email_user_next(s@, reply@, old(self)@),
    {
        match (s, reply) {
            (EmailUser::ById { contact_id, refresh }, Reply::Start) => ask_delta(
                DeltaRequest::LoadContact { id: contact_id },
                Task::EmailUser(EmailUser::Loaded { refresh }),
            ),
            (EmailUser::Loaded { refresh }, Reply::Contact(contact)) => {
                let known: ContactInfo = dup_contact(&contact);
                Step::Call(
                    Task::EmailUser(EmailUser::Start { contact, refresh }),
                    Task::EmailUser(EmailUser::Known { contact: known }),
                )
            },
            (EmailUser::Loaded { .. }, Reply::Failed(error)) => Step::Panic(error),
            (EmailUser::Known { contact }, Reply::Got(Value::Text(localpart))) => Step::Return(
                Value::EmailUser { contact, localpart },
            ),
            (EmailUser::Known { .. }, Reply::Failed(error)) => Step::Panic(error),
            (EmailUser::Start { contact, refresh }, Reply::Start) => {
                if !refresh {
                    if let Some(localpart) = self.client_of(contact.id) {
                        return Step::Return(Value::Text(localpart));
                    }
                }
                let localpart: String = addr_to_localpart(contact.addr.as_str());
                ask_matrix(
                    MatrixRequest::RegisterUser { localpart: localpart.clone() },
                    Task::EmailUser(EmailUser::Registered { contact, localpart }),
                )
            },
            (EmailUser::Registered { contact, localpart }, Reply::Got(_)) => ask_matrix(
                MatrixRequest::UserClient { localpart: localpart.clone() },
                Task::EmailUser(EmailUser::Ready { contact, localpart }),
            ),
            (EmailUser::Registered { contact, localpart }, Reply::Failed(_)) => note(
                LogLevel::Debug,
                join2(localpart.as_str(), REGISTERED_ALREADY),
                Task::EmailUser(EmailUser::Registered { contact, localpart }),
            ),
            (EmailUser::Ready { contact, localpart }, Reply::Got(_)) => {
                if contact.id == CONTACT_SELF {
                    ask_delta(
                        DeltaRequest::GetDisplayname,
                        Task::EmailUser(EmailUser::SelfNamed { contact_id: contact.id, localpart }),
                    )
                } else {
                    request_name(contact.id, localpart, contact.display_name)
                }
            },
            (
                EmailUser::SelfNamed { contact_id, localpart },
                Reply::Got(Value::MaybeText(name)),
            ) => {
                let wanted: String = match name {
                    Some(name) => name,
                    None => SELF_NAME.to_owned(),
                };
                request_name(contact_id, localpart, wanted)
            },
            (
                EmailUser::Named { contact_id, localpart, wanted },
                Reply::Got(Value::MaybeText(name)),
            ) => {
                if holds(&name, wanted.as_str()) {
                    request_room(contact_id, localpart)
                } else {
                    ask_matrix(
                        MatrixRequest::SetDisplayName {
                            who: Actor::User(localpart.clone()),
                            name: wanted,
                        },
                        Task::EmailUser(EmailUser::Renamed { contact_id, localpart }),
                    )
                }
            },
            (EmailUser::Renamed { contact_id, localpart }, Reply::Got(_)) => request_room(
                contact_id,
                localpart,
            ),
            (
                EmailUser::Ready { .. } | EmailUser::SelfNamed { .. } | EmailUser::Named { .. }
                | EmailUser::Renamed { .. },
                Reply::Failed(error),
            ) => Step::Raise(error),
            (
                EmailUser::RoomKnown { contact_id, localpart },
                Reply::Got(Value::MaybeText(room)),
            ) => match room {
                Some(room_id) => ask_matrix(
                    MatrixRequest::IsInvited {
                        who: Actor::User(localpart.clone()),
                        room: room_id.clone(),
                    },
                    Task::EmailUser(EmailUser::InviteTried { contact_id, localpart, room_id }),
                ),
                None => self.end_ready(contact_id, localpart),
            },
            (
                EmailUser::InviteTried { contact_id, localpart, room_id },
                Reply::Got(Value::Flag(invited)),
            ) => {
                if invited {
                    request_membership(contact_id, localpart, room_id)
                } else {
                    ask_matrix(
                        MatrixRequest::UserId { who: Actor::User(localpart.clone()) },
                        Task::EmailUser(EmailUser::Invitable { contact_id, localpart, room_id }),
                    )
                }
            },
            (
                EmailUser::Invitable { contact_id, localpart, room_id },
                Reply::Got(Value::MaybeText(user)),
            ) => match user {
                Some(user) => ask_matrix(
                    MatrixRequest::InviteUser { room: room_id.clone(), user },
                    Task::EmailUser(EmailUser::Invited { contact_id, localpart, room_id }),
                ),
                None => missing(),
            },
            (EmailUser::Invited { contact_id, localpart, room_id }, Reply::Got(_)) => {
                request_membership(contact_id, localpart, room_id)
            },
            (EmailUser::Invited { contact_id, localpart, room_id }, Reply::Failed(error)) => note(
                LogLevel::Debug,
                error,
                Task::EmailUser(EmailUser::Invited { contact_id, localpart, room_id }),
            ),
            (
                EmailUser::JoinTried { contact_id, localpart, room_id },
                Reply::Got(Value::Flag(joined)),
            ) => {
                if joined {
                    self.end_ready(contact_id, localpart)
                } else {
                    ask_matrix(
                        MatrixRequest::JoinRoom {
                            who: Actor::User(localpart.clone()),
                            room: room_id,
                        },
                        Task::EmailUser(EmailUser::Joined { contact_id, localpart }),
                    )
                }
            },
            (EmailUser::Joined { contact_id, localpart }, Reply::Got(_)) => {
                self.end_ready(contact_id, localpart)
            },
            (EmailUser::Joined { contact_id, localpart }, Reply::Failed(error)) => note(
                LogLevel::Debug,
                error,
                Task::EmailUser(EmailUser::Joined { contact_id, localpart }),
            ),
            _ => Step::Mismatch,
        }
    }

    /// The user of the bridge itself.
    pub fn get_main_user(&self) -> (who: Actor)
        ensures
            who@ == Actor::<Seq<char>>::Main,
    {
        Actor::Main
    }

    /// Reads who owns the bridge.
    pub fn get_owner_user_id(&self) -> (t: Task)
        ensures
            t@ == TaskModel::Settings(Settings::GetOwner),
    {
        Task::Settings(Settings::GetOwner)
    }

    /// Writes who owns the bridge.
    pub fn set_owner_user_id(&self, user_id: &str) -> (t: Task)
        ensures
            t@ == TaskModel::Settings(Settings::SetOwner { user_id: user_id@ }),
    {
        Task::Settings(Settings::SetOwner { user_id: user_id.to_owned() })
    }

    /// Reads which room is the control room.
    pub fn get_control_room_id(&self) -> (t: Task)
        ensures
            t@ == TaskModel::Settings(Settings::GetControlRoomId),
    {
        Task::Settings(Settings::GetControlRoomId)
    }

    /// Writes which room is the control room.
    pub fn set_control_room_id(&self, room_id: &str) -> (t: Task)
        ensures
            t@ == TaskModel::Settings(Settings::SetControlRoomId { room_id: room_id@ }),
    {
        Task::Settings(Settings::SetControlRoomId { room_id: room_id.to_owned() })
    }

    /// Writes which chat the command line works on.
    pub fn set_repl_active_chat_id(&self, chat_id: u32) -> (t: Task)
        ensures
            t@ == TaskModel::Settings(Settings::SetReplChat { chat_id }),
    {
        Task::Settings(Settings::SetReplChat { chat_id })
    }

    /// Reads which chat the command line works on.
    pub fn get_repl_active_chat_id(&self) -> (t: Task)
        ensures
            t@ == TaskModel::Settings(Settings::GetReplChat),
    {
        Task::Settings(Settings::GetReplChat)
    }

    /// Finds the control room, if the bridge is in it.
    pub fn get_control_room(&self) -> (t: Task)
        ensures
            t@ == TaskModel::Settings(Settings::GetControlRoom),
    {
        Task::Settings(Settings::GetControlRoom)
    }

    /// Reads a setting of the bridge.
    pub fn get_config(&self, custom_key: &str) -> (t: Task)
        ensures
            t@ == TaskModel::Settings(Settings::Read { key: custom_key@ }),
    {
        Task::Settings(Settings::Read { key: custom_key.to_owned() })
    }

    /// Writes a setting of the bridge, or removes it.
    pub fn set_config(&self, key: &str, value: Option<String>) -> (t: Task)
        ensures
            t@ == TaskModel::Settings(Settings::Write { key: key@, value: opt_text(value) }),
    {
        Task::Settings(Settings::Write { key: key.to_owned(), value })
    }

    /// Parts a room from its chat.
    pub fn clear_room_id_and_chat_id(&self, room_id: &str, chat_id: u32) -> (t: Task)
        ensures
            t@ == TaskModel::Settings(Settings::Clear { room_id: room_id@, chat_id }),
    {
        Task::Settings(Settings::Clear { room_id: room_id.to_owned(), chat_id })
    }

    /// Joins a room to its chat.
    pub fn set_room_id_with_chat_id(&self, room_id: &str, chat_id: u32) -> (t: Task)
        ensures
            t@ == TaskModel::Settings(Settings::Link { room_id: room_id@, chat_id }),
    {
        Task::Settings(Settings::Link { room_id: room_id.to_owned(), chat_id })
    }

    /// Finds the chat of a room.
    pub fn get_chat_id_by_room_id(&self, room_id: &str) -> (t: Task)
        ensures
            t@ == TaskModel::Settings(Settings::GetChat { room_id: room_id@ }),
    {
        Task::Settings(Settings::GetChat { room_id: room_id.to_owned() })
    }

    /// Finds the room of a chat.
    pub fn get_room_id_by_chat_id(&self, chat_id: u32) -> (t: Task)
        ensures
            t@ == TaskModel::Settings(Settings::GetRoom { chat_id }),
    {
        Task::Settings(Settings::GetRoom { chat_id })
    }

    /// Makes the user of a contact ready, which is found by its number; gives the contact and the
    /// user.
    pub fn get_email_user_by_id(&self, contact_id: u32, refresh: bool) -> (t: Task)
        ensures
            t@ == TaskModel::EmailUser(EmailUser::ById { contact_id, refresh }),
    {
        Task::EmailUser(EmailUser::ById { contact_id, refresh })
    }

    /// Makes the user of a contact ready.
    pub fn get_email_user(&self, contact: ContactInfo, refresh: bool) -> (t: Task)
        ensures
            t@ == TaskModel::EmailUser(EmailUser::Start { contact, refresh }),
    {
        Task::EmailUser(EmailUser::Start { contact, refresh })
    }
}

}
