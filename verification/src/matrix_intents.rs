//! What the bridge does on the Matrix side: spaces, rooms, and the messages it brings over.
use vstd::prelude::*;
use vstd::utf8::encode_utf8;

use crate::appservice::{Caches, DeltaAppservice, EmailUser, Settings, CONTACT_SELF};
use crate::compat::RoomState;
use crate::outside::{parse_user_id, room_name_is_valid, uint_of_i32, uint_of_u64, user_id_parts};
use crate::protocol::{
    ask_delta, ask_matrix, delta, done, dup_actor, finish, finished, matrix, missing, note, noted,
    settle, settled, Actor, ChatInfo, ChatItem, ChatKind, DeltaRequest, LogLevel, MatrixRequest,
    MessageInfo, Reply, ReplyModel, RoomPreset, Step, StepModel, Value, ViewType, MISSING,
};
use crate::task::{Task, TaskModel};
use crate::text::{dup, join2, opt_text, or_empty, pushed, texts};
use crate::types::{
    DeltaMessageFields, DeltaRoomMessageEventContent, FileInfo, ImageInfo, RoomMessage,
};

verus! {

/// What the space of the bridge is called.
pub const SPACE_NAME: &'static str = "Delta Appservice";

/// What the link to an e-mail begins with.
pub const MID_PREFIX: &'static str = "mid:";

/// What is logged before a system message that is not brought over.
pub const SKIPPING_SYSTEM: &'static str = "skipping system message: ";

/// Why a name is refused for a room.
pub const BAD_ROOM_NAME: &'static str = "not a room name";

/// Why a number is refused in an event.
pub const BAD_NUMBER: &'static str = "out of range integral type conversion attempted";

/// How the space that holds the bridge's rooms is made.
#[derive(Debug, PartialEq, Eq)]
pub enum Space<T = String> {
    Start { avatar: Option<T> },
    OwnerKnown { avatar: Option<T> },
    Created { avatar: Option<T> },
    Synced { avatar: Option<T>, space_id: T },
    Entered { avatar: Option<T>, space_id: T },
    ControlKnown { avatar: Option<T>, space_id: T },
    UserKnown { avatar: Option<T>, space_id: T, control: T },
    ChildSent { avatar: Option<T>, space_id: T },
    AvatarSent { space_id: T },
}

/// The same over mathematical text.
pub type SpaceModel = Space<Seq<char>>;

impl View for Space {
    type V = SpaceModel;

    open spec fn view(&self) -> SpaceModel {
        match self {
            Space::Start { avatar } => Space::Start { avatar: opt_text(*avatar) },
            Space::OwnerKnown { avatar } => Space::OwnerKnown { avatar: opt_text(*avatar) },
            Space::Created { avatar } => Space::Created { avatar: opt_text(*avatar) },
            Space::Synced { avatar, space_id } => Space::Synced { avatar: opt_text(*avatar), space_id: space_id@ },
            Space::Entered { avatar, space_id } => Space::Entered { avatar: opt_text(*avatar), space_id: space_id@ },
            Space::ControlKnown { avatar, space_id } => Space::ControlKnown { avatar: opt_text(*avatar), space_id: space_id@ },
            Space::UserKnown { avatar, space_id, control } => Space::UserKnown { avatar: opt_text(*avatar), space_id: space_id@, control: control@ },
            Space::ChildSent { avatar, space_id } => Space::ChildSent { avatar: opt_text(*avatar), space_id: space_id@ },
            Space::AvatarSent { space_id } => Space::AvatarSent { space_id: space_id@ },
        }
    }
}

/// How the room that stands for a chat is made.
#[derive(Debug, PartialEq, Eq)]
pub enum ChatRoom<T = String, L = Vec<String>> {
    Start { chat_id: u32 },
    Loaded,
    Members { chat: ChatInfo },
    Contact { chat: ChatInfo, members: Vec<u32>, at: usize, users: L, clients: L },
    Client { chat: ChatInfo, members: Vec<u32>, at: usize, users: L, clients: L },
    User { chat: ChatInfo, members: Vec<u32>, at: usize, users: L, clients: L, localpart: T },
    Owner { chat: ChatInfo, users: L, clients: L },
    SelfContact { chat: ChatInfo, users: L, clients: L },
    SelfClient { chat: ChatInfo, users: L, clients: L },
    SelfUser { chat: ChatInfo, users: L, clients: L, localpart: T },
    Created { chat: ChatInfo, clients: L },
    Joining { chat: ChatInfo, room_id: T, clients: L, at: usize },
    Accepted { chat: ChatInfo, room_id: T },
    Linked { chat: ChatInfo, room_id: T },
    SpaceKnown { chat: ChatInfo, room_id: T },
    UserKnown { chat: ChatInfo, room_id: T, space_id: T },
    ChildSent { chat: ChatInfo, room_id: T },
    Backfilled { room_id: T },
}

/// The same over mathematical text.
pub type ChatRoomModel = ChatRoom<Seq<char>, Seq<Seq<char>>>;

impl View for ChatRoom {
    type V = ChatRoomModel;

    open spec fn view(&self) -> ChatRoomModel {
        match self {
            ChatRoom::Start { chat_id } => ChatRoom::Start { chat_id: *chat_id },
            ChatRoom::Loaded => ChatRoom::Loaded,
            ChatRoom::Members { chat } => ChatRoom::Members { chat: *chat },
            ChatRoom::Contact { chat, members, at, users, clients } => ChatRoom::Contact { chat: *chat, members: *members, at: *at, users: texts(users@), clients: texts(clients@) },
            ChatRoom::Client { chat, members, at, users, clients } => ChatRoom::Client { chat: *chat, members: *members, at: *at, users: texts(users@), clients: texts(clients@) },
            ChatRoom::User { chat, members, at, users, clients, localpart } => ChatRoom::User { chat: *chat, members: *members, at: *at, users: texts(users@), clients: texts(clients@), localpart: localpart@ },
            ChatRoom::Owner { chat, users, clients } => ChatRoom::Owner { chat: *chat, users: texts(users@), clients: texts(clients@) },
            ChatRoom::SelfContact { chat, users, clients } => ChatRoom::SelfContact { chat: *chat, users: texts(users@), clients: texts(clients@) },
            ChatRoom::SelfClient { chat, users, clients } => ChatRoom::SelfClient { chat: *chat, users: texts(users@), clients: texts(clients@) },
            ChatRoom::SelfUser { chat, users, clients, localpart } => ChatRoom::SelfUser { chat: *chat, users: texts(users@), clients: texts(clients@), localpart: localpart@ },
            ChatRoom::Created { chat, clients } => ChatRoom::Created { chat: *chat, clients: texts(clients@) },
            ChatRoom::Joining { chat, room_id, clients, at } => ChatRoom::Joining { chat: *chat, room_id: room_id@, clients: texts(clients@), at: *at },
            ChatRoom::Accepted { chat, room_id } => ChatRoom::Accepted { chat: *chat, room_id: room_id@ },
            ChatRoom::Linked { chat, room_id } => ChatRoom::Linked { chat: *chat, room_id: room_id@ },
            ChatRoom::SpaceKnown { chat, room_id } => ChatRoom::SpaceKnown { chat: *chat, room_id: room_id@ },
            ChatRoom::UserKnown { chat, room_id, space_id } => ChatRoom::UserKnown { chat: *chat, room_id: room_id@, space_id: space_id@ },
            ChatRoom::ChildSent { chat, room_id } => ChatRoom::ChildSent { chat: *chat, room_id: room_id@ },
            ChatRoom::Backfilled { room_id } => ChatRoom::Backfilled { room_id: room_id@ },
        }
    }
}

/// How the messages that a chat holds already are brought over.
#[derive(Debug, PartialEq, Eq)]
pub enum Backfill<T = String> {
    Start { room_id: T, chat_id: u32 },
    Listed { room_id: T },
    Loaded { room_id: T, items: Vec<ChatItem>, at: usize },
    Ready { room_id: T, items: Vec<ChatItem>, at: usize, message: MessageInfo },
    Sent { room_id: T, items: Vec<ChatItem>, at: usize },
}

/// The same over mathematical text.
pub type BackfillModel = Backfill<Seq<char>>;

impl View for Backfill {
    type V = BackfillModel;

    open spec fn view(&self) -> BackfillModel {
        match self {
            Backfill::Start { room_id, chat_id } => Backfill::Start { room_id: room_id@, chat_id: *chat_id },
            Backfill::Listed { room_id } => Backfill::Listed { room_id: room_id@ },
            Backfill::Loaded { room_id, items, at } => Backfill::Loaded { room_id: room_id@, items: *items, at: *at },
            Backfill::Ready { room_id, items, at, message } => Backfill::Ready { room_id: room_id@, items: *items, at: *at, message: *message },
            Backfill::Sent { room_id, items, at } => Backfill::Sent { room_id: room_id@, items: *items, at: *at },
        }
    }
}

/// How the bridge leaves a room with all of its users.
#[derive(Debug, PartialEq, Eq)]
pub enum Clear<T = String, L = Vec<String>> {
    Start { room_id: T },
    Members { room_id: T },
    Tested { room_id: T, members: L, at: usize, user: T },
    Ready { room_id: T, members: L, at: usize, localpart: T },
    Left { room_id: T, members: L, at: usize },
    MainLeft,
}

/// The same over mathematical text.
pub type ClearModel = Clear<Seq<char>, Seq<Seq<char>>>;

impl View for Clear {
    type V = ClearModel;

    open spec fn view(&self) -> ClearModel {
        match self {
            Clear::Start { room_id } => Clear::Start { room_id: room_id@ },
            Clear::Members { room_id } => Clear::Members { room_id: room_id@ },
            Clear::Tested { room_id, members, at, user } => Clear::Tested { room_id: room_id@, members: texts(members@), at: *at, user: user@ },
            Clear::Ready { room_id, members, at, localpart } => Clear::Ready { room_id: room_id@, members: texts(members@), at: *at, localpart: localpart@ },
            Clear::Left { room_id, members, at } => Clear::Left { room_id: room_id@, members: texts(members@), at: *at },
            Clear::MainLeft => Clear::MainLeft,
        }
    }
}

/// How a message is brought over.
#[derive(Debug, PartialEq, Eq)]
pub enum Bridge<T = String> {
    Start { who: Actor<T>, room_id: T, message: MessageInfo },
    Skipped,
    Uploaded { who: Actor<T>, room_id: T, message: MessageInfo },
    Described { who: Actor<T>, room_id: T, message: MessageInfo, url: T },
    FileSent { who: Actor<T>, room_id: T, message: MessageInfo },
    TextSent,
    Upload { who: Actor<T>, mime: Option<T>, file: Option<T> },
    UploadDone,
    FileInfo { mime: Option<T>, msg_id: u32 },
    FileSized { mime: T },
    ImageInfo { mime: Option<T>, msg_id: u32, width: i32, height: i32 },
    ImageSized { mime: T, width: u64, height: u64 },
    Content { who: Actor<T>, room_id: T, msg_id: u32, content: DeltaRoomMessageEventContent<T> },
    Tried { who: Actor<T>, room_id: T, msg_id: u32, content: DeltaRoomMessageEventContent<T> },
    Outside { who: Actor<T>, room_id: T, msg_id: u32, content: DeltaRoomMessageEventContent<T> },
    Noted { who: Actor<T>, room_id: T, msg_id: u32, content: DeltaRoomMessageEventContent<T> },
    ContentSent { msg_id: u32 },
    Raw { who: Actor<T>, room_id: T, content: DeltaRoomMessageEventContent<T> },
    RawSent,
}

/// The same over mathematical text.
pub type BridgeModel = Bridge<Seq<char>>;

impl View for Bridge {
    type V = BridgeModel;

    open spec fn view(&self) -> BridgeModel {
        match self {
            Bridge::Start { who, room_id, message } => Bridge::Start { who: who@, room_id: room_id@, message: *message },
            Bridge::Skipped => Bridge::Skipped,
            Bridge::Uploaded { who, room_id, message } => Bridge::Uploaded { who: who@, room_id: room_id@, message: *message },
            Bridge::Described { who, room_id, message, url } => Bridge::Described { who: who@, room_id: room_id@, message: *message, url: url@ },
            Bridge::FileSent { who, room_id, message } => Bridge::FileSent { who: who@, room_id: room_id@, message: *message },
            Bridge::TextSent => Bridge::TextSent,
            Bridge::Upload { who, mime, file } => Bridge::Upload { who: who@, mime: opt_text(*mime), file: opt_text(*file) },
            Bridge::UploadDone => Bridge::UploadDone,
            Bridge::FileInfo { mime, msg_id } => Bridge::FileInfo { mime: opt_text(*mime), msg_id: *msg_id },
            Bridge::FileSized { mime } => Bridge::FileSized { mime: mime@ },
            Bridge::ImageInfo { mime, msg_id, width, height } => Bridge::ImageInfo { mime: opt_text(*mime), msg_id: *msg_id, width: *width, height: *height },
            Bridge::ImageSized { mime, width, height } => Bridge::ImageSized { mime: mime@, width: *width, height: *height },
            Bridge::Content { who, room_id, msg_id, content } => Bridge::Content { who: who@, room_id: room_id@, msg_id: *msg_id, content: content@ },
            Bridge::Tried { who, room_id, msg_id, content } => Bridge::Tried { who: who@, room_id: room_id@, msg_id: *msg_id, content: content@ },
            Bridge::Outside { who, room_id, msg_id, content } => Bridge::Outside { who: who@, room_id: room_id@, msg_id: *msg_id, content: content@ },
            Bridge::Noted { who, room_id, msg_id, content } => Bridge::Noted { who: who@, room_id: room_id@, msg_id: *msg_id, content: content@ },
            Bridge::ContentSent { msg_id } => Bridge::ContentSent { msg_id: *msg_id },
            Bridge::Raw { who, room_id, content } => Bridge::Raw { who: who@, room_id: room_id@, content: content@ },
            Bridge::RawSent => Bridge::RawSent,
        }
    }
}

/// The server of a user; a reason where the text names no user.
pub open spec fn server_of(user: Option<Seq<char>>) -> Result<Seq<char>, Seq<char>> {
    match user {
        Some(user_id) => match user_id_parts(user_id) {
            Ok(parts) => Ok(parts.1),
            Err(error) => Err(error),
        },
        None => Err(MISSING@),
    }
}

fn find_server(user: Option<String>) -> (r: Result<String, String>)
    ensures
        match r {
            Ok(server) => server_of(opt_text(user)) == Ok::<Seq<char>, Seq<char>>(server@),
            Err(error) => server_of(opt_text(user)) == Err::<Seq<char>, Seq<char>>(error@),
        },
{
    match user {
        Some(user_id) => match parse_user_id(user_id.as_str()) {
            Ok(parts) => Ok(parts.1),
            Err(error) => Err(error),
        },
        None => Err(MISSING.to_owned()),
    }
}

/// How the space is made: the owner is invited, the client learns its state, the control room
/// becomes its child, and it gets its image.
pub open spec fn space_next(s: SpaceModel, reply: ReplyModel) -> StepModel {
    match (s, reply) {
        (Space::Start { avatar }, Reply::Start) => Step::Call(
            Task::Settings(Settings::GetOwner),
            Task::Space(Space::OwnerKnown { avatar }),
        ),
        (Space::OwnerKnown { avatar }, Reply::Got(Value::Text(owner))) => matrix(
            MatrixRequest::CreateRoom {
                preset: RoomPreset::TrustedPrivateChat,
                name: SPACE_NAME@,
                topic: None,
                direct: false,
                as_space: true,
                invite: seq![owner],
            },
            Task::Space(Space::Created { avatar }),
        ),
        (Space::Created { avatar }, Reply::Got(Value::Text(space_id))) => Step::Call(
            Task::RoomState(RoomState::Fetch { who: Actor::Main, room_id: space_id }),
            Task::Space(Space::Synced { avatar, space_id }),
        ),
        (Space::Synced { avatar, space_id }, Reply::Got(_)) => matrix(
            MatrixRequest::IsJoined { who: Actor::Main, room: space_id },
            Task::Space(Space::Entered { avatar, space_id }),
        ),
        (Space::Created { .. } | Space::Synced { .. }, Reply::Failed(error)) => Step::Panic(error),
        (Space::Entered { avatar, space_id }, Reply::Got(Value::Flag(joined))) => if joined {
            Step::Call(
                Task::Settings(Settings::GetControlRoomId),
                Task::Space(Space::ControlKnown { avatar, space_id }),
            )
        } else {
            Step::Panic(MISSING@)
        },
        (Space::ControlKnown { avatar, space_id }, Reply::Got(Value::MaybeText(room))) => {
            match room {
                Some(control) => matrix(
                    MatrixRequest::UserId { who: Actor::Main },
                    Task::Space(Space::UserKnown { avatar, space_id, control }),
                ),
                None => Step::Panic(MISSING@),
            }
        },
        (Space::UserKnown { avatar, space_id, control }, Reply::Got(Value::MaybeText(user))) => {
            match server_of(user) {
                Ok(server) => matrix(
                    MatrixRequest::SendSpaceChild {
                        space: space_id,
                        child: control,
                        via: server,
                        suggested: Some(true),
                    },
                    Task::Space(Space::ChildSent { avatar, space_id }),
                ),
                Err(error) => Step::Panic(error),
            }
        },
        (Space::ChildSent { avatar, space_id }, Reply::Got(_)) => matrix(
            MatrixRequest::SendAvatar { room: space_id, url: avatar },
            Task::Space(Space::AvatarSent { space_id }),
        ),
        (Space::AvatarSent { space_id }, Reply::Got(_)) => Step::Return(Value::Text(space_id)),
        (Space::ChildSent { .. } | Space::AvatarSent { .. }, Reply::Failed(error)) => Step::Raise(
            error,
        ),
        _ => Step::Mismatch,
    }
}

/// Goes on with making the space.
pub(crate) fn space_resume(s: Space, reply: Reply) -> (step: Step)
    ensures
        step@ == space_next(s@, reply@),
{
    match (s, reply) {
        (Space::Start { avatar }, Reply::Start) => Step::Call(
            Task::Settings(Settings::GetOwner),
            Task::Space(Space::OwnerKnown { avatar }),
        ),
        (Space::OwnerKnown { avatar }, Reply::Got(Value::Text(owner))) => {
            let invite: Vec<String> = pushed(Vec::new(), owner);
            proof {
                assert(texts(invite@) =~= seq![owner@]);
            }
            ask_matrix(
                MatrixRequest::CreateRoom {
                    preset: RoomPreset::TrustedPrivateChat,
                    name: SPACE_NAME.to_owned(),
                    topic: None,
                    direct: false,
                    as_space: true,
                    invite,
                },
                Task::Space(Space::Created { avatar }),
            )
        },
        (Space::Created { avatar }, Reply::Got(Value::Text(space_id))) => Step::Call(
            Task::RoomState(RoomState::Fetch { who: Actor::Main, room_id: space_id.clone() }),
            Task::Space(Space::Synced { avatar, space_id }),
        ),
        (Space::Synced { avatar, space_id }, Reply::Got(_)) => ask_matrix(
            MatrixRequest::IsJoined { who: Actor::Main, room: space_id.clone() },
            Task::Space(Space::Entered { avatar, space_id }),
        ),
        (Space::Created { .. } | Space::Synced { .. }, Reply::Failed(error)) => Step::Panic(error),
        (Space::Entered { avatar, space_id }, Reply::Got(Value::Flag(joined))) => {
            if joined {
                Step::Call(
                    Task::Settings(Settings::GetControlRoomId),
                    Task::Space(Space::ControlKnown { avatar, space_id }),
                )
            } else {
                missing()
            }
        },
        (Space::ControlKnown { avatar, space_id }, Reply::Got(Value::MaybeText(room))) => {
            match room {
                Some(control) => ask_matrix(
                    MatrixRequest::UserId { who: Actor::Main },
                    Task::Space(Space::UserKnown { avatar, space_id, control }),
                ),
                None => missing(),
            }
        },
        (Space::UserKnown { avatar, space_id, control }, Reply::Got(Value::MaybeText(user))) => {
            match find_server(user) {
                Ok(server) => ask_matrix(
                    MatrixRequest::SendSpaceChild {
                        space: space_id.clone(),
                        child: control,
                        via: server,
                        suggested: Some(true),
                    },
                    Task::Space(Space::ChildSent { avatar, space_id }),
                ),
                Err(error) => Step::Panic(error),
            }
        },
        (Space::ChildSent { avatar, space_id }, Reply::Got(_)) => ask_matrix(
            MatrixRequest::SendAvatar { room: space_id.clone(), url: avatar },
            Task::Space(Space::AvatarSent { space_id }),
        ),
        (Space::AvatarSent { space_id }, Reply::Got(_)) => Step::Return(Value::Text(space_id)),
        (Space::ChildSent { .. } | Space::AvatarSent { .. }, Reply::Failed(error)) => Step::Raise(
            error,
        ),
        _ => Step::Mismatch,
    }
}

/// Makes the space that holds the bridge's rooms.
pub fn create_space(avatar_uri: Option<String>) -> (t: Task)
    ensures
        t@ == TaskModel::Space(Space::Start { avatar: opt_text(avatar_uri) }),
{
    Task::Space(Space::Start { avatar: avatar_uri })
}

/// Whether a text can be the name of a room.
pub open spec fn can_name_room(name: Seq<char>) -> bool {
    1 <= encode_utf8(name).len() <= 255
}

/// Goes on to the member at a place in the list; to the owner of the bridge behind the last one.
pub open spec fn gather(
    chat: ChatInfo,
    members: Vec<u32>,
    at: usize,
    users: Seq<Seq<char>>,
    clients: Seq<Seq<char>>,
) -> StepModel {
    if at < members@.len() {
        delta(
            DeltaRequest::GetContact { id: members@[at as int] },
            Task::ChatRoom(
                ChatRoom::Contact { chat, members, at: (at + 1) as usize, users, clients },
            ),
        )
    } else {
        Step::Call(
            Task::Settings(Settings::GetOwner),
            Task::ChatRoom(ChatRoom::Owner { chat, users, clients }),
        )
    }
}

/// Makes the room, and invites the users.
pub open spec fn make_room(
    chat: ChatInfo,
    users: Seq<Seq<char>>,
    clients: Seq<Seq<char>>,
) -> StepModel {
    let direct = chat.kind == ChatKind::Single;
    matrix(
        MatrixRequest::CreateRoom {
            preset: RoomPreset::TrustedPrivateChat,
            name: chat.name@,
            topic: if direct {
                None
            } else {
                Some(chat.name@)
            },
            direct,
            as_space: false,
            invite: users,
        },
        Task::ChatRoom(ChatRoom::Created { chat, clients }),
    )
}

/// Goes on to the user at a place in the list, who joins; accepts the chat behind the last one.
pub open spec fn enter(
    chat: ChatInfo,
    room_id: Seq<char>,
    clients: Seq<Seq<char>>,
    at: usize,
) -> StepModel {
    if at < clients.len() {
        matrix(
            MatrixRequest::JoinRoom { who: Actor::User(clients[at as int]), room: room_id },
            Task::ChatRoom(ChatRoom::Joining { chat, room_id, clients, at: (at + 1) as usize }),
        )
    } else {
        delta(
            DeltaRequest::AcceptChat { chat: chat.id },
            Task::ChatRoom(ChatRoom::Accepted { chat, room_id }),
        )
    }
}

/// How the room that stands for a chat is made. The users of all members and the owner of the
/// bridge are invited, and with a single contact the owner of the account too, who is no member.
/// The users join, the chat is accepted, room and chat are tied to each other, the room becomes
/// a child of the space, and the messages that the chat holds already are brought over.
pub open spec fn chat_room_next(s: ChatRoomModel, reply: ReplyModel) -> StepModel {
    match (s, reply) {
        (ChatRoom::Start { chat_id }, Reply::Start) => delta(
            DeltaRequest::LoadChat { id: chat_id },
            Task::ChatRoom(ChatRoom::Loaded),
        ),
        (ChatRoom::Loaded, Reply::Chat(chat)) => delta(
            DeltaRequest::ChatContacts { chat: chat.id },
            Task::ChatRoom(ChatRoom::Members { chat }),
        ),
        (ChatRoom::Members { chat }, Reply::Numbers(members)) => gather(
            chat,
            members,
            0,
            seq![],
            seq![],
        ),
        (
            ChatRoom::Contact { chat, members, at, users, clients },
            Reply::Contact(contact),
        ) => Step::Call(
            Task::EmailUser(EmailUser::Start { contact, refresh: false }),
            Task::ChatRoom(ChatRoom::Client { chat, members, at, users, clients }),
        ),
        (
            ChatRoom::Client { chat, members, at, users, clients },
            Reply::Got(Value::Text(localpart)),
        ) => matrix(
            MatrixRequest::UserId { who: Actor::User(localpart) },
            Task::ChatRoom(ChatRoom::User { chat, members, at, users, clients, localpart }),
        ),
        (
            ChatRoom::User { chat, members, at, users, clients, localpart },
            Reply::Got(Value::MaybeText(user)),
        ) => match user {
            Some(user) => gather(chat, members, at, users.push(user), clients.push(localpart)),
            None => Step::Panic(MISSING@),
        },
        (ChatRoom::Owner { chat, users, clients }, Reply::Got(Value::Text(owner))) => {
            if !can_name_room(chat.name@) {
                Step::Panic(BAD_ROOM_NAME@)
            } else if chat.kind == ChatKind::Single {
                delta(
                    DeltaRequest::GetContact { id: CONTACT_SELF },
                    Task::ChatRoom(
                        ChatRoom::SelfContact { chat, users: users.push(owner), clients },
                    ),
                )
            } else {
                make_room(chat, users.push(owner), clients)
            }
        },
        (ChatRoom::SelfContact { chat, users, clients }, Reply::Contact(contact)) => Step::Call(
            Task::EmailUser(EmailUser::Start { contact, refresh: false }),
            Task::ChatRoom(ChatRoom::SelfClient { chat, users, clients }),
        ),
        (
            ChatRoom::SelfClient { chat, users, clients },
            Reply::Got(Value::Text(localpart)),
        ) => matrix(
            MatrixRequest::UserId { who: Actor::User(localpart) },
            Task::ChatRoom(ChatRoom::SelfUser { chat, users, clients, localpart }),
        ),
        (
            ChatRoom::SelfUser { chat, users, clients, localpart },
            Reply::Got(Value::MaybeText(user)),
        ) => match user {
            Some(user) => make_room(chat, users.push(user), clients.push(localpart)),
            None => Step::Panic(MISSING@),
        },
        (ChatRoom::Created { chat, clients }, Reply::Got(Value::Text(room_id))) => enter(
            chat,
            room_id,
            clients,
            0,
        ),
        (ChatRoom::Joining { chat, room_id, clients, at }, Reply::Got(_)) => enter(
            chat,
            room_id,
            clients,
            at,
        ),
        (ChatRoom::Accepted { chat, room_id }, Reply::Got(_)) => Step::Call(
            Task::Settings(Settings::Link { room_id, chat_id: chat.id }),
            Task::ChatRoom(ChatRoom::Linked { chat, room_id }),
        ),
        (ChatRoom::Linked { chat, room_id }, Reply::Got(_)) => matrix(
            MatrixRequest::SpaceRoom,
            Task::ChatRoom(ChatRoom::SpaceKnown { chat, room_id }),
        ),
        (ChatRoom::SpaceKnown { chat, room_id }, Reply::Got(Value::MaybeText(space))) => {
            match space {
                Some(space_id) => matrix(
                    MatrixRequest::UserId { who: Actor::Main },
                    Task::ChatRoom(ChatRoom::UserKnown { chat, room_id, space_id }),
                ),
                None => Step::Panic(MISSING@),
            }
        },
        (
            ChatRoom::UserKnown { chat, room_id, space_id },
            Reply::Got(Value::MaybeText(user)),
        ) => match server_of(user) {
            Ok(server) => matrix(
                MatrixRequest::SendSpaceChild {
                    space: space_id,
                    child: room_id,
                    via: server,
                    suggested: None,
                },
                Task::ChatRoom(ChatRoom::ChildSent { chat, room_id }),
            ),
            Err(error) => Step::Panic(error),
        },
        (ChatRoom::ChildSent { chat, room_id }, Reply::Got(_)) => Step::Call(
            Task::Backfill(Backfill::Start { room_id, chat_id: chat.id }),
            Task::ChatRoom(ChatRoom::Backfilled { room_id }),
        ),
        (ChatRoom::ChildSent { .. }, Reply::Failed(error)) => Step::Raise(error),
        (ChatRoom::Backfilled { room_id }, Reply::Got(_)) => Step::Return(Value::Text(room_id)),
        (ChatRoom::Start { .. }, Reply::Failed(_)) => Step::Mismatch,
        (_, Reply::Failed(error)) => Step::Panic(error),
        _ => Step::Mismatch,
    }
}

fn gather_from(
    chat: ChatInfo,
    members: Vec<u32>,
    at: usize,
    users: Vec<String>,
    clients: Vec<String>,
) -> (s: Step)
    ensures
        s@ == gather(chat, members, at, texts(users@), texts(clients@)),
{
    if at < members.len() {
        ask_delta(
            DeltaRequest::GetContact { id: members[at] },
            Task::ChatRoom(ChatRoom::Contact { chat, members, at: at + 1, users, clients }),
        )
    } else {
        Step::Call(
            Task::Settings(Settings::GetOwner),
            Task::ChatRoom(ChatRoom::Owner { chat, users, clients }),
        )
    }
}

fn is_single(kind: ChatKind) -> (r: bool)
    ensures
        r == (kind == ChatKind::Single),
{
    matches!(kind, ChatKind::Single)
}

fn request_room(chat: ChatInfo, users: Vec<String>, clients: Vec<String>) -> (s: Step)
    ensures
        s@ == make_room(chat, texts(users@), texts(clients@)),
{
    let direct: bool = is_single(chat.kind);
    ask_matrix(
        MatrixRequest::CreateRoom {
            preset: RoomPreset::TrustedPrivateChat,
            name: chat.name.clone(),
            topic: if direct {
                None
            } else {
                Some(chat.name.clone())
            },
            direct,
            as_space: false,
            invite: users,
        },
        Task::ChatRoom(ChatRoom::Created { chat, clients }),
    )
}

fn enter_from(chat: ChatInfo, room_id: String, clients: Vec<String>, at: usize) -> (s: Step)
    ensures
        s@ == enter(chat, room_id@, texts(clients@), at),
{
    if at < clients.len() {
        ask_matrix(
            MatrixRequest::JoinRoom {
                who: Actor::User(clients[at].clone()),
                room: room_id.clone(),
            },
            Task::ChatRoom(ChatRoom::Joining { chat, room_id, clients, at: at + 1 }),
        )
    } else {
        ask_delta(
            DeltaRequest::AcceptChat { chat: chat.id },
            Task::ChatRoom(ChatRoom::Accepted { chat, room_id }),
        )
    }
}

/// Goes on with making the room of a chat.
pub(crate) fn chat_room_resume(s: ChatRoom, reply: Reply) -> (step: Step)
    ensures
        step@ == chat_room_next(s@, reply@),
{
    match (s, reply) {
        (ChatRoom::Start { chat_id }, Reply::Start) => ask_delta(
            DeltaRequest::LoadChat { id: chat_id },
            Task::ChatRoom(ChatRoom::Loaded),
        ),
        (ChatRoom::Loaded, Reply::Chat(chat)) => ask_delta(
            DeltaRequest::ChatContacts { chat: chat.id },
            Task::ChatRoom(ChatRoom::Members { chat }),
        ),
        (ChatRoom::Members { chat }, Reply::Numbers(members)) => {
            let users: Vec<String> = Vec::new();
            let clients: Vec<String> = Vec::new();
            proof {
                assert(texts(users@) =~= seq![]);
                assert(texts(clients@) =~= seq![]);
            }
            gather_from(chat, members, 0, users, clients)
        },
        (
            ChatRoom::Contact { chat, members, at, users, clients },
            Reply::Contact(contact),
        ) => Step::Call(
            Task::EmailUser(EmailUser::Start { contact, refresh: false }),
            Task::ChatRoom(ChatRoom::Client { chat, members, at, users, clients }),
        ),
        (
            ChatRoom::Client { chat, members, at, users, clients },
            Reply::Got(Value::Text(localpart)),
        ) => ask_matrix(
            MatrixRequest::UserId { who: Actor::User(localpart.clone()) },
            Task::ChatRoom(ChatRoom::User { chat, members, at, users, clients, localpart }),
        ),
        (
            ChatRoom::User { chat, members, at, users, clients, localpart },
            Reply::Got(Value::MaybeText(user)),
        ) => match user {
            Some(user) => gather_from(
                chat,
                members,
                at,
                pushed(users, user),
                pushed(clients, localpart),
            ),
            None => missing(),
        },
        (ChatRoom::Owner { chat, users, clients }, Reply::Got(Value::Text(owner))) => {
            if !room_name_is_valid(chat.name.as_str()) {
                Step::Panic(BAD_ROOM_NAME.to_owned())
            } else if is_single(chat.kind) {
                ask_delta(
                    DeltaRequest::GetContact { id: CONTACT_SELF },
                    Task::ChatRoom(
                        ChatRoom::SelfContact { chat, users: pushed(users, owner), clients },
                    ),
                )
            } else {
                request_room(chat, pushed(users, owner), clients)
            }
        },
        (ChatRoom::SelfContact { chat, users, clients }, Reply::Contact(contact)) => Step::Call(
            Task::EmailUser(EmailUser::Start { contact, refresh: false }),
            Task::ChatRoom(ChatRoom::SelfClient { chat, users, clients }),
        ),
        (
            ChatRoom::SelfClient { chat, users, clients },
            Reply::Got(Value::Text(localpart)),
        ) => ask_matrix(
            MatrixRequest::UserId { who: Actor::User(localpart.clone()) },
            Task::ChatRoom(ChatRoom::SelfUser { chat, users, clients, localpart }),
        ),
        (
            ChatRoom::SelfUser { chat, users, clients, localpart },
            Reply::Got(Value::MaybeText(user)),
        ) => match user {
            Some(user) => request_room(chat, pushed(users, user), pushed(clients, localpart)),
            None => missing(),
        },
        (ChatRoom::Created { chat, clients }, Reply::Got(Value::Text(room_id))) => enter_from(
            chat,
            room_id,
            clients,
            0,
        ),
        (ChatRoom::Joining { chat, room_id, clients, at }, Reply::Got(_)) => enter_from(
            chat,
            room_id,
            clients,
            at,
        ),
        (ChatRoom::Accepted { chat, room_id }, Reply::Got(_)) => Step::Call(
            Task::Settings(Settings::Link { room_id: room_id.clone(), chat_id: chat.id }),
            Task::ChatRoom(ChatRoom::Linked { chat, room_id }),
        ),
        (ChatRoom::Linked { chat, room_id }, Reply::Got(_)) => ask_matrix(
            MatrixRequest::SpaceRoom,
            Task::ChatRoom(ChatRoom::SpaceKnown { chat, room_id }),
        ),
        (ChatRoom::SpaceKnown { chat, room_id }, Reply::Got(Value::MaybeText(space))) => {
            match space {
                Some(space_id) => ask_matrix(
                    MatrixRequest::UserId { who: Actor::Main },
                    Task::ChatRoom(ChatRoom::UserKnown { chat, room_id, space_id }),
                ),
                None => missing(),
            }
        },
        (
            ChatRoom::UserKnown { chat, room_id, space_id },
            Reply::Got(Value::MaybeText(user)),
        ) => match find_server(user) {
            Ok(server) => ask_matrix(
                MatrixRequest::SendSpaceChild {
                    space: space_id,
                    child: room_id.clone(),
                    via: server,
                    suggested: None,
                },
                Task::ChatRoom(ChatRoom::ChildSent { chat, room_id }),
            ),
            Err(error) => Step::Panic(error),
        },
        (ChatRoom::ChildSent { chat, room_id }, Reply::Got(_)) => Step::Call(
            Task::Backfill(Backfill::Start { room_id: room_id.clone(), chat_id: chat.id }),
            Task::ChatRoom(ChatRoom::Backfilled { room_id }),
        ),
        (ChatRoom::ChildSent { .. }, Reply::Failed(error)) => Step::Raise(error),
        (ChatRoom::Backfilled { room_id }, Reply::Got(_)) => Step::Return(Value::Text(room_id)),
        (ChatRoom::Start { .. }, Reply::Failed(_)) => Step::Mismatch,
        (_, Reply::Failed(error)) => Step::Panic(error),
        _ => Step::Mismatch,
    }
}

/// Makes the room that stands for a chat.
pub fn create_room_for_chat(chat_id: u32) -> (t: Task)
    ensures
        t@ == TaskModel::ChatRoom(ChatRoom::Start { chat_id }),
{
    Task::ChatRoom(ChatRoom::Start { chat_id })
}

/// The next place at which a chat holds a message.
pub open spec fn next_message(items: Seq<ChatItem>, at: int) -> Option<(int, u32)>
    decreases items.len() - at,
{
    if at < 0 || at >= items.len() {
        None
    } else {
        match items[at] {
            ChatItem::Message { id, .. } => Some((at, id)),
            _ => next_message(items, at + 1),
        }
    }
}

/// Goes on to the next message of a chat.
pub open spec fn bring_over(room_id: Seq<char>, items: Vec<ChatItem>, at: usize) -> StepModel {
    match next_message(items@, at as int) {
        Some((place, id)) => delta(
            DeltaRequest::LoadMessage { id },
            Task::Backfill(Backfill::Loaded { room_id, items, at: (place + 1) as usize }),
        ),
        None => Step::Return(Value::Unit),
    }
}

/// How the messages that a chat holds already are brought over: each message by the user of its
/// author, in order. The marks between messages are passed over.
pub open spec fn backfill_next(s: BackfillModel, reply: ReplyModel) -> StepModel {
    match (s, reply) {
        (Backfill::Start { room_id, chat_id }, Reply::Start) => delta(
            DeltaRequest::ChatItems { chat: chat_id, day_markers: false },
            Task::Backfill(Backfill::Listed { room_id }),
        ),
        (Backfill::Listed { room_id }, Reply::Items { items, .. }) => bring_over(room_id, items, 0),
        (Backfill::Loaded { room_id, items, at }, Reply::Message(message)) => Step::Call(
            Task::EmailUser(EmailUser::ById { contact_id: message.from_id, refresh: false }),
            Task::Backfill(Backfill::Ready { room_id, items, at, message }),
        ),
        (Backfill::Listed { .. } | Backfill::Loaded { .. }, Reply::Failed(error)) => Step::Panic(
            error,
        ),
        (
            Backfill::Ready { room_id, items, at, message },
            Reply::Got(Value::EmailUser { localpart, .. }),
        ) => Step::Call(
            Task::Bridge(Bridge::Start { who: Actor::User(localpart), room_id, message }),
            Task::Backfill(Backfill::Sent { room_id, items, at }),
        ),
        (Backfill::Sent { room_id, items, at }, Reply::Got(_)) => bring_over(room_id, items, at),
        (Backfill::Ready { .. } | Backfill::Sent { .. }, Reply::Failed(error)) => Step::Raise(
            error,
        ),
        _ => Step::Mismatch,
    }
}

fn bring_over_from(room_id: String, items: Vec<ChatItem>, at: usize) -> (s: Step)
    ensures
        s@ == bring_over(room_id@, items, at),
{
    let mut k: usize = at;
    while k < items.len()
        invariant
            k <= items.len() || k == at,
            next_message(items@, k as int) == next_message(items@, at as int),
            at <= k,
        decreases items.len() - k,
    {
        match items[k] {
            ChatItem::Message { id, .. } => {
                return ask_delta(
                    DeltaRequest::LoadMessage { id },
                    Task::Backfill(Backfill::Loaded { room_id, items, at: k + 1 }),
                );
            },
            _ => {},
        }
        k = k + 1;
    }
    done()
}

/// Goes on with bringing over the messages of a chat.
pub(crate) fn backfill_resume(s: Backfill, reply: Reply) -> (step: Step)
    ensures
        step@ == backfill_next(s@, reply@),
{
    match (s, reply) {
        (Backfill::Start { room_id, chat_id }, Reply::Start) => ask_delta(
            DeltaRequest::ChatItems { chat: chat_id, day_markers: false },
            Task::Backfill(Backfill::Listed { room_id }),
        ),
        (Backfill::Listed { room_id }, Reply::Items { items, .. }) => bring_over_from(
            room_id,
            items,
            0,
        ),
        (Backfill::Loaded { room_id, items, at }, Reply::Message(message)) => Step::Call(
            Task::EmailUser(EmailUser::ById { contact_id: message.from_id, refresh: false }),
            Task::Backfill(Backfill::Ready { room_id, items, at, message }),
        ),
        (Backfill::Listed { .. } | Backfill::Loaded { .. }, Reply::Failed(error)) => Step::Panic(
            error,
        ),
        (
            Backfill::Ready { room_id, items, at, message },
            Reply::Got(Value::EmailUser { localpart, .. }),
        ) => Step::Call(
            Task::Bridge(
                Bridge::Start { who: Actor::User(localpart), room_id: room_id.clone(), message },
            ),
            Task::Backfill(Backfill::Sent { room_id, items, at }),
        ),
        (Backfill::Sent { room_id, items, at }, Reply::Got(_)) => bring_over_from(
            room_id,
            items,
            at,
        ),
        (Backfill::Ready { .. } | Backfill::Sent { .. }, Reply::Failed(error)) => Step::Raise(
            error,
        ),
        _ => Step::Mismatch,
    }
}

/// Goes on to the member at a place in the list; the bridge itself leaves behind the last one.
pub open spec fn part(room_id: Seq<char>, members: Seq<Seq<char>>, at: usize) -> StepModel {
    if at < members.len() {
        matrix(
            MatrixRequest::InNamespace { user: members[at as int] },
            Task::Clear(
                Clear::Tested { room_id, members, at: (at + 1) as usize, user: members[at as int] },
            ),
        )
    } else {
        matrix(
            MatrixRequest::LeaveRoom { who: Actor::Main, room: room_id },
            Task::Clear(Clear::MainLeft),
        )
    }
}

/// How the bridge leaves a room: each member that the bridge manages, then the bridge itself.
/// A member that cannot be acted for stays.
pub open spec fn clear_next(s: ClearModel, reply: ReplyModel) -> StepModel {
    match (s, reply) {
        (Clear::Start { room_id }, Reply::Start) => matrix(
            MatrixRequest::JoinedMembers { room: room_id },
            Task::Clear(Clear::Members { room_id }),
        ),
        (Clear::Members { room_id }, Reply::Texts(members)) => part(room_id, texts(members@), 0),
        (
            Clear::Tested { room_id, members, at, user },
            Reply::Got(Value::Flag(ours)),
        ) => if !ours {
            part(room_id, members, at)
        } else {
            match user_id_parts(user) {
                Ok(parts) => matrix(
                    MatrixRequest::UserClient { localpart: parts.0 },
                    Task::Clear(Clear::Ready { room_id, members, at, localpart: parts.0 }),
                ),
                Err(error) => Step::Panic(error),
            }
        },
        (Clear::Members { .. } | Clear::Tested { .. }, Reply::Failed(error)) => Step::Raise(error),
        (Clear::Ready { room_id, members, at, localpart }, Reply::Got(_)) => matrix(
            MatrixRequest::LeaveRoom { who: Actor::User(localpart), room: room_id },
            Task::Clear(Clear::Left { room_id, members, at }),
        ),
        (Clear::Ready { room_id, members, at, .. }, Reply::Failed(_)) => part(room_id, members, at),
        (Clear::Left { room_id, members, at }, Reply::Got(_)) => part(room_id, members, at),
        (Clear::Left { .. }, Reply::Failed(error)) => Step::Panic(error),
        (Clear::MainLeft, reply) => settled(reply),
        _ => Step::Mismatch,
    }
}

fn part_from(room_id: String, members: Vec<String>, at: usize) -> (s: Step)
    ensures
        s@ == part(room_id@, texts(members@), at),
{
    if at < members.len() {
        let user: String = members[at].clone();
        ask_matrix(
            MatrixRequest::InNamespace { user: user.clone() },
            Task::Clear(Clear::Tested { room_id, members, at: at + 1, user }),
        )
    } else {
        ask_matrix(
            MatrixRequest::LeaveRoom { who: Actor::Main, room: room_id },
            Task::Clear(Clear::MainLeft),
        )
    }
}

/// Goes on with leaving a room.
pub(crate) fn clear_resume(s: Clear, reply: Reply) -> (step: Step)
    ensures
        step@ == clear_next(s@, reply@),
{
    match (s, reply) {
        (Clear::Start { room_id }, Reply::Start) => ask_matrix(
            MatrixRequest::JoinedMembers { room: room_id.clone() },
            Task::Clear(Clear::Members { room_id }),
        ),
        (Clear::Members { room_id }, Reply::Texts(members)) => part_from(room_id, members, 0),
        (Clear::Tested { room_id, members, at, user }, Reply::Got(Value::Flag(ours))) => {
            if !ours {
                part_from(room_id, members, at)
            } else {
                match parse_user_id(user.as_str()) {
                    Ok(parts) => ask_matrix(
                        MatrixRequest::UserClient { localpart: parts.0.clone() },
                        Task::Clear(Clear::Ready { room_id, members, at, localpart: parts.0 }),
                    ),
                    Err(error) => Step::Panic(error),
                }
            }
        },
        (Clear::Members { .. } | Clear::Tested { .. }, Reply::Failed(error)) => Step::Raise(error),
        (Clear::Ready { room_id, members, at, localpart }, Reply::Got(_)) => ask_matrix(
            MatrixRequest::LeaveRoom { who: Actor::User(localpart), room: room_id.clone() },
            Task::Clear(Clear::Left { room_id, members, at }),
        ),
        (Clear::Ready { room_id, members, at, .. }, Reply::Failed(_)) => part_from(
            room_id,
            members,
            at,
        ),
        (Clear::Left { room_id, members, at }, Reply::Got(_)) => part_from(room_id, members, at),
        (Clear::Left { .. }, Reply::Failed(error)) => Step::Panic(error),
        (Clear::MainLeft, reply) => settle(reply),
        _ => Step::Mismatch,
    }
}

/// Leaves a room with all users of the bridge.
pub fn clear_room(room_id: &str) -> (t: Task)
    ensures
        t@ == TaskModel::Clear(Clear::Start { room_id: room_id@ }),
{
    Task::Clear(Clear::Start { room_id: room_id.to_owned() })
}

/// What is sent for a message: what it says, and where it comes from.
pub open spec fn bridged(
    message: MessageInfo,
    msg: RoomMessage<Seq<char>>,
) -> DeltaRoomMessageEventContent<Seq<char>> {
    DeltaRoomMessageEventContent {
        delta_fields: Some(
            DeltaMessageFields {
                external_url: Some(MID_PREFIX@ + message.rfc724_mid@),
                msg_id: message.id,
                chat_id: message.chat_id,
            },
        ),
        msg,
    }
}

/// The task that sends something of a message.
pub open spec fn part_of(
    who: Actor<Seq<char>>,
    room_id: Seq<char>,
    message: MessageInfo,
    msg: RoomMessage<Seq<char>>,
) -> TaskModel {
    Task::Bridge(
        Bridge::Content { who, room_id, msg_id: message.id, content: bridged(message, msg) },
    )
}

/// Sends the text of a message, if it has one.
pub open spec fn send_text(
    who: Actor<Seq<char>>,
    room_id: Seq<char>,
    message: MessageInfo,
) -> StepModel {
    match opt_text(message.text) {
        Some(text) => Step::Call(
            part_of(who, room_id, message, RoomMessage::Text { body: text }),
            Task::Bridge(Bridge::TextSent),
        ),
        None => Step::Return(Value::Unit),
    }
}

/// Sends the file of a message.
pub open spec fn send_file(
    who: Actor<Seq<char>>,
    room_id: Seq<char>,
    message: MessageInfo,
    msg: RoomMessage<Seq<char>>,
) -> StepModel {
    Step::Call(
        part_of(who, room_id, message, msg),
        Task::Bridge(Bridge::FileSent { who, room_id, message }),
    )
}

/// A number that an event can hold.
pub open spec fn fits_event(n: u64) -> bool {
    n < 0x20_0000_0000_0000
}

/// What is logged when a user sends into a room that it is not known to be in.
pub open spec fn falling_back(user: Seq<char>, room_id: Seq<char>) -> Seq<char> {
    "User "@ + user + " not joined in room "@ + room_id + ", falling back to send_message"@
}

fn say_falling_back(user: &str, room_id: &str) -> (r: String)
    ensures
        r@ == falling_back(user@, room_id@),
{
    let mut r: String = "User ".to_owned();
    r.append(user);
    r.append(" not joined in room ");
    r.append(room_id);
    r.append(", falling back to send_message");
    r
}

/// How a message is brought over. A system message is not. A file or an image is uploaded and
/// sent with what is known of it; then follows the text. What was sent is remembered as the event
/// of the message.
pub open spec fn bridge_next(s: BridgeModel, reply: ReplyModel, caches: Caches) -> (
    Caches,
    StepModel,
) {
    match (s, reply) {
        (Bridge::ContentSent { msg_id }, Reply::Got(Value::Text(event_id))) => (
            Caches { events: caches.events.insert(msg_id, event_id), ..caches },
            Step::Return(Value::Unit),
        ),
        _ => (caches, bridge_step(s, reply)),
    }
}

/// The steps of bringing a message over that leave the caches alone.
pub open spec fn bridge_step(s: BridgeModel, reply: ReplyModel) -> StepModel {
    match (s, reply) {
        (Bridge::Start { who, room_id, message }, Reply::Start) => if message.system {
            noted(
                LogLevel::Info,
                SKIPPING_SYSTEM@ + message.shown@,
                Task::Bridge(Bridge::Skipped),
            )
        } else {
            match message.view_type {
                ViewType::Other => send_text(who, room_id, message),
                _ => Step::Call(
                    Task::Bridge(
                        Bridge::Upload {
                            who,
                            mime: opt_text(message.mime),
                            file: opt_text(message.file),
                        },
                    ),
                    Task::Bridge(Bridge::Uploaded { who, room_id, message }),
                ),
            }
        },
        (Bridge::Uploaded { who, room_id, message }, Reply::Got(Value::MaybeText(url))) => {
            match url {
                Some(url) => Step::Call(
                    Task::Bridge(
                        match message.view_type {
                            ViewType::File => Bridge::FileInfo {
                                mime: opt_text(message.mime),
                                msg_id: message.id,
                            },
                            _ => Bridge::ImageInfo {
                                mime: opt_text(message.mime),
                                msg_id: message.id,
                                width: message.width,
                                height: message.height,
                            },
                        },
                    ),
                    Task::Bridge(Bridge::Described { who, room_id, message, url }),
                ),
                None => send_text(who, room_id, message),
            }
        },
        (
            Bridge::Described { who, room_id, message, url },
            Reply::Got(Value::FileInfo(file_info)),
        ) => send_file(
            who,
            room_id,
            message,
            RoomMessage::File { body: or_empty(message.filename), url, file_info },
        ),
        (
            Bridge::Described { who, room_id, message, url },
            Reply::Got(Value::ImageInfo(image_info)),
        ) => send_file(
            who,
            room_id,
            message,
            RoomMessage::Image { body: or_empty(message.filename), url, image_info },
        ),
        (Bridge::FileSent { who, room_id, message }, Reply::Got(_)) => send_text(
            who,
            room_id,
            message,
        ),
        (Bridge::Skipped | Bridge::TextSent, reply) => finished(reply),
        (Bridge::Upload { who, mime, file }, Reply::Start) => match (mime, file) {
            (Some(mime), Some(file)) => matrix(
                MatrixRequest::Upload { who, mime, file },
                Task::Bridge(Bridge::UploadDone),
            ),
            _ => Step::Return(Value::MaybeText(None)),
        },
        (Bridge::UploadDone, Reply::Got(Value::Text(url))) => Step::Return(
            Value::MaybeText(Some(url)),
        ),
        (Bridge::FileInfo { mime, msg_id }, Reply::Start) => match mime {
            Some(mime) => delta(
                DeltaRequest::FileBytes { id: msg_id },
                Task::Bridge(Bridge::FileSized { mime }),
            ),
            None => Step::Return(Value::FileInfo(None)),
        },
        (Bridge::FileSized { mime }, Reply::Got(Value::Count(size))) => if fits_event(size) {
            Step::Return(Value::FileInfo(Some(FileInfo { mimetype: mime, size })))
        } else {
            Step::Panic(BAD_NUMBER@)
        },
        (Bridge::ImageInfo { mime, msg_id, width, height }, Reply::Start) => match mime {
            Some(mime) => if width < 0 || height < 0 {
                Step::Panic(BAD_NUMBER@)
            } else {
                delta(
                    DeltaRequest::FileBytes { id: msg_id },
                    Task::Bridge(
                        Bridge::ImageSized { mime, width: width as u64, height: height as u64 },
                    ),
                )
            },
            None => Step::Return(Value::ImageInfo(None)),
        },
        (Bridge::ImageSized { mime, width, height }, Reply::Got(Value::Count(size))) => {
            if fits_event(size) {
                Step::Return(
                    Value::ImageInfo(Some(ImageInfo { mimetype: mime, width, height, size })),
                )
            } else {
                Step::Panic(BAD_NUMBER@)
            }
        },
        (Bridge::Content { who, room_id, msg_id, content }, Reply::Start) => matrix(
            MatrixRequest::IsJoined { who, room: room_id },
            Task::Bridge(Bridge::Tried { who, room_id, msg_id, content }),
        ),
        (Bridge::Tried { who, room_id, msg_id, content }, Reply::Got(Value::Flag(joined))) => {
            if joined {
                matrix(
                    MatrixRequest::SendMessage { who, room: room_id, content },
                    Task::Bridge(Bridge::ContentSent { msg_id }),
                )
            } else {
                matrix(
                    MatrixRequest::UserId { who },
                    Task::Bridge(Bridge::Outside { who, room_id, msg_id, content }),
                )
            }
        },
        (Bridge::Outside { who, room_id, msg_id, content }, Reply::Got(Value::MaybeText(user))) => {
            match user {
                Some(user) => noted(
                    LogLevel::Warning,
                    falling_back(user, room_id),
                    Task::Bridge(Bridge::Noted { who, room_id, msg_id, content }),
                ),
                None => Step::Panic(MISSING@),
            }
        },
        (Bridge::Noted { who, room_id, msg_id, content }, Reply::Got(_)) => Step::Call(
            Task::Bridge(Bridge::Raw { who, room_id, content }),
            Task::Bridge(Bridge::ContentSent { msg_id }),
        ),
        (Bridge::Raw { who, room_id, content }, Reply::Start) => matrix(
            MatrixRequest::SendRawMessage { who, room: room_id, content },
            Task::Bridge(Bridge::RawSent),
        ),
        (Bridge::RawSent, Reply::Got(Value::Text(event_id))) => Step::Return(
            Value::Text(event_id),
        ),
        (
            Bridge::Uploaded { .. } | Bridge::FileSent { .. } | Bridge::UploadDone
            | Bridge::ContentSent { .. } | Bridge::RawSent,
            Reply::Failed(error),
        ) => Step::Raise(error),
        _ => Step::Mismatch,
    }
}

fn content_of(message: &MessageInfo, msg: RoomMessage) -> (r: DeltaRoomMessageEventContent)
    ensures
        r@ == bridged(*message, msg@),
{
    DeltaRoomMessageEventContent {
        delta_fields: Some(
            DeltaMessageFields {
                external_url: Some(join2(MID_PREFIX, message.rfc724_mid.as_str())),
                msg_id: message.id,
                chat_id: message.chat_id,
            },
        ),
        msg,
    }
}

fn text_part(who: Actor, room_id: String, message: MessageInfo) -> (s: Step)
    ensures
        s@ == send_text(who@, room_id@, message),
{
    match &message.text {
        Some(text) => {
            let msg_id: u32 = message.id;
            let content = content_of(&message, RoomMessage::Text { body: text.clone() });
            Step::Call(
                Task::Bridge(Bridge::Content { who, room_id, msg_id, content }),
                Task::Bridge(Bridge::TextSent),
            )
        },
        None => done(),
    }
}

fn file_part(who: Actor, room_id: String, message: MessageInfo, msg: RoomMessage) -> (s: Step)
    ensures
        s@ == send_file(who@, room_id@, message, msg@),
{
    let msg_id: u32 = message.id;
    let content = content_of(&message, msg);
    Step::Call(
        Task::Bridge(
            Bridge::Content { who: dup_actor(&who), room_id: room_id.clone(), msg_id, content },
        ),
        Task::Bridge(Bridge::FileSent { who, room_id, message }),
    )
}

fn file_name(message: &MessageInfo) -> (r: String)
    ensures
        r@ == or_empty(message.filename),
{
    match &message.filename {
        Some(name) => name.clone(),
        None => "".to_owned(),
    }
}

/// Goes on with bringing a message over.
pub(crate) fn bridge_resume(s: Bridge, reply: Reply, da: &mut DeltaAppservice) -> (step: Step)
    ensures
        (final(da)@, step@) == bridge_next(s@, reply@, old(da)@),
{
    match (s, reply) {
        (Bridge::ContentSent { msg_id }, Reply::Got(Value::Text(event_id))) => {
            da.remember_event(msg_id, event_id);
            done()
        },
        (s, reply) => bridge_on(s, reply),
    }
}

fn bridge_on(s: Bridge, reply: Reply) -> (step: Step)
    ensures
        step@ == bridge_step(s@, reply@),
{
    match (s, reply) {
        (Bridge::Start { who, room_id, message }, Reply::Start) => {
            if message.system {
                note(
                    LogLevel::Info,
                    join2(SKIPPING_SYSTEM, message.shown.as_str()),
                    Task::Bridge(Bridge::Skipped),
                )
            } else {
                match message.view_type {
                    ViewType::Other => text_part(who, room_id, message),
                    _ => Step::Call(
                        Task::Bridge(
                            Bridge::Upload {
                                who: dup_actor(&who),
                                mime: dup(&message.mime),
                                file: dup(&message.file),
                            },
                        ),
                        Task::Bridge(Bridge::Uploaded { who, room_id, message }),
                    ),
                }
            }
        },
        (Bridge::Uploaded { who, room_id, message }, Reply::Got(Value::MaybeText(url))) => {
            match url {
                Some(url) => {
                    let describe: Bridge = match message.view_type {
                        ViewType::File => Bridge::FileInfo {
                            mime: dup(&message.mime),
                            msg_id: message.id,
                        },
                        _ => Bridge::ImageInfo {
                            mime: dup(&message.mime),
                            msg_id: message.id,
                            width: message.width,
                            height: message.height,
                        },
                    };
                    Step::Call(
                        Task::Bridge(describe),
                        Task::Bridge(Bridge::Described { who, room_id, message, url }),
                    )
                },
                None => text_part(who, room_id, message),
            }
        },
        (
            Bridge::Described { who, room_id, message, url },
            Reply::Got(Value::FileInfo(file_info)),
        ) => {
            let body: String = file_name(&message);
            file_part(who, room_id, message, RoomMessage::File { body, url, file_info })
        },
        (
            Bridge::Described { who, room_id, message, url },
            Reply::Got(Value::ImageInfo(image_info)),
        ) => {
            let body: String = file_name(&message);
            file_part(who, room_id, message, RoomMessage::Image { body, url, image_info })
        },
        (Bridge::FileSent { who, room_id, message }, Reply::Got(_)) => text_part(
            who,
            room_id,
            message,
        ),
        (Bridge::Skipped | Bridge::TextSent, reply) => finish(reply),
        (Bridge::Upload { who, mime, file }, Reply::Start) => match (mime, file) {
            (Some(mime), Some(file)) => ask_matrix(
                MatrixRequest::Upload { who, mime, file },
                Task::Bridge(Bridge::UploadDone),
            ),
            _ => Step::Return(Value::MaybeText(None)),
        },
        (Bridge::UploadDone, Reply::Got(Value::Text(url))) => Step::Return(
            Value::MaybeText(Some(url)),
        ),
        (Bridge::FileInfo { mime, msg_id }, Reply::Start) => match mime {
            Some(mime) => ask_delta(
                DeltaRequest::FileBytes { id: msg_id },
                Task::Bridge(Bridge::FileSized { mime }),
            ),
            None => Step::Return(Value::FileInfo(None)),
        },
        (Bridge::FileSized { mime }, Reply::Got(Value::Count(size))) => match uint_of_u64(size) {
            Some(size) => Step::Return(Value::FileInfo(Some(FileInfo { mimetype: mime, size }))),
            None => Step::Panic(BAD_NUMBER.to_owned()),
        },
        (Bridge::ImageInfo { mime, msg_id, width, height }, Reply::Start) => match mime {
            Some(mime) => match (uint_of_i32(width), uint_of_i32(height)) {
                (Some(width), Some(height)) => ask_delta(
                    DeltaRequest::FileBytes { id: msg_id },
                    Task::Bridge(Bridge::ImageSized { mime, width, height }),
                ),
                _ => Step::Panic(BAD_NUMBER.to_owned()),
            },
            None => Step::Return(Value::ImageInfo(None)),
        },
        (Bridge::ImageSized { mime, width, height }, Reply::Got(Value::Count(size))) => {
            match uint_of_u64(size) {
                Some(size) => Step::Return(
                    Value::ImageInfo(Some(ImageInfo { mimetype: mime, width, height, size })),
                ),
                None => Step::Panic(BAD_NUMBER.to_owned()),
            }
        },
        (Bridge::Content { who, room_id, msg_id, content }, Reply::Start) => ask_matrix(
            MatrixRequest::IsJoined { who: dup_actor(&who), room: room_id.clone() },
            Task::Bridge(Bridge::Tried { who, room_id, msg_id, content }),
        ),
        (Bridge::Tried { who, room_id, msg_id, content }, Reply::Got(Value::Flag(joined))) => {
            if joined {
                ask_matrix(
                    MatrixRequest::SendMessage { who, room: room_id, content },
                    Task::Bridge(Bridge::ContentSent { msg_id }),
                )
            } else {
                ask_matrix(
                    MatrixRequest::UserId { who: dup_actor(&who) },
                    Task::Bridge(Bridge::Outside { who, room_id, msg_id, content }),
                )
            }
        },
        (Bridge::Outside { who, room_id, msg_id, content }, Reply::Got(Value::MaybeText(user))) => {
            match user {
                Some(user) => note(
                    LogLevel::Warning,
                    say_falling_back(user.as_str(), room_id.as_str()),
                    Task::Bridge(Bridge::Noted { who, room_id, msg_id, content }),
                ),
                None => missing(),
            }
        },
        (Bridge::Noted { who, room_id, msg_id, content }, Reply::Got(_)) => Step::Call(
            Task::Bridge(Bridge::Raw { who, room_id, content }),
            Task::Bridge(Bridge::ContentSent { msg_id }),
        ),
        (Bridge::Raw { who, room_id, content }, Reply::Start) => ask_matrix(
            MatrixRequest::SendRawMessage { who, room: room_id, content },
            Task::Bridge(Bridge::RawSent),
        ),
        (Bridge::RawSent, Reply::Got(Value::Text(event_id))) => Step::Return(
            Value::Text(event_id),
        ),
        (
            Bridge::Uploaded { .. } | Bridge::FileSent { .. } | Bridge::UploadDone
            | Bridge::ContentSent { .. } | Bridge::RawSent,
            Reply::Failed(error),
        ) => Step::Raise(error),
        _ => Step::Mismatch,
    }
}

/// Brings a message over into a room.
pub fn send_delta_message(who: Actor, room_id: &str, message: MessageInfo) -> (t: Task)
    ensures
        t@ == TaskModel::Bridge(Bridge::Start { who: who@, room_id: room_id@, message }),
{
    Task::Bridge(Bridge::Start { who, room_id: room_id.to_owned(), message })
}

}
