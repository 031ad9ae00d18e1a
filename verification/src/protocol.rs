//! What the bridge asks of the world around it, and what it hears back.
//!
//! The bridge itself waits for nothing and touches nothing. A [`Task`](crate::task::Task) that
//! is resumed says in a [`Step`] what has to happen next: a [`Request`] to perform, another task
//! to run first, or how the task ends. Whoever drives the task performs the request and hands the
//! [`Reply`] back.
use vstd::prelude::*;

use crate::task::{Task, TaskModel};
use crate::text::{opt_text, texts};
use crate::types::{
    file_info_text, image_info_text, DeltaMessageEvent, DeltaRoomMessageEventContent, FileInfo,
    ImageInfo,
};

verus! {

/// On whose behalf a Matrix request is made.
#[derive(Debug, PartialEq, Eq)]
pub enum Actor<T = String> {
    /// The user of the bridge itself.
    Main,
    /// The user that stands for a contact, by its localpart.
    User(T),
}

impl View for Actor {
    type V = Actor<Seq<char>>;

    open spec fn view(&self) -> Actor<Seq<char>> {
        match self {
            Actor::Main => Actor::Main,
            Actor::User(localpart) => Actor::User(localpart@),
        }
    }
}

/// A copy of an actor.
pub(crate) fn dup_actor(who: &Actor) -> (r: Actor)
    ensures
        r == *who,
{
    match who {
        Actor::Main => Actor::Main,
        Actor::User(localpart) => Actor::User(localpart.clone()),
    }
}

/// A contact of the e-mail core.
#[derive(Debug, PartialEq, Eq)]
pub struct ContactInfo {
    pub id: u32,
    pub addr: String,
    pub display_name: String,
    pub name_n_addr: String,
}

/// A copy of a contact.
pub(crate) fn dup_contact(contact: &ContactInfo) -> (r: ContactInfo)
    ensures
        r == *contact,
{
    ContactInfo {
        id: contact.id,
        addr: contact.addr.clone(),
        display_name: contact.display_name.clone(),
        name_n_addr: contact.name_n_addr.clone(),
    }
}

/// What sort of chat it is.
#[derive(Clone, Copy, Debug, PartialEq, Eq, Structural)]
pub enum ChatKind {
    Single,
    Group,
    Mailinglist,
    Broadcast,
}

/// Where a chat stands in the list of chats.
#[derive(Clone, Copy, Debug, PartialEq, Eq, Structural)]
pub enum Visibility {
    Normal,
    Archived,
    Pinned,
}

/// A chat of the e-mail core. `label` is how its number is shown, `prefix` how its kind is.
#[derive(Debug, PartialEq, Eq)]
pub struct ChatInfo {
    pub id: u32,
    pub label: String,
    pub prefix: String,
    pub name: String,
    pub kind: ChatKind,
    pub visibility: Visibility,
    pub muted: bool,
    pub protected: bool,
    pub contact_request: bool,
    pub sending_locations: bool,
    pub device_talk: bool,
}

/// How far a message has got.
#[derive(Clone, Copy, Debug, PartialEq, Eq, Structural)]
pub enum MessageState {
    OutPending,
    OutDelivered,
    OutMdnRcvd,
    OutFailed,
    InSeen,
    InNoticed,
    Other,
}

/// How far the download of a message has got.
#[derive(Clone, Copy, Debug, PartialEq, Eq, Structural)]
pub enum DownloadState {
    Done,
    Available,
    InProgress,
    Failure,
}

/// The invitation to a video chat that a message carries.
#[derive(Debug, PartialEq, Eq)]
pub struct VideochatInvitation {
    pub url: Option<String>,
    pub kind: String,
}

/// A message as it is written into a log. `label` is how its number is shown, `time` how its
/// timestamp is.
#[derive(Debug, PartialEq, Eq)]
pub struct LoggedMessage {
    pub label: String,
    pub from_id: u32,
    pub override_name: Option<String>,
    pub state: MessageState,
    pub download: DownloadState,
    pub time: String,
    pub text: Option<String>,
    pub padlock: bool,
    pub location: bool,
    pub html: bool,
    pub info: bool,
    pub forwarded: bool,
    pub videochat: Option<VideochatInvitation>,
}

/// How a message is shown.
#[derive(Clone, Copy, Debug, PartialEq, Eq, Structural)]
pub enum ViewType {
    File,
    Image,
    Gif,
    Other,
}

/// A message as it is bridged. `shown` is how the e-mail core shows the whole of it in a log.
#[derive(Debug, PartialEq, Eq)]
pub struct MessageInfo {
    pub id: u32,
    pub chat_id: u32,
    pub from_id: u32,
    pub system: bool,
    pub view_type: ViewType,
    pub mime: Option<String>,
    pub file: Option<String>,
    pub filename: Option<String>,
    pub width: i32,
    pub height: i32,
    pub text: Option<String>,
    pub rfc724_mid: String,
    pub shown: String,
}

/// What a number in a list of messages stands for.
#[derive(Clone, Copy, Debug, PartialEq, Eq, Structural)]
pub enum Listed {
    /// The mark between two days.
    Day,
    /// Another number that stands for no message.
    Special,
    /// A message.
    Message(u32),
}

/// An item in the view of a chat, or in a list of messages.
#[derive(Clone, Copy, Debug, PartialEq, Eq, Structural)]
pub enum ChatItem {
    /// A message: its number, and what the number stands for in a list.
    Message { id: u32, listed: Listed },
    /// The mark before the first unread message.
    Marker1,
    /// The mark between two days.
    Day,
}

/// What an item stands for in a list of messages.
pub open spec fn listed(item: ChatItem) -> Listed {
    match item {
        ChatItem::Message { listed, .. } => listed,
        ChatItem::Marker1 => Listed::Special,
        ChatItem::Day => Listed::Day,
    }
}

/// Finds what an item stands for in a list of messages.
pub fn listed_as(item: ChatItem) -> (r: Listed)
    ensures
        r == listed(item),
{
    match item {
        ChatItem::Message { listed, .. } => listed,
        ChatItem::Marker1 => Listed::Special,
        ChatItem::Day => Listed::Day,
    }
}

/// The last message of a chat, as the list of chats shows it.
#[derive(Debug, PartialEq, Eq)]
pub struct SummaryInfo {
    pub prefix: Option<String>,
    pub text: String,
    pub state: MessageState,
    pub time: String,
}

/// A place on earth that a contact was at; coordinates, time and chat as they are shown.
#[derive(Debug, PartialEq, Eq)]
pub struct LocationInfo {
    pub id: u32,
    pub time: String,
    pub latitude: String,
    pub longitude: String,
    pub accuracy: String,
    pub chat: String,
    pub contact_id: u32,
    pub msg_id: u32,
    pub marker: Option<String>,
}

/// A server of an e-mail provider.
#[derive(Debug, PartialEq, Eq)]
pub struct ProviderServer {
    pub hostname: String,
    pub port: u16,
}

/// What is known of an e-mail provider.
#[derive(Debug, PartialEq, Eq)]
pub struct ProviderInfo {
    pub status: u32,
    pub before_login_hint: String,
    pub after_login_hint: String,
    pub overview_page: String,
    pub servers: Vec<ProviderServer>,
}

/// Whether the key of a contact is verified.
#[derive(Clone, Copy, Debug, PartialEq, Eq, Structural)]
pub enum VerifiedStatus {
    Unverified,
    Verified,
    BidirectVerified,
}

/// The image of a chat or a contact.
#[derive(Debug, PartialEq, Eq)]
pub enum ProfileImage {
    Missing,
    Path(String),
    /// There is one, but its path is no text.
    Unreadable,
}

/// A state event of a room, with the room that it names.
#[derive(Debug, PartialEq, Eq)]
pub struct StateEvent {
    pub room_id: Option<String>,
    pub json: String,
}

/// The state events of one room.
#[derive(Debug, PartialEq, Eq)]
pub struct RoomEvents<T = String, L = Vec<String>> {
    pub room_id: T,
    pub events: L,
}

/// The same over mathematical text.
pub type RoomEventsModel = RoomEvents<Seq<char>, Seq<Seq<char>>>;

impl View for RoomEvents {
    type V = RoomEventsModel;

    open spec fn view(&self) -> RoomEventsModel {
        RoomEvents { room_id: self.room_id@, events: texts(self.events@) }
    }
}

/// The state events of some rooms.
pub open spec fn batch(rooms: Seq<RoomEvents>) -> Seq<RoomEventsModel> {
    rooms.map_values(|r: RoomEvents| r@)
}

/// A setting of the e-mail account.
#[derive(Clone, Copy, Debug, PartialEq, Eq, Structural)]
pub enum Setting {
    Addr,
    MailPw,
    Displayname,
    MailUser,
    MailServer,
    SendServer,
    E2eeEnabled,
    ShowEmails,
    BccSelf,
}

/// How a file is sent.
#[derive(Clone, Copy, Debug, PartialEq, Eq, Structural)]
pub enum FileKind {
    Image,
    Sticker,
    File,
}

/// For how long a chat is muted.
#[derive(Clone, Copy, Debug, PartialEq, Eq, Structural)]
pub enum Mute {
    NotMuted,
    Forever,
    ForSeconds(u64),
}

/// What a new room is like from the start.
#[derive(Clone, Copy, Debug, PartialEq, Eq, Structural)]
pub enum RoomPreset {
    /// Only who is invited may join.
    PrivateChat,
    /// Anybody may join.
    PublicChat,
    /// Only who is invited may join, and then may do whatever the one who made the room may.
    TrustedPrivateChat,
}

/// How much a log line matters.
#[derive(Clone, Copy, Debug, PartialEq, Eq, Structural)]
pub enum LogLevel {
    Trace,
    Debug,
    Info,
    Warning,
    Error,
}

/// A request to the e-mail core.
#[derive(Debug, PartialEq, Eq)]
pub enum DeltaRequest<T = String> {
    /// Read an entry of the configuration that is kept for user interfaces.
    UiGet { key: T },
    /// Write or remove such an entry.
    UiSet { key: T, value: Option<T> },
    RawGet { key: T },
    RawSet { key: T, value: T },
    /// Write a setting by its name.
    SetConfig { key: T, value: Option<T> },
    /// Show a setting by its name.
    GetConfig { key: T },
    SetSetting { key: Setting, value: Option<T> },
    GetDisplayname,
    GetSocks5Enabled,
    IsConfigured,
    Configure,
    StartIo,
    Info,
    MaybeNetwork,
    Housekeeping,
    StopOngoing,
    LoadChat { id: u32 },
    ListChats { archived: bool, query: Option<T>, contact: Option<u32> },
    /// The summary of a chat of the list that was loaded last.
    ListedSummary { index: usize },
    FreshCount { chat: u32 },
    ChatContacts { chat: u32 },
    ChatItems { chat: u32, day_markers: bool },
    ChatImage { chat: u32 },
    Draft { chat: u32 },
    MessageCount { chat: u32 },
    MarkNoticed { chat: u32 },
    /// The same, and say how long it took.
    MarkNoticedTimed { chat: u32 },
    CreateChat { contact: u32 },
    /// The same, and show its number.
    CreateChatShown { contact: u32 },
    CreateGroup { name: T, protected: bool },
    CreateBroadcast,
    AddMember { chat: u32, contact: u32 },
    RemoveMember { chat: u32, contact: u32 },
    SetChatName { chat: u32, name: T },
    /// Give a chat its image, or take the image away.
    SetChatImage { chat: u32, file: Option<T> },
    SendText { chat: u32, text: T },
    SendFile { chat: u32, kind: FileKind, file: T, text: Option<T> },
    SendHtml { chat: u32, html: T, text: T },
    SendSyncMessage,
    SendVideochat { chat: u32 },
    SetDraft { chat: u32, text: Option<T> },
    AddDeviceMessage { text: T },
    ChatMedia { chat: u32 },
    SetVisibility { chat: u32, visibility: Visibility },
    SetMuted { chat: u32, mute: Mute },
    SetProtection { chat: u32, protected: bool },
    DeleteChat { chat: u32 },
    AcceptChat { chat: u32 },
    BlockChat { chat: u32 },
    SearchMessages { chat: Option<u32>, query: T },
    FreshMessages,
    IsSendingLocations { chat: Option<u32> },
    Locations { chat: u32, contact: Option<u32> },
    SendLocations { chat: u32, seconds: i64 },
    SetLocation { latitude: T, longitude: T },
    DeleteLocations,
    LoadMessage { id: u32 },
    LoadLogged { id: u32 },
    LoadSetupMessage { id: u32 },
    SetupCodeBegin { id: u32 },
    FileBytes { id: u32 },
    InitiateKeyTransfer,
    ContinueKeyTransfer { id: u32, code: T },
    MessageDetails { id: u32 },
    Download { id: u32 },
    Forward { id: u32, chat: u32 },
    MarkSeen { id: u32 },
    DeleteMessage { id: u32 },
    EstimateDeletion { from_server: bool, seconds: i64 },
    ReceiveImf { data: Vec<u8> },
    LoadContact { id: u32 },
    GetContact { id: u32 },
    ListContacts { verified_only: bool, query: T },
    ListBlocked,
    VerifiedStatus { id: u32 },
    PreferEncrypt { addr: T },
    ContactImage { id: u32 },
    EncryptionInfo { id: u32 },
    AddAddressBook { book: T },
    CreateContact { name: T, addr: T },
    DeleteContact { id: u32 },
    BlockContact { id: u32 },
    UnblockContact { id: u32 },
    MayBeValidAddr { addr: T },
    HasBackup,
    ImportBackup { file: T },
    ImportKeys { file: T },
    /// Take the public key of somebody else from a file.
    ImportPublicKey { addr: T, file: T },
    CreateSetupCode,
    RenderSetupFile { code: T },
    WriteBlob { name: T, content: T },
    CheckQr { content: T },
    SetConfigFromQr { content: T },
    ProviderInfo { addr: T, socks5: bool },
    EmitMsgsChanged,
    EmitError { text: T },
    FileSuffix { path: T },
    ReadFile { path: T },
    ImageSize { file: T },
}

/// The same over mathematical text.
pub type DeltaRequestModel = DeltaRequest<Seq<char>>;

impl View for DeltaRequest {
    type V = DeltaRequestModel;

    open spec fn view(&self) -> DeltaRequestModel {
        match self {
            DeltaRequest::UiGet { key } => DeltaRequest::UiGet { key: key@ },
            DeltaRequest::UiSet { key, value } => DeltaRequest::UiSet { key: key@, value: opt_text(*value) },
            DeltaRequest::RawGet { key } => DeltaRequest::RawGet { key: key@ },
            DeltaRequest::RawSet { key, value } => DeltaRequest::RawSet { key: key@, value: value@ },
            DeltaRequest::SetConfig { key, value } => DeltaRequest::SetConfig { key: key@, value: opt_text(*value) },
            DeltaRequest::GetConfig { key } => DeltaRequest::GetConfig { key: key@ },
            DeltaRequest::SetSetting { key, value } => DeltaRequest::SetSetting { key: *key, value: opt_text(*value) },
            DeltaRequest::GetDisplayname => DeltaRequest::GetDisplayname,
            DeltaRequest::GetSocks5Enabled => DeltaRequest::GetSocks5Enabled,
            DeltaRequest::IsConfigured => DeltaRequest::IsConfigured,
            DeltaRequest::Configure => DeltaRequest::Configure,
            DeltaRequest::StartIo => DeltaRequest::StartIo,
            DeltaRequest::Info => DeltaRequest::Info,
            DeltaRequest::MaybeNetwork => DeltaRequest::MaybeNetwork,
            DeltaRequest::Housekeeping => DeltaRequest::Housekeeping,
            DeltaRequest::StopOngoing => DeltaRequest::StopOngoing,
            DeltaRequest::LoadChat { id } => DeltaRequest::LoadChat { id: *id },
            DeltaRequest::ListChats { archived, query, contact } => DeltaRequest::ListChats { archived: *archived, query: opt_text(*query), contact: *contact },
            DeltaRequest::ListedSummary { index } => DeltaRequest::ListedSummary { index: *index },
            DeltaRequest::FreshCount { chat } => DeltaRequest::FreshCount { chat: *chat },
            DeltaRequest::ChatContacts { chat } => DeltaRequest::ChatContacts { chat: *chat },
            DeltaRequest::ChatItems { chat, day_markers } => DeltaRequest::ChatItems { chat: *chat, day_markers: *day_markers },
            DeltaRequest::ChatImage { chat } => DeltaRequest::ChatImage { chat: *chat },
            DeltaRequest::Draft { chat } => DeltaRequest::Draft { chat: *chat },
            DeltaRequest::MessageCount { chat } => DeltaRequest::MessageCount { chat: *chat },
            DeltaRequest::MarkNoticed { chat } => DeltaRequest::MarkNoticed { chat: *chat },
            DeltaRequest::MarkNoticedTimed { chat } => DeltaRequest::MarkNoticedTimed { chat: *chat },
            DeltaRequest::CreateChat { contact } => DeltaRequest::CreateChat { contact: *contact },
            DeltaRequest::CreateChatShown { contact } => DeltaRequest::CreateChatShown { contact: *contact },
            DeltaRequest::CreateGroup { name, protected } => DeltaRequest::CreateGroup { name: name@, protected: *protected },
            DeltaRequest::CreateBroadcast => DeltaRequest::CreateBroadcast,
            DeltaRequest::AddMember { chat, contact } => DeltaRequest::AddMember { chat: *chat, contact: *contact },
            DeltaRequest::RemoveMember { chat, contact } => DeltaRequest::RemoveMember { chat: *chat, contact: *contact },
            DeltaRequest::SetChatName { chat, name } => DeltaRequest::SetChatName { chat: *chat, name: name@ },
            DeltaRequest::SetChatImage { chat, file } => DeltaRequest::SetChatImage { chat: *chat, file: opt_text(*file) },
            DeltaRequest::SendText { chat, text } => DeltaRequest::SendText { chat: *chat, text: text@ },
            DeltaRequest::SendFile { chat, kind, file, text } => DeltaRequest::SendFile { chat: *chat, kind: *kind, file: file@, text: opt_text(*text) },
            DeltaRequest::SendHtml { chat, html, text } => DeltaRequest::SendHtml { chat: *chat, html: html@, text: text@ },
            DeltaRequest::SendSyncMessage => DeltaRequest::SendSyncMessage,
            DeltaRequest::SendVideochat { chat } => DeltaRequest::SendVideochat { chat: *chat },
            DeltaRequest::SetDraft { chat, text } => DeltaRequest::SetDraft { chat: *chat, text: opt_text(*text) },
            DeltaRequest::AddDeviceMessage { text } => DeltaRequest::AddDeviceMessage { text: text@ },
            DeltaRequest::ChatMedia { chat } => DeltaRequest::ChatMedia { chat: *chat },
            DeltaRequest::SetVisibility { chat, visibility } => DeltaRequest::SetVisibility { chat: *chat, visibility: *visibility },
            DeltaRequest::SetMuted { chat, mute } => DeltaRequest::SetMuted { chat: *chat, mute: *mute },
            DeltaRequest::SetProtection { chat, protected } => DeltaRequest::SetProtection { chat: *chat, protected: *protected },
            DeltaRequest::DeleteChat { chat } => DeltaRequest::DeleteChat { chat: *chat },
            DeltaRequest::AcceptChat { chat } => DeltaRequest::AcceptChat { chat: *chat },
            DeltaRequest::BlockChat { chat } => DeltaRequest::BlockChat { chat: *chat },
            DeltaRequest::SearchMessages { chat, query } => DeltaRequest::SearchMessages { chat: *chat, query: query@ },
            DeltaRequest::FreshMessages => DeltaRequest::FreshMessages,
            DeltaRequest::IsSendingLocations { chat } => DeltaRequest::IsSendingLocations { chat: *chat },
            DeltaRequest::Locations { chat, contact } => DeltaRequest::Locations { chat: *chat, contact: *contact },
            DeltaRequest::SendLocations { chat, seconds } => DeltaRequest::SendLocations { chat: *chat, seconds: *seconds },
            DeltaRequest::SetLocation { latitude, longitude } => DeltaRequest::SetLocation { latitude: latitude@, longitude: longitude@ },
            DeltaRequest::DeleteLocations => DeltaRequest::DeleteLocations,
            DeltaRequest::LoadMessage { id } => DeltaRequest::LoadMessage { id: *id },
            DeltaRequest::LoadLogged { id } => DeltaRequest::LoadLogged { id: *id },
            DeltaRequest::LoadSetupMessage { id } => DeltaRequest::LoadSetupMessage { id: *id },
            DeltaRequest::SetupCodeBegin { id } => DeltaRequest::SetupCodeBegin { id: *id },
            DeltaRequest::FileBytes { id } => DeltaRequest::FileBytes { id: *id },
            DeltaRequest::InitiateKeyTransfer => DeltaRequest::InitiateKeyTransfer,
            DeltaRequest::ContinueKeyTransfer { id, code } => DeltaRequest::ContinueKeyTransfer { id: *id, code: code@ },
            DeltaRequest::MessageDetails { id } => DeltaRequest::MessageDetails { id: *id },
            DeltaRequest::Download { id } => DeltaRequest::Download { id: *id },
            DeltaRequest::Forward { id, chat } => DeltaRequest::Forward { id: *id, chat: *chat },
            DeltaRequest::MarkSeen { id } => DeltaRequest::MarkSeen { id: *id },
            DeltaRequest::DeleteMessage { id } => DeltaRequest::DeleteMessage { id: *id },
            DeltaRequest::EstimateDeletion { from_server, seconds } => DeltaRequest::EstimateDeletion { from_server: *from_server, seconds: *seconds },
            DeltaRequest::ReceiveImf { data } => DeltaRequest::ReceiveImf { data: *data },
            DeltaRequest::LoadContact { id } => DeltaRequest::LoadContact { id: *id },
            DeltaRequest::GetContact { id } => DeltaRequest::GetContact { id: *id },
            DeltaRequest::ListContacts { verified_only, query } => DeltaRequest::ListContacts { verified_only: *verified_only, query: query@ },
            DeltaRequest::ListBlocked => DeltaRequest::ListBlocked,
            DeltaRequest::VerifiedStatus { id } => DeltaRequest::VerifiedStatus { id: *id },
            DeltaRequest::PreferEncrypt { addr } => DeltaRequest::PreferEncrypt { addr: addr@ },
            DeltaRequest::ContactImage { id } => DeltaRequest::ContactImage { id: *id },
            DeltaRequest::EncryptionInfo { id } => DeltaRequest::EncryptionInfo { id: *id },
            DeltaRequest::AddAddressBook { book } => DeltaRequest::AddAddressBook { book: book@ },
            DeltaRequest::CreateContact { name, addr } => DeltaRequest::CreateContact { name: name@, addr: addr@ },
            DeltaRequest::DeleteContact { id } => DeltaRequest::DeleteContact { id: *id },
            DeltaRequest::BlockContact { id } => DeltaRequest::BlockContact { id: *id },
            DeltaRequest::UnblockContact { id } => DeltaRequest::UnblockContact { id: *id },
            DeltaRequest::MayBeValidAddr { addr } => DeltaRequest::MayBeValidAddr { addr: addr@ },
            DeltaRequest::HasBackup => DeltaRequest::HasBackup,
            DeltaRequest::ImportBackup { file } => DeltaRequest::ImportBackup { file: file@ },
            DeltaRequest::ImportKeys { file } => DeltaRequest::ImportKeys { file: file@ },
            DeltaRequest::ImportPublicKey { addr, file } => DeltaRequest::ImportPublicKey { addr: addr@, file: file@ },
            DeltaRequest::CreateSetupCode => DeltaRequest::CreateSetupCode,
            DeltaRequest::RenderSetupFile { code } => DeltaRequest::RenderSetupFile { code: code@ },
            DeltaRequest::WriteBlob { name, content } => DeltaRequest::WriteBlob { name: name@, content: content@ },
            DeltaRequest::CheckQr { content } => DeltaRequest::CheckQr { content: content@ },
            DeltaRequest::SetConfigFromQr { content } => DeltaRequest::SetConfigFromQr { content: content@ },
            DeltaRequest::ProviderInfo { addr, socks5 } => DeltaRequest::ProviderInfo { addr: addr@, socks5: *socks5 },
            DeltaRequest::EmitMsgsChanged => DeltaRequest::EmitMsgsChanged,
            DeltaRequest::EmitError { text } => DeltaRequest::EmitError { text: text@ },
            DeltaRequest::FileSuffix { path } => DeltaRequest::FileSuffix { path: path@ },
            DeltaRequest::ReadFile { path } => DeltaRequest::ReadFile { path: path@ },
            DeltaRequest::ImageSize { file } => DeltaRequest::ImageSize { file: file@ },
        }
    }
}

/// A request to the Matrix homeserver, or to what is known of it.
#[derive(Debug, PartialEq, Eq)]
pub enum MatrixRequest<T = String, L = Vec<String>, B = Vec<RoomEvents>> {
    UserId { who: Actor<T> },
    /// Is it a user that the bridge manages?
    InNamespace { user: T },
    /// The localpart of the bridge's own user.
    SenderLocalpart,
    IsJoined { who: Actor<T>, room: T },
    IsInvited { who: Actor<T>, room: T },
    SendText { who: Actor<T>, room: T, text: T },
    SendMessage { who: Actor<T>, room: T, content: DeltaRoomMessageEventContent<T> },
    /// Send to a room that the user is not known to have joined.
    SendRawMessage { who: Actor<T>, room: T, content: DeltaRoomMessageEventContent<T> },
    Redact { room: T, event: T },
    ReadMarker { who: Actor<T>, room: T, fully_read: T, receipt: T },
    JoinRoom { who: Actor<T>, room: T },
    InviteUser { room: T, user: T },
    LeaveRoom { who: Actor<T>, room: T },
    SendTopic { room: T, topic: T },
    SendSpaceChild { space: T, child: T, via: T, suggested: Option<bool> },
    SendAvatar { room: T, url: Option<T> },
    CreateRoom { preset: RoomPreset, name: T, topic: Option<T>, direct: bool, as_space: bool, invite: L },
    /// The room of the space that the bridge keeps its rooms in.
    SpaceRoom,
    JoinedMembers { room: T },
    RegisterUser { localpart: T },
    /// Get ready to act as a user.
    UserClient { localpart: T },
    DisplayName { who: Actor<T> },
    SetDisplayName { who: Actor<T>, name: T },
    Upload { who: Actor<T>, mime: T, file: T },
    StateEvents { who: Actor<T>, room: T },
    /// How the answer to a sync with these state events is shown in a log.
    ShowSync { token: T, rooms: B },
    ProcessSync { who: Actor<T>, token: T, rooms: B },
    RoomEvent { who: Actor<T>, room: T, event: T },
}

/// The same over mathematical text.
pub type MatrixRequestModel = MatrixRequest<Seq<char>, Seq<Seq<char>>, Seq<RoomEventsModel>>;

impl View for MatrixRequest {
    type V = MatrixRequestModel;

    open spec fn view(&self) -> MatrixRequestModel {
        match self {
            MatrixRequest::UserId { who } => MatrixRequest::UserId { who: who@ },
            MatrixRequest::InNamespace { user } => MatrixRequest::InNamespace { user: user@ },
            MatrixRequest::SenderLocalpart => MatrixRequest::SenderLocalpart,
            MatrixRequest::IsJoined { who, room } => MatrixRequest::IsJoined { who: who@, room: room@ },
            MatrixRequest::IsInvited { who, room } => MatrixRequest::IsInvited { who: who@, room: room@ },
            MatrixRequest::SendText { who, room, text } => MatrixRequest::SendText { who: who@, room: room@, text: text@ },
            MatrixRequest::SendMessage { who, room, content } => MatrixRequest::SendMessage { who: who@, room: room@, content: content@ },
            MatrixRequest::SendRawMessage { who, room, content } => MatrixRequest::SendRawMessage { who: who@, room: room@, content: content@ },
            MatrixRequest::Redact { room, event } => MatrixRequest::Redact { room: room@, event: event@ },
            MatrixRequest::ReadMarker { who, room, fully_read, receipt } => MatrixRequest::ReadMarker { who: who@, room: room@, fully_read: fully_read@, receipt: receipt@ },
            MatrixRequest::JoinRoom { who, room } => MatrixRequest::JoinRoom { who: who@, room: room@ },
            MatrixRequest::InviteUser { room, user } => MatrixRequest::InviteUser { room: room@, user: user@ },
            MatrixRequest::LeaveRoom { who, room } => MatrixRequest::LeaveRoom { who: who@, room: room@ },
            MatrixRequest::SendTopic { room, topic } => MatrixRequest::SendTopic { room: room@, topic: topic@ },
            MatrixRequest::SendSpaceChild { space, child, via, suggested } => MatrixRequest::SendSpaceChild { space: space@, child: child@, via: via@, suggested: *suggested },
            MatrixRequest::SendAvatar { room, url } => MatrixRequest::SendAvatar { room: room@, url: opt_text(*url) },
            MatrixRequest::CreateRoom { preset, name, topic, direct, as_space, invite } => MatrixRequest::CreateRoom { preset: *preset, name: name@, topic: opt_text(*topic), direct: *direct, as_space: *as_space, invite: texts(invite@) },
            MatrixRequest::SpaceRoom => MatrixRequest::SpaceRoom,
            MatrixRequest::JoinedMembers { room } => MatrixRequest::JoinedMembers { room: room@ },
            MatrixRequest::RegisterUser { localpart } => MatrixRequest::RegisterUser { localpart: localpart@ },
            MatrixRequest::UserClient { localpart } => MatrixRequest::UserClient { localpart: localpart@ },
            MatrixRequest::DisplayName { who } => MatrixRequest::DisplayName { who: who@ },
            MatrixRequest::SetDisplayName { who, name } => MatrixRequest::SetDisplayName { who: who@, name: name@ },
            MatrixRequest::Upload { who, mime, file } => MatrixRequest::Upload { who: who@, mime: mime@, file: file@ },
            MatrixRequest::StateEvents { who, room } => MatrixRequest::StateEvents { who: who@, room: room@ },
            MatrixRequest::ShowSync { token, rooms } => MatrixRequest::ShowSync { token: token@, rooms: batch(rooms@) },
            MatrixRequest::ProcessSync { who, token, rooms } => MatrixRequest::ProcessSync { who: who@, token: token@, rooms: batch(rooms@) },
            MatrixRequest::RoomEvent { who, room, event } => MatrixRequest::RoomEvent { who: who@, room: room@, event: event@ },
        }
    }
}

/// A request to the machine that the bridge runs on.
#[derive(Debug, PartialEq, Eq)]
pub enum HostRequest<T = String> {
    Print { text: T },
    Log { level: LogLevel, text: T },
    ReadHtml { path: T },
    ReadDir { path: T },
}

/// The same over mathematical text.
pub type HostRequestModel = HostRequest<Seq<char>>;

impl View for HostRequest {
    type V = HostRequestModel;

    open spec fn view(&self) -> HostRequestModel {
        match self {
            HostRequest::Print { text } => HostRequest::Print { text: text@ },
            HostRequest::Log { level, text } => HostRequest::Log { level: *level, text: text@ },
            HostRequest::ReadHtml { path } => HostRequest::ReadHtml { path: path@ },
            HostRequest::ReadDir { path } => HostRequest::ReadDir { path: path@ },
        }
    }
}

/// Something that the bridge wants done.
#[derive(Debug, PartialEq, Eq)]
pub enum Request<T = String, L = Vec<String>, B = Vec<RoomEvents>> {
    Delta(DeltaRequest<T>),
    Matrix(MatrixRequest<T, L, B>),
    Host(HostRequest<T>),
}

/// The same over mathematical text.
pub type RequestModel = Request<Seq<char>, Seq<Seq<char>>, Seq<RoomEventsModel>>;

impl View for Request {
    type V = RequestModel;

    open spec fn view(&self) -> RequestModel {
        match self {
            Request::Delta(r) => Request::Delta(r@),
            Request::Matrix(r) => Request::Matrix(r@),
            Request::Host(r) => Request::Host(r@),
        }
    }
}

/// The text of a result, good or bad.
pub open spec fn result_text(r: Result<String, String>) -> Result<Seq<char>, Seq<char>> {
    match r {
        Ok(s) => Ok(s@),
        Err(e) => Err(e@),
    }
}

/// What a request or a task gives back.
#[derive(Debug, PartialEq, Eq)]
pub enum Value<T = String> {
    Unit,
    Flag(bool),
    Number(u32),
    Count(u64),
    Text(T),
    MaybeText(Option<T>),
    MaybeNumber(Option<u32>),
    Event(Option<DeltaMessageEvent>),
    FileInfo(Option<FileInfo<T>>),
    ImageInfo(Option<ImageInfo<T>>),
    /// A contact, and the user that stands for it.
    EmailUser { contact: ContactInfo, localpart: T },
    /// What a command line says, and the chat that is selected then.
    Said { chat_id: u32, said: Result<T, T> },
}

/// The same over mathematical text.
pub type ValueModel = Value<Seq<char>>;

impl View for Value {
    type V = ValueModel;

    open spec fn view(&self) -> ValueModel {
        match self {
            Value::Unit => Value::Unit,
            Value::Flag(x) => Value::Flag(*x),
            Value::Number(x) => Value::Number(*x),
            Value::Count(x) => Value::Count(*x),
            Value::Text(x) => Value::Text(x@),
            Value::MaybeText(x) => Value::MaybeText(opt_text(*x)),
            Value::MaybeNumber(x) => Value::MaybeNumber(*x),
            Value::Event(x) => Value::Event(*x),
            Value::FileInfo(x) => Value::FileInfo(file_info_text(*x)),
            Value::ImageInfo(x) => Value::ImageInfo(image_info_text(*x)),
            Value::EmailUser { contact, localpart } => Value::EmailUser { contact: *contact, localpart: localpart@ },
            Value::Said { chat_id, said } => Value::Said { chat_id: *chat_id, said: result_text(*said) },
        }
    }
}

/// What a task hears after it has asked for something.
#[derive(Debug, PartialEq, Eq)]
pub enum Reply<T = String> {
    /// Nothing was asked yet.
    Start,
    /// It is done, or another task has returned.
    Got(Value<T>),
    /// It was refused, or another task has failed, with this message.
    Failed(T),
    Contact(ContactInfo),
    Chat(ChatInfo),
    Message(MessageInfo),
    Logged(LoggedMessage),
    Draft(Option<LoggedMessage>),
    SetupMessage { label: String, is_setup: bool },
    Numbers(Vec<u32>),
    Texts(Vec<String>),
    /// The items of a chat, and how long it took to list them.
    Items { items: Vec<ChatItem>, elapsed: String },
    /// Messages that were found, and how long it took.
    Found { items: Vec<ChatItem>, elapsed: String },
    /// The chats of a list, and how long it took to load it.
    Chatlist { ids: Vec<u32>, elapsed: String },
    Summary(SummaryInfo),
    Locations(Vec<LocationInfo>),
    Provider(Option<ProviderInfo>),
    Html { html: String, file_name: Option<String> },
    /// The entries of a directory in order; nothing for one that cannot be read.
    Entries(Vec<Option<String>>),
    Bytes(Vec<u8>),
    StateEvents(Vec<StateEvent>),
    Image(ProfileImage),
    Verified(VerifiedStatus),
    /// A setting, its name and its value as they are shown.
    Shown { key: String, value: String },
    Size { width: u32, height: u32 },
    /// The file could not be read.
    Unreadable,
}

/// The same over mathematical text.
pub type ReplyModel = Reply<Seq<char>>;

impl View for Reply {
    type V = ReplyModel;

    open spec fn view(&self) -> ReplyModel {
        match self {
            Reply::Start => Reply::Start,
            Reply::Got(x) => Reply::Got(x@),
            Reply::Failed(x) => Reply::Failed(x@),
            Reply::Contact(x) => Reply::Contact(*x),
            Reply::Chat(x) => Reply::Chat(*x),
            Reply::Message(x) => Reply::Message(*x),
            Reply::Logged(x) => Reply::Logged(*x),
            Reply::Draft(x) => Reply::Draft(*x),
            Reply::SetupMessage { label, is_setup } => Reply::SetupMessage { label: *label, is_setup: *is_setup },
            Reply::Numbers(x) => Reply::Numbers(*x),
            Reply::Texts(x) => Reply::Texts(*x),
            Reply::Items { items, elapsed } => Reply::Items { items: *items, elapsed: *elapsed },
            Reply::Found { items, elapsed } => Reply::Found { items: *items, elapsed: *elapsed },
            Reply::Chatlist { ids, elapsed } => Reply::Chatlist { ids: *ids, elapsed: *elapsed },
            Reply::Summary(x) => Reply::Summary(*x),
            Reply::Locations(x) => Reply::Locations(*x),
            Reply::Provider(x) => Reply::Provider(*x),
            Reply::Html { html, file_name } => Reply::Html { html: *html, file_name: *file_name },
            Reply::Entries(x) => Reply::Entries(*x),
            Reply::Bytes(x) => Reply::Bytes(*x),
            Reply::StateEvents(x) => Reply::StateEvents(*x),
            Reply::Image(x) => Reply::Image(*x),
            Reply::Verified(x) => Reply::Verified(*x),
            Reply::Shown { key, value } => Reply::Shown { key: *key, value: *value },
            Reply::Size { width, height } => Reply::Size { width: *width, height: *height },
            Reply::Unreadable => Reply::Unreadable,
        }
    }
}

/// A request was done, and has given nothing.
pub open spec fn is_unit(reply: ReplyModel) -> bool {
    reply matches Reply::Got(Value::Unit)
}

/// A request was done, and has given a truth value.
pub open spec fn is_flag(reply: ReplyModel) -> bool {
    reply matches Reply::Got(Value::Flag(_))
}

/// A request was done, and has given a number.
pub open spec fn is_number(reply: ReplyModel) -> bool {
    reply matches Reply::Got(Value::Number(_))
}

/// A request was done, and has given a count.
pub open spec fn is_count(reply: ReplyModel) -> bool {
    reply matches Reply::Got(Value::Count(_))
}

/// A request was done, and has given a text.
pub open spec fn is_text(reply: ReplyModel) -> bool {
    reply matches Reply::Got(Value::Text(_))
}

/// A request was done, and has given a text that may be missing.
pub open spec fn is_maybe_text(reply: ReplyModel) -> bool {
    reply matches Reply::Got(Value::MaybeText(_))
}

/// A request was done, and has given an event that may be missing.
pub open spec fn is_event(reply: ReplyModel) -> bool {
    reply matches Reply::Got(Value::Event(_))
}

/// The replies that the e-mail core may give to a request.
pub open spec fn delta_fits(request: DeltaRequestModel, reply: ReplyModel) -> bool {
    match request {
        DeltaRequest::StartIo | DeltaRequest::MaybeNetwork | DeltaRequest::StopOngoing
        | DeltaRequest::EmitMsgsChanged | DeltaRequest::EmitError { .. } => is_unit(reply),
        DeltaRequest::UiSet { .. } | DeltaRequest::RawSet { .. }
        | DeltaRequest::SetConfig { .. } | DeltaRequest::SetSetting { .. }
        | DeltaRequest::Configure | DeltaRequest::Housekeeping
        | DeltaRequest::MarkNoticed { .. } | DeltaRequest::AddMember { .. }
        | DeltaRequest::RemoveMember { .. } | DeltaRequest::SetChatName { .. }
        | DeltaRequest::SetChatImage { .. } | DeltaRequest::SendFile { .. }
        | DeltaRequest::SendHtml { .. } | DeltaRequest::SendVideochat { .. }
        | DeltaRequest::SetDraft { .. } | DeltaRequest::AddDeviceMessage { .. }
        | DeltaRequest::SetVisibility { .. } | DeltaRequest::SetMuted { .. }
        | DeltaRequest::SetProtection { .. } | DeltaRequest::DeleteChat { .. }
        | DeltaRequest::AcceptChat { .. } | DeltaRequest::BlockChat { .. }
        | DeltaRequest::SendLocations { .. } | DeltaRequest::DeleteLocations
        | DeltaRequest::ContinueKeyTransfer { .. } | DeltaRequest::Forward { .. }
        | DeltaRequest::MarkSeen { .. } | DeltaRequest::DeleteMessage { .. }
        | DeltaRequest::ReceiveImf { .. } | DeltaRequest::AddAddressBook { .. }
        | DeltaRequest::DeleteContact { .. } | DeltaRequest::BlockContact { .. }
        | DeltaRequest::UnblockContact { .. } | DeltaRequest::HasBackup
        | DeltaRequest::ImportBackup { .. } | DeltaRequest::ImportKeys { .. }
        | DeltaRequest::ImportPublicKey { .. }
        | DeltaRequest::SetConfigFromQr { .. } => is_unit(reply) || reply is Failed,
        DeltaRequest::MayBeValidAddr { .. } => is_flag(reply),
        DeltaRequest::GetSocks5Enabled | DeltaRequest::IsConfigured
        | DeltaRequest::IsSendingLocations { .. } | DeltaRequest::SetLocation { .. } => {
            is_flag(reply) || reply is Failed
        },
        DeltaRequest::CreateChat { .. } | DeltaRequest::SendText { .. }
        | DeltaRequest::CreateContact { .. } => is_number(reply) || reply is Failed,
        DeltaRequest::FileBytes { .. } => is_count(reply),
        DeltaRequest::FreshCount { .. } | DeltaRequest::MessageCount { .. }
        | DeltaRequest::EstimateDeletion { .. } => is_count(reply) || reply is Failed,
        DeltaRequest::Info | DeltaRequest::CreateSetupCode => is_text(reply),
        DeltaRequest::MarkNoticedTimed { .. } | DeltaRequest::CreateChatShown { .. }
        | DeltaRequest::CreateGroup { .. } | DeltaRequest::CreateBroadcast
        | DeltaRequest::InitiateKeyTransfer | DeltaRequest::MessageDetails { .. }
        | DeltaRequest::Download { .. } | DeltaRequest::EncryptionInfo { .. }
        | DeltaRequest::RenderSetupFile { .. } | DeltaRequest::WriteBlob { .. }
        | DeltaRequest::CheckQr { .. } => is_text(reply) || reply is Failed,
        DeltaRequest::SetupCodeBegin { .. } | DeltaRequest::FileSuffix { .. } => {
            is_maybe_text(reply)
        },
        DeltaRequest::UiGet { .. } | DeltaRequest::RawGet { .. }
        | DeltaRequest::GetDisplayname | DeltaRequest::SendSyncMessage
        | DeltaRequest::PreferEncrypt { .. } => is_maybe_text(reply) || reply is Failed,
        DeltaRequest::LoadContact { .. } | DeltaRequest::GetContact { .. } => {
            reply is Contact || reply is Failed
        },
        DeltaRequest::LoadChat { .. } => reply is Chat || reply is Failed,
        DeltaRequest::LoadMessage { .. } => reply is Message || reply is Failed,
        DeltaRequest::LoadLogged { .. } => reply is Logged || reply is Failed,
        DeltaRequest::Draft { .. } => reply is Draft || reply is Failed,
        DeltaRequest::LoadSetupMessage { .. } => reply is SetupMessage || reply is Failed,
        DeltaRequest::ChatContacts { .. } | DeltaRequest::ListContacts { .. }
        | DeltaRequest::ListBlocked => reply is Numbers || reply is Failed,
        DeltaRequest::ChatMedia { .. } => reply is Texts || reply is Failed,
        DeltaRequest::ChatItems { .. } => reply is Items || reply is Failed,
        DeltaRequest::SearchMessages { .. } | DeltaRequest::FreshMessages => {
            reply is Found || reply is Failed
        },
        DeltaRequest::ListChats { .. } => reply is Chatlist || reply is Failed,
        DeltaRequest::ListedSummary { .. } => reply is Summary || reply is Failed,
        DeltaRequest::Locations { .. } => reply is Locations || reply is Failed,
        DeltaRequest::ProviderInfo { .. } => reply is Provider,
        DeltaRequest::ReadFile { .. } => reply is Bytes || reply is Failed,
        DeltaRequest::ChatImage { .. } | DeltaRequest::ContactImage { .. } => {
            reply is Image || reply is Failed
        },
        DeltaRequest::VerifiedStatus { .. } => reply is Verified || reply is Failed,
        DeltaRequest::GetConfig { .. } => reply is Shown || reply is Failed,
        DeltaRequest::ImageSize { .. } => reply is Size || reply is Unreadable || reply is Failed,
    }
}

/// The replies that the homeserver may give to a request.
pub open spec fn matrix_fits(request: MatrixRequestModel, reply: ReplyModel) -> bool {
    match request {
        MatrixRequest::SendText { .. } | MatrixRequest::Redact { .. }
        | MatrixRequest::ReadMarker { .. } | MatrixRequest::JoinRoom { .. }
        | MatrixRequest::InviteUser { .. } | MatrixRequest::LeaveRoom { .. }
        | MatrixRequest::SendTopic { .. } | MatrixRequest::SendSpaceChild { .. }
        | MatrixRequest::SendAvatar { .. } | MatrixRequest::RegisterUser { .. }
        | MatrixRequest::UserClient { .. } | MatrixRequest::SetDisplayName { .. }
        | MatrixRequest::ProcessSync { .. } => is_unit(reply) || reply is Failed,
        MatrixRequest::IsJoined { .. } | MatrixRequest::IsInvited { .. } => is_flag(reply),
        MatrixRequest::InNamespace { .. } => is_flag(reply) || reply is Failed,
        MatrixRequest::SenderLocalpart | MatrixRequest::ShowSync { .. } => is_text(reply),
        MatrixRequest::SendMessage { .. } | MatrixRequest::SendRawMessage { .. }
        | MatrixRequest::CreateRoom { .. } | MatrixRequest::Upload { .. } => {
            is_text(reply) || reply is Failed
        },
        MatrixRequest::UserId { .. } => is_maybe_text(reply),
        MatrixRequest::SpaceRoom | MatrixRequest::DisplayName { .. } => {
            is_maybe_text(reply) || reply is Failed
        },
        MatrixRequest::JoinedMembers { .. } => reply is Texts || reply is Failed,
        MatrixRequest::StateEvents { .. } => reply is StateEvents || reply is Failed,
        MatrixRequest::RoomEvent { .. } => is_event(reply) || reply is Failed,
    }
}

/// The replies that the machine may give to a request.
pub open spec fn host_fits(request: HostRequestModel, reply: ReplyModel) -> bool {
    match request {
        HostRequest::Print { .. } | HostRequest::Log { .. } => is_unit(reply),
        HostRequest::ReadHtml { .. } => reply is Html || reply is Failed,
        HostRequest::ReadDir { .. } => reply is Entries || reply is Failed,
    }
}

/// The replies that a request may get.
pub open spec fn fits(request: RequestModel, reply: ReplyModel) -> bool {
    match request {
        Request::Delta(request) => delta_fits(request, reply),
        Request::Matrix(request) => matrix_fits(request, reply),
        Request::Host(request) => host_fits(request, reply),
    }
}

/// What a task wants next.
#[derive(Debug, PartialEq, Eq)]
pub enum Step<T = String, L = Vec<String>, B = Vec<RoomEvents>> {
    /// Perform the request and resume the task with the reply.
    Perform(Request<T, L, B>, Task<T, L>),
    /// Run the first task to its end and resume the second one with what it gave.
    Call(Task<T, L>, Task<T, L>),
    /// The task is done.
    Return(Value<T>),
    /// The task has failed; whoever called it learns why.
    Raise(T),
    /// Something that must not happen has happened: give up altogether.
    Panic(T),
    /// The reply was not one to what was asked.
    Mismatch,
}

/// The same over mathematical text.
pub type StepModel = Step<Seq<char>, Seq<Seq<char>>, Seq<RoomEventsModel>>;

impl View for Step {
    type V = StepModel;

    open spec fn view(&self) -> StepModel {
        match self {
            Step::Perform(request, task) => Step::Perform(request@, task@),
            Step::Call(callee, task) => Step::Call(callee@, task@),
            Step::Return(value) => Step::Return(value@),
            Step::Raise(text) => Step::Raise(text@),
            Step::Panic(text) => Step::Panic(text@),
            Step::Mismatch => Step::Mismatch,
        }
    }
}

/// Why a task panics when something that has to be there is not.
pub const MISSING: &'static str = "a value is missing";

/// Asks the e-mail core.
pub open spec fn delta(r: DeltaRequestModel, t: TaskModel) -> StepModel {
    Step::Perform(Request::Delta(r), t)
}

/// Asks the homeserver.
pub open spec fn matrix(r: MatrixRequestModel, t: TaskModel) -> StepModel {
    Step::Perform(Request::Matrix(r), t)
}

/// Asks the machine.
pub open spec fn host(r: HostRequestModel, t: TaskModel) -> StepModel {
    Step::Perform(Request::Host(r), t)
}

/// Writes a line into the log.
pub open spec fn noted(level: LogLevel, text: Seq<char>, t: TaskModel) -> StepModel {
    host(HostRequest::Log { level, text }, t)
}

/// Asks the e-mail core.
pub(crate) fn ask_delta(r: DeltaRequest, t: Task) -> (s: Step)
    ensures
        s@ == delta(r@, t@),
{
    Step::Perform(Request::Delta(r), t)
}

/// Asks the homeserver.
pub(crate) fn ask_matrix(r: MatrixRequest, t: Task) -> (s: Step)
    ensures
        s@ == matrix(r@, t@),
{
    Step::Perform(Request::Matrix(r), t)
}

/// Asks the machine.
pub(crate) fn ask_host(r: HostRequest, t: Task) -> (s: Step)
    ensures
        s@ == host(r@, t@),
{
    Step::Perform(Request::Host(r), t)
}

/// Writes a line into the log.
pub(crate) fn note(level: LogLevel, text: String, t: Task) -> (s: Step)
    ensures
        s@ == noted(level, text@, t@),
{
    ask_host(HostRequest::Log { level, text }, t)
}

/// Whatever comes back, the task is done; a failure is passed on.
pub open spec fn finished(reply: ReplyModel) -> StepModel {
    match reply {
        Reply::Got(_) => Step::Return(Value::Unit),
        Reply::Failed(error) => Step::Raise(error),
        _ => Step::Mismatch,
    }
}

/// Whatever comes back, the task is done; a failure must not happen.
pub open spec fn settled(reply: ReplyModel) -> StepModel {
    match reply {
        Reply::Got(_) => Step::Return(Value::Unit),
        Reply::Failed(error) => Step::Panic(error),
        _ => Step::Mismatch,
    }
}

/// Ends, and passes on a failure.
pub(crate) fn finish(reply: Reply) -> (s: Step)
    ensures
        s@ == finished(reply@),
{
    match reply {
        Reply::Got(_) => Step::Return(Value::Unit),
        Reply::Failed(error) => Step::Raise(error),
        _ => Step::Mismatch,
    }
}

/// Ends, and panics where there was a failure.
pub(crate) fn settle(reply: Reply) -> (s: Step)
    ensures
        s@ == settled(reply@),
{
    match reply {
        Reply::Got(_) => Step::Return(Value::Unit),
        Reply::Failed(error) => Step::Panic(error),
        _ => Step::Mismatch,
    }
}

/// Panics for want of a value.
pub(crate) fn missing() -> (s: Step)
    ensures
        s@ == StepModel::Panic(MISSING@),
{
    Step::Panic(MISSING.to_owned())
}

/// Ends with nothing to give back.
pub(crate) fn done() -> (s: Step)
    ensures
        s@ == StepModel::Return(Value::Unit),
{
    Step::Return(Value::Unit)
}

}
