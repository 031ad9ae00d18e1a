//! The command line of the e-mail core.
use vstd::prelude::*;

use crate::cmdline::chats::{
    chat_list_next, chat_list_resume, chat_view_next, chat_view_resume, contact_view_next,
    contact_view_resume, ChatList, ChatView, ContactView,
};
use crate::cmdline::commands::{chat_id_after, command, obey};
use crate::cmdline::contacts::Roll;
use crate::cmdline::messages::Journal;
use crate::numbers::{decimal, digits, signed_decimal, signed_digits};
use crate::protocol::{
    DeltaRequest, DeltaRequestModel, HostRequest, HostRequestModel, LocationInfo, ProviderInfo,
    Reply, ReplyModel, Request, RoomEvents, RoomEventsModel, Step, StepModel, Value, MISSING,
};
use crate::task::{Task, TaskModel};
use crate::text::{join, join2, join3, joined, texts};

pub mod chats;
pub mod commands;
pub mod contacts;
pub mod messages;
pub mod poke;

verus! {

/// What the command line waits for.
#[derive(Debug, PartialEq, Eq)]
pub enum Cmdline<T = String> {
    Start { line: T },
    Selected { line: T },
    /// Nothing is said.
    Quiet,
    /// Nothing is said, even about a failure.
    Deaf,
    Told { text: T },
    /// What comes back is said, between two texts.
    Framed { before: T, after: T },
    /// What another task gave is said, with something behind it.
    Appended { after: T },
    KeyTransfer,
    SetupLoaded { msg_id: u32 },
    SetupBegin { label: T },
    SetupCode,
    SetupRendered { code: T },
    SetupWritten { code: T },
    Poked,
    ConfigShown,
    SyncSent,
    HtmlRead { chat: u32, text: T },
    MediaListed,
    LocationSet,
    LocationsListed,
    QrSet,
    ProviderSocks { addr: T },
    ProviderKnown { addr: T },
    FileMeasured,
    DeviceCounted { seconds: i64 },
    ServerCounted { seconds: i64, device: u64 },
    Searched,
    FreshListed,
    ContactsListed { after: T },
    Members { chat: u32 },
    MembersListed { chat: u32, count: usize },
    MembersLocated { count: usize },
    ChatList { stage: ChatList<T> },
    ChatView { stage: ChatView<T> },
    ContactView { stage: ContactView<T> },
}

/// The same over mathematical text.
pub type CmdlineModel = Cmdline<Seq<char>>;

impl View for Cmdline {
    type V = CmdlineModel;

    open spec fn view(&self) -> CmdlineModel {
        match self {
            Cmdline::Start { line } => Cmdline::Start { line: line@ },
            Cmdline::Selected { line } => Cmdline::Selected { line: line@ },
            Cmdline::Quiet => Cmdline::Quiet,
            Cmdline::Deaf => Cmdline::Deaf,
            Cmdline::Told { text } => Cmdline::Told { text: text@ },
            Cmdline::Framed { before, after } => Cmdline::Framed { before: before@, after: after@ },
            Cmdline::Appended { after } => Cmdline::Appended { after: after@ },
            Cmdline::KeyTransfer => Cmdline::KeyTransfer,
            Cmdline::SetupLoaded { msg_id } => Cmdline::SetupLoaded { msg_id: *msg_id },
            Cmdline::SetupBegin { label } => Cmdline::SetupBegin { label: label@ },
            Cmdline::SetupCode => Cmdline::SetupCode,
            Cmdline::SetupRendered { code } => Cmdline::SetupRendered { code: code@ },
            Cmdline::SetupWritten { code } => Cmdline::SetupWritten { code: code@ },
            Cmdline::Poked => Cmdline::Poked,
            Cmdline::ConfigShown => Cmdline::ConfigShown,
            Cmdline::SyncSent => Cmdline::SyncSent,
            Cmdline::HtmlRead { chat, text } => Cmdline::HtmlRead { chat: *chat, text: text@ },
            Cmdline::MediaListed => Cmdline::MediaListed,
            Cmdline::LocationSet => Cmdline::LocationSet,
            Cmdline::LocationsListed => Cmdline::LocationsListed,
            Cmdline::QrSet => Cmdline::QrSet,
            Cmdline::ProviderSocks { addr } => Cmdline::ProviderSocks { addr: addr@ },
            Cmdline::ProviderKnown { addr } => Cmdline::ProviderKnown { addr: addr@ },
            Cmdline::FileMeasured => Cmdline::FileMeasured,
            Cmdline::DeviceCounted { seconds } => Cmdline::DeviceCounted { seconds: *seconds },
            Cmdline::ServerCounted { seconds, device } => Cmdline::ServerCounted { seconds: *seconds, device: *device },
            Cmdline::Searched => Cmdline::Searched,
            Cmdline::FreshListed => Cmdline::FreshListed,
            Cmdline::ContactsListed { after } => Cmdline::ContactsListed { after: after@ },
            Cmdline::Members { chat } => Cmdline::Members { chat: *chat },
            Cmdline::MembersListed { chat, count } => Cmdline::MembersListed { chat: *chat, count: *count },
            Cmdline::MembersLocated { count } => Cmdline::MembersLocated { count: *count },
            Cmdline::ChatList { stage } => Cmdline::ChatList { stage: stage@ },
            Cmdline::ChatView { stage } => Cmdline::ChatView { stage: stage@ },
            Cmdline::ContactView { stage } => Cmdline::ContactView { stage: stage@ },
        }
    }
}

/// What the command line does next.
#[derive(Debug, PartialEq, Eq)]
pub enum CmdStep<T = String, L = Vec<String>, B = Vec<RoomEvents>> {
    Ask { request: Request<T, L, B>, after: Cmdline<T> },
    Call { callee: Task<T, L>, after: Cmdline<T> },
    /// It is done, and says this.
    Say { text: T },
    /// It has failed, and says why.
    Fail { error: T },
    Panic { error: T },
    Mismatch,
}

/// The same over mathematical text.
pub type CmdStepModel = CmdStep<Seq<char>, Seq<Seq<char>>, Seq<RoomEventsModel>>;

impl View for CmdStep {
    type V = CmdStepModel;

    open spec fn view(&self) -> CmdStepModel {
        match self {
            CmdStep::Ask { request, after } => CmdStep::Ask { request: request@, after: after@ },
            CmdStep::Call { callee, after } => CmdStep::Call { callee: callee@, after: after@ },
            CmdStep::Say { text } => CmdStep::Say { text: text@ },
            CmdStep::Fail { error } => CmdStep::Fail { error: error@ },
            CmdStep::Panic { error } => CmdStep::Panic { error: error@ },
            CmdStep::Mismatch => CmdStep::Mismatch,
        }
    }
}

/// Asks the e-mail core.
pub open spec fn asks(request: DeltaRequestModel, after: CmdlineModel) -> CmdStepModel {
    CmdStep::Ask { request: Request::Delta(request), after }
}

/// Asks the e-mail core.
pub(crate) fn ask(request: DeltaRequest, after: Cmdline) -> (s: CmdStep)
    ensures
        s@ == asks(request@, after@),
{
    CmdStep::Ask { request: Request::Delta(request), after }
}

/// Asks the machine.
pub open spec fn asks_host(request: HostRequestModel, after: CmdlineModel) -> CmdStepModel {
    CmdStep::Ask { request: Request::Host(request), after }
}

/// Asks the machine.
pub(crate) fn ask_machine(request: HostRequest, after: Cmdline) -> (s: CmdStep)
    ensures
        s@ == asks_host(request@, after@),
{
    CmdStep::Ask { request: Request::Host(request), after }
}

/// Fails with a message.
pub(crate) fn fail(error: &str) -> (s: CmdStep)
    ensures
        s@ == (CmdStepModel::Fail { error: error@ }),
{
    CmdStep::Fail { error: error.to_owned() }
}

/// Says something.
pub(crate) fn say(text: &str) -> (s: CmdStep)
    ensures
        s@ == (CmdStepModel::Say { text: text@ }),
{
    CmdStep::Say { text: text.to_owned() }
}

/// The step of the whole task, with the chat that is selected.
pub open spec fn with_chat(chat_id: u32, s: CmdStepModel) -> StepModel {
    match s {
        CmdStep::Ask { request, after } => Step::Perform(
            request,
            Task::Cmdline { chat_id, stage: after },
        ),
        CmdStep::Call { callee, after } => Step::Call(
            callee,
            Task::Cmdline { chat_id, stage: after },
        ),
        CmdStep::Say { text } => Step::Return(Value::Said { chat_id, said: Ok(text) }),
        CmdStep::Fail { error } => Step::Return(Value::Said { chat_id, said: Err(error) }),
        CmdStep::Panic { error } => Step::Panic(error),
        CmdStep::Mismatch => Step::Mismatch,
    }
}

fn whole_step(chat_id: u32, s: CmdStep) -> (step: Step)
    ensures
        step@ == with_chat(chat_id, s@),
{
    match s {
        CmdStep::Ask { request, after } => Step::Perform(
            request,
            Task::Cmdline { chat_id, stage: after },
        ),
        CmdStep::Call { callee, after } => Step::Call(
            callee,
            Task::Cmdline { chat_id, stage: after },
        ),
        CmdStep::Say { text } => Step::Return(Value::Said { chat_id, said: Ok(text) }),
        CmdStep::Fail { error } => Step::Return(Value::Said { chat_id, said: Err(error) }),
        CmdStep::Panic { error } => Step::Panic(error),
        CmdStep::Mismatch => Step::Mismatch,
    }
}

/// How a command line is obeyed. The selected chat is loaded first, if there is one. What the
/// command says, or why it fails, comes back together with the chat that is selected then.
pub open spec fn cmdline_next(chat_id: u32, s: CmdlineModel, reply: ReplyModel) -> StepModel {
    match (s, reply) {
        (Cmdline::Start { line }, Reply::Start) => if chat_id == 0 {
            with_chat(chat_id_after(line, chat_id), command(line, None))
        } else {
            with_chat(
                chat_id,
                asks(DeltaRequest::LoadChat { id: chat_id }, Cmdline::Selected { line }),
            )
        },
        (Cmdline::Selected { line }, Reply::Chat(chat)) => with_chat(
            chat_id_after(line, chat_id),
            command(line, Some(chat)),
        ),
        (s, reply) => with_chat(chat_id, command_next(s, reply)),
    }
}

/// Goes on with a command line.
pub(crate) fn cmdline_resume(chat_id: u32, s: Cmdline, reply: Reply) -> (step: Step)
    ensures
        step@ == cmdline_next(chat_id, s@, reply@),
{
    match (s, reply) {
        (Cmdline::Start { line }, Reply::Start) => {
            if chat_id == 0 {
                let (selected, step) = obey(line.as_str(), None, chat_id);
                whole_step(selected, step)
            } else {
                whole_step(
                    chat_id,
                    ask(DeltaRequest::LoadChat { id: chat_id }, Cmdline::Selected { line }),
                )
            }
        },
        (Cmdline::Selected { line }, Reply::Chat(chat)) => {
            let (selected, step) = obey(line.as_str(), Some(chat), chat_id);
            whole_step(selected, step)
        },
        (s, reply) => whole_step(chat_id, command_resume(s, reply)),
    }
}

/// Runs a command line on the chat that is selected.
pub fn cmdline(line: &str, chat_id: u32) -> (t: Task)
    ensures
        t@ == (TaskModel::Cmdline { chat_id, stage: Cmdline::Start { line: line@ } }),
{
    Task::Cmdline { chat_id, stage: Cmdline::Start { line: line.to_owned() } }
}

/// Where somebody was, as it is shown.
pub open spec fn location_line(l: LocationInfo) -> Seq<char> {
    "Loc#"@ + digits(l.id as nat) + ": "@ + l.time@ + ": lat="@ + l.latitude@ + " lng="@
        + l.longitude@ + " acc="@ + l.accuracy@ + " Chat#"@ + l.chat@ + " Contact#"@ + digits(
        l.contact_id as nat,
    ) + " "@ + digits(l.msg_id as nat) + " "@ + (match l.marker {
        Some(marker) => marker@,
        None => "-"@,
    }) + "\n"@
}

/// Some places, as they are shown.
pub open spec fn location_lines(list: Seq<LocationInfo>) -> Seq<char>
    decreases list.len(),
{
    if list.len() == 0 {
        ""@
    } else {
        location_lines(list.drop_last()) + location_line(list.last())
    }
}

fn show_location(l: &LocationInfo) -> (r: String)
    ensures
        r@ == location_line(*l),
{
    let mut r: String = "Loc#".to_owned();
    r.append(decimal(l.id as u64).as_str());
    r.append(": ");
    r.append(l.time.as_str());
    r.append(": lat=");
    r.append(l.latitude.as_str());
    r.append(" lng=");
    r.append(l.longitude.as_str());
    r.append(" acc=");
    r.append(l.accuracy.as_str());
    r.append(" Chat#");
    r.append(l.chat.as_str());
    r.append(" Contact#");
    r.append(decimal(l.contact_id as u64).as_str());
    r.append(" ");
    r.append(decimal(l.msg_id as u64).as_str());
    r.append(" ");
    match &l.marker {
        Some(marker) => r.append(marker.as_str()),
        None => r.append("-"),
    }
    r.append("\n");
    r
}

fn show_locations(list: &Vec<LocationInfo>) -> (r: String)
    ensures
        r@ == location_lines(list@),
{
    let mut r: String = "".to_owned();
    let mut i: usize = 0;
    proof {
        assert(list@.take(0).len() == 0);
    }
    while i < list.len()
        invariant
            i <= list.len(),
            r@ == location_lines(list@.take(i as int)),
        decreases list.len() - i,
    {
        r.append(show_location(&list[i]).as_str());
        proof {
            assert(list@.take(i + 1).drop_last() =~= list@.take(i as int));
        }
        i = i + 1;
    }
    proof {
        assert(list@.take(i as int) =~= list@);
    }
    r
}

/// The servers of a provider, as they are shown.
pub open spec fn server_lines(info: ProviderInfo, count: nat) -> Seq<char>
    decreases count,
{
    if count == 0 {
        ""@
    } else {
        let server = info.servers@[count - 1];
        server_lines(info, (count - 1) as nat) + "server: "@ + server.hostname@ + ":"@ + digits(
            server.port as nat,
        )
    }
}

/// What is known of the provider of an address, as it is shown.
pub open spec fn provider_lines(addr: Seq<char>, info: Option<ProviderInfo>) -> Seq<char> {
    match info {
        Some(info) => "Information for provider belonging to "@ + addr + ":"@ + "status: "@ + digits(
            info.status as nat,
        ) + "before_login_hint: "@ + info.before_login_hint@ + "after_login_hint: "@
            + info.after_login_hint@ + "overview_page: "@ + info.overview_page@ + server_lines(
            info,
            info.servers@.len(),
        ),
        None => "No information for provider belonging to "@ + addr + " found."@,
    }
}

fn show_servers(info: &ProviderInfo) -> (r: String)
    ensures
        r@ == server_lines(*info, info.servers@.len()),
{
    let mut r: String = "".to_owned();
    let mut i: usize = 0;
    while i < info.servers.len()
        invariant
            i <= info.servers.len(),
            r@ == server_lines(*info, i as nat),
        decreases info.servers.len() - i,
    {
        r.append("server: ");
        r.append(info.servers[i].hostname.as_str());
        r.append(":");
        r.append(decimal(info.servers[i].port as u64).as_str());
        i = i + 1;
    }
    r
}

fn show_provider(addr: &str, info: &Option<ProviderInfo>) -> (r: String)
    ensures
        r@ == provider_lines(addr@, *info),
{
    match info {
        Some(info) => {
            let mut r: String = "Information for provider belonging to ".to_owned();
            r.append(addr);
            r.append(":");
            r.append("status: ");
            r.append(decimal(info.status as u64).as_str());
            r.append("before_login_hint: ");
            r.append(info.before_login_hint.as_str());
            r.append("after_login_hint: ");
            r.append(info.after_login_hint.as_str());
            r.append("overview_page: ");
            r.append(info.overview_page.as_str());
            r.append(show_servers(info).as_str());
            r
        },
        None => join3("No information for provider belonging to ", addr, " found."),
    }
}

/// A truth value, as it is shown.
pub open spec fn shown_flag(flag: bool) -> Seq<char> {
    if flag {
        "true"@
    } else {
        "false"@
    }
}

fn show_flag(flag: bool) -> (r: &'static str)
    ensures
        r@ == shown_flag(flag),
{
    if flag {
        "true"
    } else {
        "false"
    }
}

/// How a command goes on that has asked for something.
#[verifier::opaque]
pub open spec fn command_next(s: CmdlineModel, reply: ReplyModel) -> CmdStepModel {
    match (s, reply) {
        (Cmdline::ChatList { stage }, reply) => chat_list_next(stage, reply),
        (Cmdline::ChatView { stage }, reply) => chat_view_next(stage, reply),
        (Cmdline::ContactView { stage }, reply) => contact_view_next(stage, reply),
        (Cmdline::Quiet | Cmdline::Deaf, Reply::Got(_)) | (Cmdline::Deaf, Reply::Failed(_)) => {
            CmdStep::Say { text: ""@ }
        },
        (Cmdline::Told { text }, Reply::Got(_)) => CmdStep::Say { text },
        (Cmdline::Framed { before, after }, Reply::Got(Value::Text(text))) => CmdStep::Say {
            text: before + text + after,
        },
        (Cmdline::Appended { after }, Reply::Got(Value::Text(text))) => CmdStep::Say {
            text: text + after,
        },
        (Cmdline::KeyTransfer, Reply::Got(Value::Text(code))) => CmdStep::Say {
            text: "Setup code for the transferred setup message: "@ + code,
        },
        (Cmdline::KeyTransfer, Reply::Failed(error)) => CmdStep::Fail {
            error: "Failed to generate setup code: "@ + error,
        },
        (Cmdline::SetupLoaded { msg_id }, Reply::SetupMessage { label, is_setup }) => if is_setup {
            asks(
                DeltaRequest::SetupCodeBegin { id: msg_id },
                Cmdline::SetupBegin { label: label@ },
            )
        } else {
            CmdStep::Fail { error: label@ + " is no setup message."@ }
        },
        (Cmdline::SetupBegin { label }, Reply::Got(Value::MaybeText(begin))) => CmdStep::Say {
            text: "The setup code for setup message "@ + label + " starts with: "@ + (match begin {
                Some(begin) => begin,
                None => ""@,
            }),
        },
        (Cmdline::SetupCode, Reply::Got(Value::Text(code))) => asks(
            DeltaRequest::RenderSetupFile { code },
            Cmdline::SetupRendered { code },
        ),
        (Cmdline::SetupRendered { code }, Reply::Got(Value::Text(content))) => asks(
            DeltaRequest::WriteBlob { name: "autocrypt-setup-message.html"@, content },
            Cmdline::SetupWritten { code },
        ),
        (Cmdline::SetupWritten { code }, Reply::Got(Value::Text(path))) => CmdStep::Say {
            text: "Setup message written to: "@ + path + "\nSetup code: "@ + code,
        },
        (Cmdline::Poked, Reply::Got(Value::Flag(poked))) => if poked {
            CmdStep::Say { text: ""@ }
        } else {
            CmdStep::Fail { error: "Poke failed"@ }
        },
        (Cmdline::ConfigShown, Reply::Shown { key, value }) => CmdStep::Say {
            text: key@ + "="@ + value@,
        },
        (Cmdline::SyncSent, Reply::Got(Value::MaybeText(label))) => CmdStep::Say {
            text: match label {
                Some(label) => "sync message sent as "@ + label + "."@,
                None => "sync message not needed."@,
            },
        },
        (Cmdline::HtmlRead { chat, text }, Reply::Html { html, file_name }) => if text.len() > 0 {
            asks(DeltaRequest::SendHtml { chat, html: html@, text }, Cmdline::Quiet)
        } else {
            match file_name {
                Some(name) => asks(
                    DeltaRequest::SendHtml { chat, html: html@, text: name@ },
                    Cmdline::Quiet,
                ),
                None => CmdStep::Panic { error: MISSING@ },
            }
        },
        (Cmdline::MediaListed, Reply::Texts(labels)) => asks_host(
            HostRequest::Print { text: joined(texts(labels@), ", "@) },
            Cmdline::Told { text: digits(labels@.len()) + " images or videos: "@ + "\n"@ },
        ),
        (Cmdline::LocationSet, Reply::Got(Value::Flag(streaming))) => CmdStep::Say {
            text: if streaming {
                "Success, streaming should be continued."@
            } else {
                "Success, streaming can be stoppped."@
            },
        },
        (Cmdline::LocationsListed, Reply::Locations(list)) => CmdStep::Say {
            text: if list@.len() == 0 {
                "No locations."@
            } else {
                location_lines(list@)
            },
        },
        (Cmdline::QrSet, Reply::Got(_)) => CmdStep::Say {
            text: "Config set from QR code, you can now call 'configure'"@,
        },
        (Cmdline::QrSet, Reply::Failed(error)) => CmdStep::Say {
            text: "Cannot set config from QR code: "@ + error,
        },
        (Cmdline::ProviderSocks { addr }, Reply::Got(Value::Flag(socks5))) => asks(
            DeltaRequest::ProviderInfo { addr, socks5 },
            Cmdline::ProviderKnown { addr },
        ),
        (Cmdline::ProviderKnown { addr }, Reply::Provider(info)) => CmdStep::Say {
            text: provider_lines(addr, info),
        },
        (Cmdline::FileMeasured, Reply::Size { width, height }) => CmdStep::Say {
            text: "width="@ + digits(width as nat) + ", height="@ + digits(height as nat),
        },
        (Cmdline::FileMeasured, Reply::Unreadable) => CmdStep::Fail { error: "Command failed."@ },
        (Cmdline::DeviceCounted { seconds }, Reply::Got(Value::Count(device))) => asks(
            DeltaRequest::EstimateDeletion { from_server: true, seconds },
            Cmdline::ServerCounted { seconds, device },
        ),
        (Cmdline::ServerCounted { seconds, device }, Reply::Got(Value::Count(server))) => {
            CmdStep::Say {
                text: "estimated count of messages older than "@ + signed_digits(seconds as int)
                    + " seconds:\non device: "@ + digits(device as nat) + "\non server: "@ + digits(
                    server as nat,
                ),
            }
        },
        (Cmdline::Searched, Reply::Found { items, elapsed }) => CmdStep::Call {
            callee: Task::Journal(Journal::Start { list: items }),
            after: Cmdline::Appended {
                after: digits(items@.len()) + " messages.\n"@ + elapsed@ + " to create this list"@,
            },
        },
        (Cmdline::FreshListed, Reply::Found { items, .. }) => CmdStep::Call {
            callee: Task::Journal(Journal::Start { list: items }),
            after: Cmdline::Appended { after: digits(items@.len()) + " fresh messages."@ },
        },
        (Cmdline::ContactsListed { after }, Reply::Numbers(contacts)) => CmdStep::Call {
            callee: Task::Roll(Roll::Start { contacts }),
            after: Cmdline::Appended { after: digits(contacts@.len()) + after },
        },
        (Cmdline::Members { chat }, Reply::Numbers(contacts)) => CmdStep::Call {
            callee: Task::Roll(Roll::Start { contacts }),
            after: Cmdline::MembersListed { chat, count: contacts@.len() as usize },
        },
        (Cmdline::MembersListed { chat, count }, Reply::Got(_)) => asks(
            DeltaRequest::IsSendingLocations { chat: Some(chat) },
            Cmdline::MembersLocated { count },
        ),
        (Cmdline::MembersLocated { count }, Reply::Got(Value::Flag(streaming))) => CmdStep::Say {
            text: "Memberlist:"@ + digits(count as nat) + " contacts\nLocation streaming: "@
                + shown_flag(streaming),
        },
        (Cmdline::Start { .. }, Reply::Failed(_)) => CmdStep::Mismatch,
        (_, Reply::Failed(error)) => CmdStep::Fail { error },
        _ => CmdStep::Mismatch,
    }
}

fn concat4(a: &str, b: &str, c: &str, d: &str) -> (r: String)
    ensures
        r@ == a@ + b@ + c@ + d@,
{
    let mut r: String = join3(a, b, c);
    r.append(d);
    r
}

/// Goes on with a command that has asked for something.
fn command_resume(s: Cmdline, reply: Reply) -> (step: CmdStep)
    ensures
        step@ == command_next(s@, reply@),
{
    proof {
        reveal(command_next);
    }
    match (s, reply) {
        (Cmdline::ChatList { stage }, reply) => chat_list_resume(stage, reply),
        (Cmdline::ChatView { stage }, reply) => chat_view_resume(stage, reply),
        (Cmdline::ContactView { stage }, reply) => contact_view_resume(stage, reply),
        (Cmdline::Quiet | Cmdline::Deaf, Reply::Got(_)) | (Cmdline::Deaf, Reply::Failed(_)) => {
            say("")
        },
        (Cmdline::Told { text }, Reply::Got(_)) => CmdStep::Say { text },
        (Cmdline::Framed { before, after }, Reply::Got(Value::Text(text))) => CmdStep::Say {
            text: join3(before.as_str(), text.as_str(), after.as_str()),
        },
        (Cmdline::Appended { after }, Reply::Got(Value::Text(text))) => CmdStep::Say {
            text: join2(text.as_str(), after.as_str()),
        },
        (Cmdline::KeyTransfer, Reply::Got(Value::Text(code))) => CmdStep::Say {
            text: join2("Setup code for the transferred setup message: ", code.as_str()),
        },
        (Cmdline::KeyTransfer, Reply::Failed(error)) => CmdStep::Fail {
            error: join2("Failed to generate setup code: ", error.as_str()),
        },
        (Cmdline::SetupLoaded { msg_id }, Reply::SetupMessage { label, is_setup }) => {
            if is_setup {
                ask(DeltaRequest::SetupCodeBegin { id: msg_id }, Cmdline::SetupBegin { label })
            } else {
                CmdStep::Fail { error: join2(label.as_str(), " is no setup message.") }
            }
        },
        (Cmdline::SetupBegin { label }, Reply::Got(Value::MaybeText(begin))) => {
            let begin: String = match begin {
                Some(begin) => begin,
                None => "".to_owned(),
            };
            CmdStep::Say {
                text: concat4(
                    "The setup code for setup message ",
                    label.as_str(),
                    " starts with: ",
                    begin.as_str(),
                ),
            }
        },
        (Cmdline::SetupCode, Reply::Got(Value::Text(code))) => ask(
            DeltaRequest::RenderSetupFile { code: code.clone() },
            Cmdline::SetupRendered { code },
        ),
        (Cmdline::SetupRendered { code }, Reply::Got(Value::Text(content))) => ask(
            DeltaRequest::WriteBlob { name: "autocrypt-setup-message.html".to_owned(), content },
            Cmdline::SetupWritten { code },
        ),
        (Cmdline::SetupWritten { code }, Reply::Got(Value::Text(path))) => CmdStep::Say {
            text: concat4(
                "Setup message written to: ",
                path.as_str(),
                "\nSetup code: ",
                code.as_str(),
            ),
        },
        (Cmdline::Poked, Reply::Got(Value::Flag(poked))) => {
            if poked {
                say("")
            } else {
                fail("Poke failed")
            }
        },
        (Cmdline::ConfigShown, Reply::Shown { key, value }) => CmdStep::Say {
            text: join3(key.as_str(), "=", value.as_str()),
        },
        (Cmdline::SyncSent, Reply::Got(Value::MaybeText(label))) => CmdStep::Say {
            text: match label {
                Some(label) => join3("sync message sent as ", label.as_str(), "."),
                None => "sync message not needed.".to_owned(),
            },
        },
        (Cmdline::HtmlRead { chat, text }, Reply::Html { html, file_name }) => {
            if text.as_str().unicode_len() > 0 {
                ask(DeltaRequest::SendHtml { chat, html, text }, Cmdline::Quiet)
            } else {
                match file_name {
                    Some(name) => ask(
                        DeltaRequest::SendHtml { chat, html, text: name },
                        Cmdline::Quiet,
                    ),
                    None => CmdStep::Panic { error: MISSING.to_owned() },
                }
            }
        },
        (Cmdline::MediaListed, Reply::Texts(labels)) => ask_machine(
            HostRequest::Print { text: join(&labels, ", ") },
            Cmdline::Told {
                text: join3(decimal(labels.len() as u64).as_str(), " images or videos: ", "\n"),
            },
        ),
        (Cmdline::LocationSet, Reply::Got(Value::Flag(streaming))) => {
            if streaming {
                say("Success, streaming should be continued.")
            } else {
                say("Success, streaming can be stoppped.")
            }
        },
        (Cmdline::LocationsListed, Reply::Locations(list)) => {
            if list.len() == 0 {
                say("No locations.")
            } else {
                CmdStep::Say { text: show_locations(&list) }
            }
        },
        (Cmdline::QrSet, Reply::Got(_)) => say(
            "Config set from QR code, you can now call 'configure'",
        ),
        (Cmdline::QrSet, Reply::Failed(error)) => CmdStep::Say {
            text: join2("Cannot set config from QR code: ", error.as_str()),
        },
        (Cmdline::ProviderSocks { addr }, Reply::Got(Value::Flag(socks5))) => ask(
            DeltaRequest::ProviderInfo { addr: addr.clone(), socks5 },
            Cmdline::ProviderKnown { addr },
        ),
        (Cmdline::ProviderKnown { addr }, Reply::Provider(info)) => CmdStep::Say {
            text: show_provider(addr.as_str(), &info),
        },
        (Cmdline::FileMeasured, Reply::Size { width, height }) => CmdStep::Say {
            text: concat4(
                "width=",
                decimal(width as u64).as_str(),
                ", height=",
                decimal(height as u64).as_str(),
            ),
        },
        (Cmdline::FileMeasured, Reply::Unreadable) => fail("Command failed."),
        (Cmdline::DeviceCounted { seconds }, Reply::Got(Value::Count(device))) => ask(
            DeltaRequest::EstimateDeletion { from_server: true, seconds },
            Cmdline::ServerCounted { seconds, device },
        ),
        (Cmdline::ServerCounted { seconds, device }, Reply::Got(Value::Count(server))) => {
            let mut text: String = "estimated count of messages older than ".to_owned();
            text.append(signed_decimal(seconds).as_str());
            text.append(" seconds:\non device: ");
            text.append(decimal(device).as_str());
            text.append("\non server: ");
            text.append(decimal(server).as_str());
            CmdStep::Say { text }
        },
        (Cmdline::Searched, Reply::Found { items, elapsed }) => {
            let after: String = concat4(
                decimal(items.len() as u64).as_str(),
                " messages.\n",
                elapsed.as_str(),
                " to create this list",
            );
            CmdStep::Call {
                callee: Task::Journal(Journal::Start { list: items }),
                after: Cmdline::Appended { after },
            }
        },
        (Cmdline::FreshListed, Reply::Found { items, .. }) => {
            let after: String = join2(decimal(items.len() as u64).as_str(), " fresh messages.");
            CmdStep::Call {
                callee: Task::Journal(Journal::Start { list: items }),
                after: Cmdline::Appended { after },
            }
        },
        (Cmdline::ContactsListed { after }, Reply::Numbers(contacts)) => {
            let after: String = join2(decimal(contacts.len() as u64).as_str(), after.as_str());
            CmdStep::Call {
                callee: Task::Roll(Roll::Start { contacts }),
                after: Cmdline::Appended { after },
            }
        },
        (Cmdline::Members { chat }, Reply::Numbers(contacts)) => {
            let count: usize = contacts.len();
            CmdStep::Call {
                callee: Task::Roll(Roll::Start { contacts }),
                after: Cmdline::MembersListed { chat, count },
            }
        },
        (Cmdline::MembersListed { chat, count }, Reply::Got(_)) => ask(
            DeltaRequest::IsSendingLocations { chat: Some(chat) },
            Cmdline::MembersLocated { count },
        ),
        (Cmdline::MembersLocated { count }, Reply::Got(Value::Flag(streaming))) => CmdStep::Say {
            text: concat4(
                "Memberlist:",
                decimal(count as u64).as_str(),
                " contacts\nLocation streaming: ",
                show_flag(streaming),
            ),
        },
        (Cmdline::Start { .. }, Reply::Failed(_)) => CmdStep::Mismatch,
        (_, Reply::Failed(error)) => CmdStep::Fail { error },
        _ => CmdStep::Mismatch,
    }
}

}
