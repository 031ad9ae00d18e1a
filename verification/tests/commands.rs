use appservice_delta::appservice::DeltaAppservice;
use appservice_delta::cmdline::cmdline;
use appservice_delta::cmdline::commands::{HELP, HELP_IMEX};
use appservice_delta::cmdline::contacts::log_contactlist;
use appservice_delta::cmdline::messages::{log_msg, log_msglist};
use appservice_delta::cmdline::poke::{poke_eml_file, poke_spec};
use appservice_delta::protocol::{
    ChatInfo, ChatItem, ChatKind, ContactInfo, DeltaRequest, DownloadState, FileKind, HostRequest, Listed,
    LocationInfo, LoggedMessage, MessageState, Mute, ProfileImage, ProviderInfo, ProviderServer, Reply, Request,
    Step, SummaryInfo, Value, VerifiedStatus, VideochatInvitation, Visibility,
};
use appservice_delta::task::Task;
use std::collections::HashMap;

/// How a task ended.
#[derive(Debug, PartialEq)]
enum End {
    Return(Value),
    Raise(String),
    Panic(String),
    Mismatch,
}

/// Settings that are kept, and a script for everything else.
struct Host<'a> {
    settings: HashMap<String, String>,
    asked: Vec<Request>,
    answer: Box<dyn Fn(&Request) -> Reply + 'a>,
}

impl<'a> Host<'a> {
    fn new(answer: impl Fn(&Request) -> Reply + 'a) -> Host<'a> {
        Host { settings: HashMap::new(), asked: Vec::new(), answer: Box::new(answer) }
    }

    fn perform(&mut self, request: Request) -> Reply {
        let reply = match &request {
            Request::Delta(DeltaRequest::UiGet { key }) => {
                Reply::Got(Value::MaybeText(self.settings.get(key).cloned()))
            }
            Request::Delta(DeltaRequest::UiSet { key, value }) => {
                match value {
                    Some(text) => self.settings.insert(key.clone(), text.clone()),
                    None => self.settings.remove(key),
                };
                Reply::Got(Value::Unit)
            }
            Request::Host(HostRequest::Log { .. }) => Reply::Got(Value::Unit),
            other => (self.answer)(other),
        };
        self.asked.push(request);
        reply
    }

    fn run(&mut self, task: Task, da: &mut DeltaAppservice) -> End {
        let mut task = task;
        let mut reply = Reply::Start;
        loop {
            match task.resume(reply, da) {
                Step::Perform(request, then) => {
                    reply = self.perform(request);
                    task = then;
                }
                Step::Call(callee, then) => {
                    reply = match self.run(callee, da) {
                        End::Return(value) => Reply::Got(value),
                        End::Raise(error) => Reply::Failed(error),
                        other => return other,
                    };
                    task = then;
                }
                Step::Return(value) => return End::Return(value),
                Step::Raise(error) => return End::Raise(error),
                Step::Panic(error) => return End::Panic(error),
                Step::Mismatch => return End::Mismatch,
            }
        }
    }
}

fn text(s: &str) -> String {
    s.to_string()
}

fn unit() -> Reply {
    Reply::Got(Value::Unit)
}

fn flag(b: bool) -> Reply {
    Reply::Got(Value::Flag(b))
}

fn delta(request: DeltaRequest) -> Request {
    Request::Delta(request)
}

fn contact(id: u32) -> ContactInfo {
    ContactInfo {
        id,
        addr: format!("c{}@x", id),
        display_name: format!("C{}", id),
        name_n_addr: format!("C{} (c{}@x)", id, id),
    }
}

fn chat(id: u32) -> ChatInfo {
    ChatInfo {
        id,
        label: format!("Chat{}", id),
        prefix: text("Group"),
        name: format!("Name{}", id),
        kind: ChatKind::Group,
        visibility: Visibility::Normal,
        muted: false,
        protected: false,
        contact_request: false,
        sending_locations: false,
        device_talk: false,
    }
}

fn logged(id: u32) -> LoggedMessage {
    LoggedMessage {
        label: format!("Msg#{}", id),
        from_id: 10,
        override_name: None,
        state: MessageState::InSeen,
        download: DownloadState::Done,
        time: text("2021.10.01 10:00:00"),
        text: Some(format!("text {}", id)),
        padlock: false,
        location: false,
        html: false,
        info: false,
        forwarded: false,
        videochat: None,
    }
}

fn world(request: &Request) -> Reply {
    match request {
        Request::Delta(DeltaRequest::LoadChat { id }) => Reply::Chat(chat(*id)),
        Request::Delta(DeltaRequest::GetContact { id }) => Reply::Contact(contact(*id)),
        Request::Delta(DeltaRequest::LoadLogged { id }) => Reply::Logged(logged(*id)),
        Request::Delta(DeltaRequest::VerifiedStatus { id }) => Reply::Verified(match id {
            1 => VerifiedStatus::BidirectVerified,
            10 => VerifiedStatus::Verified,
            _ => VerifiedStatus::Unverified,
        }),
        Request::Delta(DeltaRequest::PreferEncrypt { addr }) => Reply::Got(Value::MaybeText(match addr.as_str() {
            "c11@x" => None,
            _ => Some(text("mutual")),
        })),
        _ => unit(),
    }
}

/// What a command line says with a chat selected, and what it asks for.
fn line_with(answer: impl Fn(&Request) -> Reply, chat_id: u32, line: &str) -> (u32, Result<String, String>, Vec<Request>) {
    let mut da = DeltaAppservice::new();
    let mut host = Host::new(answer);
    match host.run(cmdline(line, chat_id), &mut da) {
        End::Return(Value::Said { chat_id, said }) => (chat_id, said, host.asked),
        other => panic!("{:?}", other),
    }
}

/// What a command line says, and what it asks for.
fn line(line: &str) -> (Result<String, String>, Vec<Request>) {
    let (chat_id, said, asked) = line_with(world, 0, line);
    assert_eq!(chat_id, 0);
    (said, asked)
}

/// What a command line on chat 5 says, and what it asks for behind the loading of the chat.
fn line_on_chat(line: &str) -> (Result<String, String>, Vec<Request>) {
    let (chat_id, said, mut asked) = line_with(world, 5, line);
    assert_eq!(chat_id, 5);
    assert_eq!(asked.remove(0), delta(DeltaRequest::LoadChat { id: 5 }));
    (said, asked)
}

fn ok(s: &str) -> Result<String, String> {
    Ok(text(s))
}

fn err(s: &str) -> Result<String, String> {
    Err(text(s))
}

#[test]
fn help_asks_for_nothing() {
    assert_eq!(line("help"), (ok(HELP), vec![]));
    assert_eq!(line("? anything"), (ok(HELP), vec![]));
    assert_eq!(line("help imex"), (ok(HELP_IMEX), vec![]));
    assert!(HELP.starts_with("==========================Database commands==\ninfo\nopen <file to open or create>\n"));
    assert!(HELP.ends_with("estimatedeletion <seconds>\n=============================================\n"));
    assert!(HELP_IMEX.starts_with("====================Import/Export commands==\ninitiate-key-transfer\n"));
    assert_eq!(HELP_IMEX.lines().count(), 14);
    assert_eq!(HELP.lines().count(), 79);
}

#[test]
fn empty_and_unknown_commands() {
    assert_eq!(line(""), (ok(""), vec![]));
    assert_eq!(line(" info"), (ok(""), vec![]));
    assert_eq!(line("Help"), (err("Unknown command: \"Help\" type ? for help."), vec![]));
}

#[test]
fn no_chat_no_work() {
    for command in [
        "removemember", "groupname", "groupimage", "chatinfo", "getlocations", "sendlocations", "send", "sendempty",
        "sendimage", "sendsticker", "sendfile", "sendhtml", "videochat", "draft", "listmedia",
    ] {
        assert_eq!(line(command), (err("No chat selected."), vec![]));
    }
    assert_eq!(line("addmember 3"), (err("No chat selected"), vec![]));
    assert_eq!(line("chat"), (err("Argument [chat-id] is missing."), vec![]));
}

#[test]
fn missing_arguments_are_told() {
    for (command, error) in [
        ("get-setupcodebegin", "Argument <msg-id> missing."),
        ("continue-key-transfer 1", "Arguments <msg-id> <setup-code> expected"),
        ("import-backup", "Argument <backup-file> missing."),
        ("set", "Argument <key> missing."),
        ("get", "Argument <key> missing."),
        ("createchat", "Argument <contact-id> missing."),
        ("creategroup", "Argument <name> missing."),
        ("createprotected", "Argument <name> missing."),
        ("setlocation 1", "Latitude or longitude not given."),
        ("listmsgs", "Argument <query> missing."),
        ("devicemsg", "Please specify text to add as device message."),
        ("archive", "Argument <chat-id> missing."),
        ("mute", "Argument <chat-id> missing."),
        ("msginfo", "Argument <msg-id> missing."),
        ("forward 1", "Arguments <msg-id> <chat-id> expected"),
        ("addcontact", "Arguments [<name>] <addr> expected."),
        ("contactinfo", "Argument <contact-id> missing."),
        ("checkqr", "Argument <qr-content> missing."),
        ("providerinfo", "Argument <addr> missing."),
        ("fileinfo", "Argument <file> missing."),
        ("estimatedeletion", "Argument <seconds> missing"),
    ] {
        assert_eq!(line(command), (err(error), vec![]));
    }
    for (command, error) in [
        ("addmember", "Argument <contact-id> missing."),
        ("sendlocations", "No timeout given."),
        ("send", "No message text given."),
        ("sendfile", "No file given."),
        ("sendhtml", "No html-file given."),
    ] {
        assert_eq!(line_on_chat(command), (err(error), vec![]));
    }
}

#[test]
fn numbers_have_to_be_numbers() {
    assert_eq!(line("msginfo x"), (err("invalid digit found in string"), vec![]));
    assert_eq!(line("delmsg 4294967296"), (err("number too large to fit in target type"), vec![]));
    assert_eq!(line("estimatedeletion -9223372036854775809"), (err("number too small to fit in target type"), vec![]));
    // The chat is looked at before the message.
    assert_eq!(line("forward x 99999999999"), (err("number too large to fit in target type"), vec![]));
}

#[test]
fn quiet_commands_ask_for_one_thing() {
    for (command, request) in [
        ("continue-key-transfer 4 1234-5678", DeltaRequest::ContinueKeyTransfer { id: 4, code: text("1234-5678") }),
        ("has-backup", DeltaRequest::HasBackup),
        ("import-backup b.bak", DeltaRequest::ImportBackup { file: text("b.bak") }),
        ("import-keys", DeltaRequest::ImportKeys { file: text("") }),
        ("stop", DeltaRequest::StopOngoing),
        ("set addr a b c", DeltaRequest::SetConfig { key: text("addr"), value: Some(text("a b c")) }),
        ("set addr", DeltaRequest::SetConfig { key: text("addr"), value: None }),
        ("maybenetwork", DeltaRequest::MaybeNetwork),
        ("housekeeping", DeltaRequest::Housekeeping),
        ("dellocations", DeltaRequest::DeleteLocations),
        ("devicemsg hi", DeltaRequest::AddDeviceMessage { text: text("hi") }),
        ("archive 3", DeltaRequest::SetVisibility { chat: 3, visibility: Visibility::Archived }),
        ("unarchive 3", DeltaRequest::SetVisibility { chat: 3, visibility: Visibility::Normal }),
        ("pin 3", DeltaRequest::SetVisibility { chat: 3, visibility: Visibility::Pinned }),
        ("unpin 3", DeltaRequest::SetVisibility { chat: 3, visibility: Visibility::Normal }),
        ("mute 3", DeltaRequest::SetMuted { chat: 3, mute: Mute::Forever }),
        ("mute 3 60", DeltaRequest::SetMuted { chat: 3, mute: Mute::ForSeconds(60) }),
        ("unmute 3", DeltaRequest::SetMuted { chat: 3, mute: Mute::NotMuted }),
        ("protect 3", DeltaRequest::SetProtection { chat: 3, protected: true }),
        ("unprotect 3", DeltaRequest::SetProtection { chat: 3, protected: false }),
        ("delchat 3", DeltaRequest::DeleteChat { chat: 3 }),
        ("accept 3", DeltaRequest::AcceptChat { chat: 3 }),
        ("blockchat 3", DeltaRequest::BlockChat { chat: 3 }),
        ("forward 8 3", DeltaRequest::Forward { id: 8, chat: 3 }),
        ("markseen 8", DeltaRequest::MarkSeen { id: 8 }),
        ("delmsg 8", DeltaRequest::DeleteMessage { id: 8 }),
        ("addcontact bob@x", DeltaRequest::CreateContact { name: text(""), addr: text("bob@x") }),
        ("addcontact Bob bob@x", DeltaRequest::AddAddressBook { book: text("Bob\nbob@x") }),
        ("delcontact 9", DeltaRequest::DeleteContact { id: 9 }),
        ("block 9", DeltaRequest::BlockContact { id: 9 }),
        ("unblock 9", DeltaRequest::UnblockContact { id: 9 }),
    ] {
        assert_eq!(line(command), (ok(""), vec![delta(request)]));
    }
    for (command, request) in [
        ("send hello", DeltaRequest::SendText { chat: 5, text: text("hello ") }),
        ("send hello big  world", DeltaRequest::SendText { chat: 5, text: text("hello big  world") }),
        ("sendempty", DeltaRequest::SendText { chat: 5, text: text("") }),
        ("sendimage a.png", DeltaRequest::SendFile { chat: 5, kind: FileKind::Image, file: text("a.png"), text: None }),
        (
            "sendsticker a.png look here",
            DeltaRequest::SendFile {
                chat: 5,
                kind: FileKind::Sticker,
                file: text("a.png"),
                text: Some(text("look here")),
            },
        ),
        ("sendfile a.zip", DeltaRequest::SendFile { chat: 5, kind: FileKind::File, file: text("a.zip"), text: None }),
        ("videochat", DeltaRequest::SendVideochat { chat: 5 }),
    ] {
        assert_eq!(line_on_chat(command), (ok(""), vec![delta(request)]));
    }
}

#[test]
fn commands_with_a_fixed_answer() {
    for (command, answer, request) in [
        ("addmember 9", "Contact added to chat.", DeltaRequest::AddMember { chat: 5, contact: 9 }),
        ("removemember 9", "Contact added to chat.", DeltaRequest::RemoveMember { chat: 5, contact: 9 }),
        ("groupname new", "Chat name set", DeltaRequest::SetChatName { chat: 5, name: text("new") }),
        ("groupimage i.png", "Chat image set", DeltaRequest::SetChatImage { chat: 5, file: Some(text("i.png")) }),
        ("groupimage", "Chat image set", DeltaRequest::SetChatImage { chat: 5, file: None }),
        ("draft soon", "Draft saved.", DeltaRequest::SetDraft { chat: 5, text: Some(text("soon")) }),
        ("draft", "Draft deleted.", DeltaRequest::SetDraft { chat: 5, text: None }),
        (
            "sendlocations -60",
            "Locations will be sent to Chat#Chat5 for -60 seconds. Use 'setlocation <lat> <lng>' to play around.",
            DeltaRequest::SendLocations { chat: 5, seconds: -60 },
        ),
    ] {
        assert_eq!(line_on_chat(command), (ok(answer), vec![delta(request)]));
    }
}

/// The answer to a request that gets one reply.
fn answered(command: &str, reply: impl Fn() -> Reply) -> Result<String, String> {
    line_with(|r| match r { Request::Delta(DeltaRequest::LoadChat { .. }) => world(r), _ => reply() }, 5, command).1
}

fn got(s: &str) -> Reply {
    Reply::Got(Value::Text(text(s)))
}

#[test]
fn answers_are_framed() {
    for (command, reply, answer) in [
        ("createchat 9", "12", "Single#12 created successfully."),
        ("creategroup g", "12", "Group#12 created successfully."),
        ("createbroadcast", "12", "Broadcast#12 created successfully."),
        ("createprotected g", "12", "Group#12 created and protected successfully."),
        ("info", "{}", "{}"),
        ("msginfo 3", "details", "details"),
        ("download 3", "MsgId(3)", "Scheduling download for MsgId(3)"),
        ("checkqr x", "Text", "qr=Text"),
        ("initiate-key-transfer", "1234", "Setup code for the transferred setup message: 1234"),
    ] {
        assert_eq!(answered(command, || got(reply)), ok(answer));
    }
}

#[test]
fn failures_are_told() {
    for command in ["set addr x", "info", "createchat 9", "chatinfo", "listchats", "contactinfo 3", "checkqr x"] {
        assert_eq!(answered(command, || Reply::Failed(text("broken"))), err("broken"));
    }
    assert_eq!(
        answered("initiate-key-transfer", || Reply::Failed(text("broken"))),
        err("Failed to generate setup code: broken")
    );
    assert_eq!(answered("housekeeping", || Reply::Failed(text("broken"))), ok(""));
    assert_eq!(
        answered("setqr x", || Reply::Failed(text("broken"))),
        ok("Cannot set config from QR code: broken")
    );
    assert_eq!(answered("setqr x", unit), ok("Config set from QR code, you can now call 'configure'"));
    let (chat_id, said, _) = line_with(|_| Reply::Failed(text("no such chat")), 5, "help");
    assert_eq!((chat_id, said), (5, err("no such chat")));
}

#[test]
fn single_answers() {
    assert_eq!(
        answered("get addr", || Reply::Shown { key: text("addr"), value: text("Ok(None)") }),
        ok("addr=Ok(None)")
    );
    let sync = |label: Option<&str>| answered("sendsyncmsg", || Reply::Got(Value::MaybeText(label.map(text))));
    assert_eq!(sync(Some("Msg#3")), ok("sync message sent as Msg#3."));
    assert_eq!(sync(None), ok("sync message not needed."));
    assert_eq!(answered("setlocation 1.5 2", || flag(true)), ok("Success, streaming should be continued."));
    assert_eq!(answered("setlocation 1.5 2", || flag(false)), ok("Success, streaming can be stoppped."));
    assert_eq!(answered("fileinfo f", || Reply::Size { width: 3, height: 4 }), ok("width=3, height=4"));
    assert_eq!(answered("fileinfo f", || Reply::Unreadable), err("Command failed."));
    assert_eq!(answered("fileinfo f", || Reply::Failed(text("no image"))), err("no image"));
    assert_eq!(
        answered("estimatedeletion -5", || Reply::Got(Value::Count(9))),
        ok("estimated count of messages older than -5 seconds:\non device: 9\non server: 9")
    );
}

#[test]
fn setup_codes() {
    let setup = |is_setup: bool| {
        line_with(
            move |r| match r {
                Request::Delta(DeltaRequest::LoadSetupMessage { .. }) => {
                    Reply::SetupMessage { label: text("Msg#4"), is_setup }
                }
                Request::Delta(DeltaRequest::SetupCodeBegin { id: 4 }) => Reply::Got(Value::MaybeText(Some(text("12")))),
                other => world(other),
            },
            0,
            "get-setupcodebegin 4",
        )
        .1
    };
    assert_eq!(setup(true), ok("The setup code for setup message Msg#4 starts with: 12"));
    assert_eq!(setup(false), err("Msg#4 is no setup message."));
    let (_, said, asked) = line_with(
        |r| match r {
            Request::Delta(DeltaRequest::CreateSetupCode) => got("1111-2222"),
            Request::Delta(DeltaRequest::RenderSetupFile { .. }) => got("<html>"),
            Request::Delta(DeltaRequest::WriteBlob { .. }) => got("/blobs/setup.html"),
            other => world(other),
        },
        0,
        "export-setup",
    );
    assert_eq!(said, ok("Setup message written to: /blobs/setup.html\nSetup code: 1111-2222"));
    assert_eq!(
        asked[1..],
        [
            delta(DeltaRequest::RenderSetupFile { code: text("1111-2222") }),
            delta(DeltaRequest::WriteBlob { name: text("autocrypt-setup-message.html"), content: text("<html>") }),
        ]
    );
}

#[test]
fn html_is_sent_with_a_text() {
    let html = |line: &'static str, name: Option<&'static str>| {
        let mut da = DeltaAppservice::new();
        let mut host = Host::new(move |r: &Request| match r {
            Request::Host(HostRequest::ReadHtml { .. }) => {
                Reply::Html { html: text("<p>"), file_name: name.map(text) }
            }
            other => world(other),
        });
        let end = host.run(cmdline(line, 5), &mut da);
        (end, host.asked.pop())
    };
    let sent = |t: &str| Some(delta(DeltaRequest::SendHtml { chat: 5, html: text("<p>"), text: text(t) }));
    assert_eq!(html("sendhtml d/a.html some text", Some("a.html")).1, sent("some text"));
    assert_eq!(html("sendhtml d/a.html", Some("a.html")).1, sent("a.html"));
    assert_eq!(html("sendhtml ..", None).0, End::Panic(text("a value is missing")));
}

#[test]
fn media_are_printed() {
    let (_, said, asked) = line_with(
        |r| match r {
            Request::Delta(DeltaRequest::ChatMedia { .. }) => Reply::Texts(vec![text("Msg#1"), text("Msg#2")]),
            other => world(other),
        },
        5,
        "listmedia",
    );
    assert_eq!(said, ok("2 images or videos: \n"));
    assert_eq!(asked.last(), Some(&Request::Host(HostRequest::Print { text: text("Msg#1, Msg#2") })));
}

#[test]
fn locations_are_listed() {
    let place = |marker: Option<&str>| LocationInfo {
        id: 3,
        time: text("today"),
        latitude: text("1.5"),
        longitude: text("-2"),
        accuracy: text("0"),
        chat: text("5"),
        contact_id: 10,
        msg_id: 8,
        marker: marker.map(text),
    };
    let said = answered("getlocations", || Reply::Locations(vec![place(None), place(Some("⛺"))]));
    assert_eq!(
        said,
        ok("Loc#3: today: lat=1.5 lng=-2 acc=0 Chat#5 Contact#10 8 -\n\
            Loc#3: today: lat=1.5 lng=-2 acc=0 Chat#5 Contact#10 8 ⛺\n")
    );
    assert_eq!(answered("getlocations", || Reply::Locations(vec![])), ok("No locations."));
    let asked = |line: &str| line_with(|r| match r {
        Request::Delta(DeltaRequest::Locations { .. }) => Reply::Locations(vec![]),
        other => world(other),
    }, 5, line).2;
    assert_eq!(asked("getlocations 10")[1], delta(DeltaRequest::Locations { chat: 5, contact: Some(10) }));
    assert_eq!(asked("getlocations x")[1], delta(DeltaRequest::Locations { chat: 5, contact: None }));
}

#[test]
fn provider_is_described() {
    let describe = |known: bool| {
        line_with(
            move |r| match r {
                Request::Delta(DeltaRequest::GetSocks5Enabled) => flag(true),
                Request::Delta(DeltaRequest::ProviderInfo { socks5: true, .. }) => Reply::Provider(if known {
                    Some(ProviderInfo {
                        status: 2,
                        before_login_hint: text("b"),
                        after_login_hint: text("a"),
                        overview_page: text("o"),
                        servers: vec![
                            ProviderServer { hostname: text("imap.x"), port: 993 },
                            ProviderServer { hostname: text("smtp.x"), port: 465 },
                        ],
                    })
                } else {
                    None
                }),
                other => world(other),
            },
            0,
            "providerinfo me@x",
        )
        .1
    };
    assert_eq!(
        describe(true),
        ok("Information for provider belonging to me@x:status: 2before_login_hint: bafter_login_hint: \
            aoverview_page: oserver: imap.x:993server: smtp.x:465")
    );
    assert_eq!(describe(false), ok("No information for provider belonging to me@x found."));
}

#[test]
fn message_is_shown() {
    let shown = |m: LoggedMessage| {
        let mut da = DeltaAppservice::new();
        match Host::new(world).run(log_msg("", m), &mut da) {
            End::Return(Value::Text(line)) => line,
            other => panic!("{:?}", other),
        }
    };
    assert_eq!(shown(logged(3)), "Msg#3: C10 (Contact#10): text 3 [SEEN] [2021.10.01 10:00:00]\n");
    assert_eq!(
        shown(LoggedMessage {
            from_id: 1,
            override_name: Some(text("Nick")),
            state: MessageState::OutMdnRcvd,
            download: DownloadState::InProgress,
            text: None,
            padlock: true,
            location: true,
            html: true,
            info: true,
            forwarded: true,
            videochat: Some(VideochatInvitation { url: Some(text("https://v")), kind: text("Jitsi") }),
            ..logged(4)
        }),
        "Msg#4🔒📍: ~Nick (Contact#1):  [HAS-HTML]\u{fe0f}[INFO][VIDEOCHAT-INVITATION: https://v, type=Jitsi]\
         [FORWARDED] √√ [⬇ Download in progress...]\u{fe0f} [2021.10.01 10:00:00]\n"
    );
    for (state, mark) in [
        (MessageState::OutPending, "[FRESH] o"),
        (MessageState::OutDelivered, "[FRESH] √"),
        (MessageState::OutFailed, "[FRESH] !!"),
        (MessageState::InNoticed, "[NOTICED]"),
        (MessageState::Other, "[FRESH]"),
    ] {
        assert_eq!(
            shown(LoggedMessage { state, ..logged(3) }),
            format!("Msg#3: C10 (Contact#10): text 3 {} [2021.10.01 10:00:00]\n", mark)
        );
    }
    let mut da = DeltaAppservice::new();
    let mut lost = Host::new(|_| Reply::Failed(text("gone")));
    assert_eq!(lost.run(log_msg("", logged(3)), &mut da), End::Panic(text("gone")));
}

const RULE: &str = "--------------------------------------------------------------------------------\n";

fn plain(id: u32) -> ChatItem {
    ChatItem::Message { id, listed: Listed::Message(id) }
}

fn shown(id: u32) -> String {
    format!("Msg#{}: C10 (Contact#10): text {} [SEEN] [2021.10.01 10:00:00]\n", id, id)
}

#[test]
fn message_list_is_shown_in_full() {
    let list = |items: Vec<ChatItem>| {
        let mut da = DeltaAppservice::new();
        match Host::new(world).run(log_msglist(items), &mut da) {
            End::Return(Value::Text(lines)) => lines,
            other => panic!("{:?}", other),
        }
    };
    assert_eq!(list(vec![]), "");
    assert_eq!(list(vec![ChatItem::Marker1]), "");
    assert_eq!(list(vec![plain(3)]), format!("{}{}{}", RULE, shown(3), RULE));
    assert_eq!(
        list(vec![ChatItem::Day, plain(3), ChatItem::Marker1, plain(4), ChatItem::Day, plain(5)]),
        format!("{}{}{}{}{}{}", RULE, shown(3), shown(4), RULE, shown(5), RULE)
    );
    let special = ChatItem::Message { id: 9, listed: Listed::Day };
    assert_eq!(list(vec![plain(3), special]), format!("{}{}{}{}", RULE, shown(3), RULE, RULE));
    let mut da = DeltaAppservice::new();
    let mut lost = Host::new(|_| Reply::Failed(text("gone")));
    assert_eq!(lost.run(log_msglist(vec![plain(3)]), &mut da), End::Raise(text("gone")));
}

#[test]
fn contact_list_is_shown_in_full() {
    let mut da = DeltaAppservice::new();
    let mut host = Host::new(world);
    assert_eq!(
        host.run(log_contactlist(vec![1, 10, 11]), &mut da),
        End::Return(Value::Text(text(
            "Contact#1: C1 √√ <c1@x>\nContact#10: C10 √ <c10@x>, prefer-encrypt=mutual\nContact#11: C11 <c11@x>\n"
        )))
    );
    let mut nameless = Host::new(|r| match r {
        Request::Delta(DeltaRequest::GetContact { id }) => Reply::Contact(ContactInfo {
            addr: text(""),
            display_name: text(""),
            ..contact(*id)
        }),
        other => world(other),
    });
    assert_eq!(
        nameless.run(log_contactlist(vec![12]), &mut da),
        End::Return(Value::Text(text("Contact#12: <name unset> <addr unset>, prefer-encrypt=mutual\n")))
    );
    let mut broken = Host::new(|r| match r {
        Request::Delta(DeltaRequest::PreferEncrypt { .. }) => Reply::Failed(text("bad key")),
        other => world(other),
    });
    assert_eq!(broken.run(log_contactlist(vec![12]), &mut da), End::Panic(text("bad key")));
}

#[test]
fn contacts_are_counted() {
    let contacts = |r: &Request| match r {
        Request::Delta(DeltaRequest::ListContacts { .. }) | Request::Delta(DeltaRequest::ListBlocked) => {
            Reply::Numbers(vec![11])
        }
        other => world(other),
    };
    let (_, said, asked) = line_with(contacts, 0, "listverified bo");
    assert_eq!(said, ok("Contact#11: C11 <c11@x>\n1 contacts."));
    assert_eq!(asked[0], delta(DeltaRequest::ListContacts { verified_only: true, query: text("bo") }));
    let (_, said, asked) = line_with(contacts, 0, "contacts");
    assert_eq!(said, ok("Contact#11: C11 <c11@x>\n1 contacts."));
    assert_eq!(asked[0], delta(DeltaRequest::ListContacts { verified_only: false, query: text("") }));
    assert_eq!(line_with(contacts, 0, "listblocked").1, ok("Contact#11: C11 <c11@x>\n1 blocked contacts."));
}

#[test]
fn messages_are_searched() {
    let found = |r: &Request| match r {
        Request::Delta(DeltaRequest::SearchMessages { .. }) | Request::Delta(DeltaRequest::FreshMessages) => {
            Reply::Found { items: vec![plain(3)], elapsed: text("4ms") }
        }
        other => world(other),
    };
    let (_, said, asked) = line_with(found, 0, "listmsgs word");
    assert_eq!(said, ok(&format!("{}{}{}1 messages.\n4ms to create this list", RULE, shown(3), RULE)));
    assert_eq!(asked[0], delta(DeltaRequest::SearchMessages { chat: None, query: text("word") }));
    assert_eq!(
        line_with(found, 5, "listmsgs word").2[1],
        delta(DeltaRequest::SearchMessages { chat: Some(5), query: text("word") })
    );
    assert_eq!(
        line_with(found, 0, "listfresh").1,
        ok(&format!("{}{}{}1 fresh messages.", RULE, shown(3), RULE))
    );
}

#[test]
fn chat_list_is_shown_in_full() {
    let double = "================================================================================\n";
    let chats = |ids: Vec<u32>| {
        move |r: &Request| match r {
            Request::Delta(DeltaRequest::ListChats { .. }) => Reply::Chatlist { ids: ids.clone(), elapsed: text("3ms") },
            Request::Delta(DeltaRequest::LoadChat { id: 22 }) => Reply::Chat(ChatInfo {
                muted: true,
                visibility: Visibility::Archived,
                protected: true,
                contact_request: true,
                sending_locations: true,
                ..chat(22)
            }),
            Request::Delta(DeltaRequest::FreshCount { chat }) => Reply::Got(Value::Count(*chat as u64)),
            Request::Delta(DeltaRequest::ListedSummary { index }) => Reply::Summary(SummaryInfo {
                prefix: if *index == 0 { Some(text("Draft")) } else { None },
                text: format!("summary {}", index),
                state: MessageState::OutFailed,
                time: text("now"),
            }),
            Request::Delta(DeltaRequest::IsSendingLocations { chat: None }) => flag(true),
            other => world(other),
        }
    };
    let (_, said, asked) = line_with(chats(vec![21, 22]), 0, "listchats");
    assert_eq!(
        said,
        ok(&format!(
            "{d}Group#Chat22: Name22 [22 fresh] 🔇📦🛡\u{fe0f}🆕\nsummary 1 [Archived] [now]📍\n{d}\
             Group#Chat21: Name21 [21 fresh] \nDraft: summary 0 !! [now]\n{d}\
             Location streaming enabled.\n2 chats\n3ms to create this list",
            d = double
        ))
    );
    assert_eq!(asked[0], delta(DeltaRequest::ListChats { archived: false, query: None, contact: None }));
    let (_, said, asked) = line_with(chats(vec![]), 0, "listarchived bo");
    assert_eq!(said, ok("Location streaming enabled.\n0 chats\n3ms to create this list"));
    assert_eq!(asked[0], delta(DeltaRequest::ListChats { archived: true, query: Some(text("bo")), contact: None }));
}

fn showing(kind: ChatKind, device_talk: bool, members: Vec<u32>, image: fn() -> ProfileImage) -> impl Fn(&Request) -> Reply {
    move |r: &Request| match r {
        Request::Delta(DeltaRequest::LoadChat { id }) => Reply::Chat(ChatInfo { kind, device_talk, ..chat(*id) }),
        Request::Delta(DeltaRequest::ChatItems { day_markers: true, .. }) => {
            Reply::Items { items: vec![plain(3)], elapsed: text("5ms") }
        }
        Request::Delta(DeltaRequest::ChatContacts { .. }) => Reply::Numbers(members.clone()),
        Request::Delta(DeltaRequest::ChatImage { .. }) => Reply::Image(image()),
        Request::Delta(DeltaRequest::Draft { .. }) => Reply::Draft(Some(logged(8))),
        Request::Delta(DeltaRequest::MessageCount { .. }) => Reply::Got(Value::Count(6)),
        Request::Delta(DeltaRequest::MarkNoticedTimed { .. }) => got("7ms"),
        other => world(other),
    }
}

#[test]
fn chat_is_shown_and_selected() {
    let answer = showing(ChatKind::Group, false, vec![10, 11], || ProfileImage::Missing);
    let (chat_id, said, asked) = line_with(answer, 0, "chat 12");
    assert_eq!(chat_id, 12);
    assert_eq!(
        said,
        ok(&format!(
            "Selecting chat Chat12\nGroup#Chat12: Name12 [2 member(s)\n] \n{}{}{}6 messages.\n\
             5ms to create this list, 7ms to mark all messages as noticed.\n",
            RULE,
            shown(3),
            RULE
        ))
    );
    assert_eq!(asked.last(), Some(&delta(DeltaRequest::MarkNoticedTimed { chat: 12 })));
}

#[test]
fn selected_chat_is_shown() {
    let head = |kind, device, members, image: fn() -> ProfileImage| {
        let (chat_id, said, _) = line_with(showing(kind, device, members, image), 5, "chat");
        assert_eq!(chat_id, 5);
        let said = said.unwrap();
        said[..said.find("---").unwrap()].to_string()
    };
    let none = || ProfileImage::Missing;
    assert_eq!(head(ChatKind::Single, false, vec![10], none), "Group#Chat5: Name5 [c10@x] \n");
    assert_eq!(head(ChatKind::Single, false, vec![], none), "Group#Chat5: Name5 [0 member(s)\n] \n");
    assert_eq!(head(ChatKind::Mailinglist, false, vec![10], none), "Group#Chat5: Name5 [mailinglist] \n");
    assert_eq!(head(ChatKind::Single, true, vec![10], none), "Group#Chat5: Name5 [device-talk] \n");
    assert_eq!(
        head(ChatKind::Group, false, vec![], || ProfileImage::Path("i.png".to_string())),
        "Group#Chat5: Name5 [0 member(s)\n]  Icon: i.png\n\n"
    );
    assert_eq!(
        head(ChatKind::Group, false, vec![], || ProfileImage::Unreadable),
        "Group#Chat5: Name5 [0 member(s)\n]  Icon: Err\n"
    );
}

#[test]
fn chat_is_selected_though_it_cannot_be_loaded() {
    let (chat_id, said, _) = line_with(|_| Reply::Failed(text("gone")), 0, "chat 12");
    assert_eq!((chat_id, said), (12, err("gone")));
    let (chat_id, said, _) = line_with(world, 0, "chat twelve");
    assert_eq!((chat_id, said), (0, err("invalid digit found in string")));
    let (chat_id, _, _) = line_with(|_| Reply::Failed(text("gone")), 5, "chat 12");
    assert_eq!(chat_id, 5);
}

#[test]
fn members_of_a_chat_are_counted() {
    let (_, said, asked) = line_with(
        |r| match r {
            Request::Delta(DeltaRequest::ChatContacts { .. }) => Reply::Numbers(vec![10, 11]),
            Request::Delta(DeltaRequest::IsSendingLocations { chat: Some(5) }) => flag(false),
            other => world(other),
        },
        5,
        "chatinfo",
    );
    assert_eq!(said, ok("Memberlist:2 contacts\nLocation streaming: false"));
    assert_eq!(asked.last(), Some(&delta(DeltaRequest::IsSendingLocations { chat: Some(5) })));
}

#[test]
fn contact_is_described() {
    let info = |ids: Vec<u32>, image: fn() -> ProfileImage| {
        move |r: &Request| match r {
            Request::Delta(DeltaRequest::ContactImage { .. }) => Reply::Image(image()),
            Request::Delta(DeltaRequest::EncryptionInfo { .. }) => got("End-to-end."),
            Request::Delta(DeltaRequest::ListChats { contact: Some(10), .. }) => {
                Reply::Chatlist { ids: ids.clone(), elapsed: text("") }
            }
            other => world(other),
        }
    };
    let none = || ProfileImage::Missing;
    assert_eq!(
        line_with(info(vec![21, 22], none), 0, "contactinfo 10").1,
        ok("Contact info for: C10 (c10@x):\nIcon: NoIcon\nEnd-to-end.\n\n2 chats shared with Contact#10:\
            Group#Chat21, Group#Chat22")
    );
    assert_eq!(
        line_with(info(vec![], || ProfileImage::Path("i.png".to_string())), 0, "contactinfo 10").1,
        ok("Contact info for: C10 (c10@x):\nIcon: i.png\nEnd-to-end.")
    );
    let mut da = DeltaAppservice::new();
    let mut host = Host::new(info(vec![], || ProfileImage::Unreadable));
    assert_eq!(host.run(cmdline("contactinfo 10", 0), &mut da), End::Panic(text("a value is missing")));
}

fn print(s: &str) -> Request {
    Request::Host(HostRequest::Print { text: text(s) })
}

fn files(r: &Request) -> Reply {
    match r {
        Request::Delta(DeltaRequest::RawGet { .. }) => Reply::Got(Value::MaybeText(None)),
        Request::Delta(DeltaRequest::FileSuffix { path }) => {
            Reply::Got(Value::MaybeText(path.rsplit_once('.').map(|p| p.1.to_lowercase())))
        }
        Request::Delta(DeltaRequest::ReadFile { path }) => {
            if path.contains("bad") { Reply::Failed(text("cannot read")) } else { Reply::Bytes(vec![1, 2]) }
        }
        Request::Host(HostRequest::ReadDir { path }) => match path.as_str() {
            "dir" => Reply::Entries(vec![
                Some(text("a.eml")),
                Some(text("note.txt")),
                Some(text("bad.eml")),
                Some(text("b.eml")),
                None,
                Some(text("c.eml")),
            ]),
            "empty" => Reply::Entries(vec![]),
            _ => Reply::Failed(text("no such directory")),
        },
        _ => unit(),
    }
}

#[test]
fn import_counts_what_it_read() {
    let mut da = DeltaAppservice::new();
    let mut host = Host::new(files);
    assert_eq!(host.run(poke_spec(Some(text("dir"))), &mut da), End::Return(Value::Flag(true)));
    assert_eq!(
        host.asked,
        vec![
            delta(DeltaRequest::RawSet { key: text("import_spec"), value: text("dir") }),
            delta(DeltaRequest::FileSuffix { path: text("dir") }),
            Request::Host(HostRequest::ReadDir { path: text("dir") }),
            print("Import: dir/a.eml\n"),
            delta(DeltaRequest::ReadFile { path: text("dir/a.eml") }),
            delta(DeltaRequest::ReceiveImf { data: vec![1, 2] }),
            print("Import: dir/bad.eml\n"),
            delta(DeltaRequest::ReadFile { path: text("dir/bad.eml") }),
            print("Import: dir/b.eml\n"),
            delta(DeltaRequest::ReadFile { path: text("dir/b.eml") }),
            delta(DeltaRequest::ReceiveImf { data: vec![1, 2] }),
            print("Import: 2 items read from \"dir\".\n"),
            delta(DeltaRequest::EmitMsgsChanged),
        ]
    );
    let mut host = Host::new(files);
    assert_eq!(host.run(poke_spec(Some(text("empty"))), &mut da), End::Return(Value::Flag(true)));
    assert_eq!(host.asked.last(), Some(&print("Import: 0 items read from \"empty\".\n")));
}

#[test]
fn import_of_a_single_file() {
    let mut da = DeltaAppservice::new();
    for (file, count) in [("x/mail.EML", 1), ("x/bad.eml", 0), ("x/mail.txt", 0)] {
        let mut host = Host::new(files);
        assert_eq!(host.run(poke_spec(Some(text(file))), &mut da), End::Return(Value::Flag(true)));
        assert!(host.asked.contains(&print(&format!("Import: {} items read from \"{}\".\n", count, file))));
        assert_eq!(host.asked.contains(&delta(DeltaRequest::EmitMsgsChanged)), count > 0);
    }
}

#[test]
fn import_is_refused() {
    let mut da = DeltaAppservice::new();
    let mut host = Host::new(files);
    assert_eq!(host.run(poke_spec(None), &mut da), End::Return(Value::Flag(false)));
    assert_eq!(
        host.asked.last(),
        Some(&delta(DeltaRequest::EmitError { text: text("Import: No file or folder given.") }))
    );
    assert_eq!(host.run(poke_spec(Some(text("nowhere"))), &mut da), End::Return(Value::Flag(false)));
    assert_eq!(
        host.asked.last(),
        Some(&delta(DeltaRequest::EmitError { text: text("Import: Cannot open directory \"nowhere\".") }))
    );
    let (_, said, _) = line_with(files, 0, "poke nowhere");
    assert_eq!(said, err("Poke failed"));
    assert_eq!(line_with(files, 0, "poke dir").1, ok(""));
}

#[test]
fn last_import_is_repeated() {
    let mut da = DeltaAppservice::new();
    let mut host = Host::new(|r| match r {
        Request::Delta(DeltaRequest::RawGet { .. }) => Reply::Got(Value::MaybeText(Some(text("empty")))),
        other => files(other),
    });
    assert_eq!(host.run(poke_spec(None), &mut da), End::Return(Value::Flag(true)));
    assert!(host.asked.contains(&Request::Host(HostRequest::ReadDir { path: text("empty") })));
}

#[test]
fn mail_that_the_core_refuses_is_still_read() {
    let mut da = DeltaAppservice::new();
    let mut host = Host::new(|r| match r {
        Request::Delta(DeltaRequest::ReceiveImf { .. }) => Reply::Failed(text("no mail")),
        other => files(other),
    });
    assert_eq!(host.run(poke_eml_file("a.eml"), &mut da), End::Return(Value::Unit));
    assert_eq!(host.asked.last(), Some(&print("dc_receive_imf errored: no mail\n")));
    assert_eq!(host.run(poke_eml_file("bad.eml"), &mut da), End::Raise(text("cannot read")));
}

/// A core that remembers what was imported last.
fn remembering<'a>(last: &'a std::cell::RefCell<Option<String>>) -> impl Fn(&Request) -> Reply + 'a {
    move |r| match r {
        Request::Delta(DeltaRequest::RawSet { key, value }) if key == "import_spec" => {
            *last.borrow_mut() = Some(value.clone());
            unit()
        }
        Request::Delta(DeltaRequest::RawGet { key }) if key == "import_spec" => {
            Reply::Got(Value::MaybeText(last.borrow().clone()))
        }
        other => files(other),
    }
}

#[test]
fn poke_alone_repeats_the_last_import() {
    let last = std::cell::RefCell::new(None);
    let mut da = DeltaAppservice::new();
    let mut host = Host::new(remembering(&last));
    let said = |said| End::Return(Value::Said { chat_id: 0, said });
    assert_eq!(host.run(cmdline("poke", 0), &mut da), said(err("Poke failed")));
    assert_eq!(*last.borrow(), None);
    assert_eq!(host.run(cmdline("poke dir", 0), &mut da), said(ok("")));
    let first: Vec<Request> = host.asked.drain(..).skip_while(|r| r != &delta(DeltaRequest::FileSuffix { path: text("dir") })).collect();
    for line in ["poke", "poke "] {
        assert_eq!(host.run(cmdline(line, 0), &mut da), said(ok("")));
        assert_eq!(*last.borrow(), Some(text("dir")));
        let again: Vec<Request> = host.asked.drain(..).collect();
        assert_eq!(again[0], delta(DeltaRequest::RawGet { key: text("import_spec") }));
        assert_eq!(again[1..], first[..]);
    }
}

#[test]
fn key_of_an_address_is_imported() {
    let key = |r: &Request| match r {
        Request::Delta(DeltaRequest::ImportPublicKey { file, .. }) if file.contains("bad") => {
            Reply::Failed(text("no key"))
        }
        other => files(other),
    };
    for (spec, file, count) in [
        ("bob@example.org key.asc", "key.asc", 1),
        ("bob@example.org my keys/key", "my keys/key", 1),
        ("bob@localhost key", "key", 1),
        ("bob@example.org bad.asc", "bad.asc", 0),
    ] {
        let addr = spec.split(' ').next().unwrap();
        let mut da = DeltaAppservice::new();
        let mut host = Host::new(key);
        assert_eq!(host.run(poke_spec(Some(text(spec))), &mut da), End::Return(Value::Flag(true)));
        let mut expected = vec![
            delta(DeltaRequest::RawSet { key: text("import_spec"), value: text(spec) }),
            delta(DeltaRequest::FileSuffix { path: text(spec) }),
            delta(DeltaRequest::ImportPublicKey { addr: text(addr), file: text(file) }),
            print(&format!("Import: {} items read from \"{}\".\n", count, spec)),
        ];
        if count > 0 {
            expected.push(delta(DeltaRequest::EmitMsgsChanged));
        }
        assert_eq!(host.asked, expected);
        let mut host = Host::new(key);
        let end = host.run(cmdline(&format!("poke {}", spec), 0), &mut da);
        assert_eq!(end, End::Return(Value::Said { chat_id: 0, said: ok("") }));
        assert_eq!(host.asked, expected);
    }
}

#[test]
fn what_is_no_address_is_no_key() {
    let mut da = DeltaAppservice::new();
    for spec in ["some dir", "a/b@c key.asc", "bob@example.org", "bob@example.org "] {
        let mut host = Host::new(files);
        host.run(poke_spec(Some(text(spec))), &mut da);
        assert!(!host.asked.iter().any(|r| matches!(r, Request::Delta(DeltaRequest::ImportPublicKey { .. }))));
    }
    // A mail stays a mail.
    let mut host = Host::new(files);
    host.run(poke_spec(Some(text("bob@example.org mail.eml"))), &mut da);
    assert!(host.asked.contains(&delta(DeltaRequest::ReadFile { path: text("bob@example.org mail.eml") })));
    // Only an address is handed on with what follows it.
    let mut host = Host::new(files);
    host.run(cmdline("poke dir more", 0), &mut da);
    assert_eq!(host.asked[0], delta(DeltaRequest::RawSet { key: text("import_spec"), value: text("dir") }));
}
