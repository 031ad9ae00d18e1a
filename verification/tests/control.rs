use appservice_delta::appservice::DeltaAppservice;
use appservice_delta::matrix_events::{handle_room_message, RoomMessageEvent};
use appservice_delta::protocol::{
    Actor, ChatInfo, ChatKind, DeltaRequest, HostRequest, LogLevel, MatrixRequest, Reply, Request, Setting, Step,
    Value, Visibility,
};
use appservice_delta::task::Task;
use std::collections::HashMap;

/// How a task ended.
#[derive(Debug, PartialEq)]
enum End {
    Return(Value),
    Raise(String),
    Panic(String),
    Mismatch,
}

/// Settings that are kept, and a script for everything else.
struct Host<'a> {
    settings: HashMap<String, String>,
    asked: Vec<Request>,
    answer: Box<dyn Fn(&Request) -> Reply + 'a>,
}

impl<'a> Host<'a> {
    fn new(answer: impl Fn(&Request) -> Reply + 'a) -> Host<'a> {
        Host { settings: HashMap::new(), asked: Vec::new(), answer: Box::new(answer) }
    }

    fn perform(&mut self, request: Request) -> Reply {
        let reply = match &request {
            Request::Delta(DeltaRequest::UiGet { key }) => {
                Reply::Got(Value::MaybeText(self.settings.get(key).cloned()))
            }
            Request::Delta(DeltaRequest::UiSet { key, value }) => {
                match value {
                    Some(text) => self.settings.insert(key.clone(), text.clone()),
                    None => self.settings.remove(key),
                };
                Reply::Got(Value::Unit)
            }
            Request::Host(HostRequest::Log { .. }) => Reply::Got(Value::Unit),
            other => (self.answer)(other),
        };
        self.asked.push(request);
        reply
    }

    fn run(&mut self, task: Task, da: &mut DeltaAppservice) -> End {
        let mut task = task;
        let mut reply = Reply::Start;
        loop {
            match task.resume(reply, da) {
                Step::Perform(request, then) => {
                    reply = self.perform(request);
                    task = then;
                }
                Step::Call(callee, then) => {
                    reply = match self.run(callee, da) {
                        End::Return(value) => Reply::Got(value),
                        End::Raise(error) => Reply::Failed(error),
                        other => return other,
                    };
                    task = then;
                }
                Step::Return(value) => return End::Return(value),
                Step::Raise(error) => return End::Raise(error),
                Step::Panic(error) => return End::Panic(error),
                Step::Mismatch => return End::Mismatch,
            }
        }
    }
}

fn text(s: &str) -> String {
    s.to_string()
}

fn unit() -> Reply {
    Reply::Got(Value::Unit)
}

fn flag(b: bool) -> Reply {
    Reply::Got(Value::Flag(b))
}

fn delta(request: DeltaRequest) -> Request {
    Request::Delta(request)
}

const CONTROL: &str = "!control:hs";

fn world(configured: bool) -> impl Fn(&Request) -> Reply {
    move |request| match request {
        Request::Delta(DeltaRequest::IsConfigured) => flag(configured),
        Request::Delta(DeltaRequest::MayBeValidAddr { addr }) => flag(addr.contains('@')),
        Request::Delta(DeltaRequest::CreateContact { .. }) => Reply::Got(Value::Number(10)),
        Request::Delta(DeltaRequest::CreateChat { .. }) => Reply::Got(Value::Number(7)),
        Request::Delta(DeltaRequest::LoadChat { id }) => Reply::Chat(ChatInfo {
            id: *id,
            label: id.to_string(),
            prefix: text("Group"),
            name: text("Friends"),
            kind: ChatKind::Group,
            visibility: Visibility::Normal,
            muted: false,
            protected: false,
            contact_request: false,
            sending_locations: false,
            device_talk: false,
        }),
        Request::Delta(DeltaRequest::ChatContacts { .. }) => Reply::Numbers(vec![]),
        Request::Delta(DeltaRequest::ChatItems { .. }) => Reply::Items { items: vec![], elapsed: text("2ms") },
        Request::Delta(DeltaRequest::ChatImage { .. }) => Reply::Failed(text("no image")),
        Request::Matrix(MatrixRequest::UserId { .. }) => Reply::Got(Value::MaybeText(Some(text("@bridge:hs")))),
        Request::Matrix(MatrixRequest::InNamespace { .. }) => flag(false),
        Request::Matrix(MatrixRequest::IsJoined { .. }) => flag(true),
        Request::Matrix(MatrixRequest::CreateRoom { .. }) => Reply::Got(Value::Text(text("!new:hs"))),
        Request::Matrix(MatrixRequest::SpaceRoom) => Reply::Got(Value::MaybeText(Some(text("!space:hs")))),
        _ => unit(),
    }
}

fn settled<'a>(answer: impl Fn(&Request) -> Reply + 'a) -> Host<'a> {
    let mut host = Host::new(answer);
    host.settings.insert(text("ui.appservice.control_room_id"), text(CONTROL));
    host.settings.insert(text("ui.appservice.owner_user_id"), text("@owner:hs"));
    host
}

/// Says something in the control room, and gives what was asked from then on.
fn order(host: &mut Host, da: &mut DeltaAppservice, body: &str) -> End {
    host.asked.clear();
    let end = host.run(
        handle_room_message(RoomMessageEvent {
            room_id: text(CONTROL),
            joined: true,
            sender: text("@owner:hs"),
            event_id: text("$order"),
            body: Some(text(body)),
            reply_to: None,
        }),
        da,
    );
    // Whose message it is, and where it was said.
    host.asked.drain(0..3);
    end
}

fn saying(s: &str) -> Request {
    Request::Matrix(MatrixRequest::SendText { who: Actor::Main, room: text(CONTROL), text: text(s) })
}

fn redact() -> Request {
    Request::Matrix(MatrixRequest::Redact { room: text(CONTROL), event: text("$order") })
}

#[test]
fn nothing_is_done_before_the_setup() {
    for body in ["repl help", "room 7", "message a@b", "anything", ""] {
        let mut da = DeltaAppservice::new();
        let mut host = settled(world(false));
        assert_eq!(order(&mut host, &mut da, body), End::Return(Value::Unit));
        assert_eq!(host.asked, vec![delta(DeltaRequest::IsConfigured), saying("Not configured.")]);
    }
}

#[test]
fn unknown_command_is_answered() {
    let mut da = DeltaAppservice::new();
    let mut host = settled(world(true));
    order(&mut host, &mut da, "dance now");
    assert_eq!(host.asked.last(), Some(&saying("Unknown command dance. Commands:\n - repl\n - configure")));
}

#[test]
fn account_is_set_up() {
    let mut da = DeltaAppservice::new();
    let mut host = settled(world(false));
    let end = order(&mut host, &mut da, r#"configure me@x "pass word" 'Me Myself' login imap.x smtp.x"#);
    assert_eq!(end, End::Return(Value::Unit));
    let set = |key, value: &str| delta(DeltaRequest::SetSetting { key, value: Some(text(value)) });
    assert_eq!(
        host.asked,
        vec![
            redact(),
            delta(DeltaRequest::IsConfigured),
            delta(DeltaRequest::IsConfigured),
            set(Setting::Addr, "me@x"),
            set(Setting::MailPw, "pass word"),
            set(Setting::Displayname, "Me Myself"),
            set(Setting::MailUser, "login"),
            set(Setting::MailServer, "imap.x"),
            set(Setting::SendServer, "smtp.x"),
            set(Setting::E2eeEnabled, "0"),
            set(Setting::ShowEmails, "2"),
            set(Setting::BccSelf, "1"),
            saying("Configuring…"),
            delta(DeltaRequest::Configure),
            saying("Configured."),
            delta(DeltaRequest::StartIo),
        ]
    );
}

#[test]
fn settings_that_are_not_given_are_removed() {
    let mut da = DeltaAppservice::new();
    let mut host = settled(world(false));
    order(&mut host, &mut da, "configure me@x pw Me");
    for key in [Setting::MailUser, Setting::MailServer, Setting::SendServer] {
        assert!(host.asked.contains(&delta(DeltaRequest::SetSetting { key, value: None })));
    }
}

#[test]
fn account_is_set_up_once() {
    let mut da = DeltaAppservice::new();
    let mut host = settled(world(true));
    order(&mut host, &mut da, "configure me@x pw Me");
    assert_eq!(host.asked, vec![redact(), delta(DeltaRequest::IsConfigured), saying("Already configured.")]);
}

#[test]
fn password_is_taken_back_first() {
    for body in ["configure", "configure a 'b", "configure a b c"] {
        let mut da = DeltaAppservice::new();
        let mut host = settled(|r: &Request| match r {
            Request::Matrix(MatrixRequest::Redact { .. }) => Reply::Failed(text("no right")),
            other => world(false)(other),
        });
        order(&mut host, &mut da, body);
        assert_eq!(host.asked[0], redact());
        let line = Request::Host(HostRequest::Log { level: LogLevel::Error, text: text("no right") });
        assert_eq!(host.asked[1], line);
        assert_eq!(host.asked[2], delta(DeltaRequest::IsConfigured));
    }
}

#[test]
fn setup_needs_its_arguments() {
    let mut da = DeltaAppservice::new();
    let mut host = settled(world(false));
    order(&mut host, &mut da, "configure me@x \"my password\"");
    assert_eq!(
        host.asked.last(),
        Some(&saying(
            "Usage: configure <email> <password> <displayname> [login_user] [imap_host] [smtp_host]"
        ))
    );
    assert_eq!(order(&mut host, &mut da, "configure me@x 'open quote"), End::Panic(text("must parse")));
}

#[test]
fn failed_setup_is_told() {
    let mut da = DeltaAppservice::new();
    let mut host = settled(|r: &Request| match r {
        Request::Delta(DeltaRequest::Configure) => Reply::Failed(text("wrong password")),
        other => world(false)(other),
    });
    assert_eq!(order(&mut host, &mut da, "configure me@x pw Me"), End::Return(Value::Unit));
    assert_eq!(host.asked.last(), Some(&saying("Error: wrong password")));
}

#[test]
fn conversation_is_started() {
    let mut da = DeltaAppservice::new();
    let mut host = settled(world(true));
    let end = order(&mut host, &mut da, r#"message bob@x "Bob B" "On holidays""#);
    assert_eq!(end, End::Return(Value::Unit));
    assert!(host.asked.contains(&delta(DeltaRequest::CreateContact { name: text("Bob B"), addr: text("bob@x") })));
    assert!(host.asked.contains(&delta(DeltaRequest::CreateChat { contact: 10 })));
    assert_eq!(
        host.asked.last(),
        Some(&Request::Matrix(MatrixRequest::SendTopic { room: text("!new:hs"), topic: text("On holidays") }))
    );
}

#[test]
fn conversation_needs_an_address() {
    for body in ["message", "message nobody", "message   "] {
        let mut da = DeltaAppservice::new();
        let mut host = settled(world(true));
        order(&mut host, &mut da, body);
        assert_eq!(host.asked.last(), Some(&saying("Usage: message <email> [full_name] [subject]")));
    }
    let mut da = DeltaAppservice::new();
    let mut host = settled(world(true));
    assert_eq!(order(&mut host, &mut da, "message \"bob"), End::Panic(text("must parse")));
}

#[test]
fn conversation_without_a_name_or_a_subject() {
    let mut da = DeltaAppservice::new();
    let mut host = settled(world(true));
    order(&mut host, &mut da, "message bob@x");
    assert!(host.asked.contains(&delta(DeltaRequest::CreateContact { name: text(""), addr: text("bob@x") })));
    assert!(!host.asked.iter().any(|r| matches!(r, Request::Matrix(MatrixRequest::SendTopic { .. }))));
}

#[test]
fn contact_that_cannot_be_made_is_an_error() {
    let mut da = DeltaAppservice::new();
    let mut host = settled(|r: &Request| match r {
        Request::Delta(DeltaRequest::CreateContact { .. }) => Reply::Failed(text("bad address")),
        other => world(true)(other),
    });
    assert_eq!(order(&mut host, &mut da, "message bob@x"), End::Raise(text("bad address")));
}

#[test]
fn chat_becomes_a_room_once() {
    let mut da = DeltaAppservice::new();
    let mut host = settled(world(true));
    assert_eq!(order(&mut host, &mut da, "room 7"), End::Return(Value::Unit));
    assert_eq!(host.run(da.get_room_id_by_chat_id(7), &mut da), End::Return(Value::MaybeText(Some(text("!new:hs")))));
    order(&mut host, &mut da, "room 7");
    assert_eq!(host.asked.last(), Some(&saying("Chat is already a room: !new:hs")));
    order(&mut host, &mut da, "room seven");
    assert_eq!(host.asked.last(), Some(&saying("room <chat_id>")));
}

#[test]
fn command_line_answers_in_the_room() {
    let mut da = DeltaAppservice::new();
    let mut host = settled(world(true));
    order(&mut host, &mut da, "repl nonsense");
    assert_eq!(host.asked.last(), Some(&saying("Unknown command: \"nonsense\" type ? for help.")));
    assert!(!host.settings.contains_key("ui.appservice.repl_active_chat_id"));
}

#[test]
fn selected_chat_is_remembered() {
    let mut da = DeltaAppservice::new();
    let mut host = settled(world(true));
    order(&mut host, &mut da, "repl chat 12");
    // The chat is selected though it could not be shown.
    assert_eq!(host.asked.last(), Some(&saying("no image")));
    assert_eq!(host.settings["ui.appservice.repl_active_chat_id"], "12");
    order(&mut host, &mut da, "repl send hello there");
    assert!(host.asked.contains(&delta(DeltaRequest::SendText { chat: 12, text: text("hello there") })));
}
