use appservice_delta::appservice::DeltaAppservice;
use appservice_delta::protocol::{
    Actor, ContactInfo, DeltaRequest, HostRequest, LogLevel, MatrixRequest, Reply, Request, Step, Value,
};
use appservice_delta::task::Task;
use std::collections::HashMap;

/// How a task ended.
#[derive(Debug, PartialEq)]
enum End {
    Return(Value),
    Raise(String),
    Panic(String),
    Mismatch,
}

/// Settings that are kept, and a script for everything else.
struct Host<'a> {
    settings: HashMap<String, String>,
    asked: Vec<Request>,
    answer: Box<dyn Fn(&Request) -> Reply + 'a>,
}

impl<'a> Host<'a> {
    fn new(answer: impl Fn(&Request) -> Reply + 'a) -> Host<'a> {
        Host { settings: HashMap::new(), asked: Vec::new(), answer: Box::new(answer) }
    }

    fn perform(&mut self, request: Request) -> Reply {
        let reply = match &request {
            Request::Delta(DeltaRequest::UiGet { key }) => {
                Reply::Got(Value::MaybeText(self.settings.get(key).cloned()))
            }
            Request::Delta(DeltaRequest::UiSet { key, value }) => {
                match value {
                    Some(text) => self.settings.insert(key.clone(), text.clone()),
                    None => self.settings.remove(key),
                };
                Reply::Got(Value::Unit)
            }
            Request::Host(HostRequest::Log { .. }) => Reply::Got(Value::Unit),
            other => (self.answer)(other),
        };
        self.asked.push(request);
        reply
    }

    fn run(&mut self, task: Task, da: &mut DeltaAppservice) -> End {
        let mut task = task;
        let mut reply = Reply::Start;
        loop {
            match task.resume(reply, da) {
                Step::Perform(request, then) => {
                    reply = self.perform(request);
                    task = then;
                }
                Step::Call(callee, then) => {
                    reply = match self.run(callee, da) {
                        End::Return(value) => Reply::Got(value),
                        End::Raise(error) => Reply::Failed(error),
                        other => return other,
                    };
                    task = then;
                }
                Step::Return(value) => return End::Return(value),
                Step::Raise(error) => return End::Raise(error),
                Step::Panic(error) => return End::Panic(error),
                Step::Mismatch => return End::Mismatch,
            }
        }
    }
}

fn text(s: &str) -> String {
    s.to_string()
}

fn unit() -> Reply {
    Reply::Got(Value::Unit)
}

fn flag(b: bool) -> Reply {
    Reply::Got(Value::Flag(b))
}

fn bob() -> ContactInfo {
    ContactInfo {
        id: 10,
        addr: text("Bob@example.org"),
        display_name: text("Bob"),
        name_n_addr: text("Bob (Bob@example.org)"),
    }
}

fn me() -> ContactInfo {
    ContactInfo { id: 1, addr: text("me@example.org"), display_name: text("x"), name_n_addr: text("y") }
}

/// A homeserver where nobody has a name, and where nobody is invited or in a room.
fn fresh(request: &Request) -> Reply {
    match request {
        Request::Delta(DeltaRequest::LoadContact { .. }) => Reply::Contact(bob()),
        Request::Delta(DeltaRequest::GetDisplayname) => Reply::Got(Value::MaybeText(None)),
        Request::Matrix(MatrixRequest::RegisterUser { .. }) => Reply::Failed(text("taken")),
        Request::Matrix(MatrixRequest::DisplayName { .. }) => Reply::Got(Value::MaybeText(None)),
        Request::Matrix(MatrixRequest::IsJoined { who: Actor::Main, .. }) => flag(true),
        Request::Matrix(MatrixRequest::IsJoined { .. }) => flag(false),
        Request::Matrix(MatrixRequest::IsInvited { .. }) => flag(false),
        Request::Matrix(MatrixRequest::UserId { who: Actor::User(localpart) }) => {
            Reply::Got(Value::MaybeText(Some(format!("@{}:x", localpart))))
        }
        _ => unit(),
    }
}

fn matrix(request: MatrixRequest) -> Request {
    Request::Matrix(request)
}

fn logged(line: &str) -> Request {
    Request::Host(HostRequest::Log { level: LogLevel::Debug, text: text(line) })
}

fn user(localpart: &str) -> Actor {
    Actor::User(text(localpart))
}

#[test]
fn user_is_registered_named_invited_and_joined() {
    let mut da = DeltaAppservice::new();
    let mut host = Host::new(fresh);
    host.run(da.set_control_room_id("!control:x"), &mut da);
    host.asked.clear();
    let end = host.run(da.get_email_user(bob(), false), &mut da);
    let lp = "bob_at_example.org";
    assert_eq!(end, End::Return(Value::Text(text(lp))));
    assert_eq!(
        host.asked,
        vec![
            matrix(MatrixRequest::RegisterUser { localpart: text(lp) }),
            logged("bob_at_example.org: user already registered, ignoring error"),
            matrix(MatrixRequest::UserClient { localpart: text(lp) }),
            matrix(MatrixRequest::DisplayName { who: user(lp) }),
            matrix(MatrixRequest::SetDisplayName { who: user(lp), name: text("Bob") }),
            Request::Delta(DeltaRequest::UiGet { key: text("ui.appservice.control_room_id") }),
            Request::Host(HostRequest::Log { level: LogLevel::Info, text: text("control room: !control:x") }),
            matrix(MatrixRequest::IsJoined { who: Actor::Main, room: text("!control:x") }),
            matrix(MatrixRequest::IsInvited { who: user(lp), room: text("!control:x") }),
            matrix(MatrixRequest::UserId { who: user(lp) }),
            matrix(MatrixRequest::InviteUser { room: text("!control:x"), user: text("@bob_at_example.org:x") }),
            matrix(MatrixRequest::IsJoined { who: user(lp), room: text("!control:x") }),
            matrix(MatrixRequest::JoinRoom { who: user(lp), room: text("!control:x") }),
        ]
    );
    assert_eq!(da.client_of(10), Some(text(lp)));
    assert_eq!(da.client_of(11), None);
}

#[test]
fn ready_user_is_not_touched() {
    let mut da = DeltaAppservice::new();
    let mut host = Host::new(fresh);
    let first = host.run(da.get_email_user(bob(), false), &mut da);
    host.asked.clear();
    assert_eq!(host.run(da.get_email_user(bob(), false), &mut da), first);
    assert!(host.asked.is_empty());
}

#[test]
fn refreshed_user_is_registered_first() {
    let mut da = DeltaAppservice::new();
    let mut host = Host::new(fresh);
    host.run(da.get_email_user(bob(), false), &mut da);
    host.asked.clear();
    host.run(da.get_email_user(bob(), true), &mut da);
    assert_eq!(host.asked[0], matrix(MatrixRequest::RegisterUser { localpart: text("bob_at_example.org") }));
}

#[test]
fn user_keeps_a_name_that_is_right() {
    let mut da = DeltaAppservice::new();
    let mut host = Host::new(|r| match r {
        Request::Matrix(MatrixRequest::DisplayName { .. }) => Reply::Got(Value::MaybeText(Some(text("Bob")))),
        other => fresh(other),
    });
    host.run(da.get_email_user(bob(), false), &mut da);
    assert!(!host.asked.iter().any(|r| matches!(r, Request::Matrix(MatrixRequest::SetDisplayName { .. }))));
}

#[test]
fn owner_of_the_account_is_named_by_the_configuration() {
    for (set, wanted) in [(None, "Me"), (Some("Zoe"), "Zoe")] {
        let mut da = DeltaAppservice::new();
        let mut host = Host::new(move |r| match r {
            Request::Delta(DeltaRequest::GetDisplayname) => Reply::Got(Value::MaybeText(set.map(text))),
            other => fresh(other),
        });
        host.run(da.get_email_user(me(), false), &mut da);
        assert!(host.asked.contains(&matrix(MatrixRequest::SetDisplayName {
            who: user("me_at_example.org"),
            name: text(wanted)
        })));
    }
}

#[test]
fn invitation_is_skipped_where_it_stands() {
    let mut da = DeltaAppservice::new();
    let mut host = Host::new(|r| match r {
        Request::Matrix(MatrixRequest::IsInvited { .. }) => flag(true),
        Request::Matrix(MatrixRequest::IsJoined { .. }) => flag(true),
        other => fresh(other),
    });
    host.run(da.set_control_room_id("!control:x"), &mut da);
    host.run(da.get_email_user(bob(), false), &mut da);
    assert!(!host.asked.iter().any(|r| matches!(
        r,
        Request::Matrix(MatrixRequest::InviteUser { .. }) | Request::Matrix(MatrixRequest::JoinRoom { .. })
    )));
}

#[test]
fn failed_invitation_and_join_are_passed_over() {
    let mut da = DeltaAppservice::new();
    let mut host = Host::new(|r| match r {
        Request::Matrix(MatrixRequest::InviteUser { .. }) => Reply::Failed(text("no")),
        Request::Matrix(MatrixRequest::JoinRoom { .. }) => Reply::Failed(text("no")),
        other => fresh(other),
    });
    host.run(da.set_control_room_id("!control:x"), &mut da);
    let end = host.run(da.get_email_user(bob(), false), &mut da);
    assert_eq!(end, End::Return(Value::Text(text("bob_at_example.org"))));
}

#[test]
fn user_that_cannot_be_acted_for_is_an_error() {
    let no_client = |r: &Request| match r {
        Request::Matrix(MatrixRequest::UserClient { .. }) => Reply::Failed(text("no client")),
        other => fresh(other),
    };
    let mut da = DeltaAppservice::new();
    let mut host = Host::new(no_client);
    assert_eq!(host.run(da.get_email_user(bob(), false), &mut da), End::Raise(text("no client")));
    assert_eq!(da.client_of(10), None);
    // By its number it must not happen.
    assert_eq!(host.run(da.get_email_user_by_id(10, false), &mut da), End::Panic(text("no client")));
}

#[test]
fn user_without_an_identifier_is_fatal() {
    let mut da = DeltaAppservice::new();
    let mut host = Host::new(|r| match r {
        Request::Matrix(MatrixRequest::UserId { .. }) => Reply::Got(Value::MaybeText(None)),
        other => fresh(other),
    });
    host.run(da.set_control_room_id("!control:x"), &mut da);
    assert_eq!(host.run(da.get_email_user(bob(), false), &mut da), End::Panic(text("a value is missing")));
}

#[test]
fn contact_is_loaded_by_its_number() {
    let mut da = DeltaAppservice::new();
    let mut host = Host::new(fresh);
    let end = host.run(da.get_email_user_by_id(10, false), &mut da);
    let bobs = || Value::EmailUser { contact: bob(), localpart: text("bob_at_example.org") };
    assert_eq!(end, End::Return(bobs()));
    assert_eq!(host.asked[0], Request::Delta(DeltaRequest::LoadContact { id: 10 }));
    // The contact comes back too where its user was ready already.
    host.asked.clear();
    assert_eq!(host.run(da.get_email_user_by_id(10, false), &mut da), End::Return(bobs()));
    assert_eq!(host.asked, vec![Request::Delta(DeltaRequest::LoadContact { id: 10 })]);
    let mut lost = Host::new(|_| Reply::Failed(text("gone")));
    assert_eq!(lost.run(da.get_email_user_by_id(10, false), &mut da), End::Panic(text("gone")));
}

#[test]
fn other_users_stay_as_they_were() {
    let mut da = DeltaAppservice::new();
    let mut host = Host::new(fresh);
    host.run(da.get_email_user(me(), false), &mut da);
    da.remember_event(5, text("$a"));
    assert_eq!(da.client_of(10), None);
    host.run(da.get_email_user(bob(), true), &mut da);
    assert_eq!(da.client_of(1), Some(text("me_at_example.org")));
    assert_eq!(da.client_of(10), Some(text("bob_at_example.org")));
    assert_eq!(da.client_of(11), None);
    assert_eq!(da.event_of(5), Some(text("$a")));
    let moved = ContactInfo { addr: text("bob@new.example"), ..bob() };
    host.run(da.get_email_user(moved, true), &mut da);
    assert_eq!(da.client_of(1), Some(text("me_at_example.org")));
    assert_eq!(da.client_of(10), Some(text("bob_at_new.example")));
    let mut shut = Host::new(|_| Reply::Failed(text("shut")));
    assert_eq!(shut.run(da.get_email_user(me(), true), &mut da), End::Raise(text("shut")));
    assert_eq!(da.client_of(10), Some(text("bob_at_new.example")));
}

#[test]
fn events_of_messages_are_remembered() {
    let mut da = DeltaAppservice::new();
    assert_eq!(da.event_of(5), None);
    da.remember_event(5, text("$a"));
    da.remember_event(6, text("$b"));
    da.remember_event(5, text("$c"));
    assert_eq!(da.event_of(5), Some(text("$c")));
    assert_eq!(da.event_of(6), Some(text("$b")));
    assert_eq!(da.client_of(5), None);
}

#[test]
fn refusals_in_the_control_room_do_not_matter() {
    let mut da = DeltaAppservice::new();
    let mut host = Host::new(|r| match r {
        Request::Matrix(MatrixRequest::InviteUser { .. }) => Reply::Failed(text("invited already")),
        Request::Matrix(MatrixRequest::JoinRoom { .. }) => Reply::Failed(text("in there already")),
        other => fresh(other),
    });
    host.run(da.set_control_room_id("!control:x"), &mut da);
    let end = host.run(da.get_email_user(bob(), false), &mut da);
    assert_eq!(end, End::Return(Value::Text(text("bob_at_example.org"))));
    assert!(host.asked.contains(&logged("invited already")));
    assert_eq!(host.asked.last(), Some(&logged("in there already")));
    assert_eq!(da.client_of(10), Some(text("bob_at_example.org")));
}
