use appservice_delta::appservice::DeltaAppservice;
use appservice_delta::protocol::{
    Actor, DeltaRequest, HostRequest, LogLevel, MatrixRequest, Reply, Request, Step, Value,
};
use appservice_delta::task::Task;
use std::collections::HashMap;

/// How a task ended.
#[derive(Debug, PartialEq)]
enum End {
    Return(Value),
    Raise(String),
    Panic(String),
    Mismatch,
}

/// Settings that are kept, and a script for everything else.
struct Host<'a> {
    settings: HashMap<String, String>,
    asked: Vec<Request>,
    answer: Box<dyn Fn(&Request) -> Reply + 'a>,
}

impl<'a> Host<'a> {
    fn new(answer: impl Fn(&Request) -> Reply + 'a) -> Host<'a> {
        Host { settings: HashMap::new(), asked: Vec::new(), answer: Box::new(answer) }
    }

    fn perform(&mut self, request: Request) -> Reply {
        let reply = match &request {
            Request::Delta(DeltaRequest::UiGet { key }) => {
                Reply::Got(Value::MaybeText(self.settings.get(key).cloned()))
            }
            Request::Delta(DeltaRequest::UiSet { key, value }) => {
                match value {
                    Some(text) => self.settings.insert(key.clone(), text.clone()),
                    None => self.settings.remove(key),
                };
                Reply::Got(Value::Unit)
            }
            Request::Host(HostRequest::Log { .. }) => Reply::Got(Value::Unit),
            other => (self.answer)(other),
        };
        self.asked.push(request);
        reply
    }

    fn run(&mut self, task: Task, da: &mut DeltaAppservice) -> End {
        let mut task = task;
        let mut reply = Reply::Start;
        loop {
            match task.resume(reply, da) {
                Step::Perform(request, then) => {
                    reply = self.perform(request);
                    task = then;
                }
                Step::Call(callee, then) => {
                    reply = match self.run(callee, da) {
                        End::Return(value) => Reply::Got(value),
                        End::Raise(error) => Reply::Failed(error),
                        other => return other,
                    };
                    task = then;
                }
                Step::Return(value) => return End::Return(value),
                Step::Raise(error) => return End::Raise(error),
                Step::Panic(error) => return End::Panic(error),
                Step::Mismatch => return End::Mismatch,
            }
        }
    }
}

fn text(s: &str) -> String {
    s.to_string()
}

fn unit() -> Reply {
    Reply::Got(Value::Unit)
}

fn flag(b: bool) -> Reply {
    Reply::Got(Value::Flag(b))
}

fn idle<'a>() -> Host<'a> {
    Host::new(|_| unit())
}

const ROOM: &str = "!room:example.org";

#[test]
fn room_and_chat_find_each_other() {
    let mut da = DeltaAppservice::new();
    let mut host = idle();
    assert_eq!(host.run(da.get_chat_id_by_room_id(ROOM), &mut da), End::Return(Value::MaybeNumber(None)));
    assert_eq!(host.run(da.get_room_id_by_chat_id(12), &mut da), End::Return(Value::MaybeText(None)));
    assert_eq!(host.run(da.set_room_id_with_chat_id(ROOM, 12), &mut da), End::Return(Value::Unit));
    assert_eq!(
        host.settings.get("ui.appservice.custom.chat_id_by_room_id.!room:example.org"),
        Some(&text("12"))
    );
    assert_eq!(host.settings.get("ui.appservice.custom.room_id_by_chat_id.12"), Some(&text(ROOM)));
    assert_eq!(host.run(da.get_chat_id_by_room_id(ROOM), &mut da), End::Return(Value::MaybeNumber(Some(12))));
    assert_eq!(host.run(da.get_room_id_by_chat_id(12), &mut da), End::Return(Value::MaybeText(Some(text(ROOM)))));
    assert_eq!(host.run(da.get_room_id_by_chat_id(1), &mut da), End::Return(Value::MaybeText(None)));
}

#[test]
fn parted_room_and_chat_are_not_found() {
    let mut da = DeltaAppservice::new();
    let mut host = idle();
    host.run(da.set_room_id_with_chat_id(ROOM, 12), &mut da);
    host.run(da.set_room_id_with_chat_id("!other:x", 13), &mut da);
    assert_eq!(host.run(da.clear_room_id_and_chat_id(ROOM, 12), &mut da), End::Return(Value::Unit));
    assert_eq!(host.run(da.get_chat_id_by_room_id(ROOM), &mut da), End::Return(Value::MaybeNumber(None)));
    assert_eq!(host.run(da.get_room_id_by_chat_id(12), &mut da), End::Return(Value::MaybeText(None)));
    assert_eq!(host.run(da.get_chat_id_by_room_id("!other:x"), &mut da), End::Return(Value::MaybeNumber(Some(13))));
}

#[test]
fn room_of_a_chat_has_to_be_a_room_identifier() {
    let mut da = DeltaAppservice::new();
    let mut host = idle();
    host.run(da.set_room_id_with_chat_id("no room", 12), &mut da);
    assert_eq!(host.run(da.get_room_id_by_chat_id(12), &mut da), End::Return(Value::MaybeText(None)));
}

#[test]
fn chat_of_a_room_has_to_be_a_number() {
    let mut da = DeltaAppservice::new();
    let mut host = idle();
    host.run(da.set_config("chat_id_by_room_id.!room:example.org", Some(text("x"))), &mut da);
    assert_eq!(
        host.run(da.get_chat_id_by_room_id(ROOM), &mut da),
        End::Panic(text("invalid digit found in string"))
    );
}

#[test]
fn settings_are_read_back() {
    let mut da = DeltaAppservice::new();
    let mut host = idle();
    assert_eq!(host.run(da.set_config("k", Some(text("v"))), &mut da), End::Return(Value::Unit));
    assert_eq!(host.run(da.get_config("k"), &mut da), End::Return(Value::MaybeText(Some(text("v")))));
    assert_eq!(host.run(da.get_config("other"), &mut da), End::Return(Value::MaybeText(None)));
    assert_eq!(host.run(da.set_config("k", None), &mut da), End::Return(Value::Unit));
    assert_eq!(host.run(da.get_config("k"), &mut da), End::Return(Value::MaybeText(None)));
}

#[test]
fn repl_chat_is_read_back() {
    let mut da = DeltaAppservice::new();
    let mut host = idle();
    assert_eq!(host.run(da.get_repl_active_chat_id(), &mut da), End::Return(Value::Number(0)));
    assert_eq!(host.run(da.set_repl_active_chat_id(4294967295), &mut da), End::Return(Value::Unit));
    assert_eq!(host.run(da.get_repl_active_chat_id(), &mut da), End::Return(Value::Number(4294967295)));
    host.settings.insert(text("ui.appservice.repl_active_chat_id"), text("nonsense"));
    assert_eq!(host.run(da.get_repl_active_chat_id(), &mut da), End::Return(Value::Number(0)));
}

#[test]
fn owner_is_read_back() {
    let mut da = DeltaAppservice::new();
    let mut host = idle();
    assert_eq!(host.run(da.get_owner_user_id(), &mut da), End::Panic(text("a value is missing")));
    assert_eq!(host.run(da.set_owner_user_id("@me:example.org"), &mut da), End::Return(Value::Unit));
    assert_eq!(host.run(da.get_owner_user_id(), &mut da), End::Return(Value::Text(text("@me:example.org"))));
    host.run(da.set_owner_user_id("me"), &mut da);
    assert!(matches!(host.run(da.get_owner_user_id(), &mut da), End::Panic(_)));
}

#[test]
fn control_room_is_read_back() {
    let mut da = DeltaAppservice::new();
    let mut host = idle();
    assert_eq!(host.run(da.get_control_room_id(), &mut da), End::Return(Value::MaybeText(None)));
    host.run(da.set_control_room_id(ROOM), &mut da);
    assert_eq!(host.run(da.get_control_room_id(), &mut da), End::Return(Value::MaybeText(Some(text(ROOM)))));
    host.run(da.set_control_room_id("#room:example.org"), &mut da);
    assert_eq!(host.run(da.get_control_room_id(), &mut da), End::Panic(text("not a room identifier")));
}

#[test]
fn control_room_counts_only_with_the_bridge_in_it() {
    for joined in [true, false] {
        let mut da = DeltaAppservice::new();
        let mut host = Host::new(move |_| flag(joined));
        assert_eq!(host.run(da.get_control_room(), &mut da), End::Return(Value::MaybeText(None)));
        host.run(da.set_control_room_id(ROOM), &mut da);
        let expected = if joined { Some(text(ROOM)) } else { None };
        assert_eq!(host.run(da.get_control_room(), &mut da), End::Return(Value::MaybeText(expected)));
        assert_eq!(
            host.asked.last(),
            Some(&Request::Matrix(MatrixRequest::IsJoined { who: Actor::Main, room: text(ROOM) }))
        );
    }
}

#[test]
fn failing_configuration_is_fatal_or_passed_on() {
    let mut da = DeltaAppservice::new();
    let asks = |task: Task, da: &mut DeltaAppservice| match task.resume(Reply::Start, da) {
        Step::Perform(_, then) => then.resume(Reply::Failed(text("locked")), da),
        other => other,
    };
    let panic: Step = Step::Panic(text("locked"));
    let raise: Step = Step::Raise(text("locked"));
    assert_eq!(asks(da.get_config("k"), &mut da), panic);
    assert_eq!(asks(da.set_config("k", None), &mut da), panic);
    assert_eq!(asks(da.get_owner_user_id(), &mut da), panic);
    assert_eq!(asks(da.get_control_room_id(), &mut da), panic);
    assert_eq!(asks(da.get_repl_active_chat_id(), &mut da), panic);
    assert_eq!(asks(da.set_repl_active_chat_id(1), &mut da), panic);
    assert_eq!(asks(da.set_owner_user_id("@a:b"), &mut da), raise);
    assert_eq!(asks(da.set_control_room_id("!a:b"), &mut da), raise);
}

#[test]
fn replies_that_do_not_fit_are_told() {
    let mut da = DeltaAppservice::new();
    let mismatch: Step = Step::Mismatch;
    assert_eq!(da.get_config("k").resume(flag(true), &mut da), mismatch);
    match da.get_chat_id_by_room_id(ROOM).resume(Reply::Start, &mut da) {
        Step::Call(_, then) => assert_eq!(then.resume(flag(true), &mut da), mismatch),
        other => panic!("{:?}", other),
    }
}

#[test]
fn main_user_acts_as_itself() {
    let da = DeltaAppservice::new();
    let main: Actor = Actor::Main;
    assert_eq!(da.get_main_user(), main);
}
