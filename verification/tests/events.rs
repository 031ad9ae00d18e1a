use appservice_delta::appservice::DeltaAppservice;
use appservice_delta::delta_events::{callback_delta_event, DeltaEvent};
use appservice_delta::matrix_events::{
    handle_room_member_event, handle_room_message, handle_room_reaction_event, handle_room_topic_event, Membership,
    ReactionEvent, RoomMemberEvent, RoomMessageEvent, RoomTopicEvent,
};
use appservice_delta::protocol::{
    Actor, ChatInfo, ChatKind, ContactInfo, DeltaRequest, HostRequest, LogLevel, MatrixRequest, MessageInfo, Reply,
    Request, Step, Value, ViewType, Visibility,
};
use appservice_delta::task::Task;
use appservice_delta::types::{DeltaMessageEvent, DeltaMessageFields, DeltaRoomEventContent};
use std::collections::HashMap;

/// How a task ended.
#[derive(Debug, PartialEq)]
enum End {
    Return(Value),
    Raise(String),
    Panic(String),
    Mismatch,
}

/// Settings that are kept, and a script for everything else.
struct Host<'a> {
    settings: HashMap<String, String>,
    asked: Vec<Request>,
    answer: Box<dyn Fn(&Request) -> Reply + 'a>,
}

impl<'a> Host<'a> {
    fn new(answer: impl Fn(&Request) -> Reply + 'a) -> Host<'a> {
        Host { settings: HashMap::new(), asked: Vec::new(), answer: Box::new(answer) }
    }

    fn perform(&mut self, request: Request) -> Reply {
        let reply = match &request {
            Request::Delta(DeltaRequest::UiGet { key }) => {
                Reply::Got(Value::MaybeText(self.settings.get(key).cloned()))
            }
            Request::Delta(DeltaRequest::UiSet { key, value }) => {
                match value {
                    Some(text) => self.settings.insert(key.clone(), text.clone()),
                    None => self.settings.remove(key),
                };
                Reply::Got(Value::Unit)
            }
            Request::Host(HostRequest::Log { .. }) => Reply::Got(Value::Unit),
            other => (self.answer)(other),
        };
        self.asked.push(request);
        reply
    }

    fn run(&mut self, task: Task, da: &mut DeltaAppservice) -> End {
        let mut task = task;
        let mut reply = Reply::Start;
        loop {
            match task.resume(reply, da) {
                Step::Perform(request, then) => {
                    reply = self.perform(request);
                    task = then;
                }
                Step::Call(callee, then) => {
                    reply = match self.run(callee, da) {
                        End::Return(value) => Reply::Got(value),
                        End::Raise(error) => Reply::Failed(error),
                        other => return other,
                    };
                    task = then;
                }
                Step::Return(value) => return End::Return(value),
                Step::Raise(error) => return End::Raise(error),
                Step::Panic(error) => return End::Panic(error),
                Step::Mismatch => return End::Mismatch,
            }
        }
    }
}

fn text(s: &str) -> String {
    s.to_string()
}

fn unit() -> Reply {
    Reply::Got(Value::Unit)
}

fn flag(b: bool) -> Reply {
    Reply::Got(Value::Flag(b))
}

fn matrix(request: MatrixRequest) -> Request {
    Request::Matrix(request)
}

fn delta(request: DeltaRequest) -> Request {
    Request::Delta(request)
}

fn user(localpart: &str) -> Actor {
    Actor::User(text(localpart))
}

const BOB: &str = "bob_at_x";

fn incoming(id: u32) -> MessageInfo {
    MessageInfo {
        id,
        chat_id: 7,
        from_id: 10,
        system: false,
        view_type: ViewType::Other,
        mime: None,
        file: None,
        filename: None,
        width: 0,
        height: 0,
        text: Some(text("hi")),
        rfc724_mid: text("m@x"),
        shown: format!("Message {{ id: {} }}", id),
    }
}

fn bridged_event(chat_id: Option<u32>) -> Option<DeltaMessageEvent> {
    Some(DeltaMessageEvent {
        sender: text("@bob_at_x:hs"),
        content: DeltaRoomEventContent {
            delta_fields: chat_id.map(|chat_id| DeltaMessageFields { external_url: None, msg_id: 50, chat_id }),
        },
    })
}

fn world(request: &Request) -> Reply {
    match request {
        Request::Delta(DeltaRequest::LoadContact { id }) | Request::Delta(DeltaRequest::GetContact { id }) => {
            Reply::Contact(ContactInfo {
                id: *id,
                addr: text("Bob@x"),
                display_name: text("Bob"),
                name_n_addr: text("Bob"),
            })
        }
        Request::Delta(DeltaRequest::GetDisplayname) => Reply::Got(Value::MaybeText(None)),
        Request::Delta(DeltaRequest::LoadMessage { id }) => Reply::Message(incoming(*id)),
        Request::Delta(DeltaRequest::SendText { .. }) => Reply::Got(Value::Number(99)),
        Request::Delta(DeltaRequest::LoadChat { .. }) => Reply::Chat(ChatInfo {
            id: 7,
            label: text("7"),
            prefix: text("Group"),
            name: text("Friends"),
            kind: ChatKind::Group,
            visibility: Visibility::Normal,
            muted: false,
            protected: false,
            contact_request: false,
            sending_locations: false,
            device_talk: false,
        }),
        Request::Delta(DeltaRequest::ChatContacts { .. }) => Reply::Numbers(vec![]),
        Request::Delta(DeltaRequest::ChatItems { .. }) => Reply::Items { items: vec![], elapsed: text("") },
        Request::Matrix(MatrixRequest::DisplayName { .. }) => Reply::Got(Value::MaybeText(None)),
        Request::Matrix(MatrixRequest::IsJoined { .. }) => flag(true),
        Request::Matrix(MatrixRequest::IsInvited { .. }) => flag(true),
        Request::Matrix(MatrixRequest::InNamespace { user }) => flag(user.contains("_at_")),
        Request::Matrix(MatrixRequest::SenderLocalpart) => Reply::Got(Value::Text(text("bridge"))),
        Request::Matrix(MatrixRequest::UserId { who: Actor::Main }) => {
            Reply::Got(Value::MaybeText(Some(text("@bridge:hs"))))
        }
        Request::Matrix(MatrixRequest::UserId { .. }) => Reply::Got(Value::MaybeText(Some(text("@bob_at_x:hs")))),
        Request::Matrix(MatrixRequest::SendMessage { .. }) => Reply::Got(Value::Text(text("$sent"))),
        Request::Matrix(MatrixRequest::RoomEvent { .. }) => Reply::Got(Value::Event(bridged_event(Some(7)))),
        Request::Matrix(MatrixRequest::CreateRoom { .. }) => Reply::Got(Value::Text(text("!new:hs"))),
        Request::Matrix(MatrixRequest::SpaceRoom) => Reply::Got(Value::MaybeText(Some(text("!space:hs")))),
        Request::Matrix(MatrixRequest::JoinedMembers { .. }) => Reply::Texts(vec![text("@bob_at_x:hs")]),
        _ => unit(),
    }
}

/// A bridge with a control room and an owner.
fn settled<'a>(answer: impl Fn(&Request) -> Reply + 'a) -> Host<'a> {
    let mut host = Host::new(answer);
    host.settings.insert(text("ui.appservice.control_room_id"), text("!control:hs"));
    host.settings.insert(text("ui.appservice.owner_user_id"), text("@owner:hs"));
    host
}

fn logged(level: LogLevel, line: &str) -> Request {
    Request::Host(HostRequest::Log { level, text: text(line) })
}

fn said(host: &Host) -> Vec<(Actor, String, String)> {
    host.asked
        .iter()
        .filter_map(|r| match r {
            Request::Matrix(MatrixRequest::SendText { who, room, text }) => Some((
                match who {
                    Actor::Main => Actor::Main,
                    Actor::User(u) => Actor::User(u.clone()),
                },
                room.clone(),
                text.clone(),
            )),
            _ => None,
        })
        .collect()
}

fn rooms_of_messages(host: &Host) -> Vec<String> {
    host.asked
        .iter()
        .filter_map(|r| match r {
            Request::Matrix(MatrixRequest::SendMessage { room, .. }) => Some(room.clone()),
            _ => None,
        })
        .collect()
}

#[test]
fn incoming_message_goes_to_the_control_room() {
    let mut da = DeltaAppservice::new();
    let mut host = settled(world);
    let end = host.run(callback_delta_event(DeltaEvent::IncomingMsg { chat_id: 7, msg_id: 50 }), &mut da);
    assert_eq!(end, End::Return(Value::Unit));
    assert_eq!(rooms_of_messages(&host), vec![text("!control:hs")]);
    assert!(!host.asked.contains(&delta(DeltaRequest::MarkNoticed { chat: 7 })));
    assert_eq!(da.event_of(50), Some(text("$sent")));
}

#[test]
fn incoming_message_goes_to_the_room_of_its_chat() {
    let mut da = DeltaAppservice::new();
    let mut host = settled(world);
    host.run(da.set_room_id_with_chat_id("!chat:hs", 7), &mut da);
    host.run(callback_delta_event(DeltaEvent::IncomingMsg { chat_id: 7, msg_id: 50 }), &mut da);
    assert_eq!(rooms_of_messages(&host), vec![text("!chat:hs")]);
    assert!(host.asked.contains(&delta(DeltaRequest::MarkNoticed { chat: 7 })));
}

#[test]
fn incoming_message_is_dropped_without_a_control_room() {
    let mut da = DeltaAppservice::new();
    let mut host = Host::new(world);
    let end = host.run(callback_delta_event(DeltaEvent::IncomingMsg { chat_id: 7, msg_id: 50 }), &mut da);
    assert_eq!(end, End::Return(Value::Unit));
    assert_eq!(host.asked.len(), 2);
    assert_eq!(host.asked[1], logged(LogLevel::Error, "no control room registered"));
}

#[test]
fn handlers_must_not_fail() {
    let mut da = DeltaAppservice::new();
    let mut host = settled(|r| match r {
        Request::Matrix(MatrixRequest::SendMessage { .. }) => Reply::Failed(text("down")),
        other => world(other),
    });
    let end = host.run(callback_delta_event(DeltaEvent::IncomingMsg { chat_id: 7, msg_id: 50 }), &mut da);
    assert_eq!(end, End::Panic(text("down")));
}

#[test]
fn delivered_message_is_marked_read_by_the_bridge() {
    let mut da = DeltaAppservice::new();
    let mut host = settled(world);
    let delivered = || callback_delta_event(DeltaEvent::MsgDelivered { chat_id: 7, msg_id: 50 });
    assert_eq!(host.run(delivered(), &mut da), End::Return(Value::Unit));
    host.run(da.set_room_id_with_chat_id("!chat:hs", 7), &mut da);
    assert_eq!(host.run(delivered(), &mut da), End::Return(Value::Unit));
    let marks = |host: &Host| {
        host.asked.iter().filter(|r| matches!(r, Request::Matrix(MatrixRequest::ReadMarker { .. }))).count()
    };
    assert_eq!(marks(&host), 0);
    da.remember_event(50, text("$sent"));
    host.run(delivered(), &mut da);
    assert_eq!(
        host.asked.last(),
        Some(&matrix(MatrixRequest::ReadMarker {
            who: Actor::Main,
            room: text("!chat:hs"),
            fully_read: text("$sent"),
            receipt: text("$sent"),
        }))
    );
}

#[test]
fn read_message_is_marked_read_by_the_reader() {
    let mut da = DeltaAppservice::new();
    let mut host = settled(world);
    host.run(da.set_room_id_with_chat_id("!chat:hs", 7), &mut da);
    da.remember_event(50, text("$sent"));
    let end = host.run(
        callback_delta_event(DeltaEvent::MsgRead { chat_id: 7, msg_id: 50, contact_id: 10 }),
        &mut da,
    );
    assert_eq!(end, End::Return(Value::Unit));
    assert_eq!(
        host.asked.last(),
        Some(&matrix(MatrixRequest::ReadMarker {
            who: user(BOB),
            room: text("!chat:hs"),
            fully_read: text("$sent"),
            receipt: text("$sent"),
        }))
    );
}

#[test]
fn failure_is_said_in_the_room_of_the_chat() {
    let mut da = DeltaAppservice::new();
    let mut host = settled(world);
    host.run(da.set_room_id_with_chat_id("!chat:hs", 7), &mut da);
    host.run(callback_delta_event(DeltaEvent::MsgFailed { chat_id: 7, msg_id: 50 }), &mut da);
    assert_eq!(said(&host), vec![(user(BOB), text("!chat:hs"), text("Sending message failed"))]);
}

#[test]
fn failure_is_said_in_the_control_room_or_not_at_all() {
    for in_control in [true, false] {
        let mut da = DeltaAppservice::new();
        let mut host = settled(move |r| match r {
            Request::Matrix(MatrixRequest::IsJoined { who: Actor::User(_), room }) => {
                flag(in_control && room == "!control:hs")
            }
            other => world(other),
        });
        host.run(da.set_room_id_with_chat_id("!chat:hs", 7), &mut da);
        let end = host.run(callback_delta_event(DeltaEvent::MsgFailed { chat_id: 7, msg_id: 50 }), &mut da);
        assert_eq!(end, End::Return(Value::Unit));
        let expected = if in_control {
            vec![(user(BOB), text("!control:hs"), text("Sending message failed"))]
        } else {
            vec![]
        };
        assert_eq!(said(&host), expected);
    }
}

#[test]
fn changed_contact_is_made_ready_anew() {
    let mut da = DeltaAppservice::new();
    let mut host = settled(world);
    host.run(da.get_email_user_by_id(10, false), &mut da);
    host.asked.clear();
    let event = DeltaEvent::ContactsChanged { contact: Some(10), shown: text("") };
    assert_eq!(host.run(callback_delta_event(event), &mut da), End::Return(Value::Unit));
    assert!(host.asked.contains(&matrix(MatrixRequest::RegisterUser { localpart: text(BOB) })));
}

#[test]
fn other_reports_are_logged() {
    let mut da = DeltaAppservice::new();
    let log = |level, s: &str| Request::Host(HostRequest::Log { level, text: text(s) });
    for (event, expected) in [
        (DeltaEvent::Info { text: text("i") }, log(LogLevel::Info, "i")),
        (DeltaEvent::Warning { text: text("w") }, log(LogLevel::Warning, "w")),
        (DeltaEvent::Error { text: text("e") }, log(LogLevel::Error, "e")),
        (DeltaEvent::Other { shown: text("o") }, log(LogLevel::Info, "o")),
        (DeltaEvent::ContactsChanged { contact: None, shown: text("c") }, log(LogLevel::Info, "c")),
    ] {
        let mut host = settled(world);
        assert_eq!(host.run(callback_delta_event(event), &mut da), End::Return(Value::Unit));
        assert_eq!(host.asked, vec![expected]);
    }
}

fn heard(room: &str, sender: &str, body: Option<&str>, reply_to: Option<&str>) -> RoomMessageEvent {
    RoomMessageEvent {
        room_id: text(room),
        joined: true,
        sender: text(sender),
        event_id: text("$mine"),
        body: body.map(text),
        reply_to: reply_to.map(text),
    }
}

#[test]
fn own_messages_are_passed_over() {
    for (sender, asked) in [("@bridge:hs", 1), ("@bob_at_x:hs", 2)] {
        let mut da = DeltaAppservice::new();
        let mut host = settled(world);
        let end = host.run(handle_room_message(heard("!control:hs", sender, Some("repl"), None)), &mut da);
        assert_eq!(end, End::Return(Value::Unit));
        assert_eq!(host.asked.len(), asked);
    }
}

#[test]
fn what_is_no_text_or_not_in_reach_is_passed_over() {
    let mut da = DeltaAppservice::new();
    let mut host = settled(world);
    host.run(handle_room_message(heard("!control:hs", "@owner:hs", None, None)), &mut da);
    let outside = RoomMessageEvent { joined: false, ..heard("!control:hs", "@owner:hs", Some("repl"), None) };
    host.run(handle_room_message(outside), &mut da);
    assert_eq!(host.asked.len(), 4);
}

#[test]
fn message_in_a_room_goes_to_its_chat() {
    let mut da = DeltaAppservice::new();
    let mut host = settled(world);
    host.run(da.set_room_id_with_chat_id("!chat:hs", 7), &mut da);
    host.run(handle_room_message(heard("!chat:hs", "@owner:hs", Some("> hello"), None)), &mut da);
    assert_eq!(host.asked.last(), Some(&delta(DeltaRequest::SendText { chat: 7, text: text("> hello") })));
    assert_eq!(da.event_of(99), Some(text("$mine")));
}

#[test]
fn message_in_a_strange_room_goes_nowhere() {
    let mut da = DeltaAppservice::new();
    let mut host = settled(world);
    let end = host.run(handle_room_message(heard("!strange:hs", "@owner:hs", Some("hello"), None)), &mut da);
    assert_eq!(end, End::Return(Value::Unit));
    assert!(!host.asked.iter().any(|r| matches!(r, Request::Delta(DeltaRequest::SendText { .. }))));
}

#[test]
fn reply_goes_to_the_chat_of_the_message() {
    let mut da = DeltaAppservice::new();
    let mut host = settled(world);
    let body = "> <@bob_at_x:hs> hi\n\nhello back";
    host.run(handle_room_message(heard("!control:hs", "@owner:hs", Some(body), Some("$old"))), &mut da);
    let n = host.asked.len();
    assert_eq!(
        host.asked[n - 3..],
        [
            matrix(MatrixRequest::RoomEvent { who: Actor::Main, room: text("!control:hs"), event: text("$old") }),
            delta(DeltaRequest::AcceptChat { chat: 7 }),
            delta(DeltaRequest::SendText { chat: 7, text: text("hello back") }),
        ]
    );
    assert_eq!(da.event_of(99), Some(text("$mine")));
}

#[test]
fn reply_to_something_else_is_refused() {
    for event in [None, bridged_event(None)] {
        let known = event.is_some();
        let mut da = DeltaAppservice::new();
        let mut host = settled(move |r| match r {
            Request::Matrix(MatrixRequest::RoomEvent { .. }) => {
                Reply::Got(Value::Event(if known { bridged_event(None) } else { None }))
            }
            other => world(other),
        });
        host.run(handle_room_message(heard("!control:hs", "@owner:hs", Some("x"), Some("$old"))), &mut da);
        assert_eq!(
            said(&host),
            vec![(Actor::Main, text("!control:hs"), text("Reply not sent: No chat_id in replied-to message"))]
        );
    }
}

#[test]
fn topic_becomes_the_name_of_the_chat() {
    let mut da = DeltaAppservice::new();
    let mut host = settled(world);
    let event = || RoomTopicEvent { room_id: text("!chat:hs"), topic: text("New") };
    host.run(handle_room_topic_event(event()), &mut da);
    assert_eq!(host.asked.len(), 1);
    host.run(da.set_room_id_with_chat_id("!chat:hs", 7), &mut da);
    host.run(handle_room_topic_event(event()), &mut da);
    assert_eq!(host.asked.last(), Some(&delta(DeltaRequest::SetChatName { chat: 7, name: text("New") })));
}

fn reaction(room: &str, sender: &str, emoji: &str) -> ReactionEvent {
    ReactionEvent {
        room_id: text(room),
        joined: true,
        sender: text(sender),
        event_id: text("$old"),
        emoji: text(emoji),
    }
}

#[test]
fn thumbs_up_makes_a_room() {
    let mut da = DeltaAppservice::new();
    let mut host = settled(world);
    let up = || handle_room_reaction_event(reaction("!control:hs", "@owner:hs", "👍️"));
    assert_eq!(host.run(up(), &mut da), End::Return(Value::Unit));
    assert_eq!(host.run(da.get_room_id_by_chat_id(7), &mut da), End::Return(Value::MaybeText(Some(text("!new:hs")))));
    assert!(said(&host).is_empty());
    host.run(up(), &mut da);
    assert_eq!(said(&host), vec![(Actor::Main, text("!control:hs"), text("Chat is already a room."))]);
}

#[test]
fn thumbs_down_blocks_a_chat() {
    let mut da = DeltaAppservice::new();
    let mut host = settled(world);
    host.run(handle_room_reaction_event(reaction("!control:hs", "@owner:hs", "👎")), &mut da);
    assert_eq!(host.asked.last(), Some(&delta(DeltaRequest::BlockChat { chat: 7 })));
}

#[test]
fn other_reactions_do_nothing() {
    let mut da = DeltaAppservice::new();
    let mut host = settled(world);
    let end = host.run(handle_room_reaction_event(reaction("!control:hs", "@owner:hs", "🎉")), &mut da);
    assert_eq!(end, End::Return(Value::Unit));
    assert_eq!(host.asked.last(), Some(&logged(LogLevel::Warning, "Ignoring unknown reaction 🎉")));
    let end = host.run(handle_room_reaction_event(reaction("!control:hs", "@owner:hs", "")), &mut da);
    assert_eq!(end, End::Panic(text("a value is missing")));
}

#[test]
fn own_reactions_are_passed_over() {
    for (sender, asked) in [("@bridge:hs", 2), ("@bob_at_x:hs", 3)] {
        let mut da = DeltaAppservice::new();
        let mut host = settled(world);
        host.run(handle_room_reaction_event(reaction("!control:hs", sender, "👎")), &mut da);
        assert_eq!(host.asked.len(), asked);
        let line = logged(LogLevel::Debug, "skipping event: came from appservice user");
        assert_eq!(host.asked.last(), Some(&line));
    }
}

#[test]
fn reactions_count_in_the_control_room_only() {
    let mut da = DeltaAppservice::new();
    let mut host = settled(world);
    host.run(handle_room_reaction_event(reaction("!chat:hs", "@owner:hs", "👎")), &mut da);
    let outside = ReactionEvent { joined: false, ..reaction("!control:hs", "@owner:hs", "👎") };
    assert_eq!(host.asked.last(), Some(&logged(LogLevel::Debug, "skipping event: not in control room")));
    host.run(handle_room_reaction_event(outside), &mut da);
    assert_eq!(host.asked.last(), Some(&logged(LogLevel::Warning, "skipping event: not in joined room")));
    assert_eq!(host.asked.len(), 8);
}

fn member(room: &str, key: &str, membership: Membership) -> RoomMemberEvent {
    RoomMemberEvent { room_id: text(room), sender: text("@owner:hs"), state_key: text(key), membership }
}

#[test]
fn first_invitation_is_accepted_and_the_second_refused() {
    let mut da = DeltaAppservice::new();
    let mut host = Host::new(world);
    let end = host.run(handle_room_member_event(member("!first:hs", "@bridge:hs", Membership::Invite)), &mut da);
    assert_eq!(end, End::Return(Value::Unit));
    assert!(host.asked.contains(&matrix(MatrixRequest::JoinRoom { who: Actor::Main, room: text("!first:hs") })));
    assert_eq!(host.settings["ui.appservice.control_room_id"], "!first:hs");
    assert_eq!(host.settings["ui.appservice.owner_user_id"], "@owner:hs");
    host.run(handle_room_member_event(member("!second:hs", "@bridge:hs", Membership::Invite)), &mut da);
    assert_eq!(said(&host), vec![(Actor::Main, text("!first:hs"), text("Not joining other invite!"))]);
    assert_eq!(host.settings["ui.appservice.control_room_id"], "!first:hs");
}

#[test]
fn others_may_be_invited() {
    let mut da = DeltaAppservice::new();
    let mut host = Host::new(world);
    host.run(handle_room_member_event(member("!first:hs", "@human:hs", Membership::Invite)), &mut da);
    host.run(handle_room_member_event(member("!first:hs", "@bridge:hs", Membership::Other)), &mut da);
    assert_eq!(host.asked.len(), 4);
}

#[test]
fn room_is_given_up_when_somebody_leaves() {
    let mut da = DeltaAppservice::new();
    let mut host = settled(world);
    host.run(da.set_room_id_with_chat_id("!chat:hs", 7), &mut da);
    host.run(handle_room_member_event(member("!chat:hs", "@bob_at_x:hs", Membership::Leave)), &mut da);
    assert_eq!(host.run(da.get_chat_id_by_room_id("!chat:hs"), &mut da), End::Return(Value::MaybeNumber(Some(7))));
    let end = host.run(handle_room_member_event(member("!chat:hs", "@human:hs", Membership::Leave)), &mut da);
    assert_eq!(end, End::Return(Value::Unit));
    assert_eq!(host.asked.last(), Some(&matrix(MatrixRequest::LeaveRoom { who: Actor::Main, room: text("!chat:hs") })));
    assert!(host.asked.contains(&matrix(MatrixRequest::LeaveRoom { who: user(BOB), room: text("!chat:hs") })));
    assert_eq!(host.run(da.get_chat_id_by_room_id("!chat:hs"), &mut da), End::Return(Value::MaybeNumber(None)));
}

#[test]
fn member_has_to_be_a_user() {
    let mut da = DeltaAppservice::new();
    let mut host = settled(world);
    let end = host.run(handle_room_member_event(member("!chat:hs", "human", Membership::Leave)), &mut da);
    assert!(matches!(end, End::Raise(_)));
    assert!(host.asked.is_empty());
}

#[test]
fn invitation_is_accepted_where_the_bridge_has_left_its_control_room() {
    let mut da = DeltaAppservice::new();
    let mut host = settled(|r: &Request| match r {
        Request::Matrix(MatrixRequest::IsJoined { .. }) => Reply::Got(Value::Flag(false)),
        other => world(other),
    });
    let end = host.run(handle_room_member_event(member("!first:hs", "@bridge:hs", Membership::Invite)), &mut da);
    assert_eq!(end, End::Return(Value::Unit));
    assert_eq!(host.settings["ui.appservice.control_room_id"], "!first:hs");
    assert_eq!(host.settings["ui.appservice.owner_user_id"], "@owner:hs");
}

#[test]
fn failed_invitation_changes_nothing() {
    let mut da = DeltaAppservice::new();
    let mut host = Host::new(|r: &Request| match r {
        Request::Matrix(MatrixRequest::JoinRoom { .. }) => Reply::Failed(text("forbidden")),
        other => world(other),
    });
    let end = host.run(handle_room_member_event(member("!first:hs", "@bridge:hs", Membership::Invite)), &mut da);
    assert_eq!(end, End::Raise(text("forbidden")));
    assert!(host.asked.contains(&logged(LogLevel::Warning, "no control room configured!")));
    assert!(host.settings.is_empty());
}
