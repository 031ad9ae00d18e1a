use appservice_delta::appservice::DeltaAppservice;
use appservice_delta::compat::{fetch_initial_room_state, group_by_room};
use appservice_delta::matrix_intents::{clear_room, create_room_for_chat, create_space, send_delta_message};
use appservice_delta::protocol::{
    Actor, ChatInfo, ChatItem, ChatKind, ContactInfo, DeltaRequest, HostRequest, Listed, LogLevel, MatrixRequest,
    MessageInfo, Reply, Request, RoomEvents, RoomPreset, StateEvent, Step, Value, ViewType, Visibility,
};
use appservice_delta::task::Task;
use appservice_delta::types::{
    DeltaMessageFields, DeltaRoomMessageEventContent, FileInfo, ImageInfo, RoomMessage,
};
use appservice_delta::util::get_delta_event;
use std::collections::HashMap;

/// How a task ended.
#[derive(Debug, PartialEq)]
enum End {
    Return(Value),
    Raise(String),
    Panic(String),
    Mismatch,
}

/// Settings that are kept, and a script for everything else.
struct Host<'a> {
    settings: HashMap<String, String>,
    asked: Vec<Request>,
    answer: Box<dyn Fn(&Request) -> Reply + 'a>,
}

impl<'a> Host<'a> {
    fn new(answer: impl Fn(&Request) -> Reply + 'a) -> Host<'a> {
        Host { settings: HashMap::new(), asked: Vec::new(), answer: Box::new(answer) }
    }

    fn perform(&mut self, request: Request) -> Reply {
        let reply = match &request {
            Request::Delta(DeltaRequest::UiGet { key }) => {
                Reply::Got(Value::MaybeText(self.settings.get(key).cloned()))
            }
            Request::Delta(DeltaRequest::UiSet { key, value }) => {
                match value {
                    Some(text) => self.settings.insert(key.clone(), text.clone()),
                    None => self.settings.remove(key),
                };
                Reply::Got(Value::Unit)
            }
            Request::Host(HostRequest::Log { .. }) => Reply::Got(Value::Unit),
            other => (self.answer)(other),
        };
        self.asked.push(request);
        reply
    }

    fn run(&mut self, task: Task, da: &mut DeltaAppservice) -> End {
        let mut task = task;
        let mut reply = Reply::Start;
        loop {
            match task.resume(reply, da) {
                Step::Perform(request, then) => {
                    reply = self.perform(request);
                    task = then;
                }
                Step::Call(callee, then) => {
                    reply = match self.run(callee, da) {
                        End::Return(value) => Reply::Got(value),
                        End::Raise(error) => Reply::Failed(error),
                        other => return other,
                    };
                    task = then;
                }
                Step::Return(value) => return End::Return(value),
                Step::Raise(error) => return End::Raise(error),
                Step::Panic(error) => return End::Panic(error),
                Step::Mismatch => return End::Mismatch,
            }
        }
    }
}

fn text(s: &str) -> String {
    s.to_string()
}

fn unit() -> Reply {
    Reply::Got(Value::Unit)
}

fn flag(b: bool) -> Reply {
    Reply::Got(Value::Flag(b))
}

fn matrix(request: MatrixRequest) -> Request {
    Request::Matrix(request)
}

fn user(localpart: &str) -> Actor {
    Actor::User(text(localpart))
}

fn message(id: u32) -> MessageInfo {
    MessageInfo {
        id,
        chat_id: 7,
        from_id: 10,
        system: false,
        view_type: ViewType::Other,
        mime: None,
        file: None,
        filename: None,
        width: 0,
        height: 0,
        text: Some(format!("text {}", id)),
        rfc724_mid: format!("mid{}@x", id),
        shown: format!("Message {{ id: MsgId({}), hidden: false }}", id),
    }
}

fn contact(id: u32) -> ContactInfo {
    ContactInfo { id, addr: format!("c{}@x", id), display_name: format!("C{}", id), name_n_addr: text("") }
}

fn chat(kind: ChatKind, name: &str) -> ChatInfo {
    ChatInfo {
        id: 7,
        label: text("7"),
        prefix: text("Group"),
        name: text(name),
        kind,
        visibility: Visibility::Normal,
        muted: false,
        protected: false,
        contact_request: false,
        sending_locations: false,
        device_talk: false,
    }
}

/// A world in which everything works, the users are named and the rooms are joined.
fn willing(request: &Request) -> Reply {
    match request {
        Request::Delta(DeltaRequest::LoadContact { id }) | Request::Delta(DeltaRequest::GetContact { id }) => {
            Reply::Contact(contact(*id))
        }
        Request::Delta(DeltaRequest::GetDisplayname) => Reply::Got(Value::MaybeText(None)),
        Request::Delta(DeltaRequest::LoadMessage { id }) => Reply::Message(message(*id)),
        Request::Delta(DeltaRequest::LoadChat { .. }) => Reply::Chat(chat(ChatKind::Group, "Friends")),
        Request::Delta(DeltaRequest::ChatContacts { .. }) => Reply::Numbers(vec![10, 11]),
        Request::Delta(DeltaRequest::ChatItems { .. }) => Reply::Items {
            items: vec![
                ChatItem::Day,
                ChatItem::Message { id: 50, listed: Listed::Message(50) },
                ChatItem::Marker1,
                ChatItem::Message { id: 51, listed: Listed::Message(51) },
            ],
            elapsed: text("1ms"),
        },
        Request::Matrix(MatrixRequest::DisplayName { .. }) => Reply::Got(Value::MaybeText(None)),
        Request::Matrix(MatrixRequest::IsJoined { .. }) => flag(true),
        Request::Matrix(MatrixRequest::IsInvited { .. }) => flag(true),
        Request::Matrix(MatrixRequest::UserId { who: Actor::Main }) => {
            Reply::Got(Value::MaybeText(Some(text("@bridge:hs.example"))))
        }
        Request::Matrix(MatrixRequest::UserId { who: Actor::User(localpart) }) => {
            Reply::Got(Value::MaybeText(Some(format!("@{}:hs.example", localpart))))
        }
        Request::Matrix(MatrixRequest::CreateRoom { .. }) => Reply::Got(Value::Text(text("!new:hs.example"))),
        Request::Matrix(MatrixRequest::SpaceRoom) => Reply::Got(Value::MaybeText(Some(text("!space:hs.example")))),
        Request::Matrix(MatrixRequest::StateEvents { .. }) => Reply::StateEvents(vec![]),
        Request::Matrix(MatrixRequest::ShowSync { token, rooms }) => {
            Reply::Got(Value::Text(format!("{}, {} rooms", token, rooms.len())))
        }
        Request::Matrix(MatrixRequest::SendMessage { content, .. })
        | Request::Matrix(MatrixRequest::SendRawMessage { content, .. }) => {
            let id = content.delta_fields.as_ref().map(|f| f.msg_id).unwrap_or(0);
            Reply::Got(Value::Text(format!("$event{}", id)))
        }
        Request::Matrix(MatrixRequest::Upload { .. }) => Reply::Got(Value::Text(text("mxc://hs/file"))),
        _ => unit(),
    }
}

fn content(id: u32, msg: RoomMessage) -> DeltaRoomMessageEventContent {
    DeltaRoomMessageEventContent {
        delta_fields: Some(DeltaMessageFields {
            external_url: Some(format!("mid:mid{}@x", id)),
            msg_id: id,
            chat_id: 7,
        }),
        msg,
    }
}

#[test]
fn text_is_brought_over_and_remembered() {
    let mut da = DeltaAppservice::new();
    let mut host = Host::new(willing);
    let end = host.run(send_delta_message(user("bob"), "!r:x", message(50)), &mut da);
    assert_eq!(end, End::Return(Value::Unit));
    assert_eq!(
        host.asked,
        vec![
            matrix(MatrixRequest::IsJoined { who: user("bob"), room: text("!r:x") }),
            matrix(MatrixRequest::SendMessage {
                who: user("bob"),
                room: text("!r:x"),
                content: content(50, RoomMessage::Text { body: text("text 50") }),
            }),
        ]
    );
    assert_eq!(da.event_of(50), Some(text("$event50")));
}

#[test]
fn text_goes_into_a_room_that_is_not_known_to_be_joined() {
    let mut da = DeltaAppservice::new();
    let mut host = Host::new(|r| match r {
        Request::Matrix(MatrixRequest::IsJoined { .. }) => flag(false),
        other => willing(other),
    });
    host.run(send_delta_message(user("bob"), "!r:x", message(50)), &mut da);
    assert_eq!(
        host.asked.last(),
        Some(&matrix(MatrixRequest::SendRawMessage {
            who: user("bob"),
            room: text("!r:x"),
            content: content(50, RoomMessage::Text { body: text("text 50") }),
        }))
    );
    assert!(host.asked.contains(&warned("User @bob:hs.example not joined in room !r:x, falling back to send_message")));
    assert_eq!(da.event_of(50), Some(text("$event50")));
}

fn traced(line: &str) -> Request {
    Request::Host(HostRequest::Log { level: LogLevel::Trace, text: text(line) })
}

fn warned(line: &str) -> Request {
    Request::Host(HostRequest::Log { level: LogLevel::Warning, text: text(line) })
}

#[test]
fn system_messages_stay() {
    let mut da = DeltaAppservice::new();
    let mut host = Host::new(willing);
    let m = MessageInfo { system: true, ..message(50) };
    assert_eq!(host.run(send_delta_message(user("bob"), "!r:x", m), &mut da), End::Return(Value::Unit));
    let line = HostRequest::Log { level: LogLevel::Info, text: text("skipping system message: Message { id: MsgId(50), hidden: false }") };
    assert_eq!(host.asked, vec![Request::Host(line)]);
}

#[test]
fn message_without_text_or_file_asks_for_nothing() {
    let mut da = DeltaAppservice::new();
    let mut host = Host::new(willing);
    let m = MessageInfo { text: None, ..message(50) };
    assert_eq!(host.run(send_delta_message(user("bob"), "!r:x", m), &mut da), End::Return(Value::Unit));
    assert!(host.asked.is_empty());
}

fn with_file(view_type: ViewType, width: i32, height: i32) -> MessageInfo {
    MessageInfo {
        view_type,
        mime: Some(text("image/png")),
        file: Some(text("/blobs/a.png")),
        filename: Some(text("a.png")),
        width,
        height,
        ..message(50)
    }
}

fn sized(bytes: u64) -> impl Fn(&Request) -> Reply {
    move |r| match r {
        Request::Delta(DeltaRequest::FileBytes { .. }) => Reply::Got(Value::Count(bytes)),
        other => willing(other),
    }
}

fn sent(host: &Host) -> Vec<RoomMessage> {
    host.asked
        .iter()
        .filter_map(|r| match r {
            Request::Matrix(MatrixRequest::SendMessage { content, .. }) => Some(match &content.msg {
                RoomMessage::Text { body } => RoomMessage::Text { body: body.clone() },
                RoomMessage::File { body, url, file_info } => RoomMessage::File {
                    body: body.clone(),
                    url: url.clone(),
                    file_info: file_info
                        .as_ref()
                        .map(|i| FileInfo { mimetype: i.mimetype.clone(), size: i.size }),
                },
                RoomMessage::Image { body, url, image_info } => RoomMessage::Image {
                    body: body.clone(),
                    url: url.clone(),
                    image_info: image_info.as_ref().map(|i| ImageInfo {
                        mimetype: i.mimetype.clone(),
                        width: i.width,
                        height: i.height,
                        size: i.size,
                    }),
                },
            }),
            _ => None,
        })
        .collect()
}

#[test]
fn file_is_uploaded_and_sent_before_the_text() {
    let mut da = DeltaAppservice::new();
    let mut host = Host::new(sized(1234));
    host.run(send_delta_message(user("bob"), "!r:x", with_file(ViewType::File, 0, 0)), &mut da);
    assert_eq!(
        host.asked[0],
        matrix(MatrixRequest::Upload { who: user("bob"), mime: text("image/png"), file: text("/blobs/a.png") })
    );
    assert_eq!(
        sent(&host),
        vec![
            RoomMessage::File {
                body: text("a.png"),
                url: text("mxc://hs/file"),
                file_info: Some(FileInfo { mimetype: text("image/png"), size: 1234 }),
            },
            RoomMessage::Text { body: text("text 50") },
        ]
    );
}

#[test]
fn image_is_sent_with_its_size() {
    for view_type in [ViewType::Image, ViewType::Gif] {
        let mut da = DeltaAppservice::new();
        let mut host = Host::new(sized(9007199254740991));
        host.run(send_delta_message(user("bob"), "!r:x", with_file(view_type, 640, 480)), &mut da);
        assert_eq!(
            sent(&host)[0],
            RoomMessage::Image {
                body: text("a.png"),
                url: text("mxc://hs/file"),
                image_info: Some(ImageInfo {
                    mimetype: text("image/png"),
                    width: 640,
                    height: 480,
                    size: 9007199254740991,
                }),
            }
        );
    }
}

#[test]
fn numbers_that_no_event_can_hold_are_fatal() {
    let out = End::Panic(text("out of range integral type conversion attempted"));
    let mut da = DeltaAppservice::new();
    let mut huge = Host::new(sized(9007199254740992));
    assert_eq!(
        huge.run(send_delta_message(user("bob"), "!r:x", with_file(ViewType::File, 0, 0)), &mut da),
        out
    );
    assert_eq!(
        huge.run(send_delta_message(user("bob"), "!r:x", with_file(ViewType::Image, 1, 1)), &mut da),
        out
    );
    let mut host = Host::new(sized(1));
    assert_eq!(
        host.run(send_delta_message(user("bob"), "!r:x", with_file(ViewType::Image, -1, 1)), &mut da),
        out
    );
    assert_eq!(
        host.run(send_delta_message(user("bob"), "!r:x", with_file(ViewType::Image, 1, -1)), &mut da),
        out
    );
}

#[test]
fn file_without_a_type_is_not_uploaded() {
    let mut da = DeltaAppservice::new();
    let mut host = Host::new(sized(1));
    let m = MessageInfo { mime: None, ..with_file(ViewType::File, 0, 0) };
    assert_eq!(host.run(send_delta_message(user("bob"), "!r:x", m), &mut da), End::Return(Value::Unit));
    assert_eq!(sent(&host), vec![RoomMessage::Text { body: text("text 50") }]);
    let m = MessageInfo { file: None, ..with_file(ViewType::File, 0, 0) };
    host.run(send_delta_message(user("bob"), "!r:x", m), &mut da);
    assert_eq!(sent(&host).len(), 2);
}

#[test]
fn failures_of_sending_are_passed_on() {
    let mut da = DeltaAppservice::new();
    let mut no_upload = Host::new(|r| match r {
        Request::Matrix(MatrixRequest::Upload { .. }) => Reply::Failed(text("too large")),
        other => willing(other),
    });
    assert_eq!(
        no_upload.run(send_delta_message(user("bob"), "!r:x", with_file(ViewType::File, 0, 0)), &mut da),
        End::Raise(text("too large"))
    );
    let mut no_send = Host::new(|r| match r {
        Request::Matrix(MatrixRequest::SendMessage { .. }) => Reply::Failed(text("forbidden")),
        other => willing(other),
    });
    assert_eq!(
        no_send.run(send_delta_message(user("bob"), "!r:x", message(50)), &mut da),
        End::Raise(text("forbidden"))
    );
    assert_eq!(da.event_of(50), None);
}

fn owned<'a>(answer: impl Fn(&Request) -> Reply + 'a) -> Host<'a> {
    let mut host = Host::new(answer);
    host.settings.insert(text("ui.appservice.owner_user_id"), text("@owner:hs.example"));
    host
}

#[test]
fn members_and_owner_are_invited_into_a_group() {
    let mut da = DeltaAppservice::new();
    let mut host = owned(willing);
    let end = host.run(create_room_for_chat(7), &mut da);
    assert_eq!(end, End::Return(Value::Text(text("!new:hs.example"))));
    assert!(host.asked.contains(&matrix(MatrixRequest::CreateRoom {
        preset: RoomPreset::TrustedPrivateChat,
        name: text("Friends"),
        topic: Some(text("Friends")),
        direct: false,
        as_space: false,
        invite: vec![text("@c10_at_x:hs.example"), text("@c11_at_x:hs.example"), text("@owner:hs.example")],
    })));
    let joins: Vec<&Request> = host
        .asked
        .iter()
        .filter(|r| matches!(r, Request::Matrix(MatrixRequest::JoinRoom { .. })))
        .collect();
    assert_eq!(
        joins,
        vec![
            &matrix(MatrixRequest::JoinRoom { who: user("c10_at_x"), room: text("!new:hs.example") }),
            &matrix(MatrixRequest::JoinRoom { who: user("c11_at_x"), room: text("!new:hs.example") }),
        ]
    );
    assert!(host.asked.contains(&Request::Delta(DeltaRequest::AcceptChat { chat: 7 })));
    assert!(host.asked.contains(&matrix(MatrixRequest::SendSpaceChild {
        space: text("!space:hs.example"),
        child: text("!new:hs.example"),
        via: text("hs.example"),
        suggested: None,
    })));
    assert_eq!(host.run(da.get_room_id_by_chat_id(7), &mut da), End::Return(Value::MaybeText(Some(text("!new:hs.example")))));
    assert_eq!(host.run(da.get_chat_id_by_room_id("!new:hs.example"), &mut da), End::Return(Value::MaybeNumber(Some(7))));
    // The messages that the chat holds already come over, in order.
    assert_eq!(
        sent(&host),
        vec![RoomMessage::Text { body: text("text 50") }, RoomMessage::Text { body: text("text 51") }]
    );
    assert_eq!(da.event_of(51), Some(text("$event51")));
}

#[test]
fn owner_of_the_account_comes_into_a_single_chat() {
    let mut da = DeltaAppservice::new();
    let mut host = owned(|r| match r {
        Request::Delta(DeltaRequest::LoadChat { .. }) => Reply::Chat(chat(ChatKind::Single, "Bob")),
        Request::Delta(DeltaRequest::ChatContacts { .. }) => Reply::Numbers(vec![10]),
        other => willing(other),
    });
    host.run(create_room_for_chat(7), &mut da);
    assert!(host.asked.contains(&matrix(MatrixRequest::CreateRoom {
        preset: RoomPreset::TrustedPrivateChat,
        name: text("Bob"),
        topic: None,
        direct: true,
        as_space: false,
        invite: vec![text("@c10_at_x:hs.example"), text("@owner:hs.example"), text("@c1_at_x:hs.example")],
    })));
    assert!(host.asked.contains(&matrix(MatrixRequest::JoinRoom {
        who: user("c1_at_x"),
        room: text("!new:hs.example")
    })));
}

#[test]
fn room_names_have_to_fit() {
    for (name, fits) in [
        (text(""), false),
        ("x".repeat(255), true),
        ("x".repeat(256), false),
        ("ä".repeat(127), true),
        ("ä".repeat(128), false),
    ] {
        let named = name.clone();
        let mut da = DeltaAppservice::new();
        let mut host = owned(move |r| match r {
            Request::Delta(DeltaRequest::LoadChat { .. }) => Reply::Chat(chat(ChatKind::Group, &named)),
            other => willing(other),
        });
        let end = host.run(create_room_for_chat(7), &mut da);
        if fits {
            assert_eq!(end, End::Return(Value::Text(text("!new:hs.example"))));
        } else {
            assert_eq!(end, End::Panic(text("not a room name")));
        }
    }
}

#[test]
fn failures_on_the_way_to_a_room_are_fatal() {
    let mut da = DeltaAppservice::new();
    let mut unknown = owned(|r| match r {
        Request::Delta(DeltaRequest::LoadChat { .. }) => Reply::Failed(text("no chat")),
        other => willing(other),
    });
    assert_eq!(unknown.run(create_room_for_chat(7), &mut da), End::Panic(text("no chat")));
    let mut refused = owned(|r| match r {
        Request::Matrix(MatrixRequest::CreateRoom { .. }) => Reply::Failed(text("refused")),
        other => willing(other),
    });
    assert_eq!(refused.run(create_room_for_chat(7), &mut da), End::Panic(text("refused")));
    let mut spaceless = owned(|r| match r {
        Request::Matrix(MatrixRequest::SpaceRoom) => Reply::Got(Value::MaybeText(None)),
        other => willing(other),
    });
    assert_eq!(spaceless.run(create_room_for_chat(7), &mut da), End::Panic(text("a value is missing")));
    let mut childless = owned(|r| match r {
        Request::Matrix(MatrixRequest::SendSpaceChild { .. }) => Reply::Failed(text("no child")),
        other => willing(other),
    });
    assert_eq!(childless.run(create_room_for_chat(7), &mut da), End::Raise(text("no child")));
}

#[test]
fn space_is_made_around_the_control_room() {
    let mut da = DeltaAppservice::new();
    let mut host = owned(willing);
    host.settings.insert(text("ui.appservice.control_room_id"), text("!control:hs.example"));
    let end = host.run(create_space(Some(text("mxc://hs/avatar"))), &mut da);
    assert_eq!(end, End::Return(Value::Text(text("!new:hs.example"))));
    assert_eq!(
        host.asked,
        vec![
            Request::Delta(DeltaRequest::UiGet { key: text("ui.appservice.owner_user_id") }),
            matrix(MatrixRequest::CreateRoom {
                preset: RoomPreset::TrustedPrivateChat,
                name: text("Delta Appservice"),
                topic: None,
                direct: false,
                as_space: true,
                invite: vec![text("@owner:hs.example")],
            }),
            matrix(MatrixRequest::StateEvents { who: Actor::Main, room: text("!new:hs.example") }),
            matrix(MatrixRequest::ShowSync { token: text("batch"), rooms: vec![] }),
            traced("Updating state with sync_response: batch, 0 rooms"),
            matrix(MatrixRequest::ProcessSync { who: Actor::Main, token: text("batch"), rooms: vec![] }),
            matrix(MatrixRequest::IsJoined { who: Actor::Main, room: text("!new:hs.example") }),
            Request::Delta(DeltaRequest::UiGet { key: text("ui.appservice.control_room_id") }),
            matrix(MatrixRequest::UserId { who: Actor::Main }),
            matrix(MatrixRequest::SendSpaceChild {
                space: text("!new:hs.example"),
                child: text("!control:hs.example"),
                via: text("hs.example"),
                suggested: Some(true),
            }),
            matrix(MatrixRequest::SendAvatar { room: text("!new:hs.example"), url: Some(text("mxc://hs/avatar")) }),
        ]
    );
}

#[test]
fn space_needs_a_control_room() {
    let mut da = DeltaAppservice::new();
    let mut host = owned(willing);
    assert_eq!(host.run(create_space(None), &mut da), End::Panic(text("a value is missing")));
}

#[test]
fn managed_members_leave_a_room_and_the_bridge_last() {
    let mut da = DeltaAppservice::new();
    let mut host = Host::new(|r| match r {
        Request::Matrix(MatrixRequest::JoinedMembers { .. }) => Reply::Texts(vec![
            text("@bob_at_x:hs"),
            text("@human:hs"),
            text("@stuck:hs"),
            text("@eve_at_x:hs"),
        ]),
        Request::Matrix(MatrixRequest::InNamespace { user }) => flag(user != "@human:hs"),
        Request::Matrix(MatrixRequest::UserClient { localpart }) if localpart == "stuck" => {
            Reply::Failed(text("no client"))
        }
        other => willing(other),
    });
    assert_eq!(host.run(clear_room("!r:hs"), &mut da), End::Return(Value::Unit));
    let left: Vec<&Request> = host
        .asked
        .iter()
        .filter(|r| matches!(r, Request::Matrix(MatrixRequest::LeaveRoom { .. })))
        .collect();
    assert_eq!(
        left,
        vec![
            &matrix(MatrixRequest::LeaveRoom { who: user("bob_at_x"), room: text("!r:hs") }),
            &matrix(MatrixRequest::LeaveRoom { who: user("eve_at_x"), room: text("!r:hs") }),
            &matrix(MatrixRequest::LeaveRoom { who: Actor::Main, room: text("!r:hs") }),
        ]
    );
}

#[test]
fn leaving_has_to_work() {
    let mut da = DeltaAppservice::new();
    let mut host = Host::new(|r| match r {
        Request::Matrix(MatrixRequest::JoinedMembers { .. }) => Reply::Texts(vec![]),
        Request::Matrix(MatrixRequest::LeaveRoom { .. }) => Reply::Failed(text("stay")),
        other => willing(other),
    });
    assert_eq!(host.run(clear_room("!r:hs"), &mut da), End::Panic(text("stay")));
    let mut blind = Host::new(|_| Reply::Failed(text("blind")));
    assert_eq!(blind.run(clear_room("!r:hs"), &mut da), End::Raise(text("blind")));
}

fn event(room: Option<&str>, json: &str) -> StateEvent {
    StateEvent { room_id: room.map(text), json: text(json) }
}

#[test]
fn events_are_grouped_by_room() {
    let grouped = group_by_room(&vec![
        event(Some("!a:x"), "1"),
        event(None, "2"),
        event(Some("!b:x"), "3"),
        event(Some("!a:x"), "4"),
    ]);
    assert_eq!(
        grouped,
        vec![
            RoomEvents { room_id: text("!a:x"), events: vec![text("1"), text("4")] },
            RoomEvents { room_id: text("!b:x"), events: vec![text("3")] },
        ]
    );
    assert_eq!(group_by_room(&vec![event(None, "1")]), vec![]);
}

#[test]
fn client_learns_the_state_of_a_room() {
    let mut da = DeltaAppservice::new();
    let mut host = Host::new(|r| match r {
        Request::Matrix(MatrixRequest::StateEvents { .. }) => {
            Reply::StateEvents(vec![event(None, "[1]"), event(Some("!a:x"), "{}"), event(None, "[2]")])
        }
        other => willing(other),
    });
    assert_eq!(host.run(fetch_initial_room_state(Actor::Main, "!a:x"), &mut da), End::Return(Value::Unit));
    let rooms = || vec![RoomEvents { room_id: text("!a:x"), events: vec![text("{}")] }];
    assert_eq!(
        host.asked,
        vec![
            matrix(MatrixRequest::StateEvents { who: Actor::Main, room: text("!a:x") }),
            warned("Event without room_id: [1]"),
            warned("Event without room_id: [2]"),
            matrix(MatrixRequest::ShowSync { token: text("batch"), rooms: rooms() }),
            traced("Updating state with sync_response: batch, 1 rooms"),
            matrix(MatrixRequest::ProcessSync { who: Actor::Main, token: text("batch"), rooms: rooms() }),
        ]
    );
    let mut mute = Host::new(|_| Reply::Failed(text("mute")));
    assert_eq!(mute.run(fetch_initial_room_state(Actor::Main, "!a:x"), &mut da), End::Raise(text("mute")));
}

#[test]
fn event_is_looked_up() {
    let mut da = DeltaAppservice::new();
    let mut host = Host::new(|_| Reply::Got(Value::Event(None)));
    assert_eq!(host.run(get_delta_event(Actor::Main, "!a:x", "$e"), &mut da), End::Return(Value::Event(None)));
    assert_eq!(
        host.asked,
        vec![matrix(MatrixRequest::RoomEvent { who: Actor::Main, room: text("!a:x"), event: text("$e") })]
    );
    let mut gone = Host::new(|_| Reply::Failed(text("gone")));
    assert_eq!(gone.run(get_delta_event(Actor::Main, "!a:x", "$e"), &mut da), End::Raise(text("gone")));
}
