//! Who is heard, and where things are said.
use vstd::prelude::*;

use crate::appservice::{chat_by_room, custom_key, Caches, Settings, CONTROL_ROOM_KEY, OWNER_KEY};
use crate::delta_events::{Arrival, Delivery, Failure};
use crate::laws::settings::{
    found_chat, found_room, law_chat_of_room, law_keys_are_distinct, law_room_of_chat,
    lemma_chat_search, lemma_clear_pair, lemma_control_room, lemma_control_room_id, logging,
    seeking_control,
};
use crate::matrix_events::{Heard, Member, Reaction, ReactionEvent, RoomMessageEvent, Spoken};
use crate::matrix_intents::{Bridge, Clear, ClearModel};
use crate::numbers::digits;
use crate::outside::is_room_id;
use crate::protocol::{
    Actor, ContactInfo, DeltaRequest, LogLevel, MatrixRequest, MessageInfo, Reply, ReplyModel,
    Request, RequestModel, Step, Value,
};
use crate::run::{
    answers, kept, lemma_ask, performed, reply_to, run, start, written, End, Host, Run,
};
use crate::task::{
    lemma_arrival, lemma_bridge, lemma_clear, lemma_delivery, lemma_failure, lemma_heard,
    lemma_member, lemma_reaction, lemma_settings, lemma_spoken, next, Task,
};
use crate::text::opt_text;

verus! {

broadcast use {
    lemma_arrival,
    lemma_bridge,
    lemma_clear,
    lemma_delivery,
    lemma_failure,
    lemma_heard,
    lemma_member,
    lemma_reaction,
    lemma_settings,
    lemma_spoken,
};

/// The request for the user of the bridge itself.
pub open spec fn main_user() -> RequestModel {
    Request::Matrix(MatrixRequest::UserId { who: Actor::Main })
}

/// The question whether a user is managed by the bridge.
pub open spec fn is_ours(user: Seq<char>) -> RequestModel {
    Request::Matrix(MatrixRequest::InNamespace { user })
}

/// The question whether somebody is in a room.
pub open spec fn is_in(who: Actor<Seq<char>>, room: Seq<char>) -> RequestModel {
    Request::Matrix(MatrixRequest::IsJoined { who, room })
}

/// Something said in a room.
pub open spec fn saying(
    who: Actor<Seq<char>>,
    room: Seq<char>,
    text: Seq<char>,
) -> RequestModel {
    Request::Matrix(MatrixRequest::SendText { who, room, text })
}

/// Whether a request says something in a room.
pub open spec fn is_saying(request: RequestModel) -> bool {
    request matches Request::Matrix(MatrixRequest::SendText { .. })
}

/// A text that is sent to a chat.
pub open spec fn sending_out(chat: u32, text: Seq<char>) -> RequestModel {
    Request::Delta(DeltaRequest::SendText { chat, text })
}

/// The reading of a setting.
pub open spec fn reading(key: Seq<char>) -> RequestModel {
    Request::Delta(DeltaRequest::UiGet { key })
}

/// Whether the bridge itself, or one of its users, is known to have sent something.
pub open spec fn known_as_ours(host: Host, sender: Seq<char>, main: Seq<char>) -> bool {
    &&& answers(host, main_user(), Reply::Got(Value::MaybeText(Some(main))))
    &&& sender == main || answers(host, is_ours(sender), Reply::Got(Value::Flag(true)))
}

/// What the bridge says itself it does not hear: nothing is done, nothing is remembered, and no
/// more is asked than whose message it is.
pub proof fn law_own_messages_are_passed_over(
    event: RoomMessageEvent,
    main: Seq<char>,
    caches: Caches,
    host: Host,
    steps: nat,
)
    requires
        steps >= 3,
        known_as_ours(host, event.sender@, main),
    ensures
        ({
            let done = start(Task::Heard(Heard::Start { event }), caches, host, steps);
            &&& done.end == End::Return(Value::Unit)
            &&& done.caches == caches
            &&& done.host.settings == host.settings
            &&& done.host.asked == if event.sender@ == main {
                host.asked.push(main_user())
            } else {
                host.asked.push(main_user()).push(is_ours(event.sender@))
            }
        }),
{
    reveal_with_fuel(run, 4);
}

/// What the bridge reacts to itself does not count: nothing is remembered, no more is asked than
/// whose reaction it is, and the log says that it is passed over.
pub proof fn law_own_reactions_are_passed_over(
    event: ReactionEvent,
    main: Seq<char>,
    caches: Caches,
    host: Host,
    steps: nat,
)
    requires
        steps >= 4,
        known_as_ours(host, event.sender@, main),
    ensures
        ({
            let done = start(Task::Reaction(Reaction::Start { event }), caches, host, steps);
            let said = logging(LogLevel::Debug, "skipping event: came from appservice user"@);
            &&& done.end == End::Return(Value::Unit)
            &&& done.caches == caches
            &&& done.host.settings == host.settings
            &&& done.host.asked == if event.sender@ == main {
                host.asked.push(main_user()).push(said)
            } else {
                host.asked.push(main_user()).push(is_ours(event.sender@)).push(said)
            }
        }),
{
    let h1 = performed(host, main_user());
    lemma_ask(
        Task::Reaction(Reaction::Start { event }),
        Reply::Start,
        caches,
        host,
        steps,
        main_user(),
        Task::Reaction(Reaction::MainKnown { event }),
    );
    let said = logging(LogLevel::Debug, "skipping event: came from appservice user"@);
    let finish = Task::Reaction(Reaction::Finish);
    let known = Task::Reaction(Reaction::MainKnown { event });
    let reply = Reply::Got(Value::MaybeText(Some(main)));
    if event.sender@ == main {
        lemma_ask(known, reply, caches, h1, (steps - 1) as nat, said, finish);
    } else {
        let tested = Task::Reaction(Reaction::Tested { event });
        let h2 = performed(h1, is_ours(event.sender@));
        lemma_ask(known, reply, caches, h1, (steps - 1) as nat, is_ours(event.sender@), tested);
        lemma_ask(
            tested,
            Reply::Got(Value::Flag(true)),
            caches,
            h2,
            (steps - 2) as nat,
            said,
            finish,
        );
    }
}

/// A reaction counts in the control room only, and only while the bridge is in it: anywhere else it
/// does nothing, and the log says why.
pub proof fn law_reactions_count_in_the_control_room_only(
    event: ReactionEvent,
    main: Seq<char>,
    control: Option<Seq<char>>,
    caches: Caches,
    host: Host,
    steps: nat,
)
    requires
        steps >= 6,
        answers(host, main_user(), Reply::Got(Value::MaybeText(Some(main)))),
        answers(host, is_ours(event.sender@), Reply::Got(Value::Flag(false))),
        event.sender@ != main,
        kept(host.settings, CONTROL_ROOM_KEY@) == control,
        control matches Some(room) ==> is_room_id(room),
        control != Some(event.room_id@) || !event.joined,
    ensures
        ({
            let done = start(Task::Reaction(Reaction::Start { event }), caches, host, steps);
            let said = if control != Some(event.room_id@) {
                logging(LogLevel::Debug, "skipping event: not in control room"@)
            } else {
                logging(LogLevel::Warning, "skipping event: not in joined room"@)
            };
            &&& done.end == End::Return(Value::Unit)
            &&& done.caches == caches
            &&& done.host.settings == host.settings
            &&& done.host.asked == host.asked.push(main_user()).push(is_ours(event.sender@)).push(
                reading(CONTROL_ROOM_KEY@),
            ).push(said)
        }),
{
    let h1 = performed(host, main_user());
    let h2 = performed(h1, is_ours(event.sender@));
    let h3 = performed(h2, reading(CONTROL_ROOM_KEY@));
    let known = Task::Reaction(Reaction::MainKnown { event });
    let tested = Task::Reaction(Reaction::Tested { event });
    let sought = Task::Reaction(Reaction::ControlKnown { event });
    let said = if control != Some(event.room_id@) {
        logging(LogLevel::Debug, "skipping event: not in control room"@)
    } else {
        logging(LogLevel::Warning, "skipping event: not in joined room"@)
    };
    lemma_ask(
        Task::Reaction(Reaction::Start { event }),
        Reply::Start,
        caches,
        host,
        steps,
        main_user(),
        known,
    );
    lemma_ask(
        known,
        Reply::Got(Value::MaybeText(Some(main))),
        caches,
        h1,
        (steps - 1) as nat,
        is_ours(event.sender@),
        tested,
    );
    lemma_control_room_id(caches, h2, (steps - 3) as nat);
    assert(run(tested, Reply::Got(Value::Flag(false)), caches, h2, (steps - 2) as nat) == run(
        sought,
        Reply::Got(Value::MaybeText(control)),
        caches,
        h3,
        (steps - 3) as nat,
    ));
    lemma_ask(
        sought,
        Reply::Got(Value::MaybeText(control)),
        caches,
        h3,
        (steps - 3) as nat,
        said,
        Task::Reaction(Reaction::Finish),
    );
}

/// A bridge that is in its control room joins no other one: it says so in its control room, and
/// keeps its control room and its owner.
pub proof fn law_second_invitation_is_refused(
    room_id: Seq<char>,
    sender: Seq<char>,
    control: Seq<char>,
    caches: Caches,
    host: Host,
    steps: nat,
)
    requires
        steps >= 6,
        kept(host.settings, CONTROL_ROOM_KEY@) == Some(control),
        is_room_id(control),
        answers(host, is_in(Actor::Main, control), Reply::Got(Value::Flag(true))),
        answers(host, saying(Actor::Main, control, "Not joining other invite!"@), Reply::Got(Value::Unit)),
    ensures
        ({
            let done = start(
                Task::Member(Member::Invite { room_id, sender }),
                caches,
                host,
                steps,
            );
            &&& done.end == End::Return(Value::Unit)
            &&& done.host.settings == host.settings
            &&& done.host.asked == host.asked.push(reading(CONTROL_ROOM_KEY@)).push(
                logging(LogLevel::Info, "control room: "@ + control),
            ).push(is_in(Actor::Main, control)).push(saying(Actor::Main, control, "Not joining other invite!"@))
        }),
{
    let left = (steps - 1) as nat;
    lemma_control_room(true, caches, host, left);
    lemma_ask(
        Task::Member(Member::ControlKnown { room_id, sender }),
        Reply::Got(Value::MaybeText(Some(control))),
        caches,
        seeking_control(host),
        left,
        saying(Actor::Main, control, "Not joining other invite!"@),
        Task::Member(Member::Finish),
    );
}

/// The request of the bridge to join a room.
pub open spec fn coming_in(room: Seq<char>) -> RequestModel {
    Request::Matrix(MatrixRequest::JoinRoom { who: Actor::Main, room })
}

/// Whether the bridge is in no control room: none is kept, or one that it is not in.
pub open spec fn without_control(host: Host) -> bool {
    kept(host.settings, CONTROL_ROOM_KEY@) matches Some(control) ==> is_room_id(control)
        && answers(host, is_in(Actor::Main, control), Reply::Got(Value::Flag(false)))
}

proof fn lemma_invited(
    room_id: Seq<char>,
    sender: Seq<char>,
    caches: Caches,
    host: Host,
    steps: nat,
)
    requires
        steps >= 5,
        without_control(host),
    ensures
        ({
            let h = seeking_control(host);
            &&& h.settings == host.settings
            &&& h.others == host.others
            &&& start(Task::Member(Member::Invite { room_id, sender }), caches, host, steps) == run(
                Task::Member(Member::Entered { room_id, sender }),
                reply_to(h, coming_in(room_id)),
                caches,
                performed(h, coming_in(room_id)),
                (steps - 2) as nat,
            )
        }),
{
    let left = (steps - 1) as nat;
    lemma_control_room(false, caches, host, left);
    lemma_ask(
        Task::Member(Member::ControlKnown { room_id, sender }),
        Reply::Got(Value::MaybeText(None)),
        caches,
        seeking_control(host),
        left,
        coming_in(room_id),
        Task::Member(Member::Entered { room_id, sender }),
    );
}

/// A bridge that is in no control room joins the room that it is invited to, also where it still
/// keeps one that it is not in. The room becomes its control room, and the one who invited it its
/// owner.
pub proof fn law_first_invitation_is_accepted(
    room_id: Seq<char>,
    sender: Seq<char>,
    caches: Caches,
    host: Host,
    steps: nat,
)
    requires
        steps >= 7,
        without_control(host),
        answers(host, coming_in(room_id), Reply::Got(Value::Unit)),
    ensures
        ({
            let done = start(
                Task::Member(Member::Invite { room_id, sender }),
                caches,
                host,
                steps,
            );
            &&& done.end == End::Return(Value::Unit)
            &&& done.caches == caches
            &&& done.host.asked == seeking_control(host).asked.push(coming_in(room_id)).push(
                Request::Delta(DeltaRequest::UiSet { key: CONTROL_ROOM_KEY@, value: Some(room_id) }),
            ).push(Request::Delta(DeltaRequest::UiSet { key: OWNER_KEY@, value: Some(sender) }))
            &&& done.host.settings == written(
                written(host.settings, CONTROL_ROOM_KEY@, Some(room_id)),
                OWNER_KEY@,
                Some(sender),
            )
            &&& kept(done.host.settings, CONTROL_ROOM_KEY@) == Some(room_id)
            &&& kept(done.host.settings, OWNER_KEY@) == Some(sender)
        }),
{
    lemma_invited(room_id, sender, caches, host, steps);
    let h = performed(seeking_control(host), coming_in(room_id));
    let h1 = performed(
        h,
        Request::Delta(DeltaRequest::UiSet { key: CONTROL_ROOM_KEY@, value: Some(room_id) }),
    );
    let left = (steps - 3) as nat;
    assert(start(Task::Settings(Settings::SetControlRoomId { room_id }), caches, h, left) == (Run {
        end: End::Return(Value::Unit),
        caches,
        host: h1,
    })) by {
        reveal_with_fuel(run, 3);
    }
    let h2 = performed(
        h1,
        Request::Delta(DeltaRequest::UiSet { key: OWNER_KEY@, value: Some(sender) }),
    );
    let owner = Task::Settings(Settings::SetOwner { user_id: sender });
    assert(start(owner, caches, h1, (left - 1) as nat) == (Run {
        end: End::Return(Value::Unit),
        caches,
        host: h2,
    })) by {
        reveal_with_fuel(run, 3);
    }
    assert(run(
        Task::Member(Member::RoomSaved { sender }),
        Reply::Got(Value::Unit),
        caches,
        h1,
        left,
    ) == run(
        Task::Member(Member::Finish),
        Reply::Got(Value::Unit),
        caches,
        h2,
        (left - 1) as nat,
    ));
    law_keys_are_distinct(room_id, room_id, 0, 0);
}

/// An invitation that cannot be followed fails for the same reason, and the bridge keeps the
/// control room and the owner that it had, if any.
pub proof fn law_failed_invitation_changes_nothing(
    room_id: Seq<char>,
    sender: Seq<char>,
    error: Seq<char>,
    caches: Caches,
    host: Host,
    steps: nat,
)
    requires
        steps >= 5,
        without_control(host),
        answers(host, coming_in(room_id), Reply::Failed(error)),
    ensures
        ({
            let done = start(
                Task::Member(Member::Invite { room_id, sender }),
                caches,
                host,
                steps,
            );
            &&& done.end == End::Raise(error)
            &&& done.caches == caches
            &&& done.host.settings == host.settings
            &&& done.host.asked == seeking_control(host).asked.push(coming_in(room_id))
        }),
{
    lemma_invited(room_id, sender, caches, host, steps);
}

/// What is said in the room of a chat goes out: the text is sent once, as it is, to the chat of the
/// room, and the event becomes the event of the message that was sent. Nothing else is asked for.
pub proof fn law_words_go_out(
    event: RoomMessageEvent,
    body: Seq<char>,
    main: Seq<char>,
    chat_id: u32,
    msg_id: u32,
    caches: Caches,
    host: Host,
    steps: nat,
)
    requires
        steps >= 9,
        opt_text(event.body) == Some(body),
        opt_text(event.reply_to) is None,
        event.joined,
        answers(host, main_user(), Reply::Got(Value::MaybeText(Some(main)))),
        event.sender@ != main,
        answers(host, is_ours(event.sender@), Reply::Got(Value::Flag(false))),
        kept(host.settings, CONTROL_ROOM_KEY@) matches Some(control) ==> is_room_id(control)
            && control != event.room_id@,
        found_chat(host, event.room_id@) == Some(digits(chat_id as nat)),
        answers(host, sending_out(chat_id, body), Reply::Got(Value::Number(msg_id))),
    ensures
        ({
            let done = start(Task::Heard(Heard::Start { event }), caches, host, steps);
            &&& done.end == End::Return(Value::Unit)
            &&& done.caches == (Caches {
                events: caches.events.insert(msg_id, event.event_id@),
                ..caches
            })
            &&& done.host.settings == host.settings
            &&& done.host.asked == host.asked.push(main_user()).push(is_ours(event.sender@)).push(
                reading(CONTROL_ROOM_KEY@),
            ).push(reading(custom_key(chat_by_room(event.room_id@)))).push(
                sending_out(chat_id, body),
            )
        }),
{
    let room_id = event.room_id@;
    let event_id = event.event_id@;
    let h1 = performed(host, main_user());
    let h2 = performed(h1, is_ours(event.sender@));
    let h3 = performed(h2, reading(CONTROL_ROOM_KEY@));
    let h4 = performed(h3, reading(custom_key(chat_by_room(room_id))));
    let h5 = performed(h4, sending_out(chat_id, body));
    let known = Task::Heard(Heard::MainKnown { event });
    let tested = Task::Heard(Heard::Tested { event });
    let control = kept(host.settings, CONTROL_ROOM_KEY@);
    let sought = Task::Heard(Heard::ControlKnown { room_id, event_id, body, reply_to: None });
    lemma_ask(
        Task::Heard(Heard::Start { event }),
        Reply::Start,
        caches,
        host,
        steps,
        main_user(),
        known,
    );
    lemma_ask(
        known,
        Reply::Got(Value::MaybeText(Some(main))),
        caches,
        h1,
        (steps - 1) as nat,
        is_ours(event.sender@),
        tested,
    );
    let left = (steps - 3) as nat;
    lemma_control_room_id(caches, h2, left);
    assert(run(tested, Reply::Got(Value::Flag(false)), caches, h2, (steps - 2) as nat) == run(
        sought,
        Reply::Got(Value::MaybeText(control)),
        caches,
        h3,
        left,
    ));
    let left1 = (steps - 4) as nat;
    let left2 = (steps - 5) as nat;
    let spoken = Task::Spoken(Spoken::InChat { room_id, event_id, body });
    law_chat_of_room(room_id, caches, h3, left2);
    lemma_chat_search(room_id, caches, h3, left2);
    let found = Task::Spoken(Spoken::ChatKnown { event_id, body });
    assert(start(spoken, caches, h3, left1) == run(
        found,
        Reply::Got(Value::MaybeNumber(Some(chat_id))),
        caches,
        h4,
        left2,
    ));
    lemma_ask(
        found,
        Reply::Got(Value::MaybeNumber(Some(chat_id))),
        caches,
        h4,
        left2,
        sending_out(chat_id, body),
        Task::Spoken(Spoken::Sent { event_id }),
    );
    let remembered = Caches { events: caches.events.insert(msg_id, event_id), ..caches };
    assert(start(spoken, caches, h3, left1) == (Run {
        end: End::Return(Value::Unit),
        caches: remembered,
        host: h5,
    }));
    assert(run(sought, Reply::Got(Value::MaybeText(control)), caches, h3, left) == run(
        Task::Heard(Heard::Finish),
        Reply::Got(Value::Unit),
        remembered,
        h5,
        left1,
    ));
}

/// Where it is said that a message could not be sent, once the user of its author is ready: in the
/// room of the chat if there is one that the user is in, else in the control room if the user is in
/// that, else nowhere.
pub open spec fn place_to_complain(
    host: Host,
    chat_id: u32,
    in_chat_room: bool,
    in_control_room: bool,
) -> Option<Seq<char>> {
    match found_room(host, chat_id) {
        Some(room_id) => if is_room_id(room_id) && in_chat_room {
            Some(room_id)
        } else if in_control_room {
            kept(host.settings, CONTROL_ROOM_KEY@)
        } else {
            None
        },
        None => if in_control_room {
            kept(host.settings, CONTROL_ROOM_KEY@)
        } else {
            None
        },
    }
}

/// That a message could not be sent is said once, by the user of its author, in the right place, or
/// not at all.
pub proof fn law_failure_is_said_in_the_right_place(
    chat_id: u32,
    contact: ContactInfo,
    localpart: Seq<char>,
    in_chat_room: bool,
    in_control_room: bool,
    caches: Caches,
    host: Host,
    steps: nat,
)
    requires
        steps >= 9,
        found_room(host, chat_id) matches Some(room_id) ==> answers(
            host,
            is_in(Actor::User(localpart), room_id),
            Reply::Got(Value::Flag(in_chat_room)),
        ),
        kept(host.settings, CONTROL_ROOM_KEY@) matches Some(control) ==> is_room_id(control)
            && answers(
            host,
            is_in(Actor::User(localpart), control),
            Reply::Got(Value::Flag(in_control_room)),
        ),
        forall|room: Seq<char>|
            answers(
                host,
                #[trigger] saying(Actor::User(localpart), room, "Sending message failed"@),
                Reply::Got(Value::Unit),
            ),
    ensures
        ({
            let done = run(
                Task::Failure(Failure::UserReady { chat_id }),
                Reply::Got(Value::EmailUser { contact, localpart }),
                caches,
                host,
                steps,
            );
            let place = place_to_complain(host, chat_id, in_chat_room, in_control_room);
            &&& done.end == End::Return(Value::Unit)
            &&& done.host.settings == host.settings
            &&& done.host.asked.len() > host.asked.len()
            &&& forall|i: int|
                host.asked.len() <= i < done.host.asked.len() - 1 ==> !is_saying(
                    #[trigger] done.host.asked[i],
                )
            &&& match place {
                Some(room) => done.host.asked.last() == saying(
                    Actor::User(localpart),
                    room,
                    "Sending message failed"@,
                ),
                None => !is_saying(done.host.asked.last()),
            }
        }),
{
    law_room_of_chat(chat_id, caches, host, (steps - 1) as nat);
    reveal_with_fuel(run, 8);
}

/// An incoming message goes to the room of its chat if there is one, else to the control room: it
/// ends as bringing it over into that room ends.
pub proof fn law_message_arrives_in_the_right_room(
    chat_id: u32,
    control: Seq<char>,
    message: MessageInfo,
    localpart: Seq<char>,
    caches: Caches,
    host: Host,
    steps: nat,
)
    requires
        steps >= 7,
        answers(
            host,
            Request::Delta(DeltaRequest::MarkNoticed { chat: chat_id }),
            Reply::Got(Value::Unit),
        ),
    ensures
        ({
            let done = run(
                Task::Arrival(Arrival::RoomKnown { chat_id, control, message, localpart }),
                Reply::Got(Value::MaybeText(None)),
                caches,
                host,
                steps,
            );
            let brought = start(
                Task::Bridge(
                    Bridge::Start { who: Actor::User(localpart), room_id: control, message },
                ),
                caches,
                host,
                (steps - 1) as nat,
            );
            brought.end is Return ==> done == (Run { end: End::Return(Value::Unit), ..brought })
        }),
        forall|room_id: Seq<char>|
            ({
                let done = run(
                    Task::Arrival(Arrival::RoomKnown { chat_id, control, message, localpart }),
                    Reply::Got(Value::MaybeText(Some(room_id))),
                    caches,
                    host,
                    steps,
                );
                let brought = #[trigger] start(
                    Task::Bridge(
                        Bridge::Start { who: Actor::User(localpart), room_id, message },
                    ),
                    caches,
                    performed(
                        host,
                        Request::Delta(DeltaRequest::MarkNoticed { chat: chat_id }),
                    ),
                    (steps - 2) as nat,
                );
                brought.end is Return ==> done == (Run { end: End::Return(Value::Unit), ..brought })
            }),
{
    reveal_with_fuel(run, 4);
}

/// Once a message was brought over, the event that came of it is the one that is marked as read
/// when the message has been delivered.
pub proof fn law_delivered_message_is_marked_read(
    chat_id: u32,
    msg_id: u32,
    event_id: Seq<char>,
    room_id: Seq<char>,
    caches: Caches,
    host: Host,
    steps: nat,
)
    requires
        steps >= 7,
        found_room(host, chat_id) == Some(room_id),
        is_room_id(room_id),
        answers(host, is_in(Actor::Main, room_id), Reply::Got(Value::Flag(true))),
        answers(
            host,
            Request::Matrix(
                MatrixRequest::ReadMarker {
                    who: Actor::Main,
                    room: room_id,
                    fully_read: event_id,
                    receipt: event_id,
                },
            ),
            Reply::Got(Value::Unit),
        ),
    ensures
        ({
            let sent = next(
                Task::Bridge(Bridge::ContentSent { msg_id }),
                Reply::Got(Value::Text(event_id)),
                caches,
            ).0;
            let done = start(
                Task::Delivery(Delivery::Delivered { chat_id, msg_id }),
                sent,
                host,
                steps,
            );
            &&& done.end == End::Return(Value::Unit)
            &&& done.host.asked.len() > 0
            &&& done.host.asked.last() == RequestModel::Matrix(
                MatrixRequest::ReadMarker {
                    who: Actor::Main,
                    room: room_id,
                    fully_read: event_id,
                    receipt: event_id,
                },
            )
        }),
{
    let sent = next(
        Task::Bridge(Bridge::ContentSent { msg_id }),
        Reply::Got(Value::Text(event_id)),
        caches,
    ).0;
    law_room_of_chat(chat_id, sent, host, (steps - 1) as nat);
    reveal_with_fuel(run, 5);
}

proof fn lemma_clearing_keeps_settings(
    s: ClearModel,
    reply: ReplyModel,
    caches: Caches,
    host: Host,
    steps: nat,
)
    ensures
        run(Task::Clear(s), reply, caches, host, steps).host.settings == host.settings,
    decreases steps,
{
    if steps > 0 {
        if let Step::Perform(request, Task::Clear(then)) = next(
            Task::Clear(s),
            reply,
            caches,
        ).1 {
            lemma_clearing_keeps_settings(
                then,
                reply_to(host, request),
                caches,
                performed(host, request),
                (steps - 1) as nat,
            );
        }
    }
}

/// Once the room of a chat has been given up because somebody left it, neither the room nor the
/// chat is found by the other any more.
pub proof fn law_room_that_was_left_is_parted_from_its_chat(
    room_id: Seq<char>,
    chat_id: u32,
    caches: Caches,
    host: Host,
    steps: nat,
)
    requires
        steps >= 8,
        found_chat(host, room_id) == Some(digits(chat_id as nat)),
    ensures
        ({
            let done = start(Task::Member(Member::Leave { room_id }), caches, host, steps);
            &&& found_chat(done.host, room_id) is None
            &&& found_room(done.host, chat_id) is None
        }),
{
    let one = (steps - 1) as nat;
    let two = (steps - 2) as nat;
    let three = (steps - 3) as nat;
    law_chat_of_room(room_id, caches, host, one);
    let found = start(Task::Settings(Settings::GetChat { room_id }), caches, host, one);
    let task1 = Task::Member(Member::LeftChat { room_id });
    let task2 = Task::Member(Member::Cleared { room_id });
    let reply = Reply::Got(Value::MaybeNumber(Some(chat_id)));
    assert(start(Task::Member(Member::Leave { room_id }), caches, host, steps) == run(
        task1,
        reply,
        caches,
        found.host,
        one,
    ));
    lemma_clear_pair(room_id, chat_id, caches, found.host, two);
    let parted = start(
        Task::Settings(Settings::Clear { room_id, chat_id }),
        caches,
        found.host,
        two,
    );
    assert(run(task1, reply, caches, found.host, one) == run(
        task2,
        Reply::Got(Value::Unit),
        caches,
        parted.host,
        two,
    ));
    law_keys_are_distinct(room_id, room_id, chat_id, chat_id);
    lemma_clearing_keeps_settings(
        Clear::Start { room_id },
        Reply::Start,
        caches,
        parted.host,
        three,
    );
    let left = start(Task::Clear(Clear::Start { room_id }), caches, parted.host, three);
    let gone = Task::Member(Member::Gone);
    match left.end {
        End::Return(value) => {
            assert(run(gone, Reply::Got(value), left.caches, left.host, three).host == left.host);
        },
        End::Raise(error) => {
            assert(run(gone, Reply::Failed(error), left.caches, left.host, three).host
                == left.host);
        },
        _ => {},
    }
}

}
