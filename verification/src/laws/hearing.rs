//! What becomes of what is said in rooms.
use vstd::prelude::*;

use crate::appservice::{Caches, CONTROL_ROOM_KEY};
use crate::control_room::Control;
use crate::laws::rooms::{is_ours, main_user, reading, saying, sending_out};
use crate::laws::settings::lemma_control_room_id;
use crate::matrix_events::{Heard, RoomMessageEvent, Spoken};
use crate::outside::is_room_id;
use crate::protocol::{Actor, DeltaRequest, MatrixRequest, Reply, Request, RequestModel, Value};
use crate::run::{answers, kept, lemma_ask, performed, reply_to, run, start, End, Host, Run};
use crate::task::{lemma_heard, lemma_lookup, lemma_spoken, Task, TaskModel};
use crate::text::{opt_text, own_words};
use crate::types::{DeltaMessageEvent, DeltaMessageFields};
use crate::util::Lookup;

verus! {

broadcast use {lemma_heard, lemma_lookup, lemma_spoken};

/// The question for an event of a room.
pub open spec fn looking_at(room: Seq<char>, event: Seq<char>) -> RequestModel {
    Request::Matrix(MatrixRequest::RoomEvent { who: Actor::Main, room, event })
}

/// The request to accept a chat.
pub open spec fn taking_up(chat: u32) -> RequestModel {
    Request::Delta(DeltaRequest::AcceptChat { chat })
}

/// Whether somebody speaks whom the bridge does not manage.
pub open spec fn is_foreign_to(host: Host, sender: Seq<char>, main: Seq<char>) -> bool {
    &&& answers(host, main_user(), Reply::Got(Value::MaybeText(Some(main))))
    &&& sender != main
    &&& answers(host, is_ours(sender), Reply::Got(Value::Flag(false)))
}

/// Whether the control room that is kept, if any, is a room.
pub open spec fn control_is_sound(host: Host) -> bool {
    kept(host.settings, CONTROL_ROOM_KEY@) matches Some(control) ==> is_room_id(control)
}

/// What is asked of each text before it is dealt with: who the bridge is, whether it manages the
/// one who speaks, and which room is its control room.
pub open spec fn listening(host: Host, sender: Seq<char>) -> Host {
    performed(
        performed(performed(host, main_user()), is_ours(sender)),
        reading(CONTROL_ROOM_KEY@),
    )
}

/// How far every text comes that counts.
proof fn lemma_listened(
    event: RoomMessageEvent,
    body: Seq<char>,
    main: Seq<char>,
    caches: Caches,
    host: Host,
    steps: nat,
)
    requires
        steps >= 6,
        opt_text(event.body) == Some(body),
        event.joined,
        is_foreign_to(host, event.sender@, main),
        control_is_sound(host),
    ensures
        start(Task::Heard(Heard::Start { event }), caches, host, steps) == run(
            Task::Heard(
                Heard::ControlKnown {
                    room_id: event.room_id@,
                    event_id: event.event_id@,
                    body,
                    reply_to: opt_text(event.reply_to),
                },
            ),
            Reply::Got(Value::MaybeText(kept(host.settings, CONTROL_ROOM_KEY@))),
            caches,
            listening(host, event.sender@),
            (steps - 3) as nat,
        ),
{
    let h1 = performed(host, main_user());
    let h2 = performed(h1, is_ours(event.sender@));
    let known = Task::Heard(Heard::MainKnown { event });
    let tested = Task::Heard(Heard::Tested { event });
    lemma_ask(
        Task::Heard(Heard::Start { event }),
        Reply::Start,
        caches,
        host,
        steps,
        main_user(),
        known,
    );
    lemma_ask(
        known,
        Reply::Got(Value::MaybeText(Some(main))),
        caches,
        h1,
        (steps - 1) as nat,
        is_ours(event.sender@),
        tested,
    );
    lemma_control_room_id(caches, h2, (steps - 3) as nat);
}

/// How a lookup ends that succeeds.
proof fn lemma_looked_up(
    room_id: Seq<char>,
    event_id: Seq<char>,
    found: Option<DeltaMessageEvent>,
    caches: Caches,
    host: Host,
    steps: nat,
)
    requires
        steps >= 2,
        answers(host, looking_at(room_id, event_id), Reply::Got(Value::Event(found))),
    ensures
        start(
            Task::Lookup(Lookup::Fetch { who: Actor::Main, room_id, event_id }),
            caches,
            host,
            steps,
        ) == (Run {
            end: End::Return(Value::Event(found)),
            caches,
            host: performed(host, looking_at(room_id, event_id)),
        }),
{
    lemma_ask(
        Task::Lookup(Lookup::Fetch { who: Actor::Main, room_id, event_id }),
        Reply::Start,
        caches,
        host,
        steps,
        looking_at(room_id, event_id),
        Task::Lookup(Lookup::Fetched),
    );
}

/// A reply to a bridged message goes to the chat of that message, in whichever room it is said: the
/// message is looked up, its chat is accepted, and what the reply says by itself is sent there
/// once. The event becomes the event of the message that was sent. Nothing else is asked for.
pub proof fn law_reply_goes_to_the_chat_of_its_message(
    event: RoomMessageEvent,
    body: Seq<char>,
    replied: Seq<char>,
    original: DeltaMessageEvent,
    fields: DeltaMessageFields,
    main: Seq<char>,
    msg_id: u32,
    caches: Caches,
    host: Host,
    steps: nat,
)
    requires
        steps >= 10,
        opt_text(event.body) == Some(body),
        opt_text(event.reply_to) == Some(replied),
        event.joined,
        is_foreign_to(host, event.sender@, main),
        control_is_sound(host),
        answers(
            host,
            looking_at(event.room_id@, replied),
            Reply::Got(Value::Event(Some(original))),
        ),
        original.content.delta_fields == Some(fields),
        answers(host, taking_up(fields.chat_id), Reply::Got(Value::Unit)),
        answers(
            host,
            sending_out(fields.chat_id, own_words(body)),
            Reply::Got(Value::Number(msg_id)),
        ),
    ensures
        start(Task::Heard(Heard::Start { event }), caches, host, steps) == (Run {
            end: End::Return(Value::Unit),
            caches: Caches { events: caches.events.insert(msg_id, event.event_id@), ..caches },
            host: performed(
                performed(
                    performed(
                        listening(host, event.sender@),
                        looking_at(event.room_id@, replied),
                    ),
                    taking_up(fields.chat_id),
                ),
                sending_out(fields.chat_id, own_words(body)),
            ),
        }),
{
    let room_id = event.room_id@;
    let event_id = event.event_id@;
    let chat_id = fields.chat_id;
    let text = own_words(body);
    lemma_listened(event, body, main, caches, host, steps);
    let h3 = listening(host, event.sender@);
    let h4 = performed(h3, looking_at(room_id, replied));
    let h5 = performed(h4, taking_up(chat_id));
    let h6 = performed(h5, sending_out(chat_id, text));
    let left = (steps - 3) as nat;
    let left1 = (steps - 4) as nat;
    let left2 = (steps - 5) as nat;
    lemma_looked_up(room_id, replied, Some(original), caches, h3, left2);
    let spoken = Task::Spoken(Spoken::Reply { room_id, event_id, body, reply_to: replied });
    let found = Task::Spoken(Spoken::Found { room_id, event_id, body });
    let accepted = Task::Spoken(Spoken::Accepted { event_id, chat_id, text });
    let sent = Task::Spoken(Spoken::Sent { event_id });
    let reply = Reply::Got(Value::Event(Some(original)));
    assert(start(spoken, caches, h3, left1) == run(found, reply, caches, h4, left2));
    lemma_ask(found, reply, caches, h4, left2, taking_up(chat_id), accepted);
    lemma_ask(
        accepted,
        Reply::Got(Value::Unit),
        caches,
        h5,
        (left2 - 1) as nat,
        sending_out(chat_id, text),
        sent,
    );
    let remembered = Caches { events: caches.events.insert(msg_id, event_id), ..caches };
    assert(start(spoken, caches, h3, left1) == (Run {
        end: End::Return(Value::Unit),
        caches: remembered,
        host: h6,
    }));
    assert(start(Task::Heard(Heard::Start { event }), caches, host, steps) == run(
        Task::Heard(Heard::Finish),
        Reply::Got(Value::Unit),
        remembered,
        h6,
        left1,
    ));
}

/// Whether an event tells of no chat: it is no bridged message, or does not say of which chat.
pub open spec fn tells_no_chat(found: Option<DeltaMessageEvent>) -> bool {
    found matches Some(original) ==> original.content.delta_fields is None
}

/// A reply to something that belongs to no chat is sent nowhere: that is said in the room, and
/// nothing is accepted or remembered.
pub proof fn law_reply_without_a_chat_is_refused(
    event: RoomMessageEvent,
    body: Seq<char>,
    replied: Seq<char>,
    found: Option<DeltaMessageEvent>,
    main: Seq<char>,
    caches: Caches,
    host: Host,
    steps: nat,
)
    requires
        steps >= 10,
        opt_text(event.body) == Some(body),
        opt_text(event.reply_to) == Some(replied),
        event.joined,
        is_foreign_to(host, event.sender@, main),
        control_is_sound(host),
        answers(host, looking_at(event.room_id@, replied), Reply::Got(Value::Event(found))),
        tells_no_chat(found),
        answers(
            host,
            saying(
                Actor::Main,
                event.room_id@,
                "Reply not sent: No chat_id in replied-to message"@,
            ),
            Reply::Got(Value::Unit),
        ),
    ensures
        start(Task::Heard(Heard::Start { event }), caches, host, steps) == (Run {
            end: End::Return(Value::Unit),
            caches,
            host: performed(
                performed(
                    listening(host, event.sender@),
                    looking_at(event.room_id@, replied),
                ),
                saying(
                    Actor::Main,
                    event.room_id@,
                    "Reply not sent: No chat_id in replied-to message"@,
                ),
            ),
        }),
{
    let room_id = event.room_id@;
    let event_id = event.event_id@;
    lemma_listened(event, body, main, caches, host, steps);
    let h3 = listening(host, event.sender@);
    let h4 = performed(h3, looking_at(room_id, replied));
    let line = saying(
        Actor::Main,
        room_id,
        "Reply not sent: No chat_id in replied-to message"@,
    );
    let h5 = performed(h4, line);
    let left1 = (steps - 4) as nat;
    let left2 = (steps - 5) as nat;
    lemma_looked_up(room_id, replied, found, caches, h3, left2);
    let spoken = Task::Spoken(Spoken::Reply { room_id, event_id, body, reply_to: replied });
    let stage = Task::Spoken(Spoken::Found { room_id, event_id, body });
    let reply = Reply::Got(Value::Event(found));
    assert(start(spoken, caches, h3, left1) == run(stage, reply, caches, h4, left2));
    lemma_ask(stage, reply, caches, h4, left2, line, Task::Spoken(Spoken::Finish));
    assert(start(spoken, caches, h3, left1) == (Run {
        end: End::Return(Value::Unit),
        caches,
        host: h5,
    }));
    assert(start(Task::Heard(Heard::Start { event }), caches, host, steps) == run(
        Task::Heard(Heard::Finish),
        Reply::Got(Value::Unit),
        caches,
        h5,
        left1,
    ));
}

/// A text in the control room that is no reply is a command: hearing it ends as obeying it does.
pub proof fn law_words_in_the_control_room_are_commands(
    event: RoomMessageEvent,
    body: Seq<char>,
    main: Seq<char>,
    caches: Caches,
    host: Host,
    steps: nat,
)
    requires
        steps >= 6,
        opt_text(event.body) == Some(body),
        opt_text(event.reply_to) is None,
        event.joined,
        is_foreign_to(host, event.sender@, main),
        control_is_sound(host),
        kept(host.settings, CONTROL_ROOM_KEY@) == Some(event.room_id@),
    ensures
        ({
            let done = start(Task::Heard(Heard::Start { event }), caches, host, steps);
            let obeyed = start(
                Task::Control(
                    Control::Start { room_id: event.room_id@, event_id: event.event_id@, body },
                ),
                caches,
                listening(host, event.sender@),
                (steps - 4) as nat,
            );
            match obeyed.end {
                End::Return(_) => done == (Run { end: End::Return(Value::Unit), ..obeyed }),
                _ => done == obeyed,
            }
        }),
{
    lemma_listened(event, body, main, caches, host, steps);
    let task: TaskModel = Task::Control(
        Control::Start { room_id: event.room_id@, event_id: event.event_id@, body },
    );
    let obeyed = start(task, caches, listening(host, event.sender@), (steps - 4) as nat);
    let finish: TaskModel = Task::Heard(Heard::Finish);
    match obeyed.end {
        End::Return(value) => {
            assert(start(Task::Heard(Heard::Start { event }), caches, host, steps) == run(
                finish,
                Reply::Got(value),
                obeyed.caches,
                obeyed.host,
                (steps - 4) as nat,
            ));
        },
        End::Raise(error) => {
            assert(start(Task::Heard(Heard::Start { event }), caches, host, steps) == run(
                finish,
                Reply::Failed(error),
                obeyed.caches,
                obeyed.host,
                (steps - 4) as nat,
            ));
        },
        _ => {},
    }
}

/// What is no text, or is said where the bridge is not, is passed over: no more is asked than whose
/// message it is.
pub proof fn law_other_messages_are_passed_over(
    event: RoomMessageEvent,
    main: Seq<char>,
    caches: Caches,
    host: Host,
    steps: nat,
)
    requires
        steps >= 3,
        event.body is None || !event.joined,
        is_foreign_to(host, event.sender@, main),
    ensures
        start(Task::Heard(Heard::Start { event }), caches, host, steps) == (Run {
            end: End::Return(Value::Unit),
            caches,
            host: performed(performed(host, main_user()), is_ours(event.sender@)),
        }),
{
    reveal_with_fuel(run, 4);
}

}
