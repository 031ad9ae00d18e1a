//! What becomes of reactions.
use vstd::prelude::*;

use crate::appservice::{custom_key, room_by_chat, Caches, CONTROL_ROOM_KEY};
use crate::laws::hearing::{is_foreign_to, listening, looking_at};
use crate::laws::rooms::{is_ours, main_user, reading, saying};
use crate::laws::settings::{found_room, law_room_of_chat, lemma_control_room_id, logging};
use crate::matrix_events::{Reaction, ReactionEvent};
use crate::matrix_intents::ChatRoom;
use crate::outside::is_room_id;
use crate::protocol::{
    Actor, DeltaRequest, LogLevel, Reply, ReplyModel, Request, RequestModel, Value,
};
use crate::run::{answers, kept, lemma_ask, performed, reply_to, run, start, End, Host, Run};
use crate::task::{lemma_lookup, lemma_reaction, Task, TaskModel};
use crate::types::{DeltaMessageEvent, DeltaMessageFields};
use crate::util::Lookup;

verus! {

broadcast use {lemma_lookup, lemma_reaction};

/// Whether a reaction counts: it is in the control room, with the bridge in it, from somebody whom
/// the bridge does not manage, and to an event that is found.
pub open spec fn counts(
    event: ReactionEvent,
    found: Option<DeltaMessageEvent>,
    main: Seq<char>,
    host: Host,
) -> bool {
    &&& event.joined
    &&& is_foreign_to(host, event.sender@, main)
    &&& kept(host.settings, CONTROL_ROOM_KEY@) == Some(event.room_id@)
    &&& is_room_id(event.room_id@)
    &&& answers(
        host,
        looking_at(event.room_id@, event.event_id@),
        Reply::Got(Value::Event(found)),
    )
}

/// What is asked of a reaction that counts before it has an effect: what is asked of whatever is
/// said, and the event that it is a reaction to.
pub open spec fn weighing(host: Host, event: ReactionEvent) -> Host {
    performed(listening(host, event.sender@), looking_at(event.room_id@, event.event_id@))
}

/// How far every reaction comes that counts.
proof fn lemma_weighed(
    event: ReactionEvent,
    found: Option<DeltaMessageEvent>,
    main: Seq<char>,
    caches: Caches,
    host: Host,
    steps: nat,
)
    requires
        steps >= 6,
        counts(event, found, main, host),
    ensures
        start(Task::Reaction(Reaction::Start { event }), caches, host, steps) == run(
            Task::Reaction(Reaction::Found { room_id: event.room_id@, emoji: event.emoji@ }),
            Reply::Got(Value::Event(found)),
            caches,
            weighing(host, event),
            (steps - 4) as nat,
        ),
{
    let room_id = event.room_id@;
    let event_id = event.event_id@;
    let h1 = performed(host, main_user());
    let h2 = performed(h1, is_ours(event.sender@));
    let h3 = listening(host, event.sender@);
    let known = Task::Reaction(Reaction::MainKnown { event });
    let tested = Task::Reaction(Reaction::Tested { event });
    let sought = Task::Reaction(Reaction::ControlKnown { event });
    lemma_ask(
        Task::Reaction(Reaction::Start { event }),
        Reply::Start,
        caches,
        host,
        steps,
        main_user(),
        known,
    );
    lemma_ask(
        known,
        Reply::Got(Value::MaybeText(Some(main))),
        caches,
        h1,
        (steps - 1) as nat,
        is_ours(event.sender@),
        tested,
    );
    let left = (steps - 3) as nat;
    lemma_control_room_id(caches, h2, left);
    assert(run(tested, Reply::Got(Value::Flag(false)), caches, h2, (steps - 2) as nat) == run(
        sought,
        Reply::Got(Value::MaybeText(Some(room_id))),
        caches,
        h3,
        left,
    ));
    let lookup = Task::Lookup(Lookup::Fetch { who: Actor::Main, room_id, event_id });
    let left1 = (left - 1) as nat;
    lemma_ask(
        lookup,
        Reply::Start,
        caches,
        h3,
        left1,
        looking_at(room_id, event_id),
        Task::Lookup(Lookup::Fetched),
    );
    assert(start(lookup, caches, h3, left1) == (Run {
        end: End::Return(Value::Event(found)),
        caches,
        host: weighing(host, event),
    }));
}

/// Whether a reaction begins with a character, whatever follows.
pub open spec fn begins_with(event: ReactionEvent, c: char) -> bool {
    event.emoji@.len() > 0 && event.emoji@[0] == c
}

/// The request to block a chat.
pub open spec fn blocking(chat: u32) -> RequestModel {
    Request::Delta(DeltaRequest::BlockChat { chat })
}

/// A reaction that begins with a thumb that points down, whatever follows, blocks the chat of the
/// message, and asks for nothing else.
pub proof fn law_thumbs_down_blocks_the_chat(
    event: ReactionEvent,
    original: DeltaMessageEvent,
    fields: DeltaMessageFields,
    main: Seq<char>,
    caches: Caches,
    host: Host,
    steps: nat,
)
    requires
        steps >= 8,
        counts(event, Some(original), main, host),
        original.content.delta_fields == Some(fields),
        begins_with(event, '👎'),
    ensures
        ({
            let done = start(Task::Reaction(Reaction::Start { event }), caches, host, steps);
            let before = weighing(host, event);
            let request = blocking(fields.chat_id);
            &&& done.caches == caches
            &&& done.host == performed(before, request)
            &&& match reply_to(before, request) {
                Reply::Got(_) => done.end == End::Return(Value::Unit),
                Reply::Failed(error) => done.end == End::Panic(error),
                _ => true,
            }
        }),
{
    let chat_id = fields.chat_id;
    let before = weighing(host, event);
    let request = blocking(chat_id);
    lemma_weighed(event, Some(original), main, caches, host, steps);
    let left = (steps - 4) as nat;
    let left1 = (left - 1) as nat;
    let down = Task::Reaction(Reaction::ThumbsDown { chat_id });
    let blocked = Task::Reaction(Reaction::Blocked);
    lemma_ask(down, Reply::Start, caches, before, left1, request, blocked);
    let called = start(down, caches, before, left1);
    assert(called == run(
        blocked,
        reply_to(before, request),
        caches,
        performed(before, request),
        (left1 - 1) as nat,
    ));
    let finish = Task::Reaction(Reaction::Finish);
    if let End::Return(value) = called.end {
        assert(start(Task::Reaction(Reaction::Start { event }), caches, host, steps) == run(
            finish,
            Reply::Got(value),
            called.caches,
            called.host,
            left1,
        ));
    }
}

/// The reading of the room of a chat.
pub open spec fn seeking_room(chat_id: u32) -> RequestModel {
    reading(custom_key(room_by_chat(chat_id)))
}

/// A reaction that begins with a thumb that points up, whatever follows, makes the room of the chat
/// of the message, where the chat has none: it ends as making the room ends.
pub proof fn law_thumbs_up_makes_the_room(
    event: ReactionEvent,
    original: DeltaMessageEvent,
    fields: DeltaMessageFields,
    main: Seq<char>,
    caches: Caches,
    host: Host,
    steps: nat,
)
    requires
        steps >= 12,
        counts(event, Some(original), main, host),
        original.content.delta_fields == Some(fields),
        begins_with(event, '👍'),
        found_room(host, fields.chat_id) matches Some(room_id) ==> !is_room_id(room_id),
    ensures
        ({
            let done = start(Task::Reaction(Reaction::Start { event }), caches, host, steps);
            let made = start(
                Task::ChatRoom(ChatRoom::Start { chat_id: fields.chat_id }),
                caches,
                performed(weighing(host, event), seeking_room(fields.chat_id)),
                (steps - 7) as nat,
            );
            match made.end {
                End::Return(_) => done == (Run { end: End::Return(Value::Unit), ..made }),
                _ => done == made,
            }
        }),
{
    let chat_id = fields.chat_id;
    let room_id = event.room_id@;
    let before = weighing(host, event);
    let sought = performed(before, seeking_room(chat_id));
    lemma_weighed(event, Some(original), main, caches, host, steps);
    let left1 = (steps - 5) as nat;
    let left2 = (steps - 6) as nat;
    let left3 = (steps - 7) as nat;
    let up = Task::Reaction(Reaction::ThumbsUp { room_id, chat_id });
    let asked = Task::Reaction(Reaction::UpRoom { room_id, chat_id });
    law_room_of_chat(chat_id, caches, before, left2);
    let called = start(up, caches, before, left1);
    assert(called == run(
        asked,
        Reply::Got(Value::MaybeText(None)),
        caches,
        sought,
        left2,
    ));
    let made = start(Task::ChatRoom(ChatRoom::Start { chat_id }), caches, sought, left3);
    let finish: TaskModel = Task::Reaction(Reaction::Finish);
    let whole = start(Task::Reaction(Reaction::Start { event }), caches, host, steps);
    match made.end {
        End::Return(value) => {
            assert(called == run(finish, Reply::Got(value), made.caches, made.host, left3));
            assert(whole == run(
                finish,
                Reply::Got(Value::Unit),
                called.caches,
                called.host,
                left1,
            ));
        },
        End::Raise(error) => {
            assert(called == run(finish, Reply::Failed(error), made.caches, made.host, left3));
            assert(whole == run(
                finish,
                Reply::Failed(error),
                called.caches,
                called.host,
                left1,
            ));
        },
        _ => {},
    }
}

/// A reaction that begins with a thumb that points up, to a message whose chat has a room already,
/// is answered with that, and makes nothing.
pub proof fn law_thumbs_up_makes_no_second_room(
    event: ReactionEvent,
    original: DeltaMessageEvent,
    fields: DeltaMessageFields,
    room: Seq<char>,
    main: Seq<char>,
    caches: Caches,
    host: Host,
    steps: nat,
)
    requires
        steps >= 12,
        counts(event, Some(original), main, host),
        original.content.delta_fields == Some(fields),
        begins_with(event, '👍'),
        found_room(host, fields.chat_id) == Some(room),
        is_room_id(room),
        answers(
            host,
            saying(Actor::Main, event.room_id@, "Chat is already a room."@),
            Reply::Got(Value::Unit),
        ),
    ensures
        start(Task::Reaction(Reaction::Start { event }), caches, host, steps) == (Run {
            end: End::Return(Value::Unit),
            caches,
            host: performed(
                performed(weighing(host, event), seeking_room(fields.chat_id)),
                saying(Actor::Main, event.room_id@, "Chat is already a room."@),
            ),
        }),
{
    let chat_id = fields.chat_id;
    let room_id = event.room_id@;
    let before = weighing(host, event);
    let sought = performed(before, seeking_room(chat_id));
    let line = saying(Actor::Main, room_id, "Chat is already a room."@);
    lemma_weighed(event, Some(original), main, caches, host, steps);
    let left1 = (steps - 5) as nat;
    let left2 = (steps - 6) as nat;
    let up = Task::Reaction(Reaction::ThumbsUp { room_id, chat_id });
    let asked = Task::Reaction(Reaction::UpRoom { room_id, chat_id });
    let finish: TaskModel = Task::Reaction(Reaction::Finish);
    law_room_of_chat(chat_id, caches, before, left2);
    let reply: ReplyModel = Reply::Got(Value::MaybeText(Some(room)));
    let called = start(up, caches, before, left1);
    assert(called == run(asked, reply, caches, sought, left2));
    lemma_ask(asked, reply, caches, sought, left2, line, finish);
    assert(called == (Run {
        end: End::Return(Value::Unit),
        caches,
        host: performed(sought, line),
    }));
    assert(start(Task::Reaction(Reaction::Start { event }), caches, host, steps) == run(
        finish,
        Reply::Got(Value::Unit),
        caches,
        performed(sought, line),
        left1,
    ));
}

/// A reaction that begins with neither thumb is only logged.
pub proof fn law_other_reactions_do_nothing(
    event: ReactionEvent,
    original: DeltaMessageEvent,
    fields: DeltaMessageFields,
    main: Seq<char>,
    caches: Caches,
    host: Host,
    steps: nat,
)
    requires
        steps >= 6,
        counts(event, Some(original), main, host),
        original.content.delta_fields == Some(fields),
        event.emoji@.len() > 0,
        event.emoji@[0] != '👍',
        event.emoji@[0] != '👎',
    ensures
        start(Task::Reaction(Reaction::Start { event }), caches, host, steps) == (Run {
            end: End::Return(Value::Unit),
            caches,
            host: performed(
                weighing(host, event),
                logging(LogLevel::Warning, "Ignoring unknown reaction "@ + event.emoji@),
            ),
        }),
{
    lemma_weighed(event, Some(original), main, caches, host, steps);
    let room_id = event.room_id@;
    lemma_ask(
        Task::Reaction(Reaction::Found { room_id, emoji: event.emoji@ }),
        Reply::Got(Value::Event(Some(original))),
        caches,
        weighing(host, event),
        (steps - 4) as nat,
        logging(LogLevel::Warning, "Ignoring unknown reaction "@ + event.emoji@),
        Task::Reaction(Reaction::Finish),
    );
}

/// A reaction to something that belongs to no chat does nothing.
pub proof fn law_reaction_without_a_chat_does_nothing(
    event: ReactionEvent,
    found: Option<DeltaMessageEvent>,
    main: Seq<char>,
    caches: Caches,
    host: Host,
    steps: nat,
)
    requires
        steps >= 6,
        counts(event, found, main, host),
        found matches Some(original) ==> original.content.delta_fields is None,
    ensures
        start(Task::Reaction(Reaction::Start { event }), caches, host, steps) == (Run {
            end: End::Return(Value::Unit),
            caches,
            host: weighing(host, event),
        }),
{
    lemma_weighed(event, found, main, caches, host, steps);
}

}
