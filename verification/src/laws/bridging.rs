//! How messages and rooms come over.
use vstd::prelude::*;

use crate::appservice::Caches;
use crate::laws::rooms::{is_in, is_ours};
use crate::laws::settings::logging;
use crate::matrix_intents::{bridged, falling_back, next_message, part, Bridge, Clear};
use crate::outside::user_id_parts;
use crate::protocol::{
    Actor, ChatItem, LogLevel, MatrixRequest, MessageInfo, Reply, Request, RequestModel, Step,
    StepModel, Value, ViewType,
};
use crate::run::{answers, lemma_ask, performed, reply_to, run, start, End, Host, Run};
use crate::task::{
    lemma_bridge, lemma_chat_room, lemma_clear, lemma_email_user, lemma_poke, lemma_settings, Task,
};
use crate::text::{opt_text, texts};
use crate::types::RoomMessage;

verus! {

broadcast use {
    lemma_bridge,
    lemma_chat_room,
    lemma_clear,
    lemma_email_user,
    lemma_poke,
    lemma_settings,
};

/// A system message is not brought over: a line goes into the log, nothing else is asked, and
/// nothing is remembered.
pub proof fn law_system_messages_stay(
    who: Actor<Seq<char>>,
    room_id: Seq<char>,
    message: MessageInfo,
    caches: Caches,
    host: Host,
    steps: nat,
)
    requires
        steps >= 2,
        message.system,
    ensures
        start(Task::Bridge(Bridge::Start { who, room_id, message }), caches, host, steps) == (Run {
            end: End::Return(Value::Unit),
            caches,
            host: performed(
                host,
                logging(LogLevel::Info, "skipping system message: "@ + message.shown@),
            ),
        }),
{
    reveal_with_fuel(run, 2);
}

/// The request that sends something of a message into a room: into one that the user is known to be
/// in, or into one that it is not.
pub open spec fn sending(
    who: Actor<Seq<char>>,
    room: Seq<char>,
    message: MessageInfo,
    msg: RoomMessage<Seq<char>>,
    joined: bool,
) -> RequestModel {
    let content = bridged(message, msg);
    if joined {
        Request::Matrix(MatrixRequest::SendMessage { who, room, content })
    } else {
        Request::Matrix(MatrixRequest::SendRawMessage { who, room, content })
    }
}

/// What is asked before something is sent: whether the user is in the room, and if not, who it is,
/// which goes into the log.
pub open spec fn about_to_send(
    host: Host,
    who: Actor<Seq<char>>,
    user: Seq<char>,
    room: Seq<char>,
    joined: bool,
) -> Host {
    let asked = performed(host, is_in(who, room));
    if joined {
        asked
    } else {
        performed(
            performed(asked, identifying(who)),
            logging(
                LogLevel::Warning,
                "User "@ + user + " not joined in room "@ + room
                    + ", falling back to send_message"@,
            ),
        )
    }
}

/// The request for the identifier of a user.
pub open spec fn identifying(who: Actor<Seq<char>>) -> RequestModel {
    Request::Matrix(MatrixRequest::UserId { who })
}

/// A text is brought over as it is, with where it comes from, and the event that came of it is
/// remembered for the message.
pub proof fn law_text_is_brought_over(
    who: Actor<Seq<char>>,
    room_id: Seq<char>,
    message: MessageInfo,
    text: Seq<char>,
    joined: bool,
    user: Seq<char>,
    event_id: Seq<char>,
    caches: Caches,
    host: Host,
    steps: nat,
)
    requires
        steps >= 8,
        !joined ==> answers(host, identifying(who), Reply::Got(Value::MaybeText(Some(user)))),
        !message.system,
        message.view_type == ViewType::Other,
        opt_text(message.text) == Some(text),
        answers(host, is_in(who, room_id), Reply::Got(Value::Flag(joined))),
        answers(
            host,
            sending(who, room_id, message, RoomMessage::Text { body: text }, joined),
            Reply::Got(Value::Text(event_id)),
        ),
    ensures
        ({
            let done = start(
                Task::Bridge(Bridge::Start { who, room_id, message }),
                caches,
                host,
                steps,
            );
            &&& done.end == End::Return(Value::Unit)
            &&& done.caches == (Caches {
                events: caches.events.insert(message.id, event_id),
                ..caches
            })
            &&& done.host == performed(
                about_to_send(host, who, user, room_id, joined),
                sending(who, room_id, message, RoomMessage::Text { body: text }, joined),
            )
        }),
{
    let msg = RoomMessage::Text { body: text };
    let content = bridged(message, msg);
    let msg_id = message.id;
    let request = sending(who, room_id, message, msg, joined);
    let h1 = performed(host, is_in(who, room_id));
    let part = Task::Bridge(Bridge::Content { who, room_id, msg_id, content });
    let tried = Task::Bridge(Bridge::Tried { who, room_id, msg_id, content });
    let sent = Task::Bridge(Bridge::ContentSent { msg_id });
    let left = (steps - 1) as nat;
    lemma_ask(part, Reply::Start, caches, host, left, is_in(who, room_id), tried);
    let left1 = (left - 1) as nat;
    let h = about_to_send(host, who, user, room_id, joined);
    let remembered = Caches { events: caches.events.insert(msg_id, event_id), ..caches };
    let reply = Reply::Got(Value::Text(event_id));
    if joined {
        lemma_ask(tried, Reply::Got(Value::Flag(true)), caches, h1, left1, request, sent);
    } else {
        let outside = Task::Bridge(Bridge::Outside { who, room_id, msg_id, content });
        let noted = Task::Bridge(Bridge::Noted { who, room_id, msg_id, content });
        let raw = Task::Bridge(Bridge::Raw { who, room_id, content });
        let line = logging(LogLevel::Warning, falling_back(user, room_id));
        let h2 = performed(h1, identifying(who));
        lemma_ask(
            tried,
            Reply::Got(Value::Flag(false)),
            caches,
            h1,
            left1,
            identifying(who),
            outside,
        );
        let left2 = (left1 - 1) as nat;
        lemma_ask(
            outside,
            Reply::Got(Value::MaybeText(Some(user))),
            caches,
            h2,
            left2,
            line,
            noted,
        );
        let left3 = (left2 - 1) as nat;
        let left4 = (left3 - 1) as nat;
        lemma_ask(
            raw,
            Reply::Start,
            caches,
            h,
            left4,
            request,
            Task::Bridge(Bridge::RawSent),
        );
        assert(start(raw, caches, h, left4) == (Run {
            end: End::Return(Value::Text(event_id)),
            caches,
            host: performed(h, request),
        }));
        assert(run(noted, Reply::Got(Value::Unit), caches, h, left3) == run(
            sent,
            reply,
            caches,
            performed(h, request),
            left4,
        ));
    }
    assert(start(part, caches, host, left) == (Run {
        end: End::Return(Value::Unit),
        caches: remembered,
        host: performed(h, request),
    }));
    assert(start(Task::Bridge(Bridge::Start { who, room_id, message }), caches, host, steps) == run(
        Task::Bridge(Bridge::TextSent),
        Reply::Got(Value::Unit),
        remembered,
        performed(h, request),
        left,
    ));
}

/// Going through a chat passes over no message: what is found next is a message, and nothing
/// between is one; where nothing is found, no message is left.
pub proof fn law_no_message_is_passed_over(items: Seq<ChatItem>, at: int)
    requires
        0 <= at <= items.len(),
    ensures
        match next_message(items, at) {
            Some((place, id)) => {
                &&& at <= place < items.len()
                &&& items[place] matches ChatItem::Message { id: found, .. } && found == id
                &&& forall|k: int| at <= k < place ==> !(#[trigger] items[k] is Message)
            },
            None => forall|k: int| at <= k < items.len() ==> !(#[trigger] items[k] is Message),
        },
    decreases items.len() - at,
{
    if at < items.len() {
        match items[at] {
            ChatItem::Message { .. } => {},
            _ => {
                law_no_message_is_passed_over(items, at + 1);
            },
        }
    }
}

/// Which members of a room the bridge manages.
pub open spec fn knows_members(
    host: Host,
    room: Seq<char>,
    members: Seq<Seq<char>>,
    ours: spec_fn(Seq<char>) -> bool,
) -> bool {
    &&& forall|i: int|
        #![trigger members[i]]
        0 <= i < members.len() ==> answers(
            host,
            is_ours(members[i]),
            Reply::Got(Value::Flag(ours(members[i]))),
        )
    &&& forall|i: int|
        #![trigger members[i]]
        0 <= i < members.len() && ours(members[i]) ==> user_id_parts(members[i]) is Ok
    &&& forall|localpart: Seq<char>|
        #![trigger readying(localpart)]
        answers(host, readying(localpart), Reply::Got(Value::Unit))
    &&& forall|who: Actor<Seq<char>>|
        #![trigger leaving(who, room)]
        answers(host, leaving(who, room), Reply::Got(Value::Unit))
}

/// The request that gets ready to act as a user.
pub open spec fn readying(localpart: Seq<char>) -> RequestModel {
    Request::Matrix(MatrixRequest::UserClient { localpart })
}

/// The request to leave a room.
pub open spec fn leaving(who: Actor<Seq<char>>, room: Seq<char>) -> RequestModel {
    Request::Matrix(MatrixRequest::LeaveRoom { who, room })
}

/// What is asked to clear a room, from a place in the list of its members on: of each member
/// whether the bridge manages it, and if so that it leaves; in the end that the bridge itself
/// leaves.
pub open spec fn clearing(
    room: Seq<char>,
    members: Seq<Seq<char>>,
    at: int,
    ours: spec_fn(Seq<char>) -> bool,
) -> Seq<RequestModel>
    decreases members.len() - at,
{
    if at < 0 || at >= members.len() {
        seq![leaving(Actor::Main, room)]
    } else {
        let user = members[at];
        let rest = clearing(room, members, at + 1, ours);
        if ours(user) {
            let localpart = user_id_parts(user)->Ok_0.0;
            seq![is_ours(user), readying(localpart), leaving(Actor::User(localpart), room)] + rest
        } else {
            seq![is_ours(user)] + rest
        }
    }
}

/// Runs on from a step, and tells all that is left behind.
pub open spec fn run_on(step: StepModel, caches: Caches, host: Host, steps: nat) -> Run {
    match step {
        Step::Perform(request, task) => run(
            task,
            reply_to(host, request),
            caches,
            performed(host, request),
            steps,
        ),
        Step::Call(callee, task) => {
            let called = run(callee, Reply::Start, caches, host, steps);
            match called.end {
                End::Return(value) => run(
                    task,
                    Reply::Got(value),
                    called.caches,
                    called.host,
                    steps,
                ),
                End::Raise(error) => run(
                    task,
                    Reply::Failed(error),
                    called.caches,
                    called.host,
                    steps,
                ),
                _ => called,
            }
        },
        Step::Return(value) => Run { end: End::Return(value), caches, host },
        Step::Raise(error) => Run { end: End::Raise(error), caches, host },
        Step::Panic(error) => Run { end: End::Panic(error), caches, host },
        Step::Mismatch => Run { end: End::Mismatch, caches, host },
    }
}

proof fn lemma_part(
    room_id: Seq<char>,
    members: Seq<Seq<char>>,
    at: usize,
    ours: spec_fn(Seq<char>) -> bool,
    caches: Caches,
    host: Host,
    steps: nat,
)
    requires
        knows_members(host, room_id, members, ours),
        at <= members.len() <= usize::MAX,
        steps >= 3 * (members.len() - at) + 1,
    ensures
        ({
            let done = run_on(part(room_id, members, at), caches, host, steps);
            &&& done.end == End::Return(Value::Unit)
            &&& done.caches == caches
            &&& done.host.asked == host.asked + clearing(room_id, members, at as int, ours)
        }),
    decreases members.len() - at,
{
    if at < members.len() {
        let user = members[at as int];
        let then = (at + 1) as usize;
        let h1 = performed(host, is_ours(user));
        assert(answers(host, is_ours(members[at as int]), Reply::Got(Value::Flag(ours(user)))));
        let task1 = Task::Clear(Clear::Tested { room_id, members, at: then, user });
        if ours(user) {
            let localpart = user_id_parts(user)->Ok_0.0;
            let task2 = Task::Clear(Clear::Ready { room_id, members, at: then, localpart });
            let task3 = Task::Clear(Clear::Left { room_id, members, at: then });
            let h2 = performed(h1, readying(localpart));
            let h3 = performed(h2, leaving(Actor::User(localpart), room_id));
            lemma_ask(
                task1,
                Reply::Got(Value::Flag(true)),
                caches,
                h1,
                steps,
                readying(localpart),
                task2,
            );
            lemma_ask(
                task2,
                Reply::Got(Value::Unit),
                caches,
                h2,
                (steps - 1) as nat,
                leaving(Actor::User(localpart), room_id),
                task3,
            );
            lemma_part(room_id, members, then, ours, caches, h3, (steps - 3) as nat);
            assert(h3.asked + clearing(room_id, members, at + 1, ours) =~= host.asked + clearing(
                room_id,
                members,
                at as int,
                ours,
            ));
        } else {
            lemma_part(room_id, members, then, ours, caches, h1, (steps - 1) as nat);
            assert(h1.asked + clearing(room_id, members, at + 1, ours) =~= host.asked + clearing(
                room_id,
                members,
                at as int,
                ours,
            ));
        }
    } else {
        let request = leaving(Actor::Main, room_id);
        assert(answers(host, leaving(Actor::Main, room_id), Reply::Got(Value::Unit)));
        assert(performed(host, request).asked =~= host.asked + clearing(
            room_id,
            members,
            at as int,
            ours,
        ));
    }
}

/// To clear a room, each of its members that the bridge manages leaves it, in order, and the bridge
/// itself leaves last. Nobody else is made to leave.
pub proof fn law_room_is_cleared(
    room_id: Seq<char>,
    members: Vec<String>,
    ours: spec_fn(Seq<char>) -> bool,
    caches: Caches,
    host: Host,
    steps: nat,
)
    requires
        knows_members(host, room_id, texts(members@), ours),
        steps >= 3 * members@.len() + 3,
        answers(
            host,
            Request::Matrix(MatrixRequest::JoinedMembers { room: room_id }),
            Reply::Texts(members),
        ),
    ensures
        ({
            let done = start(Task::Clear(Clear::Start { room_id }), caches, host, steps);
            &&& done.end == End::Return(Value::Unit)
            &&& done.caches == caches
            &&& done.host.asked == host.asked.push(
                Request::Matrix(MatrixRequest::JoinedMembers { room: room_id }),
            ) + clearing(room_id, texts(members@), 0, ours)
        }),
{
    let list = texts(members@);
    let ask = Request::Matrix(MatrixRequest::JoinedMembers { room: room_id });
    let then = performed(host, ask);
    assert(members.len() == members@.len());
    lemma_ask(
        Task::Clear(Clear::Start { room_id }),
        Reply::Start,
        caches,
        host,
        steps,
        ask,
        Task::Clear(Clear::Members { room_id }),
    );
    lemma_part(room_id, list, 0, ours, caches, then, (steps - 2) as nat);
}

}
