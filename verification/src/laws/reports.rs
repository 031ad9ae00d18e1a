//! What becomes of what the e-mail core reports.
use vstd::prelude::*;

use crate::appservice::{Caches, EmailUser, CONTROL_ROOM_KEY};
use crate::delta_events::{Arrival, Callback, Delivery, DeltaEvent, Failure};
use crate::laws::new_rooms::fetching;
use crate::laws::reactions::seeking_room;
use crate::laws::rooms::{is_in, reading};
use crate::laws::settings::{found_room, law_room_of_chat, lemma_control_room_id, logging};
use crate::matrix_intents::Bridge;
use crate::outside::is_room_id;
use crate::protocol::{
    Actor, ContactInfo, DeltaRequest, LogLevel, MatrixRequest, MessageInfo, Reply, ReplyModel,
    Request, RequestModel, Step, Value,
};
use crate::run::{answers, kept, lemma_ask, performed, reply_to, run, start, End, Host, Run};
use crate::task::{
    lemma_arrival, lemma_callback, lemma_delivery, lemma_failure, next, Task, TaskModel,
};

verus! {

broadcast use {lemma_arrival, lemma_callback, lemma_delivery, lemma_failure};

/// Ends as another piece of work ended; where that failed, the bridge gives up.
pub open spec fn settles(done: Run, called: Run) -> bool {
    match called.end {
        End::Return(_) => done == (Run { end: End::Return(Value::Unit), ..called }),
        End::Raise(error) => done == (Run { end: End::Panic(error), ..called }),
        _ => done == called,
    }
}

/// Ends as another piece of work ended, and fails where that failed.
pub open spec fn finishes(done: Run, called: Run) -> bool {
    match called.end {
        End::Return(_) => done == (Run { end: End::Return(Value::Unit), ..called }),
        _ => done == called,
    }
}

proof fn lemma_handled(callee: TaskModel, caches: Caches, host: Host, steps: nat)
    requires
        steps >= 1,
    ensures
        ({
            let called = start(callee, caches, host, steps);
            let handled: TaskModel = Task::Callback(Callback::Handled);
            match called.end {
                End::Return(value) => settles(
                    run(handled, Reply::Got(value), called.caches, called.host, steps),
                    called,
                ),
                End::Raise(error) => settles(
                    run(handled, Reply::Failed(error), called.caches, called.host, steps),
                    called,
                ),
                _ => true,
            }
        }),
{
}

/// Every report goes to whom it concerns, with the chat, the message and the contact that it names:
/// a message that came in, that was delivered, that failed or that was read, and a contact that has
/// changed. Any other report is written into the log, as it matters, and has no other effect.
pub proof fn law_reports_go_where_they_belong(
    chat_id: u32,
    msg_id: u32,
    contact_id: u32,
    text: Seq<char>,
    caches: Caches,
    host: Host,
    steps: nat,
)
    requires
        steps >= 2,
    ensures
        settles(
            start(
                Task::Callback(
                    Callback::Start { event: DeltaEvent::IncomingMsg { chat_id, msg_id } },
                ),
                caches,
                host,
                steps,
            ),
            start(
                Task::Arrival(Arrival::Start { chat_id, msg_id }),
                caches,
                host,
                (steps - 1) as nat,
            ),
        ),
        settles(
            start(
                Task::Callback(
                    Callback::Start { event: DeltaEvent::MsgDelivered { chat_id, msg_id } },
                ),
                caches,
                host,
                steps,
            ),
            start(
                Task::Delivery(Delivery::Delivered { chat_id, msg_id }),
                caches,
                host,
                (steps - 1) as nat,
            ),
        ),
        settles(
            start(
                Task::Callback(
                    Callback::Start { event: DeltaEvent::MsgFailed { chat_id, msg_id } },
                ),
                caches,
                host,
                steps,
            ),
            start(
                Task::Failure(Failure::Start { chat_id, msg_id }),
                caches,
                host,
                (steps - 1) as nat,
            ),
        ),
        settles(
            start(
                Task::Callback(
                    Callback::Start { event: DeltaEvent::MsgRead { chat_id, msg_id, contact_id } },
                ),
                caches,
                host,
                steps,
            ),
            start(
                Task::Delivery(Delivery::Read { chat_id, msg_id, contact_id }),
                caches,
                host,
                (steps - 1) as nat,
            ),
        ),
        settles(
            start(
                Task::Callback(
                    Callback::Start {
                        event: DeltaEvent::ContactsChanged {
                            contact: Some(contact_id),
                            shown: text,
                        },
                    },
                ),
                caches,
                host,
                steps,
            ),
            start(
                Task::Delivery(Delivery::ContactChanged { contact_id }),
                caches,
                host,
                (steps - 1) as nat,
            ),
        ),
        is_only_logged(DeltaEvent::Info { text }, LogLevel::Info, text, caches, host, steps),
        is_only_logged(DeltaEvent::Warning { text }, LogLevel::Warning, text, caches, host, steps),
        is_only_logged(DeltaEvent::Error { text }, LogLevel::Error, text, caches, host, steps),
        is_only_logged(DeltaEvent::Other { shown: text }, LogLevel::Info, text, caches, host, steps),
        is_only_logged(
            DeltaEvent::ContactsChanged { contact: None, shown: text },
            LogLevel::Info,
            text,
            caches,
            host,
            steps,
        ),
{
    let left = (steps - 1) as nat;
    lemma_handled(Task::Arrival(Arrival::Start { chat_id, msg_id }), caches, host, left);
    lemma_handled(Task::Delivery(Delivery::Delivered { chat_id, msg_id }), caches, host, left);
    lemma_handled(Task::Failure(Failure::Start { chat_id, msg_id }), caches, host, left);
    lemma_handled(
        Task::Delivery(Delivery::Read { chat_id, msg_id, contact_id }),
        caches,
        host,
        left,
    );
    lemma_handled(Task::Delivery(Delivery::ContactChanged { contact_id }), caches, host, left);
    lemma_only_logged(DeltaEvent::Info { text }, LogLevel::Info, text, caches, host, steps);
    lemma_only_logged(DeltaEvent::Warning { text }, LogLevel::Warning, text, caches, host, steps);
    lemma_only_logged(DeltaEvent::Error { text }, LogLevel::Error, text, caches, host, steps);
    lemma_only_logged(
        DeltaEvent::Other { shown: text },
        LogLevel::Info,
        text,
        caches,
        host,
        steps,
    );
    lemma_only_logged(
        DeltaEvent::ContactsChanged { contact: None, shown: text },
        LogLevel::Info,
        text,
        caches,
        host,
        steps,
    );
}

proof fn lemma_only_logged(
    event: DeltaEvent<Seq<char>>,
    level: LogLevel,
    text: Seq<char>,
    caches: Caches,
    host: Host,
    steps: nat,
)
    requires
        steps >= 2,
        next(Task::Callback(Callback::Start { event }), Reply::Start, caches) == (
            caches,
            Step::Perform(logging(level, text), Task::Callback(Callback::Handled)),
        ),
    ensures
        is_only_logged(event, level, text, caches, host, steps),
{
    lemma_ask(
        Task::Callback(Callback::Start { event }),
        Reply::Start,
        caches,
        host,
        steps,
        logging(level, text),
        Task::Callback(Callback::Handled),
    );
}

/// Whether a report is written into the log and has no other effect.
pub open spec fn is_only_logged(
    event: DeltaEvent<Seq<char>>,
    level: LogLevel,
    text: Seq<char>,
    caches: Caches,
    host: Host,
    steps: nat,
) -> bool {
    start(Task::Callback(Callback::Start { event }), caches, host, steps) == (Run {
        end: End::Return(Value::Unit),
        caches,
        host: performed(host, logging(level, text)),
    })
}

/// The search for the user of a contact, who is found by number.
pub open spec fn seeking_user(contact_id: u32, refresh: bool) -> TaskModel {
    Task::EmailUser(EmailUser::ById { contact_id, refresh })
}

/// The room that a chat has, if it has one.
pub open spec fn room_of(host: Host, chat_id: u32) -> Option<Seq<char>> {
    match found_room(host, chat_id) {
        Some(room_id) => if is_room_id(room_id) {
            Some(room_id)
        } else {
            None
        },
        None => None,
    }
}

/// The request to mark a chat as noticed.
pub open spec fn noticing(chat: u32) -> RequestModel {
    Request::Delta(DeltaRequest::MarkNoticed { chat })
}

/// A message that came in is loaded, and brought over by the user that stands for who wrote it:
/// into the room of its chat, which then counts as noticed, or into the control room where the chat
/// has no room.
pub proof fn law_incoming_message_comes_over_by_its_author(
    chat_id: u32,
    msg_id: u32,
    message: MessageInfo,
    control: Seq<char>,
    contact: ContactInfo,
    localpart: Seq<char>,
    caches: Caches,
    host: Host,
    steps: nat,
)
    requires
        steps >= 9,
        kept(host.settings, CONTROL_ROOM_KEY@) == Some(control),
        is_room_id(control),
        answers(host, fetching(msg_id), Reply::Message(message)),
        start(
            seeking_user(message.from_id, false),
            caches,
            performed(performed(host, reading(CONTROL_ROOM_KEY@)), fetching(msg_id)),
            (steps - 3) as nat,
        ).end == End::Return(Value::EmailUser { contact, localpart }),
    ensures
        ({
            let done = start(
                Task::Arrival(Arrival::Start { chat_id, msg_id }),
                caches,
                host,
                steps,
            );
            let found = start(
                seeking_user(message.from_id, false),
                caches,
                performed(performed(host, reading(CONTROL_ROOM_KEY@)), fetching(msg_id)),
                (steps - 3) as nat,
            );
            let sought = performed(found.host, seeking_room(chat_id));
            match room_of(found.host, chat_id) {
                Some(room_id) => match reply_to(sought, noticing(chat_id)) {
                    Reply::Got(_) => finishes(
                        done,
                        start(
                            Task::Bridge(
                                Bridge::Start { who: Actor::User(localpart), room_id, message },
                            ),
                            found.caches,
                            performed(sought, noticing(chat_id)),
                            (steps - 6) as nat,
                        ),
                    ),
                    Reply::Failed(error) => done == (Run {
                        end: End::Panic(error),
                        caches: found.caches,
                        host: performed(sought, noticing(chat_id)),
                    }),
                    _ => true,
                },
                None => finishes(
                    done,
                    start(
                        Task::Bridge(
                            Bridge::Start {
                                who: Actor::User(localpart),
                                room_id: control,
                                message,
                            },
                        ),
                        found.caches,
                        sought,
                        (steps - 5) as nat,
                    ),
                ),
            }
        }),
{
    let task: TaskModel = Task::Arrival(Arrival::Start { chat_id, msg_id });
    let done = start(task, caches, host, steps);
    let h1 = performed(host, reading(CONTROL_ROOM_KEY@));
    let h2 = performed(h1, fetching(msg_id));
    let n1 = (steps - 1) as nat;
    let n2 = (steps - 2) as nat;
    let n3 = (steps - 3) as nat;
    let n4 = (steps - 4) as nat;
    let n5 = (steps - 5) as nat;
    let n6 = (steps - 6) as nat;
    lemma_control_room_id(caches, host, n1);
    let known: TaskModel = Task::Arrival(Arrival::ControlKnown { chat_id, msg_id });
    let reply1: ReplyModel = Reply::Got(Value::MaybeText(Some(control)));
    assert(done == run(known, reply1, caches, h1, n1));
    let loaded: TaskModel = Task::Arrival(Arrival::Loaded { chat_id, control });
    lemma_ask(known, reply1, caches, h1, n1, fetching(msg_id), loaded);
    assert(done == run(loaded, Reply::Message(message), caches, h2, n2));
    let found = start(seeking_user(message.from_id, false), caches, h2, n3);
    let ready: TaskModel = Task::Arrival(Arrival::UserReady { chat_id, control, message });
    let reply2: ReplyModel = Reply::Got(Value::EmailUser { contact, localpart });
    assert(done == run(ready, reply2, found.caches, found.host, n3));
    law_room_of_chat(chat_id, found.caches, found.host, n4);
    let sought = performed(found.host, seeking_room(chat_id));
    let room = room_of(found.host, chat_id);
    let stage: TaskModel = Task::Arrival(
        Arrival::RoomKnown { chat_id, control, message, localpart },
    );
    let reply3: ReplyModel = Reply::Got(Value::MaybeText(room));
    assert(done == run(stage, reply3, found.caches, sought, n4));
    let last: TaskModel = Task::Arrival(Arrival::Finish);
    match room {
        Some(room_id) => {
            let noticed: TaskModel = Task::Arrival(
                Arrival::Noticed { room_id, message, localpart },
            );
            lemma_ask(stage, reply3, found.caches, sought, n4, noticing(chat_id), noticed);
            let h5 = performed(sought, noticing(chat_id));
            let over = start(
                Task::Bridge(Bridge::Start { who: Actor::User(localpart), room_id, message }),
                found.caches,
                h5,
                n6,
            );
            if let Reply::Got(_) = reply_to(sought, noticing(chat_id)) {
                match over.end {
                    End::Return(value) => {
                        assert(done == run(last, Reply::Got(value), over.caches, over.host, n6));
                    },
                    End::Raise(error) => {
                        assert(done == run(
                            last,
                            Reply::Failed(error),
                            over.caches,
                            over.host,
                            n6,
                        ));
                    },
                    _ => {},
                }
            }
        },
        None => {
            let over = start(
                Task::Bridge(
                    Bridge::Start { who: Actor::User(localpart), room_id: control, message },
                ),
                found.caches,
                sought,
                n5,
            );
            match over.end {
                End::Return(value) => {
                    assert(done == run(last, Reply::Got(value), over.caches, over.host, n5));
                },
                End::Raise(error) => {
                    assert(done == run(last, Reply::Failed(error), over.caches, over.host, n5));
                },
                _ => {},
            }
        },
    }
}

/// Without a control room a message that came in is not brought over; the log says why.
pub proof fn law_without_a_control_room_nothing_comes_over(
    chat_id: u32,
    msg_id: u32,
    caches: Caches,
    host: Host,
    steps: nat,
)
    requires
        steps >= 3,
        kept(host.settings, CONTROL_ROOM_KEY@) is None,
    ensures
        start(Task::Arrival(Arrival::Start { chat_id, msg_id }), caches, host, steps) == (Run {
            end: End::Return(Value::Unit),
            caches,
            host: performed(
                performed(host, reading(CONTROL_ROOM_KEY@)),
                logging(LogLevel::Error, "no control room registered"@),
            ),
        }),
{
    let left = (steps - 1) as nat;
    lemma_control_room_id(caches, host, left);
    lemma_ask(
        Task::Arrival(Arrival::ControlKnown { chat_id, msg_id }),
        Reply::Got(Value::MaybeText(None)),
        caches,
        performed(host, reading(CONTROL_ROOM_KEY@)),
        left,
        logging(LogLevel::Error, "no control room registered"@),
        Task::Arrival(Arrival::Finish),
    );
}

/// That a message could not be sent is said by the user that stands for who wrote it: the message
/// is loaded, its author is looked up, and then the right place is found.
pub proof fn law_failure_is_said_by_the_author(
    chat_id: u32,
    msg_id: u32,
    message: MessageInfo,
    caches: Caches,
    host: Host,
    steps: nat,
)
    requires
        steps >= 3,
        answers(host, fetching(msg_id), Reply::Message(message)),
    ensures
        ({
            let done = start(
                Task::Failure(Failure::Start { chat_id, msg_id }),
                caches,
                host,
                steps,
            );
            let left = (steps - 2) as nat;
            let found = start(
                seeking_user(message.from_id, false),
                caches,
                performed(host, fetching(msg_id)),
                left,
            );
            match found.end {
                End::Return(value) => done == run(
                    Task::Failure(Failure::UserReady { chat_id }),
                    Reply::Got(value),
                    found.caches,
                    found.host,
                    left,
                ),
                _ => done == found,
            }
        }),
{
    lemma_ask(
        Task::Failure(Failure::Start { chat_id, msg_id }),
        Reply::Start,
        caches,
        host,
        steps,
        fetching(msg_id),
        Task::Failure(Failure::Loaded { chat_id }),
    );
    let found = start(
        seeking_user(message.from_id, false),
        caches,
        performed(host, fetching(msg_id)),
        (steps - 2) as nat,
    );
    if let End::Raise(error) = found.end {
        assert(start(Task::Failure(Failure::Start { chat_id, msg_id }), caches, host, steps) == run(
            Task::Failure(Failure::UserReady { chat_id }),
            Reply::Failed(error),
            found.caches,
            found.host,
            (steps - 2) as nat,
        ));
    }
}

/// The request that marks an event as read.
pub open spec fn marking(
    who: Actor<Seq<char>>,
    room: Seq<char>,
    event: Seq<char>,
) -> RequestModel {
    Request::Matrix(
        MatrixRequest::ReadMarker { who, room, fully_read: event, receipt: event },
    )
}

/// Once a contact has read a message, the user of that contact marks the event of the message as
/// read in the room of the chat. Without a room nobody is looked up, and without an event nothing
/// is marked.
pub proof fn law_message_that_was_read_is_marked_by_its_reader(
    chat_id: u32,
    msg_id: u32,
    contact_id: u32,
    contact: ContactInfo,
    localpart: Seq<char>,
    caches: Caches,
    host: Host,
    steps: nat,
)
    requires
        steps >= 6,
        start(
            seeking_user(contact_id, false),
            caches,
            performed(host, seeking_room(chat_id)),
            (steps - 2) as nat,
        ).end == End::Return(Value::EmailUser { contact, localpart }),
    ensures
        ({
            let done = start(
                Task::Delivery(Delivery::Read { chat_id, msg_id, contact_id }),
                caches,
                host,
                steps,
            );
            let sought = performed(host, seeking_room(chat_id));
            let found = start(seeking_user(contact_id, false), caches, sought, (steps - 2) as nat);
            match room_of(host, chat_id) {
                Some(room_id) => if found.caches.events.contains_key(msg_id) {
                    let request = marking(
                        Actor::User(localpart),
                        room_id,
                        found.caches.events[msg_id],
                    );
                    &&& done.caches == found.caches
                    &&& done.host == performed(found.host, request)
                    &&& match reply_to(found.host, request) {
                        Reply::Got(_) => done.end == End::Return(Value::Unit),
                        Reply::Failed(error) => done.end == End::Raise(error),
                        _ => true,
                    }
                } else {
                    done == (Run { end: End::Return(Value::Unit), ..found })
                },
                None => done == (Run { end: End::Return(Value::Unit), caches, host: sought }),
            }
        }),
{
    let done = start(
        Task::Delivery(Delivery::Read { chat_id, msg_id, contact_id }),
        caches,
        host,
        steps,
    );
    let n1 = (steps - 1) as nat;
    let n2 = (steps - 2) as nat;
    law_room_of_chat(chat_id, caches, host, n1);
    let sought = performed(host, seeking_room(chat_id));
    let room = room_of(host, chat_id);
    let stage: TaskModel = Task::Delivery(Delivery::ReadRoom { msg_id, contact_id });
    assert(done == run(stage, Reply::Got(Value::MaybeText(room)), caches, sought, n1));
    if let Some(room_id) = room {
        let found = start(seeking_user(contact_id, false), caches, sought, n2);
        let ready: TaskModel = Task::Delivery(Delivery::ReadUser { msg_id, room_id });
        let reply: ReplyModel = Reply::Got(Value::EmailUser { contact, localpart });
        assert(done == run(ready, reply, found.caches, found.host, n2));
        if found.caches.events.contains_key(msg_id) {
            let request = marking(Actor::User(localpart), room_id, found.caches.events[msg_id]);
            lemma_ask(
                ready,
                reply,
                found.caches,
                found.host,
                n2,
                request,
                Task::Delivery(Delivery::Finish),
            );
        }
    }
}

/// Once a message is delivered, the bridge marks its event as read in the room of the chat, but
/// only where the chat has a room, the bridge is in it, and there is an event.
pub proof fn law_message_that_was_delivered_is_marked_by_the_bridge(
    chat_id: u32,
    msg_id: u32,
    joined: bool,
    caches: Caches,
    host: Host,
    steps: nat,
)
    requires
        steps >= 6,
        room_of(host, chat_id) matches Some(room_id) ==> answers(
            host,
            is_in(Actor::Main, room_id),
            Reply::Got(Value::Flag(joined)),
        ),
    ensures
        ({
            let done = start(
                Task::Delivery(Delivery::Delivered { chat_id, msg_id }),
                caches,
                host,
                steps,
            );
            let sought = performed(host, seeking_room(chat_id));
            match room_of(host, chat_id) {
                Some(room_id) => {
                    let tried = performed(sought, is_in(Actor::Main, room_id));
                    if joined && caches.events.contains_key(msg_id) {
                        let request = marking(Actor::Main, room_id, caches.events[msg_id]);
                        &&& done.caches == caches
                        &&& done.host == performed(tried, request)
                        &&& match reply_to(tried, request) {
                            Reply::Got(_) => done.end == End::Return(Value::Unit),
                            Reply::Failed(error) => done.end == End::Raise(error),
                            _ => true,
                        }
                    } else {
                        done == (Run { end: End::Return(Value::Unit), caches, host: tried })
                    }
                },
                None => done == (Run { end: End::Return(Value::Unit), caches, host: sought }),
            }
        }),
{
    let done = start(
        Task::Delivery(Delivery::Delivered { chat_id, msg_id }),
        caches,
        host,
        steps,
    );
    let n1 = (steps - 1) as nat;
    let n2 = (steps - 2) as nat;
    law_room_of_chat(chat_id, caches, host, n1);
    let sought = performed(host, seeking_room(chat_id));
    let room = room_of(host, chat_id);
    let stage: TaskModel = Task::Delivery(Delivery::DeliveredRoom { msg_id });
    assert(done == run(stage, Reply::Got(Value::MaybeText(room)), caches, sought, n1));
    if let Some(room_id) = room {
        let asking = is_in(Actor::Main, room_id);
        let tried: TaskModel = Task::Delivery(Delivery::DeliveredTried { msg_id, room_id });
        let reply: ReplyModel = Reply::Got(Value::MaybeText(room));
        lemma_ask(stage, reply, caches, sought, n1, asking, tried);
        let h2 = performed(sought, asking);
        let flag: ReplyModel = Reply::Got(Value::Flag(joined));
        assert(done == run(tried, flag, caches, h2, n2));
        if joined && caches.events.contains_key(msg_id) {
            let request = marking(Actor::Main, room_id, caches.events[msg_id]);
            lemma_ask(
                tried,
                flag,
                caches,
                h2,
                n2,
                request,
                Task::Delivery(Delivery::Finish),
            );
        }
    }
}

/// When a contact has changed, its user is made ready anew, whether it is ready or not.
pub proof fn law_changed_contact_is_refreshed(
    contact_id: u32,
    caches: Caches,
    host: Host,
    steps: nat,
)
    requires
        steps >= 2,
    ensures
        finishes(
            start(Task::Delivery(Delivery::ContactChanged { contact_id }), caches, host, steps),
            start(seeking_user(contact_id, true), caches, host, (steps - 1) as nat),
        ),
{
    let left = (steps - 1) as nat;
    let found = start(seeking_user(contact_id, true), caches, host, left);
    let last: TaskModel = Task::Delivery(Delivery::Finish);
    match found.end {
        End::Return(value) => {
            assert(run(last, Reply::Got(value), found.caches, found.host, left).host
                == found.host);
        },
        End::Raise(error) => {
            assert(run(last, Reply::Failed(error), found.caches, found.host, left).host
                == found.host);
        },
        _ => {},
    }
}

}
