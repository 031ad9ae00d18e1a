//! How a client learns the state of a room.
use vstd::prelude::*;

use crate::appservice::Caches;
use crate::compat::{by_room, events_of, named_rooms, next_nameless, sort_on, RoomState};
use crate::laws::bridging::run_on;
use crate::laws::settings::logging;
use crate::protocol::{
    Actor, LogLevel, MatrixRequest, Reply, ReplyModel, Request, RequestModel, StateEvent, Value,
};
use crate::run::{answers, lemma_ask, performed, reply_to, run, start, End, Host, Run};
use crate::task::{lemma_room_state, Task};

verus! {

broadcast use lemma_room_state;

/// What is logged of the events from a place on that name no room, in order.
pub open spec fn dropped(events: Seq<StateEvent>, at: int) -> Seq<RequestModel>
    decreases events.len() - at,
{
    if at < 0 || at >= events.len() {
        seq![]
    } else if events[at].room_id is None {
        seq![logging(LogLevel::Warning, "Event without room_id: "@ + events[at].json@)] + dropped(events, at + 1)
    } else {
        dropped(events, at + 1)
    }
}

proof fn lemma_next_dropped(events: Seq<StateEvent>, at: int)
    requires
        0 <= at,
    ensures
        match next_nameless(events, at) {
            Some((place, json)) => {
                &&& at <= place < events.len()
                &&& dropped(events, at) == seq![logging(LogLevel::Warning, "Event without room_id: "@ + json)]
                    + dropped(events, place + 1)
            },
            None => dropped(events, at) == Seq::<RequestModel>::empty(),
        },
    decreases events.len() - at,
{
    if at < events.len() && events[at].room_id is Some {
        lemma_next_dropped(events, at + 1);
    }
}

/// The question for the state of a room.
pub open spec fn asking_state(who: Actor<Seq<char>>, room_id: Seq<char>) -> RequestModel {
    Request::Matrix(MatrixRequest::StateEvents { who, room: room_id })
}

/// The question how some events are shown.
pub open spec fn showing(events: Seq<StateEvent>) -> RequestModel {
    Request::Matrix(MatrixRequest::ShowSync { token: "batch"@, rooms: by_room(events) })
}

/// The request to hand some events to a client.
pub open spec fn handing_over(who: Actor<Seq<char>>, events: Seq<StateEvent>) -> RequestModel {
    Request::Matrix(MatrixRequest::ProcessSync { who, token: "batch"@, rooms: by_room(events) })
}

/// What is asked for once no event is dropped any more: the events are traced in the log, and
/// then handed over.
pub open spec fn handed_over(
    who: Actor<Seq<char>>,
    events: Seq<StateEvent>,
    shown: Seq<char>,
) -> Seq<RequestModel> {
    seq![
        showing(events),
        logging(LogLevel::Trace, "Updating state with sync_response: "@ + shown),
        handing_over(who, events),
    ]
}

proof fn lemma_sorted(
    who: Actor<Seq<char>>,
    events: Vec<StateEvent>,
    at: usize,
    shown: Seq<char>,
    caches: Caches,
    host: Host,
    steps: nat,
)
    requires
        at <= events@.len(),
        steps >= events@.len() - at + 3,
        answers(host, showing(events@), Reply::Got(Value::Text(shown))),
        answers(host, handing_over(who, events@), Reply::Got(Value::Unit)),
    ensures
        run_on(sort_on(who, events, at), caches, host, steps) == (Run {
            end: End::Return(Value::Unit),
            caches,
            host: Host {
                asked: host.asked + dropped(events@, at as int) + handed_over(who, events@, shown),
                ..host
            },
        }),
    decreases events@.len() - at,
{
    assert(events.len() == events@.len());
    lemma_next_dropped(events@, at as int);
    let done = run_on(sort_on(who, events, at), caches, host, steps);
    let left = (steps - 1) as nat;
    let unit: ReplyModel = Reply::Got(Value::Unit);
    match next_nameless(events@, at as int) {
        Some((place, json)) => {
            let line = logging(LogLevel::Warning, "Event without room_id: "@ + json);
            let then = (place + 1) as usize;
            let h1 = performed(host, line);
            let sorting = Task::RoomState(RoomState::Sorting { who, events, at: then });
            assert(done == run(sorting, unit, caches, h1, steps));
            assert(done == run_on(sort_on(who, events, then), caches, h1, left));
            lemma_sorted(who, events, then, shown, caches, h1, left);
            assert(done.host.asked =~= host.asked + dropped(events@, at as int) + handed_over(
                who,
                events@,
                shown,
            ));
        },
        None => {
            let line = logging(LogLevel::Trace, "Updating state with sync_response: "@ + shown);
            let h1 = performed(host, showing(events@));
            let h2 = performed(h1, line);
            let h3 = performed(h2, handing_over(who, events@));
            let told: ReplyModel = Reply::Got(Value::Text(shown));
            let stage1 = Task::RoomState(RoomState::Shown { who, events });
            let stage2 = Task::RoomState(RoomState::Traced { who, events });
            let stage3 = Task::RoomState(RoomState::Processed);
            assert(done == run(stage1, told, caches, h1, steps));
            lemma_ask(stage1, told, caches, h1, steps, line, stage2);
            lemma_ask(stage2, unit, caches, h2, left, handing_over(who, events@), stage3);
            assert(reply_to(h2, handing_over(who, events@)) == unit);
            assert(done.host.asked =~= host.asked + dropped(events@, at as int) + handed_over(
                who,
                events@,
                shown,
            ));
        },
    }
}

/// A client that asks for the state of a room is handed all events that name a room, each with
/// its room. Of each event that names none it is said in the log that it is dropped; what is
/// handed over is traced there first. Nothing else happens.
pub proof fn law_client_learns_the_state_of_a_room(
    who: Actor<Seq<char>>,
    room_id: Seq<char>,
    events: Vec<StateEvent>,
    shown: Seq<char>,
    caches: Caches,
    host: Host,
    steps: nat,
)
    requires
        steps >= events@.len() + 5,
        answers(host, asking_state(who, room_id), Reply::StateEvents(events)),
        answers(host, showing(events@), Reply::Got(Value::Text(shown))),
        answers(host, handing_over(who, events@), Reply::Got(Value::Unit)),
    ensures
        start(Task::RoomState(RoomState::Fetch { who, room_id }), caches, host, steps) == (Run {
            end: End::Return(Value::Unit),
            caches,
            host: Host {
                asked: host.asked.push(asking_state(who, room_id)) + dropped(events@, 0)
                    + handed_over(who, events@, shown),
                ..host
            },
        }),
{
    let request = asking_state(who, room_id);
    let fetch = Task::RoomState(RoomState::Fetch { who, room_id });
    let fetched = Task::RoomState(RoomState::Fetched { who });
    let then = performed(host, request);
    lemma_ask(fetch, Reply::Start, caches, host, steps, request, fetched);
    assert(reply_to(host, request) == ReplyModel::StateEvents(events));
    assert(start(fetch, caches, host, steps) == run_on(
        sort_on(who, events, 0),
        caches,
        then,
        (steps - 2) as nat,
    ));
    lemma_sorted(who, events, 0, shown, caches, then, (steps - 2) as nat);
}

/// Whether an event names a room.
pub open spec fn names(event: StateEvent, room: Seq<char>) -> bool {
    event.room_id is Some && event.room_id->Some_0@ == room
}

proof fn lemma_events_of(events: Seq<StateEvent>, room: Seq<char>)
    ensures
        events_of(events, room) == events.filter(|event: StateEvent| names(event, room)).map_values(
            |event: StateEvent| event.json@,
        ),
    decreases events.len(),
{
    reveal(Seq::filter);
    let json = |event: StateEvent| event.json@;
    let kept = events.filter(|event: StateEvent| names(event, room)).map_values(json);
    if events.len() > 0 {
        lemma_events_of(events.drop_last(), room);
        let before = events.drop_last().filter(|event: StateEvent| names(event, room));
        assert(before.push(events.last()).map_values(json) =~= before.map_values(json).push(
            events.last().json@,
        ));
    }
    assert(events_of(events, room) =~= kept);
}

proof fn lemma_named_by(events: Seq<StateEvent>, room: Seq<char>)
    requires
        named_rooms(events).contains(room),
    ensures
        exists|i: int| 0 <= i < events.len() && #[trigger] names(events[i], room),
    decreases events.len(),
{
    let front = events.drop_last();
    if named_rooms(front).contains(room) {
        lemma_named_by(front, room);
        let i = choose|i: int| 0 <= i < front.len() && #[trigger] names(front[i], room);
        assert(names(events[i], room));
    } else {
        let k = choose|k: int| 0 <= k < named_rooms(events).len() && named_rooms(events)[k] == room;
        if k < named_rooms(front).len() {
            assert(named_rooms(front)[k] == named_rooms(events)[k]);
        }
        assert(names(events[events.len() - 1], room));
    }
}

/// What a room is given is exactly the events that name it, in the order in which they came; and a
/// room is given something only if an event names it.
pub proof fn law_each_room_gets_its_own_events(events: Seq<StateEvent>, k: int)
    requires
        0 <= k < by_room(events).len(),
    ensures
        ({
            let given = by_room(events)[k];
            &&& given.events == events.filter(
                |event: StateEvent| names(event, given.room_id),
            ).map_values(|event: StateEvent| event.json@)
            &&& exists|i: int| 0 <= i < events.len() && #[trigger] names(events[i], given.room_id)
        }),
{
    let room = named_rooms(events)[k];
    lemma_events_of(events, room);
    assert(named_rooms(events).contains(room));
    lemma_named_by(events, room);
}

}
