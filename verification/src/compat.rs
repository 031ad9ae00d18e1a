//! The state of a room that the bridge has just made.
use vstd::prelude::*;

use crate::protocol::{
    ask_matrix, batch, dup_actor, finish, finished, matrix, note, noted, Actor, LogLevel,
    MatrixRequest, Reply, ReplyModel, RoomEvents, RoomEventsModel, StateEvent, Step, StepModel,
    Value,
};
use crate::task::{Task, TaskModel};
use crate::text::{join2, opt_text, pushed, same, texts};

verus! {

/// What the answer that is made up for the client is marked with.
pub const BATCH: &'static str = "batch";

/// How a client learns the state of a room.
#[derive(Debug, PartialEq, Eq)]
pub enum RoomState<T = String> {
    Fetch { who: Actor<T>, room_id: T },
    Fetched { who: Actor<T> },
    Sorting { who: Actor<T>, events: Vec<StateEvent>, at: usize },
    Shown { who: Actor<T>, events: Vec<StateEvent> },
    Traced { who: Actor<T>, events: Vec<StateEvent> },
    Processed,
}

/// The same over mathematical text.
pub type RoomStateModel = RoomState<Seq<char>>;

impl View for RoomState {
    type V = RoomStateModel;

    open spec fn view(&self) -> RoomStateModel {
        match self {
            RoomState::Fetch { who, room_id } => RoomState::Fetch { who: who@, room_id: room_id@ },
            RoomState::Fetched { who } => RoomState::Fetched { who: who@ },
            RoomState::Sorting { who, events, at } => RoomState::Sorting { who: who@, events: *events, at: *at },
            RoomState::Shown { who, events } => RoomState::Shown { who: who@, events: *events },
            RoomState::Traced { who, events } => RoomState::Traced { who: who@, events: *events },
            RoomState::Processed => RoomState::Processed,
        }
    }
}

/// The rooms that some events name, each once, in the order in which they are first named.
pub open spec fn named_rooms(events: Seq<StateEvent>) -> Seq<Seq<char>>
    decreases events.len(),
{
    if events.len() == 0 {
        seq![]
    } else {
        let before = named_rooms(events.drop_last());
        match opt_text(events.last().room_id) {
            Some(room) => if before.contains(room) {
                before
            } else {
                before.push(room)
            },
            None => before,
        }
    }
}

/// The events of one room, in order.
pub open spec fn events_of(events: Seq<StateEvent>, room: Seq<char>) -> Seq<Seq<char>>
    decreases events.len(),
{
    if events.len() == 0 {
        seq![]
    } else {
        let before = events_of(events.drop_last(), room);
        if opt_text(events.last().room_id) == Some(room) {
            before.push(events.last().json@)
        } else {
            before
        }
    }
}

/// Events by the room that they name. An event that names no room is dropped.
pub open spec fn by_room(events: Seq<StateEvent>) -> Seq<RoomEventsModel> {
    named_rooms(events).map_values(
        |room: Seq<char>| RoomEvents { room_id: room, events: events_of(events, room) },
    )
}

/// What is logged before an event that names no room.
pub const NAMELESS: &'static str = "Event without room_id: ";

/// What is logged before the answer that is made up for the client.
pub const UPDATING: &'static str = "Updating state with sync_response: ";

/// The next place at which an event names no room.
pub open spec fn next_nameless(events: Seq<StateEvent>, at: int) -> Option<(int, Seq<char>)>
    decreases events.len() - at,
{
    if at < 0 || at >= events.len() {
        None
    } else if events[at].room_id is None {
        Some((at, events[at].json@))
    } else {
        next_nameless(events, at + 1)
    }
}

/// Says in the log which event is dropped next; asks how the others are shown once none is left.
pub open spec fn sort_on(
    who: Actor<Seq<char>>,
    events: Vec<StateEvent>,
    at: usize,
) -> StepModel {
    match next_nameless(events@, at as int) {
        Some((place, json)) => noted(
            LogLevel::Warning,
            NAMELESS@ + json,
            Task::RoomState(RoomState::Sorting { who, events, at: (place + 1) as usize }),
        ),
        None => matrix(
            MatrixRequest::ShowSync { token: BATCH@, rooms: by_room(events@) },
            Task::RoomState(RoomState::Shown { who, events }),
        ),
    }
}

/// How a client learns the state of a room. What it is handed is traced in the log first.
pub open spec fn room_state_next(s: RoomStateModel, reply: ReplyModel) -> StepModel {
    match (s, reply) {
        (RoomState::Fetch { who, room_id }, Reply::Start) => matrix(
            MatrixRequest::StateEvents { who, room: room_id },
            Task::RoomState(RoomState::Fetched { who }),
        ),
        (RoomState::Fetched { who }, Reply::StateEvents(events)) => sort_on(who, events, 0),
        (RoomState::Sorting { who, events, at }, Reply::Got(_)) => sort_on(who, events, at),
        (RoomState::Shown { who, events }, Reply::Got(Value::Text(shown))) => noted(
            LogLevel::Trace,
            UPDATING@ + shown,
            Task::RoomState(RoomState::Traced { who, events }),
        ),
        (RoomState::Traced { who, events }, Reply::Got(_)) => matrix(
            MatrixRequest::ProcessSync { who, token: BATCH@, rooms: by_room(events@) },
            Task::RoomState(RoomState::Processed),
        ),
        (RoomState::Fetched { .. }, Reply::Failed(error)) => Step::Raise(error),
        (RoomState::Processed, reply) => finished(reply),
        _ => Step::Mismatch,
    }
}

proof fn lemma_named_rooms_are_distinct(events: Seq<StateEvent>)
    ensures
        named_rooms(events).no_duplicates(),
    decreases events.len(),
{
    if events.len() > 0 {
        lemma_named_rooms_are_distinct(events.drop_last());
    }
}

proof fn lemma_unnamed_room_has_no_events(events: Seq<StateEvent>, room: Seq<char>)
    requires
        !named_rooms(events).contains(room),
    ensures
        events_of(events, room).len() == 0,
    decreases events.len(),
{
    if events.len() > 0 {
        let before = named_rooms(events.drop_last());
        match opt_text(events.last().room_id) {
            Some(named) => {
                if !before.contains(named) {
                    assert(before.push(named)[before.len() as int] == named);
                    assert forall|i: int| 0 <= i < before.len() implies before[i] != room by {
                        assert(before.push(named)[i] == before[i]);
                    }
                }
            },
            None => {},
        }
        lemma_unnamed_room_has_no_events(events.drop_last(), room);
    }
}

/// Groups events by the room that they name.
pub fn group_by_room(events: &Vec<StateEvent>) -> (r: Vec<RoomEvents>)
    ensures
        batch(r@) == by_room(events@),
{
    let mut r: Vec<RoomEvents> = Vec::new();
    let mut i: usize = 0;
    proof {
        assert(batch(r@) =~= by_room(events@.take(0)));
    }
    while i < events.len()
        invariant
            i <= events.len(),
            batch(r@) == by_room(events@.take(i as int)),
        decreases events.len() - i,
    {
        let ghost before = events@.take(i as int);
        let ghost after = events@.take(i + 1);
        proof {
            assert(after.drop_last() =~= before);
            lemma_named_rooms_are_distinct(before);
        }
        match &events[i].room_id {
            Some(room) => {
                let mut k: usize = 0;
                while k < r.len() && !same(r[k].room_id.as_str(), room.as_str())
                    invariant
                        k <= r.len(),
                        forall|j: int| 0 <= j < k ==> r@[j].room_id@ != room@,
                    decreases r.len() - k,
                {
                    k = k + 1;
                }
                let ghost rooms = named_rooms(before);
                proof {
                    assert(batch(r@).len() == r@.len());
                    assert(by_room(before).len() == rooms.len());
                    assert forall|j: int| 0 <= j < r@.len() implies r@[j].room_id@
                        == #[trigger] rooms[j] by {
                        assert(batch(r@)[j].room_id == r@[j].room_id@);
                        assert(by_room(before)[j].room_id == rooms[j]);
                    }
                }
                if k < r.len() {
                    let ghost old_r = r@;
                    let mut list: Vec<String> = Vec::new();
                    std::mem::swap(&mut list, &mut r[k].events);
                    list = pushed(list, events[i].json.clone());
                    r[k].events = list;
                    proof {
                        assert(rooms[k as int] == room@);
                        assert(rooms.contains(room@));
                        assert(batch(r@) =~= by_room(after)) by {
                            assert forall|j: int| 0 <= j < r@.len() implies batch(r@)[j] == by_room(
                                after,
                            )[j] by {
                                assert(batch(old_r)[j] == by_room(before)[j]);
                                if j != k {
                                    assert(rooms[j] != room@);
                                }
                            }
                        }
                    }
                } else {
                    proof {
                        assert forall|j: int| 0 <= j < rooms.len() implies rooms[j] != room@ by {
                            assert(batch(r@)[j].room_id == rooms[j]);
                        }
                        lemma_unnamed_room_has_no_events(before, room@);
                    }
                    let ghost old_r = r@;
                    let list: Vec<String> = pushed(Vec::new(), events[i].json.clone());
                    r.push(RoomEvents { room_id: room.clone(), events: list });
                    proof {
                        assert(batch(r@) =~= by_room(after)) by {
                            assert forall|j: int| 0 <= j < r@.len() implies batch(r@)[j] == by_room(
                                after,
                            )[j] by {
                                if j < old_r.len() {
                                    assert(batch(old_r)[j] == by_room(before)[j]);
                                } else {
                                    assert(texts(list@) =~= events_of(after, room@));
                                }
                            }
                        }
                    }
                }
            },
            None => {
                proof {
                    assert(by_room(after) =~= by_room(before));
                }
            },
        }
        i = i + 1;
    }
    proof {
        assert(events@.take(i as int) =~= events@);
    }
    r
}

fn sort_from(who: Actor, events: Vec<StateEvent>, at: usize) -> (s: Step)
    ensures
        s@ == sort_on(who@, events, at),
{
    let mut k: usize = at;
    while k < events.len()
        invariant
            at <= k,
            next_nameless(events@, k as int) == next_nameless(events@, at as int),
        decreases events.len() - k,
    {
        if events[k].room_id.is_none() {
            let line: String = join2(NAMELESS, events[k].json.as_str());
            return note(
                LogLevel::Warning,
                line,
                Task::RoomState(RoomState::Sorting { who, events, at: k + 1 }),
            );
        }
        k = k + 1;
    }
    ask_matrix(
        MatrixRequest::ShowSync { token: BATCH.to_owned(), rooms: group_by_room(&events) },
        Task::RoomState(RoomState::Shown { who, events }),
    )
}

/// Goes on with telling a client the state of a room.
pub(crate) fn room_state_resume(s: RoomState, reply: Reply) -> (step: Step)
    ensures
        step@ == room_state_next(s@, reply@),
{
    match (s, reply) {
        (RoomState::Fetch { who, room_id }, Reply::Start) => ask_matrix(
            MatrixRequest::StateEvents { who: dup_actor(&who), room: room_id },
            Task::RoomState(RoomState::Fetched { who }),
        ),
        (RoomState::Fetched { who }, Reply::StateEvents(events)) => sort_from(who, events, 0),
        (RoomState::Sorting { who, events, at }, Reply::Got(_)) => sort_from(who, events, at),
        (RoomState::Shown { who, events }, Reply::Got(Value::Text(shown))) => note(
            LogLevel::Trace,
            join2(UPDATING, shown.as_str()),
            Task::RoomState(RoomState::Traced { who, events }),
        ),
        (RoomState::Traced { who, events }, Reply::Got(_)) => ask_matrix(
            MatrixRequest::ProcessSync {
                who,
                token: BATCH.to_owned(),
                rooms: group_by_room(&events),
            },
            Task::RoomState(RoomState::Processed),
        ),
        (RoomState::Fetched { .. }, Reply::Failed(error)) => Step::Raise(error),
        (RoomState::Processed, reply) => finish(reply),
        _ => Step::Mismatch,
    }
}

/// Tells a client the state of a room.
pub fn fetch_initial_room_state(who: Actor, room_id: &str) -> (t: Task)
    ensures
        t@ == TaskModel::RoomState(RoomState::Fetch { who: who@, room_id: room_id@ }),
{
    Task::RoomState(RoomState::Fetch { who, room_id: room_id.to_owned() })
}

/// No room stands twice in what events are grouped into.
pub proof fn law_rooms_are_grouped_once(events: Seq<StateEvent>)
    ensures
        forall|i: int, j: int|
            0 <= i < j < by_room(events).len() ==> by_room(events)[i].room_id != by_room(
                events,
            )[j].room_id,
{
    lemma_named_rooms_are_distinct(events);
    assert forall|i: int, j: int| 0 <= i < j < by_room(events).len() implies by_room(
        events,
    )[i].room_id != by_room(events)[j].room_id by {
        assert(named_rooms(events)[i] != named_rooms(events)[j]);
    }
}

/// Each event that names a room is found with that room.
pub proof fn law_grouping_loses_no_event(events: Seq<StateEvent>, i: int)
    requires
        0 <= i < events.len(),
        events[i].room_id is Some,
    ensures
        exists|k: int|
            0 <= k < by_room(events).len() && #[trigger] by_room(events)[k].room_id
                == events[i].room_id.unwrap()@ && by_room(events)[k].events.contains(
                events[i].json@,
            ),
{
    let room = events[i].room_id.unwrap()@;
    lemma_named(events, i);
    let k = named_rooms(events).index_of(room);
    assert(by_room(events)[k].room_id == room);
}

proof fn lemma_named(events: Seq<StateEvent>, i: int)
    requires
        0 <= i < events.len(),
        events[i].room_id is Some,
    ensures
        named_rooms(events).contains(events[i].room_id.unwrap()@),
        events_of(events, events[i].room_id.unwrap()@).contains(events[i].json@),
    decreases events.len(),
{
    let room = events[i].room_id.unwrap()@;
    let before = named_rooms(events.drop_last());
    let list = events_of(events.drop_last(), room);
    if i == events.len() - 1 {
        if !before.contains(room) {
            assert(before.push(room)[before.len() as int] == room);
        }
        assert(list.push(events[i].json@)[list.len() as int] == events[i].json@);
    } else {
        assert(events.drop_last()[i] == events[i]);
        lemma_named(events.drop_last(), i);
        let k = before.index_of(room);
        let m = list.index_of(events[i].json@);
        match opt_text(events.last().room_id) {
            Some(last) => {
                if !before.contains(last) {
                    assert(before.push(last)[k] == room);
                }
                if last == room {
                    assert(list.push(events.last().json@)[m] == events[i].json@);
                }
            },
            None => {},
        }
    }
}

}
