//! What becomes of changes in rooms, and how the space is made.
use vstd::prelude::*;

use crate::appservice::{Caches, Settings, CONTROL_ROOM_KEY, OWNER_KEY};
use crate::compat::RoomState;
use crate::laws::reports::{finishes, settles};
use crate::laws::rooms::{is_in, is_ours, main_user, reading};
use crate::laws::settings::{
    found_chat, law_chat_of_room, lemma_chat_search, lemma_clear_pair, lemma_control_room_id,
};
use crate::matrix_events::{Member, Membership, RoomMemberEvent, RoomTopicEvent, Topic};
use crate::matrix_intents::{Clear, Space};
use crate::numbers::digits;
use crate::outside::{is_room_id, user_id_parts};
use crate::protocol::{
    Actor, DeltaRequest, MatrixRequest, Reply, ReplyModel, Request, RequestModel, RoomPreset,
    Value,
};
use crate::run::{answers, kept, lemma_ask, performed, reply_to, run, start, End, Host, Run};
use crate::task::{lemma_member, lemma_settings, lemma_space, lemma_topic, Task, TaskModel};

verus! {

broadcast use {lemma_member, lemma_settings, lemma_space, lemma_topic};

/// The question for the local part of the bridge itself.
pub open spec fn asking_own_name() -> RequestModel {
    Request::Matrix(MatrixRequest::SenderLocalpart)
}

/// What is asked of each change among members: who the bridge is, and whether it manages the
/// member.
pub open spec fn watching(host: Host, member: Seq<char>) -> Host {
    performed(performed(host, asking_own_name()), is_ours(member))
}

/// What becomes of a change among the members of a room. An invitation counts where it is the
/// bridge that is invited, and a departure where it is somebody whom the bridge does not manage.
/// Anything else has no effect.
pub proof fn law_invitations_and_departures_count(
    event: RoomMemberEvent,
    localpart: Seq<char>,
    server: Seq<char>,
    own: Seq<char>,
    ours: bool,
    caches: Caches,
    host: Host,
    steps: nat,
)
    requires
        steps >= 4,
        user_id_parts(event.state_key@) == Ok::<(Seq<char>, Seq<char>), Seq<char>>(
            (localpart, server),
        ),
        answers(host, asking_own_name(), Reply::Got(Value::Text(own))),
        answers(host, is_ours(event.state_key@), Reply::Got(Value::Flag(ours))),
    ensures
        ({
            let done = start(Task::Member(Member::Start { event }), caches, host, steps);
            let watched = watching(host, event.state_key@);
            let left = (steps - 3) as nat;
            let room_id = event.room_id@;
            if event.membership == Membership::Invite && localpart == own {
                finishes(
                    done,
                    start(
                        Task::Member(Member::Invite { room_id, sender: event.sender@ }),
                        caches,
                        watched,
                        left,
                    ),
                )
            } else if event.membership == Membership::Leave && !ours {
                finishes(
                    done,
                    start(Task::Member(Member::Leave { room_id }), caches, watched, left),
                )
            } else {
                done == (Run { end: End::Return(Value::Unit), caches, host: watched })
            }
        }),
{
    let task: TaskModel = Task::Member(Member::Start { event });
    let done = start(task, caches, host, steps);
    let known: TaskModel = Task::Member(Member::MainKnown { event, localpart });
    let tested: TaskModel = Task::Member(Member::Tested { event, is_main: localpart == own });
    let h1 = performed(host, asking_own_name());
    let n1 = (steps - 1) as nat;
    let n2 = (steps - 2) as nat;
    let n3 = (steps - 3) as nat;
    let room_id = event.room_id@;
    let watched = watching(host, event.state_key@);
    lemma_ask(task, Reply::Start, caches, host, steps, asking_own_name(), known);
    lemma_ask(
        known,
        Reply::Got(Value::Text(own)),
        caches,
        h1,
        n1,
        is_ours(event.state_key@),
        tested,
    );
    assert(done == run(tested, Reply::Got(Value::Flag(ours)), caches, watched, n2));
    let last: TaskModel = Task::Member(Member::Finish);
    let callee: TaskModel = if event.membership == Membership::Invite {
        Task::Member(Member::Invite { room_id, sender: event.sender@ })
    } else {
        Task::Member(Member::Leave { room_id })
    };
    let called = start(callee, caches, watched, n3);
    if (event.membership == Membership::Invite && localpart == own) || (event.membership
        == Membership::Leave && !ours) {
        match called.end {
            End::Return(value) => {
                assert(done == run(last, Reply::Got(value), called.caches, called.host, n3));
            },
            End::Raise(error) => {
                assert(done == run(last, Reply::Failed(error), called.caches, called.host, n3));
            },
            _ => {},
        }
    }
}

/// A change that is of no user at all fails, and asks for nothing.
pub proof fn law_change_of_nobody_fails(
    event: RoomMemberEvent,
    error: Seq<char>,
    caches: Caches,
    host: Host,
    steps: nat,
)
    requires
        steps >= 1,
        user_id_parts(event.state_key@) == Err::<(Seq<char>, Seq<char>), Seq<char>>(error),
    ensures
        start(Task::Member(Member::Start { event }), caches, host, steps) == (Run {
            end: End::Raise(error),
            caches,
            host,
        }),
{
}

/// Somebody who leaves a room that stands for no chat is let go.
pub proof fn law_departure_from_another_room_does_nothing(
    room_id: Seq<char>,
    caches: Caches,
    host: Host,
    steps: nat,
)
    requires
        steps >= 6,
        found_chat(host, room_id) is None,
    ensures
        ({
            let done = start(Task::Member(Member::Leave { room_id }), caches, host, steps);
            &&& done.end == End::Return(Value::Unit)
            &&& done.caches == caches
            &&& done.host.settings == host.settings
            &&& done.host.asked.len() == host.asked.len() + 1
        }),
{
    let left = (steps - 1) as nat;
    law_chat_of_room(room_id, caches, host, left);
    lemma_chat_search(room_id, caches, host, left);
    let found = start(Task::Settings(Settings::GetChat { room_id }), caches, host, left);
    assert(start(Task::Member(Member::Leave { room_id }), caches, host, steps) == run(
        Task::Member(Member::LeftChat { room_id }),
        Reply::Got(Value::MaybeNumber(None)),
        caches,
        found.host,
        left,
    ));
}

/// When somebody leaves the room of a chat, room and chat are parted, and the bridge clears that
/// very room: it ends as clearing the room ends.
pub proof fn law_room_that_was_left_is_cleared(
    room_id: Seq<char>,
    chat_id: u32,
    caches: Caches,
    host: Host,
    steps: nat,
)
    requires
        steps >= 9,
        found_chat(host, room_id) == Some(digits(chat_id as nat)),
    ensures
        ({
            let done = start(Task::Member(Member::Leave { room_id }), caches, host, steps);
            let found = start(
                Task::Settings(Settings::GetChat { room_id }),
                caches,
                host,
                (steps - 1) as nat,
            );
            let parted = start(
                Task::Settings(Settings::Clear { room_id, chat_id }),
                caches,
                found.host,
                (steps - 2) as nat,
            );
            &&& parted.end is Return
            &&& settles(
                done,
                start(
                    Task::Clear(Clear::Start { room_id }),
                    caches,
                    parted.host,
                    (steps - 3) as nat,
                ),
            )
        }),
{
    let one = (steps - 1) as nat;
    let two = (steps - 2) as nat;
    let three = (steps - 3) as nat;
    let done = start(Task::Member(Member::Leave { room_id }), caches, host, steps);
    law_chat_of_room(room_id, caches, host, one);
    let found = start(Task::Settings(Settings::GetChat { room_id }), caches, host, one);
    let task1: TaskModel = Task::Member(Member::LeftChat { room_id });
    let task2: TaskModel = Task::Member(Member::Cleared { room_id });
    let gone: TaskModel = Task::Member(Member::Gone);
    let reply: ReplyModel = Reply::Got(Value::MaybeNumber(Some(chat_id)));
    assert(done == run(task1, reply, caches, found.host, one));
    lemma_clear_pair(room_id, chat_id, caches, found.host, two);
    let parted = start(
        Task::Settings(Settings::Clear { room_id, chat_id }),
        caches,
        found.host,
        two,
    );
    assert(done == run(task2, Reply::Got(Value::Unit), caches, parted.host, two));
    let left = start(Task::Clear(Clear::Start { room_id }), caches, parted.host, three);
    match left.end {
        End::Return(value) => {
            assert(done == run(gone, Reply::Got(value), left.caches, left.host, three));
        },
        End::Raise(error) => {
            assert(done == run(gone, Reply::Failed(error), left.caches, left.host, three));
        },
        _ => {},
    }
}

/// A new topic of the room of a chat becomes the name of that chat, and nothing else is asked for.
/// In any other room it has no effect.
pub proof fn law_topic_becomes_the_name_of_the_chat(
    event: RoomTopicEvent,
    chat_id: u32,
    caches: Caches,
    host: Host,
    steps: nat,
)
    requires
        steps >= 7,
        found_chat(host, event.room_id@) matches Some(text) ==> text == digits(chat_id as nat),
    ensures
        ({
            let done = start(Task::Topic(Topic::Start { event }), caches, host, steps);
            let sought = start(
                Task::Settings(Settings::GetChat { room_id: event.room_id@ }),
                caches,
                host,
                (steps - 1) as nat,
            ).host;
            let request: RequestModel = Request::Delta(
                DeltaRequest::SetChatName { chat: chat_id, name: event.topic@ },
            );
            &&& done.caches == caches
            &&& if found_chat(host, event.room_id@) is Some {
                &&& done.host == performed(sought, request)
                &&& match reply_to(sought, request) {
                    Reply::Got(_) => done.end == End::Return(Value::Unit),
                    Reply::Failed(error) => done.end == End::Panic(error),
                    _ => true,
                }
            } else {
                done.host == sought && done.end == End::Return(Value::Unit)
            }
        }),
{
    let room_id = event.room_id@;
    let left = (steps - 1) as nat;
    let done = start(Task::Topic(Topic::Start { event }), caches, host, steps);
    law_chat_of_room(room_id, caches, host, left);
    let found = start(Task::Settings(Settings::GetChat { room_id }), caches, host, left);
    let stage: TaskModel = Task::Topic(Topic::ChatKnown { topic: event.topic@ });
    if found_chat(host, room_id) is Some {
        let reply: ReplyModel = Reply::Got(Value::MaybeNumber(Some(chat_id)));
        assert(done == run(stage, reply, caches, found.host, left));
        lemma_ask(
            stage,
            reply,
            caches,
            found.host,
            left,
            Request::Delta(DeltaRequest::SetChatName { chat: chat_id, name: event.topic@ }),
            Task::Topic(Topic::Renamed),
        );
    } else {
        assert(done == run(
            stage,
            Reply::Got(Value::MaybeNumber(None)),
            caches,
            found.host,
            left,
        ));
    }
}

/// The request for the space, to which somebody is invited.
pub open spec fn making_space(owner: Seq<char>) -> RequestModel {
    Request::Matrix(
        MatrixRequest::CreateRoom {
            preset: RoomPreset::TrustedPrivateChat,
            name: "Delta Appservice"@,
            topic: None,
            direct: false,
            as_space: true,
            invite: seq![owner],
        },
    )
}

/// The request that makes a room a child of a space, and suggests it.
pub open spec fn adopting(space: Seq<char>, child: Seq<char>, via: Seq<char>) -> RequestModel {
    Request::Matrix(
        MatrixRequest::SendSpaceChild { space, child, via, suggested: Some(true) },
    )
}

/// The request that gives a room its image.
pub open spec fn picturing(room: Seq<char>, url: Option<Seq<char>>) -> RequestModel {
    Request::Matrix(MatrixRequest::SendAvatar { room, url })
}

/// The space is made with the owner of the bridge as its only guest. The client learns its state;
/// the control room becomes its child, found through the server of the bridge, and is suggested;
/// and it gets its image. It is what is given back.
pub proof fn law_space_is_made(
    avatar: Option<Seq<char>>,
    owner: Seq<char>,
    space_id: Seq<char>,
    control: Seq<char>,
    main: Seq<char>,
    localpart: Seq<char>,
    server: Seq<char>,
    caches: Caches,
    host: Host,
    steps: nat,
)
    requires
        steps >= 12,
        kept(host.settings, OWNER_KEY@) == Some(owner),
        user_id_parts(owner) is Ok,
        kept(host.settings, CONTROL_ROOM_KEY@) == Some(control),
        is_room_id(control),
        answers(host, making_space(owner), Reply::Got(Value::Text(space_id))),
        ({
            let told = start(
                Task::RoomState(RoomState::Fetch { who: Actor::Main, room_id: space_id }),
                caches,
                performed(performed(host, reading(OWNER_KEY@)), making_space(owner)),
                (steps - 3) as nat,
            );
            &&& told.end is Return
            &&& told.caches == caches
            &&& told.host.settings == host.settings
            &&& told.host.others == host.others
        }),
        answers(host, is_in(Actor::Main, space_id), Reply::Got(Value::Flag(true))),
        answers(host, main_user(), Reply::Got(Value::MaybeText(Some(main)))),
        user_id_parts(main) == Ok::<(Seq<char>, Seq<char>), Seq<char>>((localpart, server)),
        answers(host, adopting(space_id, control, server), Reply::Got(Value::Unit)),
        answers(host, picturing(space_id, avatar), Reply::Got(Value::Unit)),
    ensures
        ({
            let told = start(
                Task::RoomState(RoomState::Fetch { who: Actor::Main, room_id: space_id }),
                caches,
                performed(performed(host, reading(OWNER_KEY@)), making_space(owner)),
                (steps - 3) as nat,
            );
            start(Task::Space(Space::Start { avatar }), caches, host, steps) == (Run {
                end: End::Return(Value::Text(space_id)),
                caches,
                host: performed(
                    performed(
                        performed(
                            performed(
                                performed(told.host, is_in(Actor::Main, space_id)),
                                reading(CONTROL_ROOM_KEY@),
                            ),
                            main_user(),
                        ),
                        adopting(space_id, control, server),
                    ),
                    picturing(space_id, avatar),
                ),
            })
        }),
{
    let task: TaskModel = Task::Space(Space::Start { avatar });
    let done = start(task, caches, host, steps);
    let n1 = (steps - 1) as nat;
    let n2 = (steps - 2) as nat;
    let n3 = (steps - 3) as nat;
    let n4 = (steps - 4) as nat;
    let n5 = (steps - 5) as nat;
    let n6 = (steps - 6) as nat;
    let n7 = (steps - 7) as nat;
    let n8 = (steps - 8) as nat;
    let h1 = performed(host, reading(OWNER_KEY@));
    let h2 = performed(h1, making_space(owner));
    assert(start(Task::Settings(Settings::GetOwner), caches, host, n1) == (Run {
        end: End::Return(Value::Text(owner)),
        caches,
        host: h1,
    })) by {
        reveal_with_fuel(run, 3);
    }
    let t1: TaskModel = Task::Space(Space::OwnerKnown { avatar });
    let t2: TaskModel = Task::Space(Space::Created { avatar });
    let t3: TaskModel = Task::Space(Space::Synced { avatar, space_id });
    let t4: TaskModel = Task::Space(Space::Entered { avatar, space_id });
    let t5: TaskModel = Task::Space(Space::ControlKnown { avatar, space_id });
    let t6: TaskModel = Task::Space(Space::UserKnown { avatar, space_id, control });
    let t7: TaskModel = Task::Space(Space::ChildSent { avatar, space_id });
    let t8: TaskModel = Task::Space(Space::AvatarSent { space_id });
    let unit: ReplyModel = Reply::Got(Value::Unit);
    let reply1: ReplyModel = Reply::Got(Value::Text(owner));
    assert(done == run(t1, reply1, caches, h1, n1));
    lemma_ask(t1, reply1, caches, h1, n1, making_space(owner), t2);
    let reply2: ReplyModel = Reply::Got(Value::Text(space_id));
    assert(done == run(t2, reply2, caches, h2, n2));
    let told = start(
        Task::RoomState(RoomState::Fetch { who: Actor::Main, room_id: space_id }),
        caches,
        h2,
        n3,
    );
    let value = told.end->Return_0;
    let reply3: ReplyModel = Reply::Got(value);
    assert(done == run(t3, reply3, caches, told.host, n3));
    let h3 = told.host;
    lemma_ask(t3, reply3, caches, h3, n3, is_in(Actor::Main, space_id), t4);
    let h4 = performed(h3, is_in(Actor::Main, space_id));
    let yes: ReplyModel = Reply::Got(Value::Flag(true));
    assert(done == run(t4, yes, caches, h4, n4));
    lemma_control_room_id(caches, h4, n5);
    let h5 = performed(h4, reading(CONTROL_ROOM_KEY@));
    let reply5: ReplyModel = Reply::Got(Value::MaybeText(Some(control)));
    assert(done == run(t5, reply5, caches, h5, n5));
    lemma_ask(t5, reply5, caches, h5, n5, main_user(), t6);
    let h6 = performed(h5, main_user());
    let reply6: ReplyModel = Reply::Got(Value::MaybeText(Some(main)));
    assert(done == run(t6, reply6, caches, h6, n6));
    lemma_ask(t6, reply6, caches, h6, n6, adopting(space_id, control, server), t7);
    let h7 = performed(h6, adopting(space_id, control, server));
    assert(done == run(t7, unit, caches, h7, n7));
    lemma_ask(t7, unit, caches, h7, n7, picturing(space_id, avatar), t8);
    let h8 = performed(h7, picturing(space_id, avatar));
    assert(done == run(t8, unit, caches, h8, n8));
}

}
