//! Who comes into the room of a chat.
use vstd::prelude::*;

use crate::appservice::{Caches, EmailUser, Settings, OWNER_KEY};
use crate::laws::bridging::run_on;
use crate::laws::settings::{found_chat, found_room, law_keys_are_distinct, lemma_link};
use crate::matrix_intents::{can_name_room, enter, gather, make_room, ChatRoom};
use crate::numbers::digits;
use crate::outside::user_id_parts;
use crate::protocol::{
    Actor, ChatInfo, ChatKind, ContactInfo, DeltaRequest, MatrixRequest, Reply, Request,
    RequestModel, Value,
};
use crate::run::{answers, kept, lemma_ask, performed, reply_to, run, start, End, Host, Run};
use crate::task::{lemma_chat_room, lemma_email_user, lemma_settings, Task};

verus! {

broadcast use {lemma_chat_room, lemma_email_user, lemma_settings};

/// Contacts, and the users that are ready to act for them.
pub struct People {
    pub contacts: spec_fn(u32) -> ContactInfo,
    /// The user identifier of a localpart.
    pub user_ids: spec_fn(Seq<char>) -> Seq<char>,
}

/// The request for a contact.
pub open spec fn looking_up(id: u32) -> RequestModel {
    Request::Delta(DeltaRequest::GetContact { id })
}

/// The request for the user identifier of a user.
pub open spec fn naming(localpart: Seq<char>) -> RequestModel {
    Request::Matrix(MatrixRequest::UserId { who: Actor::User(localpart) })
}

/// The people are known, and the users of all of them are ready.
pub open spec fn are_ready(people: People, caches: Caches, host: Host) -> bool {
    &&& forall|id: u32|
        #![trigger (people.contacts)(id)]
        answers(host, looking_up(id), Reply::Contact((people.contacts)(id)))
            && caches.clients.contains_key((people.contacts)(id).id)
    &&& forall|localpart: Seq<char>|
        #![trigger (people.user_ids)(localpart)]
        answers(
            host,
            naming(localpart),
            Reply::Got(Value::MaybeText(Some((people.user_ids)(localpart)))),
        )
}

/// The user that acts for a contact.
pub open spec fn client_of(people: People, caches: Caches, id: u32) -> Seq<char> {
    caches.clients[(people.contacts)(id).id]
}

/// The users that act for contacts.
pub open spec fn clients_of(people: People, caches: Caches, ids: Seq<u32>) -> Seq<Seq<char>> {
    ids.map_values(|id: u32| client_of(people, caches, id))
}

/// The user identifiers of those that act for contacts.
pub open spec fn users_of(people: People, caches: Caches, ids: Seq<u32>) -> Seq<Seq<char>> {
    ids.map_values(|id: u32| (people.user_ids)(client_of(people, caches, id)))
}

proof fn lemma_gather_one(
    people: People,
    chat: ChatInfo,
    members: Vec<u32>,
    at: usize,
    users: Seq<Seq<char>>,
    clients: Seq<Seq<char>>,
    caches: Caches,
    host: Host,
    steps: nat,
)
    requires
        are_ready(people, caches, host),
        at < members@.len(),
        steps >= 3,
    ensures
        ({
            let id = members@[at as int];
            let localpart = client_of(people, caches, id);
            run_on(gather(chat, members, at, users, clients), caches, host, steps) == run_on(
                gather(
                    chat,
                    members,
                    (at + 1) as usize,
                    users.push((people.user_ids)(localpart)),
                    clients.push(localpart),
                ),
                caches,
                performed(performed(host, looking_up(id)), naming(localpart)),
                (steps - 3) as nat,
            )
        }),
{
    let id = members@[at as int];
    let contact = (people.contacts)(id);
    let localpart = client_of(people, caches, id);
    let user = (people.user_ids)(localpart);
    let then = (at + 1) as usize;
    let h1 = performed(host, looking_up(id));
    let h2 = performed(h1, naming(localpart));
    let task1 = Task::ChatRoom(ChatRoom::Contact { chat, members, at: then, users, clients });
    let task2 = Task::ChatRoom(ChatRoom::Client { chat, members, at: then, users, clients });
    let task3 = Task::ChatRoom(
        ChatRoom::User { chat, members, at: then, users, clients, localpart },
    );
    let callee = Task::EmailUser(EmailUser::Start { contact, refresh: false });
    assert(start(callee, caches, h1, (steps - 1) as nat) == (Run {
        end: End::Return(Value::Text(localpart)),
        caches,
        host: h1,
    }));
    assert(run(task1, Reply::Contact(contact), caches, h1, steps) == run(
        task2,
        Reply::Got(Value::Text(localpart)),
        caches,
        h1,
        (steps - 1) as nat,
    ));
    lemma_ask(
        task2,
        Reply::Got(Value::Text(localpart)),
        caches,
        h1,
        (steps - 1) as nat,
        naming(localpart),
        task3,
    );
    assert(reply_to(h1, naming(localpart)) == Reply::<Seq<char>>::Got(
        Value::MaybeText(Some(user)),
    ));
}

proof fn lemma_gather(
    people: People,
    chat: ChatInfo,
    members: Vec<u32>,
    at: usize,
    caches: Caches,
    host: Host,
    steps: nat,
) -> (h: Host)
    requires
        are_ready(people, caches, host),
        at <= members@.len(),
        steps >= 3 * (members@.len() - at),
    ensures
        h.settings == host.settings,
        h.others == host.others,
        run_on(
            gather(
                chat,
                members,
                at,
                users_of(people, caches, members@.take(at as int)),
                clients_of(people, caches, members@.take(at as int)),
            ),
            caches,
            host,
            steps,
        ) == run_on(
            gather(
                chat,
                members,
                members@.len() as usize,
                users_of(people, caches, members@),
                clients_of(people, caches, members@),
            ),
            caches,
            h,
            (steps - 3 * (members@.len() - at)) as nat,
        ),
    decreases members@.len() - at,
{
    assert(members.len() == members@.len());
    let users = users_of(people, caches, members@.take(at as int));
    let clients = clients_of(people, caches, members@.take(at as int));
    if at < members@.len() {
        let id = members@[at as int];
        let localpart = client_of(people, caches, id);
        lemma_gather_one(people, chat, members, at, users, clients, caches, host, steps);
        assert(users.push((people.user_ids)(localpart)) =~= users_of(
            people,
            caches,
            members@.take(at + 1),
        ));
        assert(clients.push(localpart) =~= clients_of(people, caches, members@.take(at + 1)));
        lemma_gather(
            people,
            chat,
            members,
            (at + 1) as usize,
            caches,
            performed(performed(host, looking_up(id)), naming(localpart)),
            (steps - 3) as nat,
        )
    } else {
        assert(members@.take(at as int) =~= members@);
        host
    }
}

/// Who is invited into the room of a chat: the users of all members and the owner of the bridge,
/// and with a single contact the user of the owner of the account.
pub open spec fn invited(
    people: People,
    caches: Caches,
    chat: ChatInfo,
    members: Seq<u32>,
    owner: Seq<char>,
) -> Seq<Seq<char>> {
    let users = users_of(people, caches, members).push(owner);
    if chat.kind == ChatKind::Single {
        users.push((people.user_ids)(client_of(people, caches, 1)))
    } else {
        users
    }
}

/// Who then joins it: the users that were invited and that the bridge manages.
pub open spec fn joining(
    people: People,
    caches: Caches,
    chat: ChatInfo,
    members: Seq<u32>,
) -> Seq<Seq<char>> {
    let clients = clients_of(people, caches, members);
    if chat.kind == ChatKind::Single {
        clients.push(client_of(people, caches, 1))
    } else {
        clients
    }
}

/// Whoever is in a chat is invited into its room: the room is asked for with all users of the
/// members, the owner of the bridge, and, with a single contact, the owner of the account.
pub proof fn law_all_members_are_invited(
    people: People,
    chat: ChatInfo,
    members: Vec<u32>,
    owner: Seq<char>,
    caches: Caches,
    host: Host,
    steps: nat,
)
    requires
        are_ready(people, caches, host),
        can_name_room(chat.name@),
        kept(host.settings, OWNER_KEY@) == Some(owner),
        user_id_parts(owner) is Ok,
        steps >= 3 * members@.len() + 10,
    ensures
        exists|h: Host, left: nat|
            h.settings == host.settings && run(
                Task::ChatRoom(ChatRoom::Members { chat }),
                Reply::Numbers(members),
                caches,
                host,
                steps,
            ) == #[trigger] run_on(
                make_room(
                    chat,
                    invited(people, caches, chat, members@, owner),
                    joining(people, caches, chat, members@),
                ),
                caches,
                h,
                left,
            ),
{
    assert(members.len() == members@.len());
    let left = (steps - 1) as nat;
    assert(users_of(people, caches, members@.take(0)) =~= seq![]);
    assert(clients_of(people, caches, members@.take(0)) =~= seq![]);
    let h = lemma_gather(people, chat, members, 0, caches, host, left);
    let left1 = (left - 3 * members@.len()) as nat;
    let users = users_of(people, caches, members@);
    let clients = clients_of(people, caches, members@);
    // The owner of the bridge is looked up.
    let ask_owner: RequestModel = Request::Delta(DeltaRequest::UiGet { key: OWNER_KEY@ });
    let h1 = performed(h, ask_owner);
    assert(start(Task::Settings(Settings::GetOwner), caches, h, left1) == (Run {
        end: End::Return(Value::Text(owner)),
        caches,
        host: h1,
    })) by {
        reveal_with_fuel(run, 3);
    }
    let task = Task::ChatRoom(ChatRoom::Owner { chat, users, clients });
    let reply = Reply::Got(Value::Text(owner));
    if chat.kind == ChatKind::Single {
        let users1 = users.push(owner);
        let contact = (people.contacts)(1);
        let localpart = client_of(people, caches, 1);
        let task1 = Task::ChatRoom(ChatRoom::SelfContact { chat, users: users1, clients });
        let task2 = Task::ChatRoom(ChatRoom::SelfClient { chat, users: users1, clients });
        let task3 = Task::ChatRoom(
            ChatRoom::SelfUser { chat, users: users1, clients, localpart },
        );
        let h2 = performed(h1, looking_up(1));
        let h3 = performed(h2, naming(localpart));
        lemma_ask(task, reply, caches, h1, left1, looking_up(1), task1);
        let left2 = (left1 - 1) as nat;
        let left3 = (left1 - 2) as nat;
        let callee = Task::EmailUser(EmailUser::Start { contact, refresh: false });
        assert(start(callee, caches, h2, left3) == (Run {
            end: End::Return(Value::Text(localpart)),
            caches,
            host: h2,
        }));
        assert(run(task1, Reply::Contact(contact), caches, h2, left2) == run(
            task2,
            Reply::Got(Value::Text(localpart)),
            caches,
            h2,
            left3,
        ));
        lemma_ask(
            task2,
            Reply::Got(Value::Text(localpart)),
            caches,
            h2,
            left3,
            naming(localpart),
            task3,
        );
        let user = (people.user_ids)(localpart);
        assert(reply_to(h2, naming(localpart)) == Reply::<Seq<char>>::Got(
            Value::MaybeText(Some(user)),
        ));
        assert(run(
            Task::ChatRoom(ChatRoom::Members { chat }),
            Reply::Numbers(members),
            caches,
            host,
            steps,
        ) == run_on(
            make_room(chat, users1.push(user), clients.push(localpart)),
            caches,
            h3,
            (left3 - 2) as nat,
        ));
    } else {
        assert(run(
            Task::ChatRoom(ChatRoom::Members { chat }),
            Reply::Numbers(members),
            caches,
            host,
            steps,
        ) == run_on(
            make_room(chat, users.push(owner), clients),
            caches,
            h1,
            (left1 - 1) as nat,
        ));
    }
}

/// The request to join a room.
pub open spec fn entering(localpart: Seq<char>, room: Seq<char>) -> RequestModel {
    Request::Matrix(MatrixRequest::JoinRoom { who: Actor::User(localpart), room })
}

/// The surroundings once the users from a place on have joined.
pub open spec fn entered(host: Host, clients: Seq<Seq<char>>, at: int, room: Seq<char>) -> Host
    decreases clients.len() - at,
{
    if at < 0 || at >= clients.len() {
        host
    } else {
        entered(performed(host, entering(clients[at], room)), clients, at + 1, room)
    }
}

proof fn lemma_enter(
    chat: ChatInfo,
    room_id: Seq<char>,
    clients: Seq<Seq<char>>,
    at: usize,
    caches: Caches,
    host: Host,
    steps: nat,
)
    requires
        at <= clients.len() <= usize::MAX,
        steps >= clients.len() - at,
        forall|localpart: Seq<char>|
            #![trigger entering(localpart, room_id)]
            answers(host, entering(localpart, room_id), Reply::Got(Value::Unit)),
    ensures
        run_on(enter(chat, room_id, clients, at), caches, host, steps) == run_on(
            enter(chat, room_id, clients, clients.len() as usize),
            caches,
            entered(host, clients, at as int, room_id),
            (steps - (clients.len() - at)) as nat,
        ),
        entered(host, clients, at as int, room_id).settings == host.settings,
        entered(host, clients, at as int, room_id).others == host.others,
        entered(host, clients, at as int, room_id).asked == host.asked + Seq::new(
            (clients.len() - at) as nat,
            |i: int| entering(clients[at + i], room_id),
        ),
    decreases clients.len() - at,
{
    if at < clients.len() {
        let request = entering(clients[at as int], room_id);
        let then = performed(host, request);
        assert(reply_to(host, request) == Reply::<Seq<char>>::Got(Value::Unit));
        lemma_enter(
            chat,
            room_id,
            clients,
            (at + 1) as usize,
            caches,
            then,
            (steps - 1) as nat,
        );
    }
    assert(entered(host, clients, at as int, room_id).asked =~= host.asked + Seq::new(
        (clients.len() - at) as nat,
        |i: int| entering(clients[at + i], room_id),
    ));
}

/// Once the room of a chat is made, all users join it in order, the chat is accepted, and the room
/// and the chat are tied to each other.
pub proof fn law_users_join_the_room_of_a_chat(
    chat: ChatInfo,
    room_id: Seq<char>,
    clients: Seq<Seq<char>>,
    caches: Caches,
    host: Host,
    steps: nat,
)
    requires
        clients.len() <= usize::MAX,
        steps >= clients.len() + 10,
        forall|localpart: Seq<char>|
            #![trigger entering(localpart, room_id)]
            answers(host, entering(localpart, room_id), Reply::Got(Value::Unit)),
        answers(
            host,
            Request::Delta(DeltaRequest::AcceptChat { chat: chat.id }),
            Reply::Got(Value::Unit),
        ),
    ensures
        exists|h: Host, left: nat|
            {
                &&& run(
                    Task::ChatRoom(ChatRoom::Created { chat, clients }),
                    Reply::Got(Value::Text(room_id)),
                    caches,
                    host,
                    steps,
                ) == #[trigger] run(
                    Task::ChatRoom(ChatRoom::Linked { chat, room_id }),
                    Reply::Got(Value::Unit),
                    caches,
                    h,
                    left,
                )
                &&& found_chat(h, room_id) == Some(digits(chat.id as nat))
                &&& found_room(h, chat.id) == Some(room_id)
                &&& (host.asked + Seq::new(
                    clients.len(),
                    |i: int| entering(clients[i], room_id),
                )).push(Request::Delta(DeltaRequest::AcceptChat { chat: chat.id })).is_prefix_of(
                    h.asked,
                )
            },
{
    let left = (steps - 1) as nat;
    lemma_enter(chat, room_id, clients, 0, caches, host, left);
    let h1 = entered(host, clients, 0, room_id);
    let accept: RequestModel = Request::Delta(DeltaRequest::AcceptChat { chat: chat.id });
    let h2 = performed(h1, accept);
    let left1 = (left - clients.len()) as nat;
    let left2 = (left1 - 1) as nat;
    let tie = Task::Settings(Settings::Link { room_id, chat_id: chat.id });
    lemma_link(room_id, chat.id, caches, h2, left2);
    crate::run::lemma_asked_grows(tie, Reply::Start, caches, h2, left2);
    law_keys_are_distinct(room_id, room_id, chat.id, chat.id);
    let h = start(tie, caches, h2, left2).host;
    let task = Task::ChatRoom(ChatRoom::Accepted { chat, room_id });
    assert(run(task, Reply::Got(Value::Unit), caches, h2, left1) == run(
        Task::ChatRoom(ChatRoom::Linked { chat, room_id }),
        Reply::Got(Value::Unit),
        caches,
        h,
        left2,
    ));
    assert(Seq::new(clients.len(), |i: int| entering(clients[i], room_id)) =~= Seq::new(
        (clients.len() - 0) as nat,
        |i: int| entering(clients[0 + i], room_id),
    ));
    assert(h2.asked == (host.asked + Seq::new(
        clients.len(),
        |i: int| entering(clients[i], room_id),
    )).push(accept));
    assert(run(
        Task::ChatRoom(ChatRoom::Created { chat, clients }),
        Reply::Got(Value::Text(room_id)),
        caches,
        host,
        steps,
    ) == run_on(enter(chat, room_id, clients, 0), caches, host, left));
    assert(run_on(enter(chat, room_id, clients, clients.len() as usize), caches, h1, left1) == run(
        task,
        Reply::Got(Value::Unit),
        caches,
        h2,
        left1,
    ));
}

}
