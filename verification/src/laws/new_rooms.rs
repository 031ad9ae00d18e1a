//! What is true of a room that was made for a chat.
use vstd::prelude::*;

use crate::appservice::{Caches, EmailUser, Settings, CONTACT_SELF, OWNER_KEY};
use crate::laws::bridging::{law_no_message_is_passed_over, run_on};
use crate::laws::chat_rooms::{entering, looking_up, naming};
use crate::laws::commands::loading;
use crate::laws::effects::law_bridging_changes_no_setting;
use crate::laws::rooms::{main_user, reading};
use crate::laws::settings::{found_chat, found_room, law_keys_are_distinct, lemma_link};
use crate::matrix_intents::{
    bring_over, can_name_room, enter, gather, make_room, next_message, server_of, Backfill, Bridge,
    ChatRoom,
};
use crate::numbers::digits;
use crate::outside::user_id_parts;
use crate::protocol::{
    Actor, ChatInfo, ChatItem, ChatKind, ContactInfo, DeltaRequest, HostRequest, MatrixRequest,
    MessageInfo, Reply, ReplyModel, Request, RequestModel, RoomPreset, Step, StepModel, Value,
    ValueModel,
};
use crate::run::{
    kept, law_more_steps_change_nothing, lemma_ask, lemma_asked_grows, lemma_others_stay, performed,
    reply_to, run, start, End, Host,
};
use crate::task::{lemma_backfill, lemma_chat_room, lemma_settings, next, Task, TaskModel};

verus! {

broadcast use {lemma_backfill, lemma_chat_room, lemma_settings};

/// Whether something was asked for, and what came back.
pub open spec fn got(host: Host, request: RequestModel, reply: ReplyModel) -> bool {
    exists|i: int|
        0 <= i < host.asked.len() && #[trigger] host.asked[i] == request && (host.others)(
            host.asked.take(i),
            request,
        ) == reply
}

/// Whether something was asked for, and done.
pub open spec fn granted(host: Host, request: RequestModel) -> bool {
    exists|value: ValueModel| #[trigger] got(host, request, Reply::Got(value))
}

/// Whether one thing came after the other: all that was asked before was asked then too.
pub open spec fn leads_to(before: Host, after: Host) -> bool {
    before.asked.is_prefix_of(after.asked) && before.others == after.others
}

proof fn lemma_got_stays(before: Host, after: Host, request: RequestModel, reply: ReplyModel)
    requires
        leads_to(before, after),
        got(before, request, reply),
    ensures
        got(after, request, reply),
{
    let i = choose|i: int|
        0 <= i < before.asked.len() && #[trigger] before.asked[i] == request && (before.others)(
            before.asked.take(i),
            request,
        ) == reply;
    assert(after.asked[i] == request);
    assert(after.asked.take(i) =~= before.asked.take(i));
}

proof fn lemma_granted_stays(before: Host, after: Host, request: RequestModel)
    requires
        leads_to(before, after),
        granted(before, request),
    ensures
        granted(after, request),
{
    let value = choose|value: ValueModel| #[trigger] got(before, request, Reply::Got(value));
    lemma_got_stays(before, after, request, Reply::Got(value));
}

/// Whether the reply to a request comes from outside, not from what is kept, remembered or logged.
pub open spec fn is_foreign(request: RequestModel) -> bool {
    match request {
        Request::Delta(DeltaRequest::UiGet { .. }) => false,
        Request::Delta(DeltaRequest::UiSet { .. }) => false,
        Request::Delta(DeltaRequest::RawGet { .. }) => false,
        Request::Delta(DeltaRequest::RawSet { .. }) => false,
        Request::Host(HostRequest::Log { .. }) => false,
        _ => true,
    }
}

proof fn lemma_got_now(host: Host, request: RequestModel)
    requires
        is_foreign(request),
    ensures
        got(performed(host, request), request, reply_to(host, request)),
        leads_to(host, performed(host, request)),
        performed(host, request).settings == host.settings,
{
    let after = performed(host, request);
    assert(after.asked[host.asked.len() as int] == request);
    assert(after.asked.take(host.asked.len() as int) =~= host.asked);
}

proof fn lemma_run_leads(
    task: TaskModel,
    reply: ReplyModel,
    caches: Caches,
    host: Host,
    steps: nat,
)
    ensures
        leads_to(host, run(task, reply, caches, host, steps).host),
{
    lemma_asked_grows(task, reply, caches, host, steps);
    lemma_others_stay(task, reply, caches, host, steps);
}

/// The request for a message.
pub open spec fn fetching(id: u32) -> RequestModel {
    Request::Delta(DeltaRequest::LoadMessage { id })
}

/// The request for what a chat holds.
pub open spec fn unrolling(chat: u32) -> RequestModel {
    Request::Delta(DeltaRequest::ChatItems { chat, day_markers: false })
}

/// Whether a user was found for a contact: it was asked for by the number of the contact, and came
/// back.
pub open spec fn is_user_of(host: Host, contact_id: u32, localpart: Seq<char>) -> bool {
    exists|contact: ContactInfo, c: Caches, h: Host, n: nat|
        {
            let found = #[trigger] start(
                Task::EmailUser(EmailUser::ById { contact_id, refresh: false }),
                c,
                h,
                n,
            );
            &&& found.end == End::Return(#[trigger] by_contact(contact, localpart))
            &&& leads_to(found.host, host)
        }
}

/// A contact with the user that stands for it.
pub open spec fn by_contact(contact: ContactInfo, localpart: Seq<char>) -> ValueModel {
    Value::EmailUser { contact, localpart }
}

proof fn lemma_user_stays(before: Host, after: Host, contact_id: u32, localpart: Seq<char>)
    requires
        leads_to(before, after),
        is_user_of(before, contact_id, localpart),
    ensures
        is_user_of(after, contact_id, localpart),
{
    let (contact, c, h, n) = choose|contact: ContactInfo, c: Caches, h: Host, n: nat|
        {
            let found = #[trigger] start(
                Task::EmailUser(EmailUser::ById { contact_id, refresh: false }),
                c,
                h,
                n,
            );
            &&& found.end == End::Return(#[trigger] by_contact(contact, localpart))
            &&& leads_to(found.host, before)
        };
    let found = start(
        Task::EmailUser(EmailUser::ById { contact_id, refresh: false }),
        c,
        h,
        n,
    );
    assert(found.end == End::Return(by_contact(contact, localpart)));
    assert(leads_to(found.host, after));
}

/// Whether a message was brought over into a room by its author: it was loaded, and bringing it
/// over has succeeded for the user that was found for the contact who wrote it.
pub open spec fn brought(host: Host, room_id: Seq<char>, id: u32) -> bool {
    exists|message: MessageInfo, localpart: Seq<char>, c: Caches, h: Host, n: nat|
        {
            let done = #[trigger] start(
                Task::Bridge(Bridge::Start { who: Actor::User(localpart), room_id, message }),
                c,
                h,
                n,
            );
            &&& got(host, fetching(id), Reply::Message(message))
            &&& is_user_of(host, message.from_id, localpart)
            &&& done.end is Return
            &&& leads_to(done.host, host)
        }
}

/// Whether all messages of a chat were brought over, from a place on.
pub open spec fn all_brought(
    host: Host,
    room_id: Seq<char>,
    items: Seq<ChatItem>,
    from: int,
) -> bool {
    forall|k: int|
        #![trigger items[k]]
        from <= k < items.len() ==> match items[k] {
            ChatItem::Message { id, .. } => brought(host, room_id, id),
            _ => true,
        }
}

proof fn lemma_brought_stays(before: Host, after: Host, room_id: Seq<char>, id: u32)
    requires
        leads_to(before, after),
        brought(before, room_id, id),
    ensures
        brought(after, room_id, id),
{
    let (message, localpart, c, h, n) = choose|
        message: MessageInfo,
        localpart: Seq<char>,
        c: Caches,
        h: Host,
        n: nat,
    |
        {
            let done = #[trigger] start(
                Task::Bridge(Bridge::Start { who: Actor::User(localpart), room_id, message }),
                c,
                h,
                n,
            );
            &&& got(before, fetching(id), Reply::Message(message))
            &&& is_user_of(before, message.from_id, localpart)
            &&& done.end is Return
            &&& leads_to(done.host, before)
        };
    lemma_got_stays(before, after, fetching(id), Reply::Message(message));
    lemma_user_stays(before, after, message.from_id, localpart);
    let done = start(
        Task::Bridge(Bridge::Start { who: Actor::User(localpart), room_id, message }),
        c,
        h,
        n,
    );
    assert(leads_to(done.host, after));
}

proof fn lemma_bring_over(
    room_id: Seq<char>,
    items: Vec<ChatItem>,
    at: usize,
    caches: Caches,
    host: Host,
    steps: nat,
)
    requires
        at <= items@.len(),
        run_on(bring_over(room_id, items, at), caches, host, steps).end is Return,
    ensures
        ({
            let done = run_on(bring_over(room_id, items, at), caches, host, steps);
            &&& leads_to(host, done.host)
            &&& all_brought(done.host, room_id, items@, at as int)
        }),
    decreases items@.len() - at,
{
    assert(items.len() == items@.len());
    law_no_message_is_passed_over(items@, at as int);
    let done = run_on(bring_over(room_id, items, at), caches, host, steps);
    if let Some((place, id)) = next_message(items@, at as int) {
        let then = (place + 1) as usize;
        let reply = reply_to(host, fetching(id));
        let h1 = performed(host, fetching(id));
        let loaded = Task::Backfill(Backfill::Loaded { room_id, items, at: then });
        lemma_got_now(host, fetching(id));
        lemma_run_leads(loaded, reply, caches, h1, steps);
        assert(done == run(loaded, reply, caches, h1, steps));
        assert(steps > 0);
        assert(reply is Message);
        let message = reply->Message_0;
        let left = (steps - 1) as nat;
        let user = Task::EmailUser(
            EmailUser::ById { contact_id: message.from_id, refresh: false },
        );
        let called = start(user, caches, h1, left);
        lemma_run_leads(user, Reply::Start, caches, h1, left);
        let ready = Task::Backfill(Backfill::Ready { room_id, items, at: then, message });
        assert(called.end is Return) by {
            if let End::Raise(error) = called.end {
                assert(done == run(
                    ready,
                    Reply::Failed(error),
                    called.caches,
                    called.host,
                    left,
                ));
            }
        }
        let value = called.end->Return_0;
        assert(done == run(ready, Reply::Got(value), called.caches, called.host, left));
        assert(left > 0);
        assert(value is EmailUser);
        let localpart = value->localpart;
        let left1 = (left - 1) as nat;
        let bridge = Task::Bridge(
            Bridge::Start { who: Actor::User(localpart), room_id, message },
        );
        let over = start(bridge, called.caches, called.host, left1);
        lemma_run_leads(bridge, Reply::Start, called.caches, called.host, left1);
        let sent = Task::Backfill(Backfill::Sent { room_id, items, at: then });
        assert(over.end is Return) by {
            if let End::Raise(error) = over.end {
                assert(done == run(sent, Reply::Failed(error), over.caches, over.host, left1));
            }
        }
        let value1 = over.end->Return_0;
        assert(done == run(sent, Reply::Got(value1), over.caches, over.host, left1));
        assert(left1 > 0);
        let left2 = (left1 - 1) as nat;
        assert(done == run_on(bring_over(room_id, items, then), over.caches, over.host, left2));
        lemma_bring_over(room_id, items, then, over.caches, over.host, left2);
        lemma_got_stays(h1, over.host, fetching(id), reply);
        assert(is_user_of(over.host, message.from_id, localpart)) by {
            assert(called.end == End::Return(by_contact(value->contact, localpart)));
            assert(leads_to(start(user, caches, h1, left).host, over.host));
        }
        assert(brought(over.host, room_id, id)) by {
            assert(leads_to(
                start(bridge, called.caches, called.host, left1).host,
                over.host,
            ));
        }
        lemma_brought_stays(over.host, done.host, room_id, id);
        assert forall|k: int|
            #![trigger items@[k]]
            at <= k < items@.len() implies match items@[k] {
            ChatItem::Message { id, .. } => brought(done.host, room_id, id),
            _ => true,
        } by {
            if k < place {
                assert(!(items@[k] is Message));
            }
        }
    } else {
        assert(done.host == host);
    }
}

/// Whether all that a chat held was brought over into a room.
pub open spec fn backfilled(host: Host, chat_id: u32, room_id: Seq<char>) -> bool {
    exists|items: Vec<ChatItem>, elapsed: String|
        #[trigger] got(host, unrolling(chat_id), Reply::Items { items, elapsed }) && all_brought(
            host,
            room_id,
            items@,
            0,
        )
}

/// Where the messages of a chat could be brought over into its room, each of them was, by the user
/// that stands for who wrote it: none that the chat held then is left out.
pub proof fn law_all_messages_are_brought_over(
    room_id: Seq<char>,
    chat_id: u32,
    caches: Caches,
    host: Host,
    steps: nat,
)
    requires
        start(
            Task::Backfill(Backfill::Start { room_id, chat_id }),
            caches,
            host,
            steps,
        ).end is Return,
    ensures
        ({
            let done = start(
                Task::Backfill(Backfill::Start { room_id, chat_id }),
                caches,
                host,
                steps,
            );
            &&& leads_to(host, done.host)
            &&& backfilled(done.host, chat_id, room_id)
        }),
{
    let task = Task::Backfill(Backfill::Start { room_id, chat_id });
    let done = start(task, caches, host, steps);
    let reply = reply_to(host, unrolling(chat_id));
    let h1 = performed(host, unrolling(chat_id));
    let listed = Task::Backfill(Backfill::Listed { room_id });
    assert(steps > 0);
    lemma_ask(task, Reply::Start, caches, host, steps, unrolling(chat_id), listed);
    lemma_got_now(host, unrolling(chat_id));
    lemma_run_leads(task, Reply::Start, caches, host, steps);
    let left = (steps - 1) as nat;
    assert(left > 0);
    assert(reply is Items);
    if let Reply::Items { items, elapsed } = reply {
        lemma_bring_over(room_id, items, 0, caches, h1, (left - 1) as nat);
        lemma_got_stays(h1, done.host, unrolling(chat_id), Reply::Items { items, elapsed });
    }
}

/// The request to accept a chat.
pub open spec fn accepting(chat: u32) -> RequestModel {
    Request::Delta(DeltaRequest::AcceptChat { chat })
}

/// The request that makes a room a child of a space.
pub open spec fn placing(space: Seq<char>, child: Seq<char>, via: Seq<char>) -> RequestModel {
    Request::Matrix(MatrixRequest::SendSpaceChild { space, child, via, suggested: None })
}

/// Whether a room has become a child of the space that the bridge keeps its rooms in, to be found
/// through the server of the bridge.
pub open spec fn is_in_space(host: Host, room_id: Seq<char>) -> bool {
    exists|space: Seq<char>, main: Seq<char>, localpart: Seq<char>, server: Seq<char>|
        {
            &&& got(
                host,
                Request::Matrix(MatrixRequest::SpaceRoom),
                Reply::Got(Value::MaybeText(Some(space))),
            )
            &&& got(host, main_user(), Reply::Got(Value::MaybeText(Some(main))))
            &&& #[trigger] is_named(main, localpart, server)
            &&& granted(host, #[trigger] placing(space, room_id, server))
        }
}

/// Whether an identifier is made of a name and a server.
pub open spec fn is_named(user: Seq<char>, localpart: Seq<char>, server: Seq<char>) -> bool {
    user_id_parts(user) == Ok::<(Seq<char>, Seq<char>), Seq<char>>((localpart, server))
}

/// Whether a room and a chat are tied to each other.
pub open spec fn are_tied(host: Host, room_id: Seq<char>, chat_id: u32) -> bool {
    &&& found_chat(host, room_id) == Some(digits(chat_id as nat))
    &&& found_room(host, chat_id) == Some(room_id)
}

proof fn lemma_from_linked(
    chat: ChatInfo,
    room_id: Seq<char>,
    reply: ReplyModel,
    caches: Caches,
    host: Host,
    steps: nat,
)
    requires
        run(
            Task::ChatRoom(ChatRoom::Linked { chat, room_id }),
            reply,
            caches,
            host,
            steps,
        ).end is Return,
    ensures
        ({
            let done = run(
                Task::ChatRoom(ChatRoom::Linked { chat, room_id }),
                reply,
                caches,
                host,
                steps,
            );
            &&& done.end == End::Return(Value::Text(room_id))
            &&& leads_to(host, done.host)
            &&& done.host.settings == host.settings
            &&& is_in_space(done.host, room_id)
            &&& backfilled(done.host, chat.id, room_id)
        }),
{
    let task0 = Task::ChatRoom(ChatRoom::Linked { chat, room_id });
    let done = run(task0, reply, caches, host, steps);
    lemma_run_leads(task0, reply, caches, host, steps);
    assert(steps > 0);
    assert(reply is Got);
    let space: RequestModel = Request::Matrix(MatrixRequest::SpaceRoom);
    let task1 = Task::ChatRoom(ChatRoom::SpaceKnown { chat, room_id });
    lemma_ask(task0, reply, caches, host, steps, space, task1);
    let reply1 = reply_to(host, space);
    let h1 = performed(host, space);
    let n1 = (steps - 1) as nat;
    assert(n1 > 0);
    let space_id = reply1->Got_0->MaybeText_0->Some_0;
    assert(reply1 == ReplyModel::Got(Value::MaybeText(Some(space_id))));
    let task2 = Task::ChatRoom(ChatRoom::UserKnown { chat, room_id, space_id });
    lemma_ask(task1, reply1, caches, h1, n1, main_user(), task2);
    let reply2 = reply_to(h1, main_user());
    let h2 = performed(h1, main_user());
    let n2 = (n1 - 1) as nat;
    assert(n2 > 0);
    let user = reply2->Got_0->MaybeText_0;
    assert(reply2 == ReplyModel::Got(Value::MaybeText(user)));
    assert(server_of(user) is Ok);
    let via = server_of(user)->Ok_0;
    let child: RequestModel = Request::Matrix(
        MatrixRequest::SendSpaceChild { space: space_id, child: room_id, via, suggested: None },
    );
    let task3 = Task::ChatRoom(ChatRoom::ChildSent { chat, room_id });
    lemma_ask(task2, reply2, caches, h2, n2, child, task3);
    let reply3 = reply_to(h2, child);
    let h3 = performed(h2, child);
    let n3 = (n2 - 1) as nat;
    assert(n3 > 0);
    assert(reply3 is Got);
    let n4 = (n3 - 1) as nat;
    let callee = Task::Backfill(Backfill::Start { room_id, chat_id: chat.id });
    let called = start(callee, caches, h3, n4);
    let last = Task::ChatRoom(ChatRoom::Backfilled { room_id });
    assert(called.end is Return) by {
        if let End::Raise(error) = called.end {
            assert(done == run(last, Reply::Failed(error), called.caches, called.host, n4));
        }
    }
    let value = called.end->Return_0;
    assert(done == run(last, Reply::Got(value), called.caches, called.host, n4));
    lemma_got_now(host, space);
    lemma_got_now(h1, main_user());
    lemma_got_now(h2, child);
    lemma_run_leads(callee, Reply::Start, caches, h3, n4);
    lemma_got_stays(h1, called.host, space, reply1);
    lemma_got_stays(h2, called.host, main_user(), reply2);
    lemma_got_stays(h3, called.host, child, reply3);
    assert(is_in_space(called.host, room_id)) by {
        let main = user->Some_0;
        let parts = user_id_parts(main)->Ok_0;
        assert(is_named(main, parts.0, parts.1));
        assert(child == placing(space_id, room_id, parts.1));
        let value3 = reply3->Got_0;
        assert(got(called.host, child, Reply::Got(value3)));
        assert(granted(called.host, placing(space_id, room_id, parts.1)));
    }
    law_all_messages_are_brought_over(room_id, chat.id, caches, h3, n4);
    law_bridging_changes_no_setting(callee, Reply::Start, caches, h3, n4);
    assert(done.host == called.host);
}

proof fn lemma_from_accepted(
    chat: ChatInfo,
    room_id: Seq<char>,
    reply: ReplyModel,
    caches: Caches,
    host: Host,
    steps: nat,
)
    requires
        run(
            Task::ChatRoom(ChatRoom::Accepted { chat, room_id }),
            reply,
            caches,
            host,
            steps,
        ).end is Return,
    ensures
        ({
            let done = run(
                Task::ChatRoom(ChatRoom::Accepted { chat, room_id }),
                reply,
                caches,
                host,
                steps,
            );
            &&& reply is Got
            &&& done.end == End::Return(Value::Text(room_id))
            &&& leads_to(host, done.host)
            &&& are_tied(done.host, room_id, chat.id)
            &&& is_in_space(done.host, room_id)
            &&& backfilled(done.host, chat.id, room_id)
        }),
{
    let task = Task::ChatRoom(ChatRoom::Accepted { chat, room_id });
    let done = run(task, reply, caches, host, steps);
    lemma_run_leads(task, reply, caches, host, steps);
    assert(steps > 0);
    assert(reply is Got);
    let left = (steps - 1) as nat;
    let tie = Task::Settings(Settings::Link { room_id, chat_id: chat.id });
    let tied = start(tie, caches, host, left);
    let linked = Task::ChatRoom(ChatRoom::Linked { chat, room_id });
    assert(tied.end is Return) by {
        if let End::Raise(error) = tied.end {
            assert(done == run(linked, Reply::Failed(error), tied.caches, tied.host, left));
        }
    }
    law_more_steps_change_nothing(tie, Reply::Start, caches, host, left, left + 5);
    lemma_link(room_id, chat.id, caches, host, left + 5);
    law_keys_are_distinct(room_id, room_id, chat.id, chat.id);
    assert(are_tied(tied.host, room_id, chat.id));
    let value = tied.end->Return_0;
    assert(done == run(linked, Reply::Got(value), tied.caches, tied.host, left));
    lemma_from_linked(chat, room_id, Reply::Got(value), tied.caches, tied.host, left);
}

/// Whether users have joined a room, from a place in their list on.
pub open spec fn all_joined(
    host: Host,
    room_id: Seq<char>,
    clients: Seq<Seq<char>>,
    from: int,
) -> bool {
    forall|i: int|
        #![trigger clients[i]]
        from <= i < clients.len() ==> granted(host, entering(clients[i], room_id))
}

proof fn lemma_from_enter(
    chat: ChatInfo,
    room_id: Seq<char>,
    clients: Seq<Seq<char>>,
    at: usize,
    caches: Caches,
    host: Host,
    steps: nat,
)
    requires
        at <= clients.len() <= usize::MAX,
        run_on(enter(chat, room_id, clients, at), caches, host, steps).end is Return,
    ensures
        ({
            let done = run_on(enter(chat, room_id, clients, at), caches, host, steps);
            &&& done.end == End::Return(Value::Text(room_id))
            &&& leads_to(host, done.host)
            &&& all_joined(done.host, room_id, clients, at as int)
            &&& granted(done.host, accepting(chat.id))
            &&& are_tied(done.host, room_id, chat.id)
            &&& is_in_space(done.host, room_id)
            &&& backfilled(done.host, chat.id, room_id)
        }),
    decreases clients.len() - at,
{
    let done = run_on(enter(chat, room_id, clients, at), caches, host, steps);
    if at < clients.len() {
        let request = entering(clients[at as int], room_id);
        let reply = reply_to(host, request);
        let h1 = performed(host, request);
        let then = (at + 1) as usize;
        let task = Task::ChatRoom(ChatRoom::Joining { chat, room_id, clients, at: then });
        assert(done == run(task, reply, caches, h1, steps));
        lemma_got_now(host, request);
        assert(steps > 0);
        assert(reply is Got);
        let left = (steps - 1) as nat;
        assert(done == run_on(enter(chat, room_id, clients, then), caches, h1, left));
        lemma_from_enter(chat, room_id, clients, then, caches, h1, left);
        assert(granted(h1, request)) by {
            assert(got(h1, request, Reply::Got(reply->Got_0)));
        }
        lemma_granted_stays(h1, done.host, request);
    } else {
        let request = accepting(chat.id);
        let reply = reply_to(host, request);
        let h1 = performed(host, request);
        lemma_got_now(host, request);
        lemma_from_accepted(chat, room_id, reply, caches, h1, steps);
        assert(granted(h1, request)) by {
            assert(got(h1, request, Reply::Got(reply->Got_0)));
        }
        lemma_granted_stays(h1, done.host, request);
    }
}

/// The request for a room that stands for a chat.
pub open spec fn creating(chat: ChatInfo, invite: Seq<Seq<char>>) -> RequestModel {
    let direct = chat.kind == ChatKind::Single;
    Request::Matrix(
        MatrixRequest::CreateRoom {
            preset: RoomPreset::TrustedPrivateChat,
            name: chat.name@,
            topic: if direct {
                None
            } else {
                Some(chat.name@)
            },
            direct,
            as_space: false,
            invite,
        },
    )
}

/// Whether a room was made for a chat, with some guests, and is in use: those of the guests whom
/// the bridge manages have joined it, the chat is accepted, room and chat are tied to each other,
/// the room is in the space, and what the chat held was brought over.
pub open spec fn is_in_use(
    host: Host,
    chat: ChatInfo,
    room_id: Seq<char>,
    invite: Seq<Seq<char>>,
    clients: Seq<Seq<char>>,
) -> bool {
    &&& got(host, creating(chat, invite), Reply::Got(Value::Text(room_id)))
    &&& all_joined(host, room_id, clients, 0)
    &&& granted(host, accepting(chat.id))
    &&& are_tied(host, room_id, chat.id)
    &&& is_in_space(host, room_id)
    &&& backfilled(host, chat.id, room_id)
}

proof fn lemma_from_making(
    chat: ChatInfo,
    invite: Seq<Seq<char>>,
    clients: Seq<Seq<char>>,
    caches: Caches,
    host: Host,
    steps: nat,
)
    requires
        clients.len() <= usize::MAX,
        run_on(make_room(chat, invite, clients), caches, host, steps).end is Return,
    ensures
        ({
            let done = run_on(make_room(chat, invite, clients), caches, host, steps);
            &&& done.end matches End::Return(Value::Text(room_id)) && is_in_use(
                done.host,
                chat,
                room_id,
                invite,
                clients,
            )
            &&& leads_to(host, done.host)
        }),
{
    let request = creating(chat, invite);
    let reply = reply_to(host, request);
    let h1 = performed(host, request);
    let task = Task::ChatRoom(ChatRoom::Created { chat, clients });
    let done = run_on(make_room(chat, invite, clients), caches, host, steps);
    assert(done == run(task, reply, caches, h1, steps));
    lemma_got_now(host, request);
    assert(steps > 0);
    let room_id = reply->Got_0->Text_0;
    assert(reply == ReplyModel::Got(Value::Text(room_id)));
    lemma_from_enter(chat, room_id, clients, 0, caches, h1, (steps - 1) as nat);
    lemma_got_stays(h1, done.host, request, reply);
}

/// Whether users are known by their identifiers.
pub open spec fn all_named(host: Host, users: Seq<Seq<char>>, clients: Seq<Seq<char>>) -> bool {
    &&& users.len() == clients.len()
    &&& forall|i: int|
        #![trigger users[i]]
        #![trigger clients[i]]
        0 <= i < users.len() ==> got(
            host,
            naming(clients[i]),
            Reply::Got(Value::MaybeText(Some(users[i]))),
        )
}

proof fn lemma_named_stays(
    before: Host,
    after: Host,
    users: Seq<Seq<char>>,
    clients: Seq<Seq<char>>,
)
    requires
        leads_to(before, after),
        all_named(before, users, clients),
    ensures
        all_named(after, users, clients),
{
    assert forall|i: int|
        #![trigger users[i]]
        #![trigger clients[i]]
        0 <= i < users.len() implies got(
        after,
        naming(clients[i]),
        Reply::Got(Value::MaybeText(Some(users[i]))),
    ) by {
        lemma_got_stays(
            before,
            after,
            naming(clients[i]),
            Reply::Got(Value::MaybeText(Some(users[i]))),
        );
    }
}

/// Whether a user acts for a contact: the contact was looked up by its number, and the user was got
/// ready for it.
pub open spec fn is_client_of(host: Host, id: u32, localpart: Seq<char>) -> bool {
    exists|contact: ContactInfo, c: Caches, h: Host, n: nat|
        {
            let ready = #[trigger] start(
                Task::EmailUser(EmailUser::Start { contact, refresh: false }),
                c,
                h,
                n,
            );
            &&& got(host, looking_up(id), Reply::Contact(contact))
            &&& ready.end == End::Return(Value::Text(localpart))
            &&& leads_to(ready.host, host)
        }
}

/// Whether users act for contacts, each for the one at its place.
pub open spec fn all_act(host: Host, ids: Seq<u32>, clients: Seq<Seq<char>>) -> bool {
    &&& ids.len() == clients.len()
    &&& forall|i: int|
        #![trigger ids[i]]
        #![trigger clients[i]]
        0 <= i < ids.len() ==> is_client_of(host, ids[i], clients[i])
}

proof fn lemma_client_stays(before: Host, after: Host, id: u32, localpart: Seq<char>)
    requires
        leads_to(before, after),
        is_client_of(before, id, localpart),
    ensures
        is_client_of(after, id, localpart),
{
    let (contact, c, h, n) = choose|contact: ContactInfo, c: Caches, h: Host, n: nat|
        {
            let ready = #[trigger] start(
                Task::EmailUser(EmailUser::Start { contact, refresh: false }),
                c,
                h,
                n,
            );
            &&& got(before, looking_up(id), Reply::Contact(contact))
            &&& ready.end == End::Return(Value::Text(localpart))
            &&& leads_to(ready.host, before)
        };
    lemma_got_stays(before, after, looking_up(id), Reply::Contact(contact));
    let ready = start(Task::EmailUser(EmailUser::Start { contact, refresh: false }), c, h, n);
    assert(leads_to(ready.host, after));
}

proof fn lemma_all_act_stays(
    before: Host,
    after: Host,
    ids: Seq<u32>,
    clients: Seq<Seq<char>>,
)
    requires
        leads_to(before, after),
        all_act(before, ids, clients),
    ensures
        all_act(after, ids, clients),
{
    assert forall|i: int|
        #![trigger ids[i]]
        #![trigger clients[i]]
        0 <= i < ids.len() implies is_client_of(after, ids[i], clients[i]) by {
        lemma_client_stays(before, after, ids[i], clients[i]);
    }
}

proof fn lemma_one_more_acts(
    host: Host,
    ids: Seq<u32>,
    clients: Seq<Seq<char>>,
    id: u32,
    localpart: Seq<char>,
)
    requires
        all_act(host, ids, clients),
        is_client_of(host, id, localpart),
    ensures
        all_act(host, ids.push(id), clients.push(localpart)),
{
    let ids1 = ids.push(id);
    let clients1 = clients.push(localpart);
    assert forall|i: int|
        #![trigger ids1[i]]
        #![trigger clients1[i]]
        0 <= i < ids1.len() implies is_client_of(host, ids1[i], clients1[i]) by {
        if i < ids.len() {
            assert(ids1[i] == ids[i]);
            assert(clients1[i] == clients[i]);
        }
    }
}

/// Whom the users act for that come into the room of a chat: its members, and with a single contact
/// the owner of the account, who is contact number one.
pub open spec fn people_of(chat: ChatInfo, members: Seq<u32>) -> Seq<u32> {
    if chat.kind == ChatKind::Single {
        members.push(1)
    } else {
        members
    }
}

/// Who is invited into the room of a chat: the users of its members, then the owner of the bridge,
/// then, with a single contact, the user of the owner of the account, who is the last of the users.
pub open spec fn guests(chat: ChatInfo, users: Seq<Seq<char>>, owner: Seq<char>) -> Seq<Seq<char>> {
    if chat.kind == ChatKind::Single {
        users.drop_last().push(owner).push(users.last())
    } else {
        users.push(owner)
    }
}

/// Whether a task gives up altogether.
pub open spec fn gives_up(step: StepModel) -> bool {
    step is Panic || step is Mismatch
}

/// One user that is got ready for the room of a chat, and asked for its identifier.
proof fn lemma_user(
    id: u32,
    ids: Seq<u32>,
    contact: ContactInfo,
    waiting: TaskModel,
    naming_on: spec_fn(Seq<char>) -> TaskModel,
    users: Seq<Seq<char>>,
    clients: Seq<Seq<char>>,
    caches: Caches,
    host: Host,
    steps: nat,
) -> (r: (Seq<char>, Seq<char>, Caches, Host))
    requires
        steps > 0,
        all_named(host, users, clients),
        all_act(host, ids, clients),
        got(host, looking_up(id), Reply::Contact(contact)),
        run_on(
            Step::Call(Task::EmailUser(EmailUser::Start { contact, refresh: false }), waiting),
            caches,
            host,
            steps,
        ).end is Return,
        forall|localpart: Seq<char>, c: Caches|
            #![trigger next(waiting, Reply::Got(Value::Text(localpart)), c)]
            next(waiting, Reply::Got(Value::Text(localpart)), c) == (
                c,
                StepModel::Perform(naming(localpart), naming_on(localpart)),
            ),
        forall|reply: ReplyModel, c: Caches|
            #![trigger next(waiting, reply, c)]
            !(reply matches Reply::Got(Value::Text(_))) ==> gives_up(next(waiting, reply, c).1),
        forall|localpart: Seq<char>, reply: ReplyModel, c: Caches|
            #![trigger next(naming_on(localpart), reply, c)]
            !(reply matches Reply::Got(Value::MaybeText(Some(_)))) ==> gives_up(
                next(naming_on(localpart), reply, c).1,
            ),
    ensures
        ({
            let (user, localpart, c, h) = r;
            &&& steps > 1
            &&& leads_to(host, h)
            &&& h.settings == host.settings
            &&& all_named(h, users.push(user), clients.push(localpart))
            &&& all_act(h, ids.push(id), clients.push(localpart))
            &&& run_on(
                Step::Call(
                    Task::EmailUser(EmailUser::Start { contact, refresh: false }),
                    waiting,
                ),
                caches,
                host,
                steps,
            ) == run(
                naming_on(localpart),
                Reply::Got(Value::MaybeText(Some(user))),
                c,
                h,
                (steps - 1) as nat,
            )
        }),
{
    let callee = Task::EmailUser(EmailUser::Start { contact, refresh: false });
    let done = run_on(Step::Call(callee, waiting), caches, host, steps);
    let called = start(callee, caches, host, steps);
    lemma_run_leads(callee, Reply::Start, caches, host, steps);
    law_bridging_changes_no_setting(callee, Reply::Start, caches, host, steps);
    assert(called.end is Return) by {
        if let End::Raise(error) = called.end {
            assert(done == run(
                waiting,
                Reply::Failed(error),
                called.caches,
                called.host,
                steps,
            ));
        }
    }
    let value = called.end->Return_0;
    let c = called.caches;
    let h = called.host;
    assert(done == run(waiting, Reply::Got(value), c, h, steps));
    assert(value is Text);
    let localpart = value->Text_0;
    let then = naming_on(localpart);
    let left = (steps - 1) as nat;
    lemma_ask(waiting, Reply::Got(value), c, h, steps, naming(localpart), then);
    let reply = reply_to(h, naming(localpart));
    let h1 = performed(h, naming(localpart));
    lemma_got_now(h, naming(localpart));
    assert(left > 0);
    let user = reply->Got_0->MaybeText_0->Some_0;
    assert(reply == ReplyModel::Got(Value::MaybeText(Some(user))));
    lemma_named_stays(host, h1, users, clients);
    lemma_all_act_stays(host, h1, ids, clients);
    lemma_got_stays(host, h1, looking_up(id), Reply::Contact(contact));
    assert(is_client_of(h1, id, localpart)) by {
        assert(leads_to(start(callee, caches, host, steps).host, h1));
    }
    lemma_one_more_acts(h1, ids, clients, id, localpart);
    let users1 = users.push(user);
    let clients1 = clients.push(localpart);
    assert forall|i: int|
        #![trigger users1[i]]
        #![trigger clients1[i]]
        0 <= i < users1.len() implies got(
        h1,
        naming(clients1[i]),
        Reply::Got(Value::MaybeText(Some(users1[i]))),
    ) by {
        if i < users.len() {
            assert(users1[i] == users[i]);
            assert(clients1[i] == clients[i]);
        }
    }
    (user, localpart, c, h1)
}

proof fn lemma_owner(caches: Caches, host: Host, steps: nat)
    ensures
        ({
            let done = start(Task::Settings(Settings::GetOwner), caches, host, steps);
            &&& !(done.end is Raise)
            &&& done.end is Return ==> done.caches == caches && done.host == performed(
                host,
                reading(OWNER_KEY@),
            ) && match kept(host.settings, OWNER_KEY@) {
                Some(owner) => done.end == End::Return(Value::Text(owner)),
                None => false,
            }
        }),
{
    reveal_with_fuel(run, 3);
}

/// What is known once the owner of the bridge has been looked up.
proof fn lemma_from_owner(
    chat: ChatInfo,
    ids: Seq<u32>,
    users: Seq<Seq<char>>,
    clients: Seq<Seq<char>>,
    owner: Seq<char>,
    caches: Caches,
    host: Host,
    steps: nat,
) -> (r: (Seq<Seq<char>>, Seq<Seq<char>>))
    requires
        clients.len() < usize::MAX,
        all_named(host, users, clients),
        all_act(host, ids, clients),
        run(
            Task::ChatRoom(ChatRoom::Owner { chat, users, clients }),
            Reply::Got(Value::Text(owner)),
            caches,
            host,
            steps,
        ).end is Return,
    ensures
        ({
            let done = run(
                Task::ChatRoom(ChatRoom::Owner { chat, users, clients }),
                Reply::Got(Value::Text(owner)),
                caches,
                host,
                steps,
            );
            &&& done.end matches End::Return(Value::Text(room_id)) && is_in_use(
                done.host,
                chat,
                room_id,
                guests(chat, r.0, owner),
                r.1,
            )
            &&& leads_to(host, done.host)
            &&& all_named(done.host, r.0, r.1)
            &&& all_act(done.host, people_of(chat, ids), r.1)
            &&& r.0.len() == if chat.kind == ChatKind::Single {
                users.len() + 1
            } else {
                users.len()
            }
        }),
{
    let task = Task::ChatRoom(ChatRoom::Owner { chat, users, clients });
    let reply = Reply::Got(Value::Text(owner));
    let done = run(task, reply, caches, host, steps);
    lemma_run_leads(task, reply, caches, host, steps);
    assert(steps > 0);
    let left = (steps - 1) as nat;
    if chat.kind == ChatKind::Single {
        let users1 = users.push(owner);
        let task1 = Task::ChatRoom(ChatRoom::SelfContact { chat, users: users1, clients });
        let request = looking_up(CONTACT_SELF);
        assert(can_name_room(chat.name@));
        lemma_ask(task, reply, caches, host, steps, request, task1);
        let h1 = performed(host, request);
        let reply1 = reply_to(host, request);
        lemma_got_now(host, request);
        lemma_named_stays(host, h1, users, clients);
        lemma_all_act_stays(host, h1, ids, clients);
        assert(left > 0);
        assert(reply1 is Contact);
        let contact = reply1->Contact_0;
        let left1 = (left - 1) as nat;
        let waiting = Task::ChatRoom(ChatRoom::SelfClient { chat, users: users1, clients });
        let naming_on = |localpart: Seq<char>|
            Task::ChatRoom(ChatRoom::SelfUser { chat, users: users1, clients, localpart });
        assert(done == run_on(
            Step::Call(Task::EmailUser(EmailUser::Start { contact, refresh: false }), waiting),
            caches,
            h1,
            left1,
        ));
        assert(left1 > 0) by {
            if left1 == 0 {
                let callee = Task::EmailUser(EmailUser::Start { contact, refresh: false });
                assert(start(callee, caches, h1, 0).end is Unfinished);
            }
        }
        let (user, localpart, c, h2) = lemma_user(
            1,
            ids,
            contact,
            waiting,
            naming_on,
            users,
            clients,
            caches,
            h1,
            left1,
        );
        let invite = users1.push(user);
        let all = users.push(user);
        let joining = clients.push(localpart);
        let left2 = (left1 - 2) as nat;
        assert(done == run_on(make_room(chat, invite, joining), c, h2, left2));
        lemma_from_making(chat, invite, joining, c, h2, left2);
        lemma_named_stays(h2, done.host, all, joining);
        lemma_all_act_stays(h2, done.host, ids.push(1), joining);
        assert(all.drop_last() =~= users);
        assert(guests(chat, all, owner) == invite);
        (all, joining)
    } else {
        let invite = users.push(owner);
        assert(done == run_on(make_room(chat, invite, clients), caches, host, left));
        lemma_from_making(chat, invite, clients, caches, host, left);
        lemma_named_stays(host, done.host, users, clients);
        lemma_all_act_stays(host, done.host, ids, clients);
        (users, clients)
    }
}

proof fn lemma_from_gather(
    chat: ChatInfo,
    members: Vec<u32>,
    at: usize,
    users: Seq<Seq<char>>,
    clients: Seq<Seq<char>>,
    caches: Caches,
    host: Host,
    steps: nat,
) -> (r: (Seq<Seq<char>>, Seq<Seq<char>>))
    requires
        at <= members@.len() < usize::MAX,
        users.len() == at,
        all_named(host, users, clients),
        all_act(host, members@.take(at as int), clients),
        run_on(gather(chat, members, at, users, clients), caches, host, steps).end is Return,
    ensures
        ({
            let done = run_on(gather(chat, members, at, users, clients), caches, host, steps);
            &&& kept(host.settings, OWNER_KEY@) matches Some(owner)
            &&& done.end matches End::Return(Value::Text(room_id))
            &&& is_in_use(done.host, chat, room_id, guests(chat, r.0, owner), r.1)
            &&& leads_to(host, done.host)
            &&& all_named(done.host, r.0, r.1)
            &&& all_act(done.host, people_of(chat, members@), r.1)
            &&& r.0.len() == if chat.kind == ChatKind::Single {
                members@.len() + 1
            } else {
                members@.len()
            }
        }),
    decreases members@.len() - at,
{
    let done = run_on(gather(chat, members, at, users, clients), caches, host, steps);
    if at < members@.len() {
        let request = looking_up(members@[at as int]);
        let reply = reply_to(host, request);
        let h1 = performed(host, request);
        let then = (at + 1) as usize;
        lemma_got_now(host, request);
        lemma_named_stays(host, h1, users, clients);
        lemma_all_act_stays(host, h1, members@.take(at as int), clients);
        let task1 = Task::ChatRoom(
            ChatRoom::Contact { chat, members, at: then, users, clients },
        );
        assert(done == run(task1, reply, caches, h1, steps));
        assert(steps > 0);
        assert(reply is Contact);
        let contact = reply->Contact_0;
        let left = (steps - 1) as nat;
        let waiting = Task::ChatRoom(
            ChatRoom::Client { chat, members, at: then, users, clients },
        );
        let naming_on = |localpart: Seq<char>|
            Task::ChatRoom(
                ChatRoom::User { chat, members, at: then, users, clients, localpart },
            );
        assert(done == run_on(
            Step::Call(Task::EmailUser(EmailUser::Start { contact, refresh: false }), waiting),
            caches,
            h1,
            left,
        ));
        assert(left > 0) by {
            if left == 0 {
                let callee = Task::EmailUser(EmailUser::Start { contact, refresh: false });
                assert(start(callee, caches, h1, 0).end is Unfinished);
            }
        }
        let (user, localpart, c, h2) = lemma_user(
            members@[at as int],
            members@.take(at as int),
            contact,
            waiting,
            naming_on,
            users,
            clients,
            caches,
            h1,
            left,
        );
        let left1 = (left - 2) as nat;
        assert(done == run_on(
            gather(chat, members, then, users.push(user), clients.push(localpart)),
            c,
            h2,
            left1,
        ));
        assert(members@.take(at as int).push(members@[at as int]) =~= members@.take(then as int));
        lemma_from_gather(
            chat,
            members,
            then,
            users.push(user),
            clients.push(localpart),
            c,
            h2,
            left1,
        )
    } else {
        let callee = Task::Settings(Settings::GetOwner);
        let called = start(callee, caches, host, steps);
        lemma_owner(caches, host, steps);
        assert(called.end is Return);
        let owner = kept(host.settings, OWNER_KEY@)->Some_0;
        let h1 = performed(host, reading(OWNER_KEY@));
        assert(done == run(
            Task::ChatRoom(ChatRoom::Owner { chat, users, clients }),
            Reply::Got(Value::Text(owner)),
            caches,
            h1,
            steps,
        ));
        lemma_named_stays(host, h1, users, clients);
        assert(members@.take(at as int) =~= members@);
        lemma_all_act_stays(host, h1, members@, clients);
        lemma_from_owner(chat, members@, users, clients, owner, caches, h1, steps)
    }
}

/// The request for the members of a chat.
pub open spec fn calling_roll(chat: u32) -> RequestModel {
    Request::Delta(DeltaRequest::ChatContacts { chat })
}

/// Whether the core knows chats: it gives the chat that it is asked for, and no chat has more
/// members than a list can hold.
pub open spec fn knows_chats(host: Host) -> bool {
    &&& forall|asked: Seq<RequestModel>, id: u32|
        #[trigger] (host.others)(asked, loading(id)) matches Reply::Chat(chat) ==> chat.id == id
    &&& forall|asked: Seq<RequestModel>, id: u32|
        #[trigger] (host.others)(asked, calling_roll(id)) matches Reply::Numbers(members)
            ==> members@.len() < usize::MAX
}

/// Whether a room has all that the room of a chat has to have. The users that act for the members,
/// and with a single contact for the owner of the account, were asked for their identifiers; they
/// and the owner of the bridge were invited; and the room is in use.
pub open spec fn is_complete(
    host: Host,
    chat: ChatInfo,
    members: Vec<u32>,
    owner: Seq<char>,
    room_id: Seq<char>,
    users: Seq<Seq<char>>,
    clients: Seq<Seq<char>>,
) -> bool {
    &&& got(host, loading(chat.id), Reply::Chat(chat))
    &&& got(host, calling_roll(chat.id), Reply::Numbers(members))
    &&& users.len() == if chat.kind == ChatKind::Single {
        members@.len() + 1
    } else {
        members@.len()
    }
    &&& all_named(host, users, clients)
    &&& all_act(host, people_of(chat, members@), clients)
    &&& is_in_use(host, chat, room_id, guests(chat, users, owner), clients)
}

/// Whenever the room of a chat could be made, whatever the surroundings answered: the room that is
/// given back is the new one, all users that stand for members and the owner of the bridge were
/// invited, all of them but the owner have joined, the chat is accepted, room and chat find each
/// other, the room is in the space, and the messages that the chat held were brought over.
pub proof fn law_room_of_a_chat_is_complete(chat_id: u32, caches: Caches, host: Host, steps: nat)
    requires
        knows_chats(host),
        start(Task::ChatRoom(ChatRoom::Start { chat_id }), caches, host, steps).end is Return,
    ensures
        ({
            let done = start(Task::ChatRoom(ChatRoom::Start { chat_id }), caches, host, steps);
            &&& kept(host.settings, OWNER_KEY@) matches Some(owner)
            &&& done.end matches End::Return(Value::Text(room_id))
            &&& are_tied(done.host, room_id, chat_id)
            &&& exists|
                chat: ChatInfo,
                members: Vec<u32>,
                users: Seq<Seq<char>>,
                clients: Seq<Seq<char>>,
            |
                chat.id == chat_id && #[trigger] is_complete(
                    done.host,
                    chat,
                    members,
                    owner,
                    room_id,
                    users,
                    clients,
                )
        }),
{
    let task = Task::ChatRoom(ChatRoom::Start { chat_id });
    let done = start(task, caches, host, steps);
    assert(steps > 0);
    let task1 = Task::ChatRoom(ChatRoom::Loaded);
    lemma_ask(task, Reply::Start, caches, host, steps, loading(chat_id), task1);
    let reply1 = reply_to(host, loading(chat_id));
    let h1 = performed(host, loading(chat_id));
    lemma_got_now(host, loading(chat_id));
    let n1 = (steps - 1) as nat;
    assert(n1 > 0);
    assert(reply1 is Chat);
    let chat = reply1->Chat_0;
    assert(chat.id == chat_id);
    let task2 = Task::ChatRoom(ChatRoom::Members { chat });
    lemma_ask(task1, reply1, caches, h1, n1, calling_roll(chat_id), task2);
    let reply2 = reply_to(h1, calling_roll(chat_id));
    let h2 = performed(h1, calling_roll(chat_id));
    lemma_got_now(h1, calling_roll(chat_id));
    let n2 = (n1 - 1) as nat;
    assert(n2 > 0);
    assert(reply2 is Numbers);
    let members = reply2->Numbers_0;
    assert(members@.len() < usize::MAX);
    let n3 = (n2 - 1) as nat;
    assert(done == run_on(gather(chat, members, 0, seq![], seq![]), caches, h2, n3));
    assert(members@.take(0) =~= seq![]);
    let (users, clients) = lemma_from_gather(
        chat,
        members,
        0,
        seq![],
        seq![],
        caches,
        h2,
        n3,
    );
    let room_id = done.end->Return_0->Text_0;
    let owner = kept(host.settings, OWNER_KEY@)->Some_0;
    lemma_got_stays(h1, done.host, loading(chat_id), reply1);
    lemma_got_stays(h2, done.host, calling_roll(chat_id), reply2);
    assert(is_complete(done.host, chat, members, owner, room_id, users, clients));
}

}
