//! Who speaks for whom.
use vstd::prelude::*;

use crate::appservice::{Caches, EmailUser, EmailUserModel};
use crate::laws::bridging::{law_no_message_is_passed_over, run_on};
use crate::laws::new_rooms::{fetching, got, leads_to, unrolling};
use crate::laws::users::{contact_of, lemma_settings_leave_caches, loading_contact};
use crate::matrix_intents::{bring_over, next_message, Backfill, Bridge, BridgeModel};
use crate::protocol::{Actor, ChatItem, MessageInfo, Reply, ReplyModel, RequestModel, Step, Value};
use crate::run::{
    lemma_ask, lemma_asked_grows, lemma_others_stay, performed, reply_to, run, start, End, Host,
};
use crate::task::{lemma_backfill, lemma_bridge, lemma_email_user, next, Task, TaskModel};
use crate::util::localpart_of;

verus! {

broadcast use {lemma_backfill, lemma_bridge, lemma_email_user};

/// The core knows contacts by an address book: it gives the contact that it is asked for, with its
/// address.
pub open spec fn knows_book(host: Host, book: spec_fn(u32) -> Seq<char>) -> bool {
    forall|asked: Seq<RequestModel>, id: u32|
        #[trigger] (host.others)(asked, loading_contact(id)) matches Reply::Contact(contact)
            ==> contact.id == id && contact.addr@ == book(id)
}

/// Each user that is ready stands for its contact: it is named by the address of the contact.
pub open spec fn is_honest(caches: Caches, book: spec_fn(u32) -> Seq<char>) -> bool {
    forall|id: u32| #[trigger]
        caches.clients.contains_key(id) ==> caches.clients[id] == localpart_of(book(id))
}

/// Whether a user that is being made ready will stand for its contact.
pub open spec fn is_right(s: EmailUserModel, id: u32, book: spec_fn(u32) -> Seq<char>) -> bool {
    &&& contact_of(s) == Some(id)
    &&& match s {
        EmailUser::Start { contact, .. } => contact.addr@ == book(id),
        EmailUser::Registered { localpart, .. } => localpart == localpart_of(book(id)),
        EmailUser::Ready { localpart, .. } => localpart == localpart_of(book(id)),
        EmailUser::SelfNamed { localpart, .. } => localpart == localpart_of(book(id)),
        EmailUser::Named { localpart, .. } => localpart == localpart_of(book(id)),
        EmailUser::Renamed { localpart, .. } => localpart == localpart_of(book(id)),
        EmailUser::RoomKnown { localpart, .. } => localpart == localpart_of(book(id)),
        EmailUser::InviteTried { localpart, .. } => localpart == localpart_of(book(id)),
        EmailUser::Invitable { localpart, .. } => localpart == localpart_of(book(id)),
        EmailUser::Invited { localpart, .. } => localpart == localpart_of(book(id)),
        EmailUser::JoinTried { localpart, .. } => localpart == localpart_of(book(id)),
        EmailUser::Joined { localpart, .. } => localpart == localpart_of(book(id)),
        _ => false,
    }
}

proof fn lemma_right_user(
    s: EmailUserModel,
    id: u32,
    book: spec_fn(u32) -> Seq<char>,
    reply: ReplyModel,
    caches: Caches,
    host: Host,
    steps: nat,
)
    requires
        is_right(s, id, book),
        is_honest(caches, book),
    ensures
        ({
            let done = run(Task::EmailUser(s), reply, caches, host, steps);
            &&& is_honest(done.caches, book)
            &&& done.end matches End::Return(value) ==> value == Value::Text(
                localpart_of(book(id)),
            )
        }),
    decreases steps,
{
    if steps > 0 {
        let (c, step) = next(Task::EmailUser(s), reply, caches);
        let left = (steps - 1) as nat;
        assert(is_honest(c, book));
        match step {
            Step::Perform(request, task) => {
                if let Task::EmailUser(then) = task {
                    lemma_right_user(
                        then,
                        id,
                        book,
                        reply_to(host, request),
                        c,
                        performed(host, request),
                        left,
                    );
                }
            },
            Step::Call(callee, task) => {
                let called = run(callee, Reply::Start, c, host, left);
                if let Task::Settings(first) = callee {
                    lemma_settings_leave_caches(first, Reply::Start, c, host, left);
                }
                if let Task::EmailUser(then) = task {
                    if let End::Return(value) = called.end {
                        lemma_right_user(
                            then,
                            id,
                            book,
                            Reply::Got(value),
                            c,
                            called.host,
                            left,
                        );
                    } else if let End::Raise(error) = called.end {
                        lemma_right_user(
                            then,
                            id,
                            book,
                            Reply::Failed(error),
                            c,
                            called.host,
                            left,
                        );
                    }
                }
            },
            _ => {},
        }
    }
}

/// The user that is found for a contact, by number, is the one that is named by the address of that
/// contact, whether it was ready already or is made ready. Users that were right stay right.
pub proof fn law_user_is_named_by_the_address(
    contact_id: u32,
    refresh: bool,
    book: spec_fn(u32) -> Seq<char>,
    caches: Caches,
    host: Host,
    steps: nat,
)
    requires
        knows_book(host, book),
        is_honest(caches, book),
    ensures
        ({
            let done = start(
                Task::EmailUser(EmailUser::ById { contact_id, refresh }),
                caches,
                host,
                steps,
            );
            &&& is_honest(done.caches, book)
            &&& done.end matches End::Return(value) ==> {
                &&& value matches Value::EmailUser { contact, localpart }
                &&& contact.id == contact_id
                &&& contact.addr@ == book(contact_id)
                &&& localpart == localpart_of(book(contact_id))
            }
        }),
{
    let task: TaskModel = Task::EmailUser(EmailUser::ById { contact_id, refresh });
    let done = start(task, caches, host, steps);
    if steps > 0 {
        let loaded: TaskModel = Task::EmailUser(EmailUser::Loaded { refresh });
        let request = loading_contact(contact_id);
        lemma_ask(task, Reply::Start, caches, host, steps, request, loaded);
        let reply = reply_to(host, request);
        let h1 = performed(host, request);
        let n1 = (steps - 1) as nat;
        assert(done == run(loaded, reply, caches, h1, n1));
        if n1 > 0 {
            if let Reply::Contact(contact) = reply {
                let n2 = (n1 - 1) as nat;
                let callee = EmailUser::Start { contact, refresh };
                let called = start(Task::EmailUser(callee), caches, h1, n2);
                lemma_right_user(callee, contact_id, book, Reply::Start, caches, h1, n2);
                let known: TaskModel = Task::EmailUser(EmailUser::Known { contact });
                match called.end {
                    End::Return(value) => {
                        assert(done == run(
                            known,
                            Reply::Got(value),
                            called.caches,
                            called.host,
                            n2,
                        ));
                    },
                    End::Raise(error) => {
                        assert(done == run(
                            known,
                            Reply::Failed(error),
                            called.caches,
                            called.host,
                            n2,
                        ));
                    },
                    _ => {},
                }
            }
        }
    }
}

proof fn lemma_bridging_keeps_users(
    s: BridgeModel,
    reply: ReplyModel,
    caches: Caches,
    host: Host,
    steps: nat,
)
    ensures
        run(Task::Bridge(s), reply, caches, host, steps).caches.clients == caches.clients,
    decreases steps,
{
    if steps > 0 {
        let (c, step) = next(Task::Bridge(s), reply, caches);
        let left = (steps - 1) as nat;
        match step {
            Step::Perform(request, task) => {
                if let Task::Bridge(then) = task {
                    lemma_bridging_keeps_users(
                        then,
                        reply_to(host, request),
                        c,
                        performed(host, request),
                        left,
                    );
                }
            },
            Step::Call(callee, task) => {
                let called = run(callee, Reply::Start, c, host, left);
                if let Task::Bridge(first) = callee {
                    lemma_bridging_keeps_users(first, Reply::Start, c, host, left);
                }
                if let Task::Bridge(then) = task {
                    if let End::Return(value) = called.end {
                        lemma_bridging_keeps_users(
                            then,
                            Reply::Got(value),
                            called.caches,
                            called.host,
                            left,
                        );
                    } else if let End::Raise(error) = called.end {
                        lemma_bridging_keeps_users(
                            then,
                            Reply::Failed(error),
                            called.caches,
                            called.host,
                            left,
                        );
                    }
                }
            },
            _ => {},
        }
    }
}

/// Whether a message was brought over into a room by the user that is named by the address of who
/// wrote it.
pub open spec fn came_from_its_author(
    host: Host,
    room_id: Seq<char>,
    id: u32,
    book: spec_fn(u32) -> Seq<char>,
) -> bool {
    exists|message: MessageInfo, c: Caches, h: Host, n: nat|
        {
            let done = #[trigger] start(
                Task::Bridge(
                    Bridge::Start {
                        who: Actor::User(localpart_of(book(message.from_id))),
                        room_id,
                        message,
                    },
                ),
                c,
                h,
                n,
            );
            &&& got(host, fetching(id), Reply::Message(message))
            &&& done.end is Return
            &&& leads_to(done.host, host)
        }
}

proof fn lemma_stays(
    before: Host,
    after: Host,
    room_id: Seq<char>,
    id: u32,
    book: spec_fn(u32) -> Seq<char>,
)
    requires
        leads_to(before, after),
        came_from_its_author(before, room_id, id, book),
    ensures
        came_from_its_author(after, room_id, id, book),
{
    let (message, c, h, n) = choose|message: MessageInfo, c: Caches, h: Host, n: nat|
        {
            let done = #[trigger] start(
                Task::Bridge(
                    Bridge::Start {
                        who: Actor::User(localpart_of(book(message.from_id))),
                        room_id,
                        message,
                    },
                ),
                c,
                h,
                n,
            );
            &&& got(before, fetching(id), Reply::Message(message))
            &&& done.end is Return
            &&& leads_to(done.host, before)
        };
    lemma_got_lasts(before, after, fetching(id), Reply::Message(message));
    let done = start(
        Task::Bridge(
            Bridge::Start {
                who: Actor::User(localpart_of(book(message.from_id))),
                room_id,
                message,
            },
        ),
        c,
        h,
        n,
    );
    assert(leads_to(done.host, after));
}

proof fn lemma_got_lasts(before: Host, after: Host, request: RequestModel, reply: ReplyModel)
    requires
        leads_to(before, after),
        got(before, request, reply),
    ensures
        got(after, request, reply),
{
    let i = choose|i: int|
        0 <= i < before.asked.len() && #[trigger] before.asked[i] == request && (before.others)(
            before.asked.take(i),
            request,
        ) == reply;
    assert(after.asked[i] == request);
    assert(after.asked.take(i) =~= before.asked.take(i));
}

proof fn lemma_leads(
    task: TaskModel,
    reply: ReplyModel,
    caches: Caches,
    host: Host,
    steps: nat,
)
    ensures
        leads_to(host, run(task, reply, caches, host, steps).host),
{
    lemma_asked_grows(task, reply, caches, host, steps);
    lemma_others_stay(task, reply, caches, host, steps);
}

proof fn lemma_history(
    room_id: Seq<char>,
    items: Vec<ChatItem>,
    at: usize,
    book: spec_fn(u32) -> Seq<char>,
    caches: Caches,
    host: Host,
    steps: nat,
)
    requires
        at <= items@.len(),
        knows_book(host, book),
        is_honest(caches, book),
        run_on(bring_over(room_id, items, at), caches, host, steps).end is Return,
    ensures
        ({
            let done = run_on(bring_over(room_id, items, at), caches, host, steps);
            &&& leads_to(host, done.host)
            &&& forall|k: int|
                #![trigger items@[k]]
                at <= k < items@.len() ==> match items@[k] {
                    ChatItem::Message { id, .. } => came_from_its_author(
                        done.host,
                        room_id,
                        id,
                        book,
                    ),
                    _ => true,
                }
        }),
    decreases items@.len() - at,
{
    assert(items.len() == items@.len());
    law_no_message_is_passed_over(items@, at as int);
    let done = run_on(bring_over(room_id, items, at), caches, host, steps);
    if let Some((place, id)) = next_message(items@, at as int) {
        let then = (place + 1) as usize;
        let reply = reply_to(host, fetching(id));
        let h1 = performed(host, fetching(id));
        let loaded: TaskModel = Task::Backfill(Backfill::Loaded { room_id, items, at: then });
        assert(h1.asked[host.asked.len() as int] == fetching(id));
        assert(h1.asked.take(host.asked.len() as int) =~= host.asked);
        assert(got(h1, fetching(id), reply));
        lemma_leads(loaded, reply, caches, h1, steps);
        assert(done == run(loaded, reply, caches, h1, steps));
        assert(steps > 0);
        assert(reply is Message);
        let message = reply->Message_0;
        let left = (steps - 1) as nat;
        let user: TaskModel = Task::EmailUser(
            EmailUser::ById { contact_id: message.from_id, refresh: false },
        );
        let called = start(user, caches, h1, left);
        lemma_leads(user, Reply::Start, caches, h1, left);
        law_user_is_named_by_the_address(message.from_id, false, book, caches, h1, left);
        let ready: TaskModel = Task::Backfill(
            Backfill::Ready { room_id, items, at: then, message },
        );
        assert(called.end is Return) by {
            if let End::Raise(error) = called.end {
                assert(done == run(
                    ready,
                    Reply::Failed(error),
                    called.caches,
                    called.host,
                    left,
                ));
            }
        }
        let value = called.end->Return_0;
        assert(done == run(ready, Reply::Got(value), called.caches, called.host, left));
        assert(left > 0);
        let localpart = localpart_of(book(message.from_id));
        let left1 = (left - 1) as nat;
        let start_bridge = Bridge::Start { who: Actor::User(localpart), room_id, message };
        let bridge: TaskModel = Task::Bridge(start_bridge);
        let over = start(bridge, called.caches, called.host, left1);
        lemma_leads(bridge, Reply::Start, called.caches, called.host, left1);
        lemma_bridging_keeps_users(
            start_bridge,
            Reply::Start,
            called.caches,
            called.host,
            left1,
        );
        let sent: TaskModel = Task::Backfill(Backfill::Sent { room_id, items, at: then });
        assert(over.end is Return) by {
            if let End::Raise(error) = over.end {
                assert(done == run(sent, Reply::Failed(error), over.caches, over.host, left1));
            }
        }
        let value1 = over.end->Return_0;
        assert(done == run(sent, Reply::Got(value1), over.caches, over.host, left1));
        assert(left1 > 0);
        let left2 = (left1 - 1) as nat;
        assert(done == run_on(bring_over(room_id, items, then), over.caches, over.host, left2));
        lemma_history(room_id, items, then, book, over.caches, over.host, left2);
        lemma_got_lasts(h1, over.host, fetching(id), reply);
        assert(came_from_its_author(over.host, room_id, id, book)) by {
            assert(leads_to(start(bridge, called.caches, called.host, left1).host, over.host));
        }
        lemma_stays(over.host, done.host, room_id, id, book);
        assert forall|k: int|
            #![trigger items@[k]]
            at <= k < items@.len() implies match items@[k] {
            ChatItem::Message { id, .. } => came_from_its_author(done.host, room_id, id, book),
            _ => true,
        } by {
            if k < place {
                assert(!(items@[k] is Message));
            }
        }
    } else {
        assert(done.host == host);
    }
}

/// Where the messages that a chat holds could be brought over into its room, each of them came from
/// the user that is named by the address of who wrote it, and from nobody else.
pub proof fn law_history_comes_from_its_authors(
    room_id: Seq<char>,
    chat_id: u32,
    items: Vec<ChatItem>,
    elapsed: String,
    book: spec_fn(u32) -> Seq<char>,
    caches: Caches,
    host: Host,
    steps: nat,
)
    requires
        knows_book(host, book),
        is_honest(caches, book),
        reply_to(host, unrolling(chat_id)) == (ReplyModel::Items { items, elapsed }),
        start(
            Task::Backfill(Backfill::Start { room_id, chat_id }),
            caches,
            host,
            steps,
        ).end is Return,
    ensures
        ({
            let done = start(
                Task::Backfill(Backfill::Start { room_id, chat_id }),
                caches,
                host,
                steps,
            );
            forall|k: int|
                #![trigger items@[k]]
                0 <= k < items@.len() ==> match items@[k] {
                    ChatItem::Message { id, .. } => came_from_its_author(
                        done.host,
                        room_id,
                        id,
                        book,
                    ),
                    _ => true,
                }
        }),
{
    let task: TaskModel = Task::Backfill(Backfill::Start { room_id, chat_id });
    let h1 = performed(host, unrolling(chat_id));
    let listed: TaskModel = Task::Backfill(Backfill::Listed { room_id });
    assert(steps > 0);
    lemma_ask(task, Reply::Start, caches, host, steps, unrolling(chat_id), listed);
    let left = (steps - 1) as nat;
    assert(left > 0);
    lemma_history(room_id, items, 0, book, caches, h1, (left - 1) as nat);
}

}
