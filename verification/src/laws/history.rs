//! In which order the messages of a chat come over.
use vstd::prelude::*;

use crate::appservice::{Caches, EmailUser};
use crate::laws::bridging::run_on;
use crate::laws::new_rooms::{fetching, unrolling};
use crate::matrix_intents::{bring_over, next_message, Backfill, Bridge};
use crate::protocol::{
    Actor, ChatItem, DeltaRequest, Reply, ReplyModel, Request, RequestModel, Step,
};
use crate::run::{lemma_ask, performed, reply_to, run, start, End, Host};
use crate::task::{
    lemma_backfill, lemma_bridge, lemma_email_user, lemma_settings, next, Task, TaskModel,
};

verus! {

/// Whether a request is for a message.
pub open spec fn is_fetching(request: RequestModel) -> bool {
    request matches Request::Delta(DeltaRequest::LoadMessage { .. })
}

/// The requests for messages among all that was asked.
pub open spec fn fetched(asked: Seq<RequestModel>) -> Seq<RequestModel> {
    asked.filter(|request: RequestModel| is_fetching(request))
}

/// The requests for the messages of a chat from a place on, in the order in which the chat holds
/// them. What is no message is passed over.
pub open spec fn history(items: Seq<ChatItem>, at: int) -> Seq<RequestModel>
    decreases items.len() - at,
{
    if at < 0 || at >= items.len() {
        seq![]
    } else {
        match items[at] {
            ChatItem::Message { id, .. } => seq![fetching(id)] + history(items, at + 1),
            _ => history(items, at + 1),
        }
    }
}

proof fn lemma_fetched_push(asked: Seq<RequestModel>, request: RequestModel)
    ensures
        fetched(asked.push(request)) == if is_fetching(request) {
            fetched(asked).push(request)
        } else {
            fetched(asked)
        },
{
    reveal(Seq::filter);
    assert(asked.push(request).drop_last() =~= asked);
}

/// Whether a task gets users ready, works on settings, or sends a message that is there.
pub open spec fn fetches_nothing(task: TaskModel) -> bool {
    match task {
        Task::EmailUser(_) => true,
        Task::Bridge(_) => true,
        Task::Settings(_) => true,
        _ => false,
    }
}

proof fn lemma_fetches_nothing_step(task: TaskModel, reply: ReplyModel, caches: Caches)
    requires
        fetches_nothing(task),
    ensures
        match next(task, reply, caches).1 {
            Step::Perform(request, then) => !is_fetching(request) && fetches_nothing(then),
            Step::Call(callee, then) => fetches_nothing(callee) && fetches_nothing(then),
            _ => true,
        },
{
    match task {
        Task::EmailUser(s) => {
            lemma_email_user(s, reply, caches);
        },
        Task::Bridge(s) => {
            lemma_bridge(s, reply, caches);
        },
        Task::Settings(s) => {
            lemma_settings(s, reply, caches);
        },
        _ => {},
    }
}

proof fn lemma_fetches_nothing(
    task: TaskModel,
    reply: ReplyModel,
    caches: Caches,
    host: Host,
    steps: nat,
)
    requires
        fetches_nothing(task),
    ensures
        fetched(run(task, reply, caches, host, steps).host.asked) == fetched(host.asked),
    decreases steps,
{
    if steps > 0 {
        lemma_fetches_nothing_step(task, reply, caches);
        let (c, step) = next(task, reply, caches);
        let left = (steps - 1) as nat;
        match step {
            Step::Perform(request, then) => {
                let h = performed(host, request);
                lemma_fetched_push(host.asked, request);
                lemma_fetches_nothing(then, reply_to(host, request), c, h, left);
            },
            Step::Call(callee, then) => {
                let called = run(callee, Reply::Start, c, host, left);
                lemma_fetches_nothing(callee, Reply::Start, c, host, left);
                match called.end {
                    End::Return(value) => {
                        lemma_fetches_nothing(
                            then,
                            Reply::Got(value),
                            called.caches,
                            called.host,
                            left,
                        );
                    },
                    End::Raise(error) => {
                        lemma_fetches_nothing(
                            then,
                            Reply::Failed(error),
                            called.caches,
                            called.host,
                            left,
                        );
                    },
                    _ => {},
                }
            },
            _ => {},
        }
    }
}

proof fn lemma_history(items: Seq<ChatItem>, at: int)
    requires
        0 <= at,
    ensures
        match next_message(items, at) {
            Some((place, id)) => {
                &&& at <= place < items.len()
                &&& history(items, at) == seq![fetching(id)] + history(items, place + 1)
            },
            None => history(items, at) == Seq::<RequestModel>::empty(),
        },
    decreases items.len() - at,
{
    if at < items.len() && !(items[at] is Message) {
        lemma_history(items, at + 1);
    }
}

proof fn lemma_in_order(
    room_id: Seq<char>,
    items: Vec<ChatItem>,
    at: usize,
    caches: Caches,
    host: Host,
    steps: nat,
)
    requires
        at <= items@.len(),
        run_on(bring_over(room_id, items, at), caches, host, steps).end is Return,
    ensures
        fetched(run_on(bring_over(room_id, items, at), caches, host, steps).host.asked) == fetched(
            host.asked,
        ) + history(items@, at as int),
    decreases items@.len() - at,
{
    broadcast use lemma_backfill;

    assert(items.len() == items@.len());
    lemma_history(items@, at as int);
    let done = run_on(bring_over(room_id, items, at), caches, host, steps);
    if let Some((place, id)) = next_message(items@, at as int) {
        let then = (place + 1) as usize;
        let reply = reply_to(host, fetching(id));
        let h1 = performed(host, fetching(id));
        lemma_fetched_push(host.asked, fetching(id));
        let loaded = Task::Backfill(Backfill::Loaded { room_id, items, at: then });
        assert(done == run(loaded, reply, caches, h1, steps));
        assert(steps > 0);
        assert(reply is Message);
        let message = reply->Message_0;
        let left = (steps - 1) as nat;
        let user = Task::EmailUser(
            EmailUser::ById { contact_id: message.from_id, refresh: false },
        );
        let called = start(user, caches, h1, left);
        lemma_fetches_nothing(user, Reply::Start, caches, h1, left);
        let ready = Task::Backfill(Backfill::Ready { room_id, items, at: then, message });
        assert(called.end is Return) by {
            if let End::Raise(error) = called.end {
                assert(done == run(
                    ready,
                    Reply::Failed(error),
                    called.caches,
                    called.host,
                    left,
                ));
            }
        }
        let value = called.end->Return_0;
        assert(done == run(ready, Reply::Got(value), called.caches, called.host, left));
        assert(left > 0);
        assert(value is EmailUser);
        let localpart = value->localpart;
        let left1 = (left - 1) as nat;
        let bridge = Task::Bridge(
            Bridge::Start { who: Actor::User(localpart), room_id, message },
        );
        let over = start(bridge, called.caches, called.host, left1);
        lemma_fetches_nothing(bridge, Reply::Start, called.caches, called.host, left1);
        let sent = Task::Backfill(Backfill::Sent { room_id, items, at: then });
        assert(over.end is Return) by {
            if let End::Raise(error) = over.end {
                assert(done == run(sent, Reply::Failed(error), over.caches, over.host, left1));
            }
        }
        let value1 = over.end->Return_0;
        assert(done == run(sent, Reply::Got(value1), over.caches, over.host, left1));
        assert(left1 > 0);
        let left2 = (left1 - 1) as nat;
        assert(done == run_on(bring_over(room_id, items, then), over.caches, over.host, left2));
        lemma_in_order(room_id, items, then, over.caches, over.host, left2);
        assert(fetched(host.asked).push(fetching(id)) + history(items@, then as int) =~= fetched(
            host.asked,
        ) + history(items@, at as int));
    } else {
        assert(fetched(host.asked) + history(items@, at as int) =~= fetched(host.asked));
    }
}

/// Where the messages that a chat holds could be brought over, whatever the surroundings answered,
/// they were fetched one after the other, in the order in which the chat holds them, each as often
/// as the chat holds it, and no other message was.
pub proof fn law_history_comes_over_in_order(
    room_id: Seq<char>,
    chat_id: u32,
    items: Vec<ChatItem>,
    elapsed: String,
    caches: Caches,
    host: Host,
    steps: nat,
)
    requires
        reply_to(host, unrolling(chat_id)) == (ReplyModel::Items { items, elapsed }),
        start(
            Task::Backfill(Backfill::Start { room_id, chat_id }),
            caches,
            host,
            steps,
        ).end is Return,
    ensures
        fetched(
            start(
                Task::Backfill(Backfill::Start { room_id, chat_id }),
                caches,
                host,
                steps,
            ).host.asked,
        ) == fetched(host.asked) + history(items@, 0),
{
    broadcast use lemma_backfill;

    let begun = Task::Backfill(Backfill::Start { room_id, chat_id });
    let listed = Task::Backfill(Backfill::Listed { room_id });
    let h1 = performed(host, unrolling(chat_id));
    assert(steps > 0);
    lemma_ask(begun, Reply::Start, caches, host, steps, unrolling(chat_id), listed);
    lemma_fetched_push(host.asked, unrolling(chat_id));
    let left = (steps - 1) as nat;
    let reply = ReplyModel::Items { items, elapsed };
    assert(start(begun, caches, host, steps) == run(listed, reply, caches, h1, left));
    assert(left > 0);
    lemma_in_order(room_id, items, 0, caches, h1, (left - 1) as nat);
}

}
