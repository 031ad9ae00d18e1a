//! What the lists of the command line show.
use vstd::prelude::*;

use crate::appservice::Caches;
use crate::cmdline::{cmdline_next, command_next, with_chat, Cmdline};
use crate::cmdline::chats::{
    chat_line, chat_list_next, chat_list_on, summary_line, ChatList, ChatListModel, DOUBLE_RULE,
};
use crate::cmdline::contacts::{contact_line, roll_on, Roll};
use crate::cmdline::messages::{journal_on, message_line, only_if, Journal, LogMsg, RULE};
use crate::numbers::digits;
use crate::protocol::{
    listed, ChatInfo, ChatItem, ContactInfo, DeltaRequest, Listed, LoggedMessage, Reply, ReplyModel,
    Request, RequestModel, Step, StepModel, SummaryInfo, Value, VerifiedStatus,
};
use crate::run::{answers, lemma_ask, performed, reply_to, run, start, End, Host, Run};
use crate::task::{lemma_cmdline, lemma_journal, lemma_log_msg, lemma_roll, Task};

verus! {

broadcast use {lemma_cmdline, lemma_journal, lemma_log_msg, lemma_roll};

/// What the e-mail core holds, as far as lists show it.
pub struct Records {
    pub messages: spec_fn(u32) -> LoggedMessage,
    pub contacts: spec_fn(u32) -> ContactInfo,
    pub verified: spec_fn(u32) -> VerifiedStatus,
    pub prefers: spec_fn(Seq<char>) -> Option<Seq<char>>,
    pub chats: spec_fn(u32) -> ChatInfo,
    pub fresh: spec_fn(u32) -> u64,
    pub summaries: spec_fn(usize) -> SummaryInfo,
}

/// The core answers with what it holds.
pub open spec fn tells(host: Host, records: Records) -> bool {
    &&& forall|id: u32|
        #![trigger (records.messages)(id)]
        answers(
            host,
            Request::Delta(DeltaRequest::LoadLogged { id }),
            Reply::Logged((records.messages)(id)),
        )
    &&& forall|id: u32|
        #![trigger (records.contacts)(id)]
        answers(
            host,
            Request::Delta(DeltaRequest::GetContact { id }),
            Reply::Contact((records.contacts)(id)),
        )
    &&& forall|id: u32|
        #![trigger (records.verified)(id)]
        answers(
            host,
            Request::Delta(DeltaRequest::VerifiedStatus { id }),
            Reply::Verified((records.verified)(id)),
        )
    &&& forall|addr: Seq<char>|
        #![trigger (records.prefers)(addr)]
        answers(
            host,
            Request::Delta(DeltaRequest::PreferEncrypt { addr }),
            Reply::Got(Value::MaybeText((records.prefers)(addr))),
        )
    &&& forall|id: u32|
        #![trigger (records.chats)(id)]
        answers(
            host,
            Request::Delta(DeltaRequest::LoadChat { id }),
            Reply::Chat((records.chats)(id)),
        )
    &&& forall|chat: u32|
        #![trigger (records.fresh)(chat)]
        answers(
            host,
            Request::Delta(DeltaRequest::FreshCount { chat }),
            Reply::Got(Value::Count((records.fresh)(chat))),
        )
    &&& forall|index: usize|
        #![trigger (records.summaries)(index)]
        answers(
            host,
            Request::Delta(DeltaRequest::ListedSummary { index }),
            Reply::Summary((records.summaries)(index)),
        )
}

/// A message of a list, as it is shown.
pub open spec fn listed_line(records: Records, id: u32) -> Seq<char> {
    let message = (records.messages)(id);
    message_line(""@, message, (records.contacts)(message.from_id))
}

/// A list of messages from a place on, as it is shown: a line for each message and for each mark
/// between days, a line before the first message if nothing stands before it, and a line behind the
/// last one. The list is open once there is anything in it.
pub open spec fn journal_text(
    records: Records,
    items: Seq<ChatItem>,
    at: int,
    open: bool,
) -> Seq<char>
    decreases items.len() - at,
{
    if at < 0 || at >= items.len() {
        only_if(open, RULE@)
    } else {
        match listed(items[at]) {
            Listed::Day => RULE@ + journal_text(records, items, at + 1, true),
            Listed::Special => journal_text(records, items, at + 1, open),
            Listed::Message(id) => only_if(!open, RULE@) + listed_line(records, id) + journal_text(
                records,
                items,
                at + 1,
                true,
            ),
        }
    }
}

/// What `journal_on` gives: the end of the list with its text, or the next message.
proof fn lemma_journal_on(
    records: Records,
    list: Vec<ChatItem>,
    at: int,
    text: Seq<char>,
    open: bool,
)
    requires
        0 <= at <= list@.len(),
    ensures
        match journal_on(list, at, text, open) {
            Step::Return(Value::Text(shown)) => shown == text + journal_text(
                records,
                list@,
                at,
                open,
            ),
            Step::Perform(
                Request::Delta(DeltaRequest::LoadLogged { id }),
                Task::Journal(Journal::Loaded { list: same, at: then, text: so_far }),
            ) => {
                &&& same == list
                &&& at < then <= list@.len()
                &&& so_far + listed_line(records, id) + journal_text(
                    records,
                    list@,
                    then as int,
                    true,
                ) == text + journal_text(records, list@, at, open)
            },
            _ => false,
        },
    decreases list@.len() - at,
{
    reveal_strlit("");
    assert(list.len() == list@.len());
    if at >= list@.len() {
        if open {
            assert(text + RULE@ =~= text + journal_text(records, list@, at, open));
        } else {
            assert(text =~= text + journal_text(records, list@, at, open));
        }
    } else {
        match listed(list@[at]) {
            Listed::Day => {
                lemma_journal_on(records, list, at + 1, text + RULE@, true);
                assert(text + RULE@ + journal_text(records, list@, at + 1, true) =~= text
                    + journal_text(records, list@, at, open));
            },
            Listed::Special => {
                lemma_journal_on(records, list, at + 1, text, open);
            },
            Listed::Message(id) => {
                let rest = journal_text(records, list@, at + 1, true);
                let line = listed_line(records, id);
                assert(text + RULE@ + line + rest =~= text + (RULE@ + line + rest));
                assert(text + line + rest =~= text + (""@ + line + rest));
            },
        }
    }
}

proof fn lemma_journal_run(
    records: Records,
    list: Vec<ChatItem>,
    at: usize,
    text: Seq<char>,
    line: Seq<char>,
    caches: Caches,
    host: Host,
    steps: nat,
)
    requires
        tells(host, records),
        at <= list@.len(),
        steps >= 3 * (list@.len() - at) + 5,
    ensures
        run(
            Task::Journal(Journal::Shown { list, at, text }),
            Reply::Got(Value::Text(line)),
            caches,
            host,
            steps,
        ).end == End::Return(
            Value::Text(text + line + journal_text(records, list@, at as int, true)),
        ),
    decreases list@.len() - at, 0nat,
{
    lemma_journal_on(records, list, at as int, text + line, true);
    match journal_on(list, at as int, text + line, true) {
        Step::Perform(
            Request::Delta(DeltaRequest::LoadLogged { id }),
            Task::Journal(Journal::Loaded { list: same, at: then, text: so_far }),
        ) => {
            lemma_journal_line(records, list, then, so_far, id, caches, host, (steps - 1) as nat);
        },
        _ => {},
    }
}

proof fn lemma_journal_line(
    records: Records,
    list: Vec<ChatItem>,
    at: usize,
    text: Seq<char>,
    id: u32,
    caches: Caches,
    host: Host,
    steps: nat,
)
    requires
        tells(host, records),
        at <= list@.len(),
        steps >= 3 * (list@.len() - at) + 7,
    ensures
        ({
            let load = Request::Delta(DeltaRequest::LoadLogged { id });
            run(
                Task::Journal(Journal::Loaded { list, at, text }),
                reply_to(host, load),
                caches,
                performed(host, load),
                steps,
            ).end == End::Return(
                Value::Text(
                    text + listed_line(records, id) + journal_text(records, list@, at as int, true),
                ),
            )
        }),
    decreases list@.len() - at, 1nat,
{
    let message = (records.messages)(id);
    let load: RequestModel = Request::Delta(DeltaRequest::LoadLogged { id });
    let h1 = performed(host, load);
    assert(reply_to(host, load) == Reply::<Seq<char>>::Logged(message));
    let who: RequestModel = Request::Delta(DeltaRequest::GetContact { id: message.from_id });
    assert(reply_to(h1, who) == Reply::<Seq<char>>::Contact((records.contacts)(message.from_id)));
    let called = start(
        Task::LogMsg(LogMsg::Start { prefix: ""@, message }),
        caches,
        h1,
        (steps - 1) as nat,
    );
    assert(called == (Run {
        end: End::Return(Value::Text(listed_line(records, id))),
        caches,
        host: performed(h1, who),
    })) by {
        reveal_with_fuel(run, 3);
    }
    lemma_journal_run(
        records,
        list,
        at,
        text,
        listed_line(records, id),
        caches,
        performed(h1, who),
        (steps - 1) as nat,
    );
}

/// A list of messages is shown in full and in order, with the lines between days where they
/// belong.
pub proof fn law_message_list_is_shown_in_full(
    records: Records,
    list: Vec<ChatItem>,
    caches: Caches,
    host: Host,
    steps: nat,
)
    requires
        tells(host, records),
        steps >= 3 * list@.len() + 8,
    ensures
        start(Task::Journal(Journal::Start { list }), caches, host, steps).end == End::Return(
            Value::Text(journal_text(records, list@, 0, false)),
        ),
{
    reveal_strlit("");
    lemma_journal_on(records, list, 0, ""@, false);
    assert(""@ + journal_text(records, list@, 0, false) =~= journal_text(records, list@, 0, false));
    match journal_on(list, 0, ""@, false) {
        Step::Perform(
            Request::Delta(DeltaRequest::LoadLogged { id }),
            Task::Journal(Journal::Loaded { list: same, at: then, text: so_far }),
        ) => {
            lemma_journal_line(records, list, then, so_far, id, caches, host, (steps - 1) as nat);
        },
        _ => {},
    }
}

/// A list of contacts from a place on, as it is shown.
pub open spec fn roll_text(records: Records, contacts: Seq<u32>, at: int) -> Seq<char>
    decreases contacts.len() - at,
{
    if at < 0 || at >= contacts.len() {
        ""@
    } else {
        let id = contacts[at];
        let contact = (records.contacts)(id);
        contact_line(id, contact, (records.verified)(id), (records.prefers)(contact.addr@))
            + roll_text(records, contacts, at + 1)
    }
}

/// Runs on from a step.
pub open spec fn run_step(step: StepModel, caches: Caches, host: Host, steps: nat) -> End {
    match step {
        Step::Perform(request, task) => run(
            task,
            reply_to(host, request),
            caches,
            performed(host, request),
            steps,
        ).end,
        Step::Return(value) => End::Return(value),
        _ => End::Mismatch,
    }
}

proof fn lemma_roll_on(
    records: Records,
    contacts: Vec<u32>,
    at: usize,
    text: Seq<char>,
    caches: Caches,
    host: Host,
    steps: nat,
)
    requires
        tells(host, records),
        at <= contacts@.len(),
        steps >= 3 * (contacts@.len() - at),
    ensures
        run_step(roll_on(contacts, at, text), caches, host, steps) == End::Return(
            Value::Text(text + roll_text(records, contacts@, at as int)),
        ),
    decreases contacts@.len() - at,
{
    reveal_strlit("");
    assert(contacts.len() == contacts@.len());
    if at < contacts@.len() {
        let id = contacts@[at as int];
        let contact = (records.contacts)(id);
        let verified = (records.verified)(id);
        let prefers = (records.prefers)(contact.addr@);
        let line = contact_line(id, contact, verified, prefers);
        let h1 = performed(host, Request::Delta(DeltaRequest::GetContact { id }));
        let h2 = performed(h1, Request::Delta(DeltaRequest::VerifiedStatus { id }));
        let h3 = performed(h2, Request::Delta(DeltaRequest::PreferEncrypt { addr: contact.addr@ }));
        let then = (at + 1) as usize;
        lemma_ask(
            Task::Roll(Roll::Known { contacts, at: then, id, text }),
            Reply::Contact(contact),
            caches,
            h1,
            steps,
            Request::Delta(DeltaRequest::VerifiedStatus { id }),
            Task::Roll(Roll::Verified { contacts, at: then, id, text, contact }),
        );
        lemma_ask(
            Task::Roll(Roll::Verified { contacts, at: then, id, text, contact }),
            Reply::Verified(verified),
            caches,
            h2,
            (steps - 1) as nat,
            Request::Delta(DeltaRequest::PreferEncrypt { addr: contact.addr@ }),
            Task::Roll(Roll::Preferred { contacts, at: then, id, text, contact, verified }),
        );
        lemma_roll_on(
            records,
            contacts,
            (at + 1) as usize,
            text + line,
            caches,
            h3,
            (steps - 3) as nat,
        );
        assert(text + line + roll_text(records, contacts@, at + 1) =~= text + roll_text(
            records,
            contacts@,
            at as int,
        ));
    } else {
        assert(text + roll_text(records, contacts@, at as int) =~= text);
    }
}

/// A list of contacts is shown in full and in order.
pub proof fn law_contact_list_is_shown_in_full(
    records: Records,
    contacts: Vec<u32>,
    caches: Caches,
    host: Host,
    steps: nat,
)
    requires
        tells(host, records),
        steps >= 3 * contacts@.len() + 1,
    ensures
        start(Task::Roll(Roll::Start { contacts }), caches, host, steps).end == End::Return(
            Value::Text(roll_text(records, contacts@, 0)),
        ),
{
    reveal_strlit("");
    lemma_roll_on(records, contacts, 0, ""@, caches, host, (steps - 1) as nat);
    assert(""@ + roll_text(records, contacts@, 0) =~= roll_text(records, contacts@, 0));
}

/// The first chats of a list, as they are shown: from the last of them to the first, each with its
/// last message.
pub open spec fn chats_text(records: Records, ids: Seq<u32>, count: int) -> Seq<char>
    decreases count,
{
    if count <= 0 {
        ""@
    } else {
        chat_lines(records, ids, count - 1) + chats_text(records, ids, count - 1)
    }
}

proof fn lemma_chat_list_step(chat_id: u32, stage: ChatListModel, reply: ReplyModel)
    ensures
        cmdline_next(chat_id, Cmdline::ChatList { stage }, reply) == with_chat(
            chat_id,
            chat_list_next(stage, reply),
        ),
{
    reveal(command_next);
}

/// The lines that show a chat of the list.
pub open spec fn chat_lines(records: Records, ids: Seq<u32>, at: int) -> Seq<char> {
    let chat = (records.chats)(ids[at]);
    chat_line(chat, (records.fresh)(chat.id)) + summary_line(
        chat,
        (records.summaries)(at as usize),
    ) + DOUBLE_RULE@
}

/// The surroundings once a chat of the list was shown.
pub open spec fn after_chat(records: Records, ids: Seq<u32>, at: int, host: Host) -> Host {
    let chat = (records.chats)(ids[at]);
    performed(
        performed(
            performed(host, Request::Delta(DeltaRequest::LoadChat { id: ids[at] })),
            Request::Delta(DeltaRequest::FreshCount { chat: chat.id }),
        ),
        Request::Delta(DeltaRequest::ListedSummary { index: at as usize }),
    )
}

proof fn lemma_chat_list_one(
    records: Records,
    chat_id: u32,
    ids: Vec<u32>,
    at: usize,
    elapsed: Seq<char>,
    text: Seq<char>,
    caches: Caches,
    host: Host,
    steps: nat,
)
    requires
        tells(host, records),
        0 < at <= ids@.len(),
        steps >= 3,
    ensures
        run_step(with_chat(chat_id, chat_list_on(ids, at, elapsed, text)), caches, host, steps)
            == run_step(
            with_chat(
                chat_id,
                chat_list_on(
                    ids,
                    (at - 1) as usize,
                    elapsed,
                    text + chat_lines(records, ids@, at - 1),
                ),
            ),
            caches,
            after_chat(records, ids@, at - 1, host),
            (steps - 3) as nat,
        ),
{
    let below = (at - 1) as usize;
    let chat = (records.chats)(ids@[at - 1]);
    let fresh = (records.fresh)(chat.id);
    let summary = (records.summaries)(below);
    let h1 = performed(host, Request::Delta(DeltaRequest::LoadChat { id: ids@[at - 1] }));
    let h2 = performed(h1, Request::Delta(DeltaRequest::FreshCount { chat: chat.id }));
    let h3 = performed(h2, Request::Delta(DeltaRequest::ListedSummary { index: below }));
    let more = text + chat_line(chat, fresh);
    let lines = more + summary_line(chat, summary) + DOUBLE_RULE@;
    let at1: ChatListModel = ChatList::Chat { ids, at: below, elapsed, text };
    let at2: ChatListModel = ChatList::Fresh { ids, at: below, elapsed, text, chat };
    let at3: ChatListModel = ChatList::Summary { ids, at: below, elapsed, text: more, chat };
    lemma_chat_list_step(chat_id, at1, Reply::Chat(chat));
    lemma_chat_list_step(chat_id, at2, Reply::Got(Value::Count(fresh)));
    lemma_chat_list_step(chat_id, at3, Reply::Summary(summary));
    lemma_ask(
        Task::Cmdline { chat_id, stage: Cmdline::ChatList { stage: at1 } },
        Reply::Chat(chat),
        caches,
        h1,
        steps,
        Request::Delta(DeltaRequest::FreshCount { chat: chat.id }),
        Task::Cmdline { chat_id, stage: Cmdline::ChatList { stage: at2 } },
    );
    lemma_ask(
        Task::Cmdline { chat_id, stage: Cmdline::ChatList { stage: at2 } },
        Reply::Got(Value::Count(fresh)),
        caches,
        h2,
        (steps - 1) as nat,
        Request::Delta(DeltaRequest::ListedSummary { index: below }),
        Task::Cmdline { chat_id, stage: Cmdline::ChatList { stage: at3 } },
    );
    assert(lines =~= text + chat_lines(records, ids@, at - 1));
}

proof fn lemma_chat_list_end(
    chat_id: u32,
    ids: Vec<u32>,
    elapsed: Seq<char>,
    text: Seq<char>,
    streaming: bool,
    caches: Caches,
    host: Host,
    steps: nat,
)
    requires
        steps >= 1,
        answers(
            host,
            Request::Delta(DeltaRequest::IsSendingLocations { chat: None }),
            Reply::Got(Value::Flag(streaming)),
        ),
    ensures
        run_step(with_chat(chat_id, chat_list_on(ids, 0, elapsed, text)), caches, host, steps)
            == End::Return(
            Value::Said { chat_id, said: Ok(with_footer(text, streaming, ids@.len(), elapsed)) },
        ),
{
    assert(ids.len() == ids@.len());
    lemma_chat_list_step(
        chat_id,
        ChatList::Streaming { count: ids@.len() as usize, elapsed, text },
        Reply::Got(Value::Flag(streaming)),
    );
}

/// The lines of the chats, with what stands below them.
pub open spec fn with_footer(
    lines: Seq<char>,
    streaming: bool,
    count: nat,
    elapsed: Seq<char>,
) -> Seq<char> {
    lines + only_if(streaming, "Location streaming enabled.\n"@) + digits(count) + " chats\n"@
        + elapsed + " to create this list"@
}

proof fn lemma_chat_list_on(
    records: Records,
    chat_id: u32,
    ids: Vec<u32>,
    at: usize,
    elapsed: Seq<char>,
    text: Seq<char>,
    streaming: bool,
    caches: Caches,
    host: Host,
    steps: nat,
)
    requires
        tells(host, records),
        at <= ids@.len(),
        steps >= 3 * at + 1,
        answers(
            host,
            Request::Delta(DeltaRequest::IsSendingLocations { chat: None }),
            Reply::Got(Value::Flag(streaming)),
        ),
    ensures
        run_step(with_chat(chat_id, chat_list_on(ids, at, elapsed, text)), caches, host, steps)
            == End::Return(
            Value::Said {
                chat_id,
                said: Ok(
                    with_footer(
                        text + chats_text(records, ids@, at as int),
                        streaming,
                        ids@.len(),
                        elapsed,
                    ),
                ),
            },
        ),
    decreases at,
{
    if at > 0 {
        let below = (at - 1) as usize;
        let lines = chat_lines(records, ids@, at - 1);
        let rest = chats_text(records, ids@, at - 1);
        lemma_chat_list_one(records, chat_id, ids, at, elapsed, text, caches, host, steps);
        lemma_chat_list_on(
            records,
            chat_id,
            ids,
            below,
            elapsed,
            text + lines,
            streaming,
            caches,
            after_chat(records, ids@, at - 1, host),
            (steps - 3) as nat,
        );
        assert(text + lines + rest =~= text + (lines + rest));
    } else {
        reveal_strlit("");
        assert(text + chats_text(records, ids@, at as int) =~= text);
        lemma_chat_list_end(chat_id, ids, elapsed, text, streaming, caches, host, steps);
    }
}

/// The list of chats shows all chats from the last to the first, each with its last message, and
/// how many they are.
pub proof fn law_chat_list_is_shown_in_full(
    records: Records,
    chat_id: u32,
    ids: Vec<u32>,
    elapsed: String,
    streaming: bool,
    caches: Caches,
    host: Host,
    steps: nat,
)
    requires
        tells(host, records),
        steps >= 3 * ids@.len() + 2,
        answers(
            host,
            Request::Delta(DeltaRequest::IsSendingLocations { chat: None }),
            Reply::Got(Value::Flag(streaming)),
        ),
    ensures
        run(
            Task::Cmdline { chat_id, stage: Cmdline::ChatList { stage: ChatList::Loaded } },
            Reply::Chatlist { ids, elapsed },
            caches,
            host,
            steps,
        ).end == End::Return(
            Value::Said {
                chat_id,
                said: Ok(
                    with_footer(
                        only_if(ids@.len() > 0, DOUBLE_RULE@) + chats_text(
                            records,
                            ids@,
                            ids@.len() as int,
                        ),
                        streaming,
                        ids@.len(),
                        elapsed@,
                    ),
                ),
            },
        ),
{
    assert(ids.len() == ids@.len());
    lemma_chat_list_step(chat_id, ChatList::Loaded, Reply::Chatlist { ids, elapsed });
    lemma_chat_list_on(
        records,
        chat_id,
        ids,
        ids@.len() as usize,
        elapsed@,
        only_if(ids@.len() > 0, DOUBLE_RULE@),
        streaming,
        caches,
        host,
        (steps - 1) as nat,
    );
}

}
