//! What the commands show that show a chat, or a contact.
use vstd::prelude::*;

use crate::appservice::Caches;
use crate::cmdline::{asks, cmdline_next, command_next, with_chat, Cmdline};
use crate::cmdline::chats::{
    chat_view_next, contact_view_next, contact_view_on, header, ChatView, ChatViewModel,
    ContactView, ContactViewModel,
};
use crate::cmdline::commands::{chat_id_after, command, number};
use crate::cmdline::messages::{message_line, Journal, LogMsg};
use crate::laws::bridging::run_on;
use crate::laws::commands::{line_task, loading};
use crate::laws::listing::{journal_text, law_message_list_is_shown_in_full, tells, Records};
use crate::laws::orders::{lemma_asked, Order};
use crate::laws::words::lemma_marks;
use crate::numbers::digits;
use crate::protocol::{
    ChatInfo, ChatItem, ChatKind, ContactInfo, DeltaRequest, DeltaRequestModel, LoggedMessage,
    ProfileImage, Reply, ReplyModel, Request, RequestModel, Value,
};
use crate::run::{answers, lemma_ask, lemma_others_stay, performed, reply_to, run, start, End, Host};
use crate::task::{lemma_cmdline, lemma_log_msg, Task, TaskModel};

verus! {

broadcast use {lemma_cmdline, lemma_log_msg};

/// What the core holds of a chat that is shown, besides the chat itself.
pub struct Sight {
    pub items: Vec<ChatItem>,
    pub elapsed: String,
    pub members: Vec<u32>,
    pub image: ProfileImage,
    pub draft: Option<LoggedMessage>,
    pub count: u64,
    pub noticed: Seq<char>,
}

impl Sight {
    /// The core answers with what it holds of a chat. The list of messages has marks between days.
    pub open spec fn is_of(self, host: Host, chat: u32) -> bool {
        &&& answers(
            host,
            Request::Delta(DeltaRequest::ChatItems { chat, day_markers: true }),
            Reply::Items { items: self.items, elapsed: self.elapsed },
        )
        &&& answers(
            host,
            Request::Delta(DeltaRequest::ChatContacts { chat }),
            Reply::Numbers(self.members),
        )
        &&& answers(
            host,
            Request::Delta(DeltaRequest::ChatImage { chat }),
            Reply::Image(self.image),
        )
        &&& answers(host, Request::Delta(DeltaRequest::Draft { chat }), Reply::Draft(self.draft))
        &&& answers(
            host,
            Request::Delta(DeltaRequest::MessageCount { chat }),
            Reply::Got(Value::Count(self.count)),
        )
        &&& answers(
            host,
            Request::Delta(DeltaRequest::MarkNoticedTimed { chat }),
            Reply::Got(Value::Text(self.noticed)),
        )
    }

    /// Who is in the chat, as it is shown beside its name: the address of the only other member, or
    /// how many members there are.
    pub open spec fn company(self, records: Records, chat: ChatInfo) -> Seq<char> {
        if chat.device_talk {
            "device-talk"@
        } else if chat.kind == ChatKind::Single && self.members@.len() > 0 {
            (records.contacts)(self.members@[0]).addr@
        } else if chat.kind == ChatKind::Mailinglist && self.members@.len() > 0 {
            "mailinglist"@
        } else {
            digits(self.members@.len()) + " member(s)\n"@
        }
    }

    /// The chat as it is shown: the line above it, all its messages, how many they are, and how
    /// long all that took.
    pub open spec fn picture(self, records: Records, chat: ChatInfo) -> Seq<char> {
        header(chat, self.company(records, chat), self.image) + journal_text(
            records,
            self.items@,
            0,
            false,
        ) + digits(self.count as nat) + " messages.\n"@ + self.elapsed@ + " to create this list, "@
            + self.noticed + " to mark all messages as noticed.\n"@
    }
}

/// A task that shows a chat.
pub open spec fn viewing(chat_id: u32, stage: ChatViewModel) -> TaskModel {
    Task::Cmdline { chat_id, stage: Cmdline::ChatView { stage } }
}

proof fn lemma_viewing(chat_id: u32, stage: ChatViewModel, reply: ReplyModel)
    ensures
        cmdline_next(chat_id, Cmdline::ChatView { stage }, reply) == with_chat(
            chat_id,
            chat_view_next(stage, reply),
        ),
{
    reveal(command_next);
}

/// One question of a chat that is shown.
proof fn lemma_view_asks(
    chat_id: u32,
    stage: ChatViewModel,
    reply: ReplyModel,
    request: DeltaRequestModel,
    then: ChatViewModel,
    caches: Caches,
    host: Host,
    steps: nat,
)
    requires
        steps > 0,
        chat_view_next(stage, reply) == asks(
            request,
            Cmdline::ChatView { stage: then },
        ),
    ensures
        run(viewing(chat_id, stage), reply, caches, host, steps) == run(
            viewing(chat_id, then),
            reply_to(host, Request::Delta(request)),
            caches,
            performed(host, Request::Delta(request)),
            (steps - 1) as nat,
        ),
{
    lemma_viewing(chat_id, stage, reply);
    lemma_ask(
        viewing(chat_id, stage),
        reply,
        caches,
        host,
        steps,
        Request::Delta(request),
        viewing(chat_id, then),
    );
}

/// How a chat is shown once its messages and its image are known.
proof fn lemma_view_ends(
    s: Sight,
    records: Records,
    chat: ChatInfo,
    chat_id: u32,
    text: Seq<char>,
    subtitle: Seq<char>,
    caches: Caches,
    host: Host,
    steps: nat,
)
    requires
        tells(host, records),
        s.is_of(host, chat.id),
        steps >= 3 * s.items@.len() + 16,
    ensures
        ({
            let done = run(
                viewing(
                    chat_id,
                    ChatView::Icon { chat, text, items: s.items, elapsed: s.elapsed@, subtitle },
                ),
                Reply::Image(s.image),
                caches,
                host,
                steps,
            );
            &&& done.end == End::Return(
                Value::Said {
                    chat_id,
                    said: Ok(
                        text + header(chat, subtitle, s.image) + journal_text(
                            records,
                            s.items@,
                            0,
                            false,
                        ) + digits(s.count as nat) + " messages.\n"@ + s.elapsed@
                            + " to create this list, "@ + s.noticed
                            + " to mark all messages as noticed.\n"@,
                    ),
                },
            )
            &&& done.host.asked.len() > 0
            &&& done.host.asked.last() == RequestModel::Delta(
                DeltaRequest::MarkNoticedTimed { chat: chat.id },
            )
        }),
{
    let id = chat.id;
    let elapsed = s.elapsed@;
    let icon: ChatViewModel = ChatView::Icon { chat, text, items: s.items, elapsed, subtitle };
    let above = text + header(chat, subtitle, s.image);
    let full = above + journal_text(records, s.items@, 0, false);
    let left = (steps - 1) as nat;
    let listing = Task::Journal(Journal::Start { list: s.items });
    let shown = start(listing, caches, host, left);
    law_message_list_is_shown_in_full(records, s.items, caches, host, left);
    lemma_others_stay(listing, Reply::Start, caches, host, left);
    lemma_viewing(chat_id, icon, Reply::Image(s.image));
    let logged: ChatViewModel = ChatView::Logged { chat_id: id, text: above, elapsed };
    let journal = Reply::Got(Value::Text(journal_text(records, s.items@, 0, false)));
    let done = run(viewing(chat_id, icon), Reply::Image(s.image), caches, host, steps);
    assert(done == run(viewing(chat_id, logged), journal, shown.caches, shown.host, left));
    let drafting: ChatViewModel = ChatView::Draft { chat_id: id, text: full, elapsed };
    let seek_draft: DeltaRequestModel = DeltaRequest::Draft { chat: id };
    lemma_view_asks(
        chat_id,
        logged,
        journal,
        seek_draft,
        drafting,
        shown.caches,
        shown.host,
        left,
    );
    let h1 = performed(shown.host, Request::Delta(seek_draft));
    let n1 = (left - 1) as nat;
    let counting: DeltaRequestModel = DeltaRequest::MessageCount { chat: id };
    let counted: ChatViewModel = ChatView::Counted { chat_id: id, text: full, elapsed };
    let number = Reply::Got(Value::Count(s.count));
    let c2 = match s.draft {
        Some(message) => {
            let showing = Task::LogMsg(LogMsg::Start { prefix: "Draft"@, message });
            let n2 = (n1 - 1) as nat;
            let author = (records.contacts)(message.from_id);
            let known = Task::LogMsg(LogMsg::Known { prefix: "Draft"@, message });
            let asking: RequestModel = Request::Delta(
                DeltaRequest::GetContact { id: message.from_id },
            );
            lemma_ask(showing, Reply::Start, shown.caches, h1, n2, asking, known);
            let draft = start(showing, shown.caches, h1, n2);
            assert(reply_to(h1, asking) == ReplyModel::Contact(author));
            let line = message_line("Draft"@, message, author);
            assert(draft.end == End::Return(Value::Text(line)));
            let drafted: ChatViewModel = ChatView::Drafted { chat_id: id, text: full, elapsed };
            lemma_viewing(chat_id, drafting, Reply::Draft(s.draft));
            lemma_others_stay(showing, Reply::Start, shown.caches, h1, n2);
            assert(done == run(
                viewing(chat_id, drafted),
                Reply::Got(Value::Text(line)),
                draft.caches,
                draft.host,
                n2,
            ));
            lemma_view_asks(
                chat_id,
                drafted,
                Reply::Got(Value::Text(line)),
                counting,
                counted,
                draft.caches,
                draft.host,
                n2,
            );
            (draft.caches, draft.host, (n2 - 1) as nat)
        },
        None => {
            lemma_view_asks(
                chat_id,
                drafting,
                Reply::Draft(s.draft),
                counting,
                counted,
                shown.caches,
                h1,
                n1,
            );
            (shown.caches, h1, (n1 - 1) as nat)
        },
    };
    let h2 = performed(c2.1, Request::Delta(counting));
    let with_count = full + digits(s.count as nat) + " messages.\n"@;
    let marking: DeltaRequestModel = DeltaRequest::MarkNoticedTimed { chat: id };
    let noticed: ChatViewModel = ChatView::Noticed { text: with_count, elapsed };
    assert(done == run(viewing(chat_id, counted), number, c2.0, h2, c2.2));
    lemma_view_asks(chat_id, counted, number, marking, noticed, c2.0, h2, c2.2);
    lemma_viewing(chat_id, noticed, Reply::Got(Value::Text(s.noticed)));
    let h3 = performed(h2, Request::Delta(marking));
    assert(done.host == h3);
}

/// How a chat is shown whose messages are being listed.
proof fn lemma_view(
    s: Sight,
    records: Records,
    chat: ChatInfo,
    chat_id: u32,
    text: Seq<char>,
    caches: Caches,
    host: Host,
    steps: nat,
)
    requires
        tells(host, records),
        s.is_of(host, chat.id),
        steps >= 3 * s.items@.len() + 20,
    ensures
        ({
            let done = run(
                viewing(chat_id, ChatView::Listed { chat, text }),
                Reply::Items { items: s.items, elapsed: s.elapsed },
                caches,
                host,
                steps,
            );
            &&& done.end == End::Return(
                Value::Said { chat_id, said: Ok(text + s.picture(records, chat)) },
            )
            &&& done.host.asked.len() > 0
            &&& done.host.asked.last() == RequestModel::Delta(
                DeltaRequest::MarkNoticedTimed { chat: chat.id },
            )
        }),
{
    let items = s.items;
    let elapsed = s.elapsed@;
    let listed: ChatViewModel = ChatView::Listed { chat, text };
    let first = ReplyModel::Items { items, elapsed: s.elapsed };
    let company: DeltaRequestModel = DeltaRequest::ChatContacts { chat: chat.id };
    let members: ChatViewModel = ChatView::Members { chat, text, items, elapsed };
    lemma_view_asks(chat_id, listed, first, company, members, caches, host, steps);
    let h1 = performed(host, Request::Delta(company));
    let n1 = (steps - 1) as nat;
    let subtitle = s.company(records, chat);
    let image: DeltaRequestModel = DeltaRequest::ChatImage { chat: chat.id };
    let icon: ChatViewModel = ChatView::Icon { chat, text, items, elapsed, subtitle };
    let numbers = ReplyModel::Numbers(s.members);
    let (h2, n2): (Host, nat) = if !chat.device_talk && chat.kind == ChatKind::Single
        && s.members@.len() > 0 {
        let other = s.members@[0];
        let asking: DeltaRequestModel = DeltaRequest::GetContact { id: other };
        let contact: ChatViewModel = ChatView::Contact { chat, text, items, elapsed };
        let h = performed(h1, Request::Delta(asking));
        lemma_view_asks(chat_id, members, numbers, asking, contact, caches, h1, n1);
        assert(reply_to(h1, Request::Delta(asking)) == ReplyModel::Contact(
            (records.contacts)(other),
        ));
        lemma_view_asks(
            chat_id,
            contact,
            ReplyModel::Contact((records.contacts)(other)),
            image,
            icon,
            caches,
            h,
            (n1 - 1) as nat,
        );
        (performed(h, Request::Delta(image)), (n1 - 2) as nat)
    } else {
        lemma_view_asks(chat_id, members, numbers, image, icon, caches, h1, n1);
        (performed(h1, Request::Delta(image)), (n1 - 1) as nat)
    };
    lemma_view_ends(s, records, chat, chat_id, text, subtitle, caches, h2, n2);
    assert(text + s.picture(records, chat) =~= text + header(chat, subtitle, s.image)
        + journal_text(records, s.items@, 0, false) + digits(s.count as nat) + " messages.\n"@
        + s.elapsed@ + " to create this list, "@ + s.noticed
        + " to mark all messages as noticed.\n"@);
}

impl Order {
    /// It shows a chat, behind a text, and selects it. The last thing that it asks for is that all
    /// messages there count as noticed.
    pub open spec fn shows_chat(self, chat_id: u32, chat: u32, text: Seq<char>) -> bool {
        &&& self.done().end == End::Return(Value::Said { chat_id, said: Ok(text) })
        &&& self.done().host.asked.len() > 0
        &&& self.done().host.asked.last() == RequestModel::Delta(
            DeltaRequest::MarkNoticedTimed { chat },
        )
    }
}

/// How far the command line comes that shows a chat.
proof fn lemma_chat_begun(o: Order, chat: Option<ChatInfo>)
    requires
        o.steps >= 3,
        o.has_selected(chat),
    ensures
        o.done() == run_on(
            with_chat(chat_id_after(o.line, o.chat_id), command(o.line, chat)),
            o.caches,
            o.before(),
            o.left(),
        ),
{
    if o.chat_id != 0 {
        lemma_ask(
            line_task(o.line, o.chat_id),
            Reply::Start,
            o.caches,
            o.host,
            o.steps,
            loading(o.chat_id),
            Task::Cmdline { chat_id: o.chat_id, stage: Cmdline::Selected { line: o.line } },
        );
    }
}

/// The command to show a chat shows the chat that is named, and selects it; where none is named, it
/// shows the one that is selected. Its messages count as noticed then. Where there is neither, or
/// no number is given, it fails.
pub proof fn law_chat_is_shown(
    o: Order,
    selected: Option<ChatInfo>,
    s: Sight,
    records: Records,
)
    requires
        o.steps >= 3 * s.items@.len() + 24,
        o.has_selected(selected),
        o.verb() == "chat"@,
        tells(o.host, records),
    ensures
        if o.arg1().len() > 0 {
            match number(o.arg1()) {
                Ok(n) => s.is_of(o.host, (records.chats)(n).id) ==> o.shows_chat(
                    n,
                    (records.chats)(n).id,
                    "Selecting chat "@ + (records.chats)(n).label@ + "\n"@ + s.picture(
                        records,
                        (records.chats)(n),
                    ),
                ),
                Err(error) => o.refuses(error),
            }
        } else {
            match selected {
                Some(chat) => s.is_of(o.host, chat.id) ==> o.shows_chat(
                    o.chat_id,
                    chat.id,
                    s.picture(records, chat),
                ),
                None => o.refuses("Argument [chat-id] is missing."@),
            }
        },
{
    reveal(command);
    lemma_chat_begun(o, selected);
    let steps = (o.left() - 1) as nat;
    if o.arg1().len() > 0 {
        if let Ok(n) = number(o.arg1()) {
            let chat = (records.chats)(n);
            if s.is_of(o.host, chat.id) {
                let text = "Selecting chat "@ + chat.label@ + "\n"@;
                let opening: DeltaRequestModel = DeltaRequest::LoadChat { id: n };
                let h1 = performed(o.before(), Request::Delta(opening));
                let items: DeltaRequestModel = DeltaRequest::ChatItems {
                    chat: chat.id,
                    day_markers: true,
                };
                let h2 = performed(h1, Request::Delta(items));
                let found = ReplyModel::Chat(chat);
                assert(reply_to(o.before(), Request::Delta(opening)) == found);
                assert(o.done() == run(
                    viewing(n, ChatView::Opened),
                    found,
                    o.caches,
                    h1,
                    o.left(),
                ));
                lemma_view_asks(
                    n,
                    ChatView::Opened,
                    found,
                    items,
                    ChatView::Listed { chat, text },
                    o.caches,
                    h1,
                    o.left(),
                );
                lemma_view(s, records, chat, n, text, o.caches, h2, steps);
            }
        }
    } else if let Some(chat) = selected {
        if s.is_of(o.host, chat.id) {
            let items: DeltaRequestModel = DeltaRequest::ChatItems {
                chat: chat.id,
                day_markers: true,
            };
            let h1 = performed(o.before(), Request::Delta(items));
            assert(o.done() == run(
                viewing(o.chat_id, ChatView::Listed { chat, text: ""@ }),
                ReplyModel::Items { items: s.items, elapsed: s.elapsed },
                o.caches,
                h1,
                o.left(),
            ));
            lemma_view(s, records, chat, o.chat_id, ""@, o.caches, h1, o.left());
            reveal_strlit("");
            assert(""@ + s.picture(records, chat) =~= s.picture(records, chat));
        }
    }
}

/// The chats that are shared with a contact from a place on, as they are shown: by their names,
/// with commas between them.
pub open spec fn shared(records: Records, ids: Seq<u32>, at: int) -> Seq<char>
    decreases ids.len() - at,
{
    if at < 0 || at >= ids.len() {
        ""@
    } else {
        let chat = (records.chats)(ids[at]);
        (if at == 0 {
            ""@
        } else {
            ", "@
        }) + chat.prefix@ + "#"@ + chat.label@ + shared(records, ids, at + 1)
    }
}

/// What the core holds of a contact that is shown, besides the contact itself.
pub struct Acquaintance {
    pub image: ProfileImage,
    pub encryption: Seq<char>,
    pub chats: Vec<u32>,
    pub elapsed: String,
}

impl Acquaintance {
    /// The core answers with what it holds of a contact.
    pub open spec fn is_of(self, host: Host, id: u32) -> bool {
        &&& answers(
            host,
            Request::Delta(DeltaRequest::ContactImage { id }),
            Reply::Image(self.image),
        )
        &&& answers(
            host,
            Request::Delta(DeltaRequest::EncryptionInfo { id }),
            Reply::Got(Value::Text(self.encryption)),
        )
        &&& answers(
            host,
            Request::Delta(
                DeltaRequest::ListChats { archived: false, query: None, contact: Some(id) },
            ),
            Reply::Chatlist { ids: self.chats, elapsed: self.elapsed },
        )
    }

    /// The contact as it is shown, but for the chats.
    pub open spec fn portrait(self, contact: ContactInfo) -> Seq<char> {
        "Contact info for: "@ + contact.name_n_addr@ + ":\nIcon: "@ + (match self.image {
            ProfileImage::Path(path) => path@,
            _ => "NoIcon"@,
        }) + "\n"@ + self.encryption
    }

    /// The contact as it is shown, with all chats that are shared with it.
    pub open spec fn picture(self, records: Records, id: u32) -> Seq<char> {
        let portrait = self.portrait((records.contacts)(id));
        if self.chats@.len() > 0 {
            portrait + "\n\n"@ + digits(self.chats@.len()) + " chats shared with Contact#"@
                + digits(id as nat) + ":"@ + shared(records, self.chats@, 0)
        } else {
            portrait
        }
    }
}

/// A task that shows a contact.
pub open spec fn portraying(chat_id: u32, stage: ContactViewModel) -> TaskModel {
    Task::Cmdline { chat_id, stage: Cmdline::ContactView { stage } }
}

proof fn lemma_portraying(chat_id: u32, stage: ContactViewModel, reply: ReplyModel)
    ensures
        cmdline_next(chat_id, Cmdline::ContactView { stage }, reply) == with_chat(
            chat_id,
            contact_view_next(stage, reply),
        ),
{
    reveal(command_next);
}

/// How the chats are shown that are shared with a contact.
proof fn lemma_shared(
    records: Records,
    chat_id: u32,
    ids: Vec<u32>,
    at: usize,
    text: Seq<char>,
    caches: Caches,
    host: Host,
    steps: nat,
)
    requires
        tells(host, records),
        at <= ids@.len(),
        steps >= ids@.len() - at + 1,
    ensures
        run_on(with_chat(chat_id, contact_view_on(ids, at, text)), caches, host, steps).end
            == End::Return(Value::Said { chat_id, said: Ok(text
                + shared(records, ids@, at as int)) }),
    decreases ids@.len() - at,
{
    assert(ids.len() == ids@.len());
    reveal_strlit("");
    if at < ids@.len() {
        let chat = (records.chats)(ids@[at as int]);
        let request: RequestModel = Request::Delta(DeltaRequest::LoadChat { id: ids@[at as int] });
        let then = (at + 1) as usize;
        let so_far = text + (if at != 0 {
            ", "@
        } else {
            ""@
        });
        let stage: ContactViewModel = ContactView::Chat { ids, at: then, text: so_far };
        let more = so_far + chat.prefix@ + "#"@ + chat.label@;
        lemma_portraying(chat_id, stage, Reply::Chat(chat));
        lemma_shared(
            records,
            chat_id,
            ids,
            then,
            more,
            caches,
            performed(host, request),
            (steps - 1) as nat,
        );
        assert(text + shared(records, ids@, at as int) =~= more + shared(
            records,
            ids@,
            then as int,
        ));
    } else {
        assert(text + shared(records, ids@, at as int) =~= text);
    }
}

/// The command on one contact shows who it is, its image, its encryption, and all chats that are
/// shared with it. An image that cannot be read brings it down.
pub proof fn law_contact_is_shown(
    o: Order,
    selected: Option<ChatInfo>,
    id: u32,
    a: Acquaintance,
    records: Records,
)
    requires
        o.steps >= a.chats@.len() + 8,
        o.has_selected(selected),
        o.verb() == "contactinfo"@,
        number(o.arg1()) == Result::<u32, Seq<char>>::Ok(id),
        o.arg1().len() > 0,
        tells(o.host, records),
        a.is_of(o.host, id),
    ensures
        if a.image is Unreadable {
            o.done().end is Panic
        } else {
            o.says(a.picture(records, id))
        },
{
    assert(o.verb() != "chat"@) by {
        lemma_marks();
    }
    let loaded: ContactViewModel = ContactView::Loaded { id };
    let contact = (records.contacts)(id);
    let asking: DeltaRequestModel = DeltaRequest::GetContact { id };
    assert(command(o.line, selected) == asks(
        asking,
        Cmdline::ContactView { stage: loaded },
    )) by {
        lemma_marks();
        reveal(command);
    }
    lemma_asked(o, selected, asking, Cmdline::ContactView { stage: loaded });
    let h1 = performed(o.before(), Request::Delta(asking));
    assert(o.hears(asking) == ReplyModel::Contact(contact));
    let seek_image: RequestModel = Request::Delta(DeltaRequest::ContactImage { id });
    let image: ContactViewModel = ContactView::Image { id, name: contact.name_n_addr@ };
    lemma_portraying(o.chat_id, loaded, Reply::Contact(contact));
    lemma_ask(
        portraying(o.chat_id, loaded),
        Reply::Contact(contact),
        o.caches,
        h1,
        o.left(),
        seek_image,
        portraying(o.chat_id, image),
    );
    lemma_portraying(o.chat_id, image, Reply::Image(a.image));
    let h2 = performed(h1, seek_image);
    let n2 = (o.left() - 1) as nat;
    if !(a.image is Unreadable) {
        let text = "Contact info for: "@ + contact.name_n_addr@ + ":\nIcon: "@ + (match a.image {
            ProfileImage::Path(path) => path@,
            _ => "NoIcon"@,
        }) + "\n"@;
        let seek_encryption: RequestModel = Request::Delta(DeltaRequest::EncryptionInfo { id });
        let encryption: ContactViewModel = ContactView::Encryption { id, text };
        lemma_ask(
            portraying(o.chat_id, image),
            Reply::Image(a.image),
            o.caches,
            h2,
            n2,
            seek_encryption,
            portraying(o.chat_id, encryption),
        );
        let h3 = performed(h2, seek_encryption);
        let seek_chats: RequestModel = Request::Delta(
            DeltaRequest::ListChats { archived: false, query: None, contact: Some(id) },
        );
        let chats: ContactViewModel = ContactView::Chats { id, text: text + a.encryption };
        lemma_portraying(o.chat_id, encryption, Reply::Got(Value::Text(a.encryption)));
        lemma_ask(
            portraying(o.chat_id, encryption),
            Reply::Got(Value::Text(a.encryption)),
            o.caches,
            h3,
            (n2 - 1) as nat,
            seek_chats,
            portraying(o.chat_id, chats),
        );
        let h4 = performed(h3, seek_chats);
        let listed = ReplyModel::Chatlist { ids: a.chats, elapsed: a.elapsed };
        lemma_portraying(o.chat_id, chats, listed);
        if a.chats@.len() > 0 {
            let heading = text + a.encryption + "\n\n"@ + digits(a.chats@.len())
                + " chats shared with Contact#"@ + digits(id as nat) + ":"@;
            lemma_shared(
                records,
                o.chat_id,
                a.chats,
                0,
                heading,
                o.caches,
                h4,
                (n2 - 3) as nat,
            );
        }
    }
}

}
