//! Chats, and contacts with their chats, as the command line shows them.
use vstd::prelude::*;

use crate::cmdline::{ask, asks, CmdStep, CmdStepModel, Cmdline};
use crate::cmdline::messages::{only_if, show_state, state_mark, text_if, Journal, LogMsg};
use crate::numbers::{decimal, digits};
use crate::protocol::{
    ChatInfo, ChatItem, ChatKind, DeltaRequest, ProfileImage, Reply, ReplyModel, SummaryInfo, Value,
    Visibility, MISSING,
};
use crate::task::Task;
use crate::text::{join2, join3};

verus! {

/// The line between chats.
pub const DOUBLE_RULE: &'static str =
    "================================================================================\n";

/// How the list of chats is shown.
#[derive(Debug, PartialEq, Eq)]
pub enum ChatList<T = String> {
    Loaded,
    Chat { ids: Vec<u32>, at: usize, elapsed: T, text: T },
    Fresh { ids: Vec<u32>, at: usize, elapsed: T, text: T, chat: ChatInfo },
    Summary { ids: Vec<u32>, at: usize, elapsed: T, text: T, chat: ChatInfo },
    Streaming { count: usize, elapsed: T, text: T },
}

/// The same over mathematical text.
pub type ChatListModel = ChatList<Seq<char>>;

impl View for ChatList {
    type V = ChatListModel;

    open spec fn view(&self) -> ChatListModel {
        match self {
            ChatList::Loaded => ChatList::Loaded,
            ChatList::Chat { ids, at, elapsed, text } => ChatList::Chat { ids: *ids, at: *at, elapsed: elapsed@, text: text@ },
            ChatList::Fresh { ids, at, elapsed, text, chat } => ChatList::Fresh { ids: *ids, at: *at, elapsed: elapsed@, text: text@, chat: *chat },
            ChatList::Summary { ids, at, elapsed, text, chat } => ChatList::Summary { ids: *ids, at: *at, elapsed: elapsed@, text: text@, chat: *chat },
            ChatList::Streaming { count, elapsed, text } => ChatList::Streaming { count: *count, elapsed: elapsed@, text: text@ },
        }
    }
}

/// How a chat is shown.
#[derive(Debug, PartialEq, Eq)]
pub enum ChatView<T = String> {
    Opened,
    Listed { chat: ChatInfo, text: T },
    Members { chat: ChatInfo, text: T, items: Vec<ChatItem>, elapsed: T },
    Contact { chat: ChatInfo, text: T, items: Vec<ChatItem>, elapsed: T },
    Icon { chat: ChatInfo, text: T, items: Vec<ChatItem>, elapsed: T, subtitle: T },
    Logged { chat_id: u32, text: T, elapsed: T },
    Draft { chat_id: u32, text: T, elapsed: T },
    Drafted { chat_id: u32, text: T, elapsed: T },
    Counted { chat_id: u32, text: T, elapsed: T },
    Noticed { text: T, elapsed: T },
}

/// The same over mathematical text.
pub type ChatViewModel = ChatView<Seq<char>>;

impl View for ChatView {
    type V = ChatViewModel;

    open spec fn view(&self) -> ChatViewModel {
        match self {
            ChatView::Opened => ChatView::Opened,
            ChatView::Listed { chat, text } => ChatView::Listed { chat: *chat, text: text@ },
            ChatView::Members { chat, text, items, elapsed } => ChatView::Members { chat: *chat, text: text@, items: *items, elapsed: elapsed@ },
            ChatView::Contact { chat, text, items, elapsed } => ChatView::Contact { chat: *chat, text: text@, items: *items, elapsed: elapsed@ },
            ChatView::Icon { chat, text, items, elapsed, subtitle } => ChatView::Icon { chat: *chat, text: text@, items: *items, elapsed: elapsed@, subtitle: subtitle@ },
            ChatView::Logged { chat_id, text, elapsed } => ChatView::Logged { chat_id: *chat_id, text: text@, elapsed: elapsed@ },
            ChatView::Draft { chat_id, text, elapsed } => ChatView::Draft { chat_id: *chat_id, text: text@, elapsed: elapsed@ },
            ChatView::Drafted { chat_id, text, elapsed } => ChatView::Drafted { chat_id: *chat_id, text: text@, elapsed: elapsed@ },
            ChatView::Counted { chat_id, text, elapsed } => ChatView::Counted { chat_id: *chat_id, text: text@, elapsed: elapsed@ },
            ChatView::Noticed { text, elapsed } => ChatView::Noticed { text: text@, elapsed: elapsed@ },
        }
    }
}

/// How a contact is shown.
#[derive(Debug, PartialEq, Eq)]
pub enum ContactView<T = String> {
    Loaded { id: u32 },
    Image { id: u32, name: T },
    Encryption { id: u32, text: T },
    Chats { id: u32, text: T },
    Chat { ids: Vec<u32>, at: usize, text: T },
}

/// The same over mathematical text.
pub type ContactViewModel = ContactView<Seq<char>>;

impl View for ContactView {
    type V = ContactViewModel;

    open spec fn view(&self) -> ContactViewModel {
        match self {
            ContactView::Loaded { id } => ContactView::Loaded { id: *id },
            ContactView::Image { id, name } => ContactView::Image { id: *id, name: name@ },
            ContactView::Encryption { id, text } => ContactView::Encryption { id: *id, text: text@ },
            ContactView::Chats { id, text } => ContactView::Chats { id: *id, text: text@ },
            ContactView::Chat { ids, at, text } => ContactView::Chat { ids: *ids, at: *at, text: text@ },
        }
    }
}

/// Where a chat stands in the list of chats, as it is shown.
pub open spec fn visibility_mark(visibility: Visibility) -> Seq<char> {
    match visibility {
        Visibility::Normal => ""@,
        Visibility::Archived => "📦"@,
        Visibility::Pinned => "📌"@,
    }
}

fn show_visibility(visibility: Visibility) -> (r: &'static str)
    ensures
        r@ == visibility_mark(visibility),
{
    match visibility {
        Visibility::Normal => "",
        Visibility::Archived => "📦",
        Visibility::Pinned => "📌",
    }
}

/// The line of a chat in the list of chats.
pub open spec fn chat_line(chat: ChatInfo, fresh: u64) -> Seq<char> {
    chat.prefix@ + "#"@ + chat.label@ + ": "@ + chat.name@ + " ["@ + digits(fresh as nat)
        + " fresh] "@ + only_if(chat.muted, "🔇"@) + visibility_mark(chat.visibility) + only_if(
        chat.protected,
        "🛡\u{fe0f}"@,
    ) + only_if(chat.contact_request, "🆕"@) + "\n"@
}

fn show_chat(chat: &ChatInfo, fresh: u64) -> (r: String)
    ensures
        r@ == chat_line(*chat, fresh),
{
    let mut r: String = chat.prefix.clone();
    r.append("#");
    r.append(chat.label.as_str());
    r.append(": ");
    r.append(chat.name.as_str());
    r.append(" [");
    r.append(decimal(fresh).as_str());
    r.append(" fresh] ");
    r.append(text_if(chat.muted, "🔇"));
    r.append(show_visibility(chat.visibility));
    r.append(text_if(chat.protected, "🛡\u{fe0f}"));
    r.append(text_if(chat.contact_request, "🆕"));
    r.append("\n");
    r
}

/// The line of the last message of a chat in the list of chats.
pub open spec fn summary_line(chat: ChatInfo, summary: SummaryInfo) -> Seq<char> {
    (match summary.prefix {
        Some(prefix) => prefix@ + ": "@,
        None => ""@,
    }) + summary.text@ + (if chat.visibility == Visibility::Archived {
        " [Archived]"@
    } else {
        state_mark(summary.state)
    }) + " ["@ + summary.time@ + "]"@ + only_if(chat.sending_locations, "📍"@) + "\n"@
}

fn show_summary(chat: &ChatInfo, summary: &SummaryInfo) -> (r: String)
    ensures
        r@ == summary_line(*chat, *summary),
{
    let mut r: String = match &summary.prefix {
        Some(prefix) => join2(prefix.as_str(), ": "),
        None => "".to_owned(),
    };
    r.append(summary.text.as_str());
    r.append(
        match chat.visibility {
            Visibility::Archived => " [Archived]",
            _ => show_state(summary.state),
        },
    );
    r.append(" [");
    r.append(summary.time.as_str());
    r.append("]");
    r.append(text_if(chat.sending_locations, "📍"));
    r.append("\n");
    r
}

/// Goes on to the chat before a place in the list, which is shown from its end; asks at its start
/// whether locations are being sent.
pub open spec fn chat_list_on(
    ids: Vec<u32>,
    at: usize,
    elapsed: Seq<char>,
    text: Seq<char>,
) -> CmdStepModel {
    if 0 < at <= ids@.len() {
        asks(
            DeltaRequest::LoadChat { id: ids@[at - 1] },
            Cmdline::ChatList {
                stage: ChatList::Chat { ids, at: (at - 1) as usize, elapsed, text },
            },
        )
    } else {
        asks(
            DeltaRequest::IsSendingLocations { chat: None },
            Cmdline::ChatList {
                stage: ChatList::Streaming { count: ids@.len() as usize, elapsed, text },
            },
        )
    }
}

/// How the list of chats is shown.
pub open spec fn chat_list_next(s: ChatListModel, reply: ReplyModel) -> CmdStepModel {
    match (s, reply) {
        (ChatList::Loaded, Reply::Chatlist { ids, elapsed }) => chat_list_on(
            ids,
            ids@.len() as usize,
            elapsed@,
            only_if(ids@.len() > 0, DOUBLE_RULE@),
        ),
        (ChatList::Chat { ids, at, elapsed, text }, Reply::Chat(chat)) => asks(
            DeltaRequest::FreshCount { chat: chat.id },
            Cmdline::ChatList { stage: ChatList::Fresh { ids, at, elapsed, text, chat } },
        ),
        (ChatList::Fresh { ids, at, elapsed, text, chat }, Reply::Got(Value::Count(fresh))) => asks(
            DeltaRequest::ListedSummary { index: at },
            Cmdline::ChatList {
                stage: ChatList::Summary {
                    ids,
                    at,
                    elapsed,
                    text: text + chat_line(chat, fresh),
                    chat,
                },
            },
        ),
        (ChatList::Summary { ids, at, elapsed, text, chat }, Reply::Summary(summary)) => {
            chat_list_on(ids, at, elapsed, text + summary_line(chat, summary) + DOUBLE_RULE@)
        },
        (
            ChatList::Streaming { count, elapsed, text },
            Reply::Got(Value::Flag(streaming)),
        ) => CmdStep::Say {
            text: text + only_if(streaming, "Location streaming enabled.\n"@) + digits(count as nat)
                + " chats\n"@ + elapsed + " to create this list"@,
        },
        (_, Reply::Failed(error)) => CmdStep::Fail { error },
        _ => CmdStep::Mismatch,
    }
}

fn chat_list_from(ids: Vec<u32>, at: usize, elapsed: String, text: String) -> (s: CmdStep)
    ensures
        s@ == chat_list_on(ids, at, elapsed@, text@),
{
    if 0 < at && at <= ids.len() {
        ask(
            DeltaRequest::LoadChat { id: ids[at - 1] },
            Cmdline::ChatList { stage: ChatList::Chat { ids, at: at - 1, elapsed, text } },
        )
    } else {
        ask(
            DeltaRequest::IsSendingLocations { chat: None },
            Cmdline::ChatList { stage: ChatList::Streaming { count: ids.len(), elapsed, text } },
        )
    }
}

/// Goes on with showing the list of chats.
pub(crate) fn chat_list_resume(s: ChatList, reply: Reply) -> (step: CmdStep)
    ensures
        step@ == chat_list_next(s@, reply@),
{
    match (s, reply) {
        (ChatList::Loaded, Reply::Chatlist { ids, elapsed }) => {
            let count: usize = ids.len();
            let text: String = text_if(count > 0, DOUBLE_RULE).to_owned();
            chat_list_from(ids, count, elapsed, text)
        },
        (ChatList::Chat { ids, at, elapsed, text }, Reply::Chat(chat)) => ask(
            DeltaRequest::FreshCount { chat: chat.id },
            Cmdline::ChatList { stage: ChatList::Fresh { ids, at, elapsed, text, chat } },
        ),
        (ChatList::Fresh { ids, at, elapsed, text, chat }, Reply::Got(Value::Count(fresh))) => {
            let mut r: String = text;
            r.append(show_chat(&chat, fresh).as_str());
            ask(
                DeltaRequest::ListedSummary { index: at },
                Cmdline::ChatList { stage: ChatList::Summary { ids, at, elapsed, text: r, chat } },
            )
        },
        (ChatList::Summary { ids, at, elapsed, text, chat }, Reply::Summary(summary)) => {
            let mut r: String = text;
            r.append(show_summary(&chat, &summary).as_str());
            r.append(DOUBLE_RULE);
            chat_list_from(ids, at, elapsed, r)
        },
        (ChatList::Streaming { count, elapsed, text }, Reply::Got(Value::Flag(streaming))) => {
            let mut r: String = text;
            r.append(text_if(streaming, "Location streaming enabled.\n"));
            r.append(decimal(count as u64).as_str());
            r.append(" chats\n");
            r.append(elapsed.as_str());
            r.append(" to create this list");
            CmdStep::Say { text: r }
        },
        (_, Reply::Failed(error)) => CmdStep::Fail { error },
        _ => CmdStep::Mismatch,
    }
}

/// The image of a chat, as it is shown.
pub open spec fn icon_text(image: ProfileImage) -> Seq<char> {
    match image {
        ProfileImage::Path(path) => " Icon: "@ + path@ + "\n"@,
        ProfileImage::Unreadable => " Icon: Err"@,
        ProfileImage::Missing => ""@,
    }
}

fn show_icon(image: &ProfileImage) -> (r: String)
    ensures
        r@ == icon_text(*image),
{
    match image {
        ProfileImage::Path(path) => join3(" Icon: ", path.as_str(), "\n"),
        ProfileImage::Unreadable => " Icon: Err".to_owned(),
        ProfileImage::Missing => "".to_owned(),
    }
}

/// The line above the messages of a chat.
pub open spec fn header(chat: ChatInfo, subtitle: Seq<char>, image: ProfileImage) -> Seq<char> {
    chat.prefix@ + "#"@ + chat.label@ + ": "@ + chat.name@ + " ["@ + subtitle + "]"@ + only_if(
        chat.muted,
        "🔇"@,
    ) + only_if(chat.sending_locations, "📍"@) + only_if(chat.protected, "🛡\u{fe0f}"@) + " "@
        + icon_text(image) + "\n"@
}

fn show_header(chat: &ChatInfo, subtitle: &str, image: &ProfileImage) -> (r: String)
    ensures
        r@ == header(*chat, subtitle@, *image),
{
    let mut r: String = chat.prefix.clone();
    r.append("#");
    r.append(chat.label.as_str());
    r.append(": ");
    r.append(chat.name.as_str());
    r.append(" [");
    r.append(subtitle);
    r.append("]");
    r.append(text_if(chat.muted, "🔇"));
    r.append(text_if(chat.sending_locations, "📍"));
    r.append(text_if(chat.protected, "🛡\u{fe0f}"));
    r.append(" ");
    r.append(show_icon(image).as_str());
    r.append("\n");
    r
}

/// Lists the items of a chat.
pub open spec fn list_items(chat: ChatInfo, text: Seq<char>) -> CmdStepModel {
    asks(
        DeltaRequest::ChatItems { chat: chat.id, day_markers: true },
        Cmdline::ChatView { stage: ChatView::Listed { chat, text } },
    )
}

/// Lists the items of a chat.
pub(crate) fn request_items(chat: ChatInfo, text: String) -> (s: CmdStep)
    ensures
        s@ == list_items(chat, text@),
{
    ask(
        DeltaRequest::ChatItems { chat: chat.id, day_markers: true },
        Cmdline::ChatView { stage: ChatView::Listed { chat, text } },
    )
}

/// Looks up the image of a chat, whose subtitle is known then.
pub open spec fn seek_icon(
    chat: ChatInfo,
    text: Seq<char>,
    items: Vec<ChatItem>,
    elapsed: Seq<char>,
    subtitle: Seq<char>,
) -> CmdStepModel {
    asks(
        DeltaRequest::ChatImage { chat: chat.id },
        Cmdline::ChatView { stage: ChatView::Icon { chat, text, items, elapsed, subtitle } },
    )
}

fn request_icon(
    chat: ChatInfo,
    text: String,
    items: Vec<ChatItem>,
    elapsed: String,
    subtitle: String,
) -> (s: CmdStep)
    ensures
        s@ == seek_icon(chat, text@, items, elapsed@, subtitle@),
{
    ask(
        DeltaRequest::ChatImage { chat: chat.id },
        Cmdline::ChatView { stage: ChatView::Icon { chat, text, items, elapsed, subtitle } },
    )
}

/// Counts the messages of a chat.
pub open spec fn count_messages(
    chat_id: u32,
    text: Seq<char>,
    elapsed: Seq<char>,
) -> CmdStepModel {
    asks(
        DeltaRequest::MessageCount { chat: chat_id },
        Cmdline::ChatView { stage: ChatView::Counted { chat_id, text, elapsed } },
    )
}

fn request_count(chat_id: u32, text: String, elapsed: String) -> (s: CmdStep)
    ensures
        s@ == count_messages(chat_id, text@, elapsed@),
{
    ask(
        DeltaRequest::MessageCount { chat: chat_id },
        Cmdline::ChatView { stage: ChatView::Counted { chat_id, text, elapsed } },
    )
}

/// How a chat is shown: a header that says who is in it, its messages, and how many they are.
/// After that it counts as noticed. A draft is looked at, but not shown.
pub open spec fn chat_view_next(s: ChatViewModel, reply: ReplyModel) -> CmdStepModel {
    match (s, reply) {
        (ChatView::Opened, Reply::Chat(chat)) => list_items(
            chat,
            "Selecting chat "@ + chat.label@ + "\n"@,
        ),
        (ChatView::Listed { chat, text }, Reply::Items { items, elapsed }) => asks(
            DeltaRequest::ChatContacts { chat: chat.id },
            Cmdline::ChatView {
                stage: ChatView::Members { chat, text, items, elapsed: elapsed@ },
            },
        ),
        (ChatView::Members { chat, text, items, elapsed }, Reply::Numbers(members)) => {
            if chat.device_talk {
                seek_icon(chat, text, items, elapsed, "device-talk"@)
            } else if chat.kind == ChatKind::Single && members@.len() > 0 {
                asks(
                    DeltaRequest::GetContact { id: members@[0] },
                    Cmdline::ChatView {
                        stage: ChatView::Contact { chat, text, items, elapsed },
                    },
                )
            } else if chat.kind == ChatKind::Mailinglist && members@.len() > 0 {
                seek_icon(chat, text, items, elapsed, "mailinglist"@)
            } else {
                seek_icon(chat, text, items, elapsed, digits(members@.len()) + " member(s)\n"@)
            }
        },
        (ChatView::Contact { chat, text, items, elapsed }, Reply::Contact(contact)) => seek_icon(
            chat,
            text,
            items,
            elapsed,
            contact.addr@,
        ),
        (ChatView::Icon { chat, text, items, elapsed, subtitle }, Reply::Image(image)) => {
            CmdStep::Call {
                callee: Task::Journal(Journal::Start { list: items }),
                after: Cmdline::ChatView {
                    stage: ChatView::Logged {
                        chat_id: chat.id,
                        text: text + header(chat, subtitle, image),
                        elapsed,
                    },
                },
            }
        },
        (ChatView::Logged { chat_id, text, elapsed }, Reply::Got(Value::Text(journal))) => asks(
            DeltaRequest::Draft { chat: chat_id },
            Cmdline::ChatView { stage: ChatView::Draft { chat_id, text: text + journal, elapsed } },
        ),
        (ChatView::Draft { chat_id, text, elapsed }, Reply::Draft(draft)) => match draft {
            Some(message) => CmdStep::Call {
                callee: Task::LogMsg(LogMsg::Start { prefix: "Draft"@, message }),
                after: Cmdline::ChatView { stage: ChatView::Drafted { chat_id, text, elapsed } },
            },
            None => count_messages(chat_id, text, elapsed),
        },
        (ChatView::Drafted { chat_id, text, elapsed }, Reply::Got(_)) => count_messages(
            chat_id,
            text,
            elapsed,
        ),
        (ChatView::Counted { chat_id, text, elapsed }, Reply::Got(Value::Count(count))) => asks(
            DeltaRequest::MarkNoticedTimed { chat: chat_id },
            Cmdline::ChatView {
                stage: ChatView::Noticed {
                    text: text + digits(count as nat) + " messages.\n"@,
                    elapsed,
                },
            },
        ),
        (ChatView::Noticed { text, elapsed }, Reply::Got(Value::Text(noticed))) => CmdStep::Say {
            text: text + elapsed + " to create this list, "@ + noticed
                + " to mark all messages as noticed.\n"@,
        },
        (_, Reply::Failed(error)) => CmdStep::Fail { error },
        _ => CmdStep::Mismatch,
    }
}

/// Goes on with showing a chat.
pub(crate) fn chat_view_resume(s: ChatView, reply: Reply) -> (step: CmdStep)
    ensures
        step@ == chat_view_next(s@, reply@),
{
    match (s, reply) {
        (ChatView::Opened, Reply::Chat(chat)) => {
            let text: String = join3("Selecting chat ", chat.label.as_str(), "\n");
            request_items(chat, text)
        },
        (ChatView::Listed { chat, text }, Reply::Items { items, elapsed }) => ask(
            DeltaRequest::ChatContacts { chat: chat.id },
            Cmdline::ChatView { stage: ChatView::Members { chat, text, items, elapsed } },
        ),
        (ChatView::Members { chat, text, items, elapsed }, Reply::Numbers(members)) => {
            if chat.device_talk {
                request_icon(chat, text, items, elapsed, "device-talk".to_owned())
            } else if chat.kind == ChatKind::Single && members.len() > 0 {
                ask(
                    DeltaRequest::GetContact { id: members[0] },
                    Cmdline::ChatView { stage: ChatView::Contact { chat, text, items, elapsed } },
                )
            } else if chat.kind == ChatKind::Mailinglist && members.len() > 0 {
                request_icon(chat, text, items, elapsed, "mailinglist".to_owned())
            } else {
                let subtitle: String = join2(
                    decimal(members.len() as u64).as_str(),
                    " member(s)\n",
                );
                request_icon(chat, text, items, elapsed, subtitle)
            }
        },
        (ChatView::Contact { chat, text, items, elapsed }, Reply::Contact(contact)) => {
            request_icon(chat, text, items, elapsed, contact.addr)
        },
        (ChatView::Icon { chat, text, items, elapsed, subtitle }, Reply::Image(image)) => {
            let mut r: String = text;
            r.append(show_header(&chat, subtitle.as_str(), &image).as_str());
            CmdStep::Call {
                callee: Task::Journal(Journal::Start { list: items }),
                after: Cmdline::ChatView {
                    stage: ChatView::Logged { chat_id: chat.id, text: r, elapsed },
                },
            }
        },
        (ChatView::Logged { chat_id, text, elapsed }, Reply::Got(Value::Text(journal))) => {
            let mut r: String = text;
            r.append(journal.as_str());
            ask(
                DeltaRequest::Draft { chat: chat_id },
                Cmdline::ChatView { stage: ChatView::Draft { chat_id, text: r, elapsed } },
            )
        },
        (ChatView::Draft { chat_id, text, elapsed }, Reply::Draft(draft)) => match draft {
            Some(message) => CmdStep::Call {
                callee: Task::LogMsg(LogMsg::Start { prefix: "Draft".to_owned(), message }),
                after: Cmdline::ChatView { stage: ChatView::Drafted { chat_id, text, elapsed } },
            },
            None => request_count(chat_id, text, elapsed),
        },
        (ChatView::Drafted { chat_id, text, elapsed }, Reply::Got(_)) => request_count(
            chat_id,
            text,
            elapsed,
        ),
        (ChatView::Counted { chat_id, text, elapsed }, Reply::Got(Value::Count(count))) => {
            let mut r: String = text;
            r.append(decimal(count).as_str());
            r.append(" messages.\n");
            ask(
                DeltaRequest::MarkNoticedTimed { chat: chat_id },
                Cmdline::ChatView { stage: ChatView::Noticed { text: r, elapsed } },
            )
        },
        (ChatView::Noticed { text, elapsed }, Reply::Got(Value::Text(noticed))) => {
            let mut r: String = text;
            r.append(elapsed.as_str());
            r.append(" to create this list, ");
            r.append(noticed.as_str());
            r.append(" to mark all messages as noticed.\n");
            CmdStep::Say { text: r }
        },
        (_, Reply::Failed(error)) => CmdStep::Fail { error },
        _ => CmdStep::Mismatch,
    }
}

/// Goes on to the chat at a place in the list of those shared with a contact.
pub open spec fn contact_view_on(ids: Vec<u32>, at: usize, text: Seq<char>) -> CmdStepModel {
    if at < ids@.len() {
        asks(
            DeltaRequest::LoadChat { id: ids@[at as int] },
            Cmdline::ContactView {
                stage: ContactView::Chat {
                    ids,
                    at: (at + 1) as usize,
                    text: text + only_if(at != 0, ", "@),
                },
            },
        )
    } else {
        CmdStep::Say { text }
    }
}

/// How a contact is shown: who it is, its image, its encryption, and the chats shared with it.
pub open spec fn contact_view_next(s: ContactViewModel, reply: ReplyModel) -> CmdStepModel {
    match (s, reply) {
        (ContactView::Loaded { id }, Reply::Contact(contact)) => asks(
            DeltaRequest::ContactImage { id },
            Cmdline::ContactView { stage: ContactView::Image { id, name: contact.name_n_addr@ } },
        ),
        (ContactView::Image { id, name }, Reply::Image(image)) => match image {
            ProfileImage::Unreadable => CmdStep::Panic { error: MISSING@ },
            _ => asks(
                DeltaRequest::EncryptionInfo { id },
                Cmdline::ContactView {
                    stage: ContactView::Encryption {
                        id,
                        text: "Contact info for: "@ + name + ":\nIcon: "@ + (match image {
                            ProfileImage::Path(path) => path@,
                            _ => "NoIcon"@,
                        }) + "\n"@,
                    },
                },
            ),
        },
        (ContactView::Encryption { id, text }, Reply::Got(Value::Text(encryption))) => asks(
            DeltaRequest::ListChats { archived: false, query: None, contact: Some(id) },
            Cmdline::ContactView { stage: ContactView::Chats { id, text: text + encryption } },
        ),
        (ContactView::Chats { id, text }, Reply::Chatlist { ids, .. }) => if ids@.len() > 0 {
            contact_view_on(
                ids,
                0,
                text + "\n\n"@ + digits(ids@.len()) + " chats shared with Contact#"@ + digits(
                    id as nat,
                ) + ":"@,
            )
        } else {
            CmdStep::Say { text }
        },
        (ContactView::Chat { ids, at, text }, Reply::Chat(chat)) => contact_view_on(
            ids,
            at,
            text + chat.prefix@ + "#"@ + chat.label@,
        ),
        (_, Reply::Failed(error)) => CmdStep::Fail { error },
        _ => CmdStep::Mismatch,
    }
}

fn contact_view_from(ids: Vec<u32>, at: usize, text: String) -> (s: CmdStep)
    ensures
        s@ == contact_view_on(ids, at, text@),
{
    if at < ids.len() {
        let mut r: String = text;
        r.append(text_if(at != 0, ", "));
        ask(
            DeltaRequest::LoadChat { id: ids[at] },
            Cmdline::ContactView { stage: ContactView::Chat { ids, at: at + 1, text: r } },
        )
    } else {
        CmdStep::Say { text }
    }
}

fn contact_heading(name: &str, icon: &str) -> (r: String)
    ensures
        r@ == "Contact info for: "@ + name@ + ":\nIcon: "@ + icon@ + "\n"@,
{
    let mut r: String = "Contact info for: ".to_owned();
    r.append(name);
    r.append(":\nIcon: ");
    r.append(icon);
    r.append("\n");
    r
}

fn request_encryption(id: u32, text: String) -> (s: CmdStep)
    ensures
        s@ == asks(
            DeltaRequest::EncryptionInfo { id },
            Cmdline::ContactView { stage: ContactView::Encryption { id, text: text@ } },
        ),
{
    ask(
        DeltaRequest::EncryptionInfo { id },
        Cmdline::ContactView { stage: ContactView::Encryption { id, text } },
    )
}

/// Goes on with showing a contact.
pub(crate) fn contact_view_resume(s: ContactView, reply: Reply) -> (step: CmdStep)
    ensures
        step@ == contact_view_next(s@, reply@),
{
    match (s, reply) {
        (ContactView::Loaded { id }, Reply::Contact(contact)) => ask(
            DeltaRequest::ContactImage { id },
            Cmdline::ContactView { stage: ContactView::Image { id, name: contact.name_n_addr } },
        ),
        (ContactView::Image { id, name }, Reply::Image(image)) => match image {
            ProfileImage::Unreadable => CmdStep::Panic { error: MISSING.to_owned() },
            ProfileImage::Path(path) => request_encryption(
                id,
                contact_heading(name.as_str(), path.as_str()),
            ),
            ProfileImage::Missing => request_encryption(
                id,
                contact_heading(name.as_str(), "NoIcon"),
            ),
        },
        (ContactView::Encryption { id, text }, Reply::Got(Value::Text(encryption))) => {
            let mut r: String = text;
            r.append(encryption.as_str());
            ask(
                DeltaRequest::ListChats { archived: false, query: None, contact: Some(id) },
                Cmdline::ContactView { stage: ContactView::Chats { id, text: r } },
            )
        },
        (ContactView::Chats { id, text }, Reply::Chatlist { ids, .. }) => {
            if ids.len() > 0 {
                let mut r: String = text;
                r.append("\n\n");
                r.append(decimal(ids.len() as u64).as_str());
                r.append(" chats shared with Contact#");
                r.append(decimal(id as u64).as_str());
                r.append(":");
                contact_view_from(ids, 0, r)
            } else {
                CmdStep::Say { text }
            }
        },
        (ContactView::Chat { ids, at, text }, Reply::Chat(chat)) => {
            let mut r: String = text;
            r.append(chat.prefix.as_str());
            r.append("#");
            r.append(chat.label.as_str());
            contact_view_from(ids, at, r)
        },
        (_, Reply::Failed(error)) => CmdStep::Fail { error },
        _ => CmdStep::Mismatch,
    }
}

}
