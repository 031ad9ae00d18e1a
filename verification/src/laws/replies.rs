//! Every reply finds its place.
use vstd::prelude::*;

use crate::appservice::{Caches, EmailUser, EmailUserModel, Settings, SettingsModel};
use crate::cmdline::{command_next, with_chat, CmdStep, CmdStepModel, Cmdline, CmdlineModel};
use crate::cmdline::chats::{
    chat_list_next, chat_view_next, contact_view_next, ChatListModel, ChatView, ChatViewModel,
    ContactViewModel,
};
use crate::cmdline::commands::{
    account_command, chat_command, chat_id_after, command, contact_command, message_command,
    view_command,
};
use crate::cmdline::contacts::{Roll, RollModel};
use crate::cmdline::messages::{journal_on, Journal, JournalModel, LogMsg, LogMsgModel, RULE};
use crate::cmdline::poke::{next_eml, Poke, PokeModel};
use crate::compat::{RoomState, RoomStateModel};
use crate::control_room::{Control, ControlModel, SetupModel};
use crate::delta_events::{
    ArrivalModel, Callback, CallbackModel, DeliveryModel, DeltaEventModel, FailureModel,
};
use crate::laws::commands::under_way;
use crate::matrix_events::{
    Heard, HeardModel, Member, MemberModel, Reaction, ReactionEvent, ReactionModel, RoomMemberEvent,
    RoomMessageEvent, RoomTopicEvent, SpokenModel, Topic, TopicModel,
};
use crate::matrix_intents::{
    BackfillModel, Bridge, BridgeModel, ChatRoom, ChatRoomModel, Clear, ClearModel, Space,
    SpaceModel,
};
use crate::protocol::{
    fits, listed, Actor, ChatInfo, ChatItem, ContactInfo, DeltaRequest, Listed, LoggedMessage,
    MessageInfo, Reply, ReplyModel, Request, RequestModel, Step, StepModel, Value, ValueModel,
};
use crate::run::{performed, reply_to, run, End, Host};
use crate::task::{
    lemma_arrival, lemma_backfill, lemma_bridge, lemma_callback, lemma_chat_room, lemma_clear,
    lemma_cmdline, lemma_control, lemma_delivery, lemma_email_user, lemma_failure, lemma_heard,
    lemma_journal, lemma_log_msg, lemma_lookup, lemma_member, lemma_poke, lemma_reaction,
    lemma_roll, lemma_room_state, lemma_settings, lemma_setup, lemma_space, lemma_spoken,
    lemma_topic, next, Task, TaskModel,
};
use crate::text::{after_first_word, first_word};
use crate::util::{Lookup, LookupModel};

verus! {

broadcast use {
    lemma_arrival, lemma_backfill, lemma_bridge, lemma_callback, lemma_chat_room, lemma_clear,
    lemma_cmdline, lemma_control, lemma_delivery, lemma_email_user, lemma_failure, lemma_heard,
    lemma_journal, lemma_log_msg, lemma_lookup, lemma_member, lemma_poke, lemma_reaction,
    lemma_roll, lemma_room_state, lemma_settings, lemma_setup, lemma_space, lemma_spoken,
    lemma_topic,
};

/// The sort of value that a task gives back.
pub enum Sort {
    Unit,
    Flag,
    Number,
    Text,
    MaybeText,
    MaybeNumber,
    Event,
    FileInfo,
    ImageInfo,
    EmailUser,
    Said,
}

/// Whether a value is of a sort.
pub open spec fn is_of(value: ValueModel, sort: Sort) -> bool {
    match sort {
        Sort::Unit => value is Unit,
        Sort::Flag => value is Flag,
        Sort::Number => value is Number,
        Sort::Text => value is Text,
        Sort::MaybeText => value is MaybeText,
        Sort::MaybeNumber => value is MaybeNumber,
        Sort::Event => value is Event,
        Sort::FileInfo => value is FileInfo,
        Sort::ImageInfo => value is ImageInfo,
        Sort::EmailUser => value is EmailUser,
        Sort::Said => value is Said,
    }
}

/// The sort of value that a task gives back, and whether it may fail.
pub open spec fn gives(task: TaskModel) -> (Sort, bool) {
    match task {
        Task::Settings(s) => match s {
            Settings::GetOwner | Settings::GotOwner => (Sort::Text, false),
            Settings::SetOwner { .. } | Settings::SetControlRoomId { .. } | Settings::Saved => (
                Sort::Unit,
                true,
            ),
            Settings::SetReplChat { .. } | Settings::Write { .. } | Settings::Clear { .. }
            | Settings::ClearOther { .. } | Settings::Link { .. } | Settings::LinkOther { .. }
            | Settings::Kept => (Sort::Unit, false),
            Settings::GetReplChat | Settings::GotReplChat => (Sort::Number, false),
            Settings::GetChat { .. } | Settings::GotChat => (Sort::MaybeNumber, false),
            _ => (Sort::MaybeText, false),
        },
        Task::EmailUser(s) => match s {
            EmailUser::ById { .. } | EmailUser::Loaded { .. } | EmailUser::Known { .. } => (
                Sort::EmailUser,
                false,
            ),
            _ => (Sort::Text, true),
        },
        Task::Lookup(_) => (Sort::Event, true),
        Task::Space(_) | Task::ChatRoom(_) => (Sort::Text, true),
        Task::Bridge(s) => match s {
            Bridge::Upload { .. } | Bridge::UploadDone => (Sort::MaybeText, true),
            Bridge::FileInfo { .. } | Bridge::FileSized { .. } => (Sort::FileInfo, false),
            Bridge::ImageInfo { .. } | Bridge::ImageSized { .. } => (Sort::ImageInfo, false),
            Bridge::Raw { .. } | Bridge::RawSent => (Sort::Text, true),
            _ => (Sort::Unit, true),
        },
        Task::Callback(_) => (Sort::Unit, false),
        Task::LogMsg(_) => (Sort::Text, false),
        Task::Journal(_) | Task::Roll(_) => (Sort::Text, true),
        Task::Poke(s) => match s {
            Poke::Eml { .. } | Poke::EmlLoaded | Poke::EmlReceived | Poke::EmlFailed => (
                Sort::Unit,
                true,
            ),
            _ => (Sort::Flag, false),
        },
        Task::Cmdline { .. } => (Sort::Said, false),
        _ => (Sort::Unit, true),
    }
}

/// Whether a task is in a state that it can come into: an import has not read more files than it
/// has looked at.
pub open spec fn is_sound(task: TaskModel) -> bool {
    match task {
        Task::Poke(Poke::Named { at, count, .. }) => count < at,
        Task::Poke(Poke::Entry { at, count, .. }) => count < at,
        _ => true,
    }
}

/// Whether a task can go on with a reply.
pub open spec fn accepts(task: TaskModel, reply: ReplyModel) -> bool {
    forall|caches: Caches| !(#[trigger] next(task, reply, caches).1 is Mismatch)
}

/// Whether what follows a step of a task can go on with whatever it may hear.
pub open spec fn step_fits(task: TaskModel, step: StepModel) -> bool {
    match step {
        Step::Perform(request, then) => {
            &&& gives(then) == gives(task)
            &&& is_sound(then)
            &&& forall|reply: ReplyModel| fits(request, reply) ==> #[trigger] accepts(then, reply)
        },
        Step::Call(callee, then) => {
            &&& gives(then) == gives(task)
            &&& is_sound(then)
            &&& is_sound(callee)
            &&& accepts(callee, Reply::Start)
            &&& forall|value: ValueModel|
                is_of(value, gives(callee).0) ==> #[trigger] accepts(then, Reply::Got(value))
            &&& gives(callee).1 ==> forall|error: Seq<char>| #[trigger]
                accepts(then, Reply::Failed(error))
        },
        Step::Return(value) => is_of(value, gives(task).0),
        Step::Raise(_) => gives(task).1,
        _ => true,
    }
}

proof fn lemma_settings_fits(s: SettingsModel, reply: ReplyModel, caches: Caches)
    requires
        is_sound(Task::Settings(s)),
    ensures
        step_fits(Task::Settings(s), next(Task::Settings(s), reply, caches).1),
{
}

proof fn lemma_email_user_fits(s: EmailUserModel, reply: ReplyModel, caches: Caches)
    requires
        is_sound(Task::EmailUser(s)),
    ensures
        step_fits(Task::EmailUser(s), next(Task::EmailUser(s), reply, caches).1),
{
}

proof fn lemma_room_state_fits(s: RoomStateModel, reply: ReplyModel, caches: Caches)
    requires
        is_sound(Task::RoomState(s)),
    ensures
        step_fits(Task::RoomState(s), next(Task::RoomState(s), reply, caches).1),
{
}

proof fn lemma_space_fits(s: SpaceModel, reply: ReplyModel, caches: Caches)
    requires
        is_sound(Task::Space(s)),
    ensures
        step_fits(Task::Space(s), next(Task::Space(s), reply, caches).1),
{
}

#[verifier::rlimit(60)]
proof fn lemma_chat_room_fits(s: ChatRoomModel, reply: ReplyModel, caches: Caches)
    requires
        is_sound(Task::ChatRoom(s)),
    ensures
        step_fits(Task::ChatRoom(s), next(Task::ChatRoom(s), reply, caches).1),
{
}

proof fn lemma_backfill_fits(s: BackfillModel, reply: ReplyModel, caches: Caches)
    requires
        is_sound(Task::Backfill(s)),
    ensures
        step_fits(Task::Backfill(s), next(Task::Backfill(s), reply, caches).1),
{
}

proof fn lemma_clear_fits(s: ClearModel, reply: ReplyModel, caches: Caches)
    requires
        is_sound(Task::Clear(s)),
    ensures
        step_fits(Task::Clear(s), next(Task::Clear(s), reply, caches).1),
{
}

proof fn lemma_bridge_fits(s: BridgeModel, reply: ReplyModel, caches: Caches)
    requires
        is_sound(Task::Bridge(s)),
    ensures
        step_fits(Task::Bridge(s), next(Task::Bridge(s), reply, caches).1),
{
}

proof fn lemma_lookup_fits(s: LookupModel, reply: ReplyModel, caches: Caches)
    requires
        is_sound(Task::Lookup(s)),
    ensures
        step_fits(Task::Lookup(s), next(Task::Lookup(s), reply, caches).1),
{
}

proof fn lemma_callback_fits(s: CallbackModel, reply: ReplyModel, caches: Caches)
    requires
        is_sound(Task::Callback(s)),
    ensures
        step_fits(Task::Callback(s), next(Task::Callback(s), reply, caches).1),
{
}

proof fn lemma_delivery_fits(s: DeliveryModel, reply: ReplyModel, caches: Caches)
    requires
        is_sound(Task::Delivery(s)),
    ensures
        step_fits(Task::Delivery(s), next(Task::Delivery(s), reply, caches).1),
{
}

proof fn lemma_arrival_fits(s: ArrivalModel, reply: ReplyModel, caches: Caches)
    requires
        is_sound(Task::Arrival(s)),
    ensures
        step_fits(Task::Arrival(s), next(Task::Arrival(s), reply, caches).1),
{
}

proof fn lemma_failure_fits(s: FailureModel, reply: ReplyModel, caches: Caches)
    requires
        is_sound(Task::Failure(s)),
    ensures
        step_fits(Task::Failure(s), next(Task::Failure(s), reply, caches).1),
{
}

proof fn lemma_log_msg_fits(s: LogMsgModel, reply: ReplyModel, caches: Caches)
    requires
        is_sound(Task::LogMsg(s)),
    ensures
        step_fits(Task::LogMsg(s), next(Task::LogMsg(s), reply, caches).1),
{
}

proof fn lemma_journal_on_fits(list: Vec<ChatItem>, at: int, text: Seq<char>, open: bool)
    ensures
        match journal_on(list, at, text, open) {
            Step::Perform(request, then) => {
                &&& request matches Request::Delta(DeltaRequest::LoadLogged { .. })
                &&& then matches Task::Journal(Journal::Loaded { .. })
            },
            Step::Return(value) => value is Text,
            _ => false,
        },
    decreases list@.len() - at,
{
    if 0 <= at < list@.len() {
        match listed(list@[at]) {
            Listed::Day => lemma_journal_on_fits(list, at + 1, text + RULE@, true),
            Listed::Special => lemma_journal_on_fits(list, at + 1, text, open),
            Listed::Message(_) => {},
        }
    }
}

proof fn lemma_journal_starts(list: Vec<ChatItem>)
    ensures
        accepts(Task::Journal(Journal::Start { list }), Reply::Start),
{
    lemma_journal_on_fits(list, 0, ""@, false);
}

proof fn lemma_shown_fits(list: Vec<ChatItem>, at: usize, text: Seq<char>)
    ensures
        forall|line: Seq<char>| #[trigger]
            accepts(
                Task::Journal(Journal::Shown { list, at, text }),
                Reply::Got(Value::Text(line)),
            ),
{
    assert forall|line: Seq<char>| #[trigger]
        accepts(
            Task::Journal(Journal::Shown { list, at, text }),
            Reply::Got(Value::Text(line)),
        ) by {
        lemma_journal_on_fits(list, at as int, text + line, true);
    }
}

proof fn lemma_journal_fits(s: JournalModel, reply: ReplyModel, caches: Caches)
    requires
        is_sound(Task::Journal(s)),
    ensures
        step_fits(Task::Journal(s), next(Task::Journal(s), reply, caches).1),
{
    match (s, reply) {
        (Journal::Start { list }, _) => {
            lemma_journal_on_fits(list, 0, ""@, false);
        },
        (Journal::Loaded { list, at, text }, _) => {
            lemma_shown_fits(list, at, text);
        },
        (Journal::Shown { list, at, text }, Reply::Got(Value::Text(line))) => {
            lemma_journal_on_fits(list, at as int, text + line, true);
        },
        _ => {},
    }
}

proof fn lemma_roll_fits(s: RollModel, reply: ReplyModel, caches: Caches)
    requires
        is_sound(Task::Roll(s)),
    ensures
        step_fits(Task::Roll(s), next(Task::Roll(s), reply, caches).1),
{
}

proof fn lemma_next_eml_is_ahead(entries: Vec<Option<String>>, at: int)
    ensures
        next_eml(entries@, at) matches Some((place, _)) ==> at <= place < entries@.len()
            <= usize::MAX,
    decreases entries@.len() - at,
{
    assert(entries.len() == entries@.len());
    if 0 <= at < entries@.len() {
        lemma_next_eml_is_ahead(entries, at + 1);
    }
}

proof fn lemma_poke_fits(s: PokeModel, reply: ReplyModel, caches: Caches)
    requires
        is_sound(Task::Poke(s)),
    ensures
        step_fits(Task::Poke(s), next(Task::Poke(s), reply, caches).1),
{
    match (s, reply) {
        (Poke::Dir { spec }, Reply::Entries(entries)) => {
            lemma_next_eml_is_ahead(entries, 0);
        },
        (Poke::Entry { spec, entries, at, count }, _) => {
            lemma_next_eml_is_ahead(entries, at as int);
        },
        _ => {},
    }
}

proof fn lemma_heard_fits(s: HeardModel, reply: ReplyModel, caches: Caches)
    requires
        is_sound(Task::Heard(s)),
    ensures
        step_fits(Task::Heard(s), next(Task::Heard(s), reply, caches).1),
{
}

proof fn lemma_spoken_fits(s: SpokenModel, reply: ReplyModel, caches: Caches)
    requires
        is_sound(Task::Spoken(s)),
    ensures
        step_fits(Task::Spoken(s), next(Task::Spoken(s), reply, caches).1),
{
}

proof fn lemma_member_fits(s: MemberModel, reply: ReplyModel, caches: Caches)
    requires
        is_sound(Task::Member(s)),
    ensures
        step_fits(Task::Member(s), next(Task::Member(s), reply, caches).1),
{
}

proof fn lemma_topic_fits(s: TopicModel, reply: ReplyModel, caches: Caches)
    requires
        is_sound(Task::Topic(s)),
    ensures
        step_fits(Task::Topic(s), next(Task::Topic(s), reply, caches).1),
{
}

proof fn lemma_reaction_fits(s: ReactionModel, reply: ReplyModel, caches: Caches)
    requires
        is_sound(Task::Reaction(s)),
    ensures
        step_fits(Task::Reaction(s), next(Task::Reaction(s), reply, caches).1),
{
}

/// Whether what follows a step of a command can go on with whatever it may hear.
pub open spec fn command_fits(step: CmdStepModel) -> bool {
    match step {
        CmdStep::Ask { request, after } => {
            &&& under_way(after)
            &&& forall|reply: ReplyModel|
                fits(request, reply) ==> !(#[trigger] command_next(after, reply) is Mismatch)
        },
        CmdStep::Call { callee, after } => {
            &&& under_way(after)
            &&& is_sound(callee)
            &&& accepts(callee, Reply::Start)
            &&& forall|value: ValueModel|
                is_of(value, gives(callee).0) ==> !(#[trigger] command_next(
                    after,
                    Reply::Got(value),
                ) is Mismatch)
            &&& gives(callee).1 ==> forall|error: Seq<char>|
                !(#[trigger] command_next(after, Reply::Failed(error)) is Mismatch)
        },
        CmdStep::Mismatch => false,
        _ => true,
    }
}

proof fn lemma_account_command_fits(arg0: Seq<char>, arg1: Seq<char>, arg2: Seq<char>)
    ensures
        account_command(arg0, arg1, arg2) matches Some(step) ==> command_fits(step),
{
    reveal(command_next);
}

proof fn lemma_chat_command_fits(
    arg0: Seq<char>,
    arg1: Seq<char>,
    arg2: Seq<char>,
    chat: Option<ChatInfo>,
)
    ensures
        chat_command(arg0, arg1, arg2, chat) matches Some(step) ==> command_fits(step),
{
    reveal(command_next);
}

proof fn lemma_message_command_fits(
    arg0: Seq<char>,
    arg1: Seq<char>,
    arg2: Seq<char>,
    chat: Option<ChatInfo>,
)
    ensures
        message_command(arg0, arg1, arg2, chat) matches Some(step) ==> command_fits(step),
{
    reveal(command_next);
}

proof fn lemma_contact_command_fits(arg0: Seq<char>, arg1: Seq<char>, arg2: Seq<char>)
    ensures
        contact_command(arg0, arg1, arg2) matches Some(step) ==> command_fits(step),
{
    reveal(command_next);
}

proof fn lemma_command_fits(line: Seq<char>, chat: Option<ChatInfo>)
    ensures
        command_fits(command(line, chat)),
{
    reveal(command);
    let arg0 = first_word(line);
    let arg1 = first_word(after_first_word(line));
    let arg2 = after_first_word(after_first_word(line));
    lemma_account_command_fits(arg0, arg1, arg2);
    lemma_chat_command_fits(arg0, arg1, arg2, chat);
    lemma_message_command_fits(arg0, arg1, arg2, chat);
    lemma_contact_command_fits(arg0, arg1, arg2);
    assert(command_fits(view_command(arg1, chat))) by {
        reveal(command_next);
    }
}

proof fn lemma_line_starts(chat_id: u32, line: Seq<char>)
    ensures
        accepts(Task::Cmdline { chat_id, stage: Cmdline::Start { line } }, Reply::Start),
{
    lemma_command_fits(line, None);
}

#[verifier::rlimit(60)]
proof fn lemma_control_fits(s: ControlModel, reply: ReplyModel, caches: Caches)
    requires
        is_sound(Task::Control(s)),
    ensures
        step_fits(Task::Control(s), next(Task::Control(s), reply, caches).1),
{
    match (s, reply) {
        (Control::ReplChat { room_id, arguments }, Reply::Got(Value::Number(chat_id))) => {
            lemma_line_starts(chat_id, arguments);
        },
        _ => {},
    }
}

proof fn lemma_setup_fits(s: SetupModel, reply: ReplyModel, caches: Caches)
    requires
        is_sound(Task::Setup(s)),
    ensures
        step_fits(Task::Setup(s), next(Task::Setup(s), reply, caches).1),
{
}

proof fn lemma_chat_list_fits(s: ChatListModel, reply: ReplyModel)
    requires
        !(chat_list_next(s, reply) is Mismatch),
    ensures
        command_fits(chat_list_next(s, reply)),
{
    reveal(command_next);
}

proof fn lemma_chat_view_fits(s: ChatViewModel, reply: ReplyModel)
    requires
        !(chat_view_next(s, reply) is Mismatch),
    ensures
        command_fits(chat_view_next(s, reply)),
{
    reveal(command_next);
    if let ChatView::Icon { items, .. } = s {
        lemma_journal_starts(items);
    }
}

proof fn lemma_contact_view_fits(s: ContactViewModel, reply: ReplyModel)
    requires
        !(contact_view_next(s, reply) is Mismatch),
    ensures
        command_fits(contact_view_next(s, reply)),
{
    reveal(command_next);
}

#[verifier::rlimit(100)]
proof fn lemma_command_next_fits(s: CmdlineModel, reply: ReplyModel)
    requires
        !(command_next(s, reply) is Mismatch),
    ensures
        command_fits(command_next(s, reply)),
{
    match (s, reply) {
        (Cmdline::ChatList { stage }, _) => {
            assert(command_next(s, reply) == chat_list_next(stage, reply)) by {
                reveal(command_next);
            }
            lemma_chat_list_fits(stage, reply);
        },
        (Cmdline::ChatView { stage }, _) => {
            assert(command_next(s, reply) == chat_view_next(stage, reply)) by {
                reveal(command_next);
            }
            lemma_chat_view_fits(stage, reply);
        },
        (Cmdline::ContactView { stage }, _) => {
            assert(command_next(s, reply) == contact_view_next(stage, reply)) by {
                reveal(command_next);
            }
            lemma_contact_view_fits(stage, reply);
        },
        (Cmdline::Searched | Cmdline::FreshListed, Reply::Found { items, .. }) => {
            lemma_journal_starts(items);
            reveal(command_next);
        },
        _ => {
            reveal(command_next);
        },
    }
}

proof fn lemma_with_chat_fits(chat_id: u32, stage: CmdlineModel, step: CmdStepModel)
    requires
        command_fits(step),
    ensures
        forall|other: u32| #[trigger]
            step_fits(Task::Cmdline { chat_id: other, stage }, with_chat(chat_id, step)),
{
}

proof fn lemma_cmdline_fits(
    chat_id: u32,
    stage: CmdlineModel,
    reply: ReplyModel,
    caches: Caches,
)
    ensures
        ({
            let task = Task::Cmdline { chat_id, stage };
            step_fits(task, next(task, reply, caches).1)
        }),
{
    match (stage, reply) {
        (Cmdline::Start { line }, Reply::Start) => {
            if chat_id == 0 {
                lemma_command_fits(line, None);
                lemma_with_chat_fits(chat_id_after(line, chat_id), stage, command(line, None));
            } else {
                lemma_selected_fits(chat_id, line);
            }
        },
        (Cmdline::Selected { line }, Reply::Chat(chat)) => {
            lemma_command_fits(line, Some(chat));
            lemma_with_chat_fits(chat_id_after(line, chat_id), stage, command(line, Some(chat)));
        },
        _ => {
            if !(command_next(stage, reply) is Mismatch) {
                lemma_command_next_fits(stage, reply);
                lemma_with_chat_fits(chat_id, stage, command_next(stage, reply));
            }
        },
    }
}

proof fn lemma_selected_fits(chat_id: u32, line: Seq<char>)
    ensures
        forall|reply: ReplyModel|
            reply is Chat || reply is Failed ==> #[trigger] accepts(
                Task::Cmdline { chat_id, stage: Cmdline::Selected { line } },
                reply,
            ),
{
    assert forall|reply: ReplyModel| reply is Chat || reply is Failed implies #[trigger] accepts(
        Task::Cmdline { chat_id, stage: Cmdline::Selected { line } },
        reply,
    ) by {
        if let Reply::Chat(chat) = reply {
            lemma_command_fits(line, Some(chat));
        } else {
            reveal(command_next);
        }
    }
}

proof fn lemma_step_fits(task: TaskModel, reply: ReplyModel, caches: Caches)
    requires
        is_sound(task),
    ensures
        step_fits(task, next(task, reply, caches).1),
{
    match task {
        Task::Settings(s) => lemma_settings_fits(s, reply, caches),
        Task::EmailUser(s) => lemma_email_user_fits(s, reply, caches),
        Task::RoomState(s) => lemma_room_state_fits(s, reply, caches),
        Task::Space(s) => lemma_space_fits(s, reply, caches),
        Task::ChatRoom(s) => lemma_chat_room_fits(s, reply, caches),
        Task::Backfill(s) => lemma_backfill_fits(s, reply, caches),
        Task::Clear(s) => lemma_clear_fits(s, reply, caches),
        Task::Bridge(s) => lemma_bridge_fits(s, reply, caches),
        Task::Lookup(s) => lemma_lookup_fits(s, reply, caches),
        Task::Callback(s) => lemma_callback_fits(s, reply, caches),
        Task::Delivery(s) => lemma_delivery_fits(s, reply, caches),
        Task::Arrival(s) => lemma_arrival_fits(s, reply, caches),
        Task::Failure(s) => lemma_failure_fits(s, reply, caches),
        Task::LogMsg(s) => lemma_log_msg_fits(s, reply, caches),
        Task::Journal(s) => lemma_journal_fits(s, reply, caches),
        Task::Roll(s) => lemma_roll_fits(s, reply, caches),
        Task::Poke(s) => lemma_poke_fits(s, reply, caches),
        Task::Heard(s) => lemma_heard_fits(s, reply, caches),
        Task::Spoken(s) => lemma_spoken_fits(s, reply, caches),
        Task::Member(s) => lemma_member_fits(s, reply, caches),
        Task::Topic(s) => lemma_topic_fits(s, reply, caches),
        Task::Reaction(s) => lemma_reaction_fits(s, reply, caches),
        Task::Control(s) => lemma_control_fits(s, reply, caches),
        Task::Setup(s) => lemma_setup_fits(s, reply, caches),
        Task::Cmdline { chat_id, stage } => lemma_cmdline_fits(chat_id, stage, reply, caches),
    }
}

/// Whether the surroundings answer every request with a reply that it may get.
pub open spec fn is_civil(host: Host) -> bool {
    forall|asked: Seq<RequestModel>, request: RequestModel|
        fits(request, #[trigger] (host.others)(asked, request))
}

/// As long as every request gets a reply that it may get, no task ever hears something that it
/// cannot go on with; and what it gives back is of the sort that is expected of it.
pub proof fn law_every_reply_finds_its_place(
    task: TaskModel,
    reply: ReplyModel,
    caches: Caches,
    host: Host,
    steps: nat,
)
    requires
        is_sound(task),
        accepts(task, reply),
        is_civil(host),
    ensures
        match run(task, reply, caches, host, steps).end {
            End::Mismatch => false,
            End::Return(value) => is_of(value, gives(task).0),
            End::Raise(_) => gives(task).1,
            _ => true,
        },
        is_civil(run(task, reply, caches, host, steps).host),
    decreases steps,
{
    if steps > 0 {
        lemma_step_fits(task, reply, caches);
        let (c, step) = next(task, reply, caches);
        let left = (steps - 1) as nat;
        match step {
            Step::Perform(request, then) => {
                assert(fits(request, reply_to(host, request)));
                assert(accepts(then, reply_to(host, request)));
                law_every_reply_finds_its_place(
                    then,
                    reply_to(host, request),
                    c,
                    performed(host, request),
                    left,
                );
            },
            Step::Call(callee, then) => {
                law_every_reply_finds_its_place(callee, Reply::Start, c, host, left);
                let called = run(callee, Reply::Start, c, host, left);
                match called.end {
                    End::Return(value) => {
                        assert(accepts(then, Reply::Got(value)));
                        law_every_reply_finds_its_place(
                            then,
                            Reply::Got(value),
                            called.caches,
                            called.host,
                            left,
                        );
                    },
                    End::Raise(error) => {
                        assert(accepts(then, Reply::Failed(error)));
                        law_every_reply_finds_its_place(
                            then,
                            Reply::Failed(error),
                            called.caches,
                            called.host,
                            left,
                        );
                    },
                    _ => {},
                }
            },
            _ => {},
        }
    }
}

/// Every piece of work that the bridge offers can be started.
pub proof fn law_work_can_be_started(
    event: DeltaEventModel,
    heard: RoomMessageEvent,
    member: RoomMemberEvent,
    topic: RoomTopicEvent,
    reaction: ReactionEvent,
    message: MessageInfo,
    contact: ContactInfo,
    who: Actor<Seq<char>>,
    words: Seq<char>,
    more: Seq<char>,
    value: Option<Seq<char>>,
    id: u32,
    refresh: bool,
)
    ensures
        accepts(Task::Settings(Settings::GetOwner), Reply::Start),
        accepts(Task::Settings(Settings::SetOwner { user_id: words }), Reply::Start),
        accepts(Task::Settings(Settings::GetControlRoomId), Reply::Start),
        accepts(Task::Settings(Settings::SetControlRoomId { room_id: words }), Reply::Start),
        accepts(Task::Settings(Settings::SetReplChat { chat_id: id }), Reply::Start),
        accepts(Task::Settings(Settings::GetReplChat), Reply::Start),
        accepts(Task::Settings(Settings::GetControlRoom), Reply::Start),
        accepts(Task::Settings(Settings::Read { key: words }), Reply::Start),
        accepts(Task::Settings(Settings::Write { key: words, value }), Reply::Start),
        accepts(Task::Settings(Settings::Clear { room_id: words, chat_id: id }), Reply::Start),
        accepts(Task::Settings(Settings::Link { room_id: words, chat_id: id }), Reply::Start),
        accepts(Task::Settings(Settings::GetChat { room_id: words }), Reply::Start),
        accepts(Task::Settings(Settings::GetRoom { chat_id: id }), Reply::Start),
        accepts(Task::EmailUser(EmailUser::ById { contact_id: id, refresh }), Reply::Start),
        accepts(Task::EmailUser(EmailUser::Start { contact, refresh }), Reply::Start),
        accepts(Task::RoomState(RoomState::Fetch { who, room_id: words }), Reply::Start),
        accepts(
            Task::Lookup(Lookup::Fetch { who, room_id: words, event_id: more }),
            Reply::Start,
        ),
        accepts(Task::Space(Space::Start { avatar: value }), Reply::Start),
        accepts(Task::ChatRoom(ChatRoom::Start { chat_id: id }), Reply::Start),
        accepts(Task::Clear(Clear::Start { room_id: words }), Reply::Start),
        accepts(Task::Bridge(Bridge::Start { who, room_id: words, message }), Reply::Start),
        accepts(Task::Callback(Callback::Start { event }), Reply::Start),
        accepts(Task::Heard(Heard::Start { event: heard }), Reply::Start),
        accepts(Task::Member(Member::Start { event: member }), Reply::Start),
        accepts(Task::Topic(Topic::Start { event: topic }), Reply::Start),
        accepts(Task::Reaction(Reaction::Start { event: reaction }), Reply::Start),
        accepts(Task::Poke(Poke::Start { spec: value }), Reply::Start),
        accepts(Task::Poke(Poke::Eml { path: words }), Reply::Start),
        accepts(
            Task::Cmdline { chat_id: id, stage: Cmdline::Start { line: words } },
            Reply::Start,
        ),
{
    lemma_line_starts(id, words);
}

/// Every list of messages, and of contacts, can be shown.
pub proof fn law_lists_can_be_shown(
    list: Vec<ChatItem>,
    contacts: Vec<u32>,
    prefix: Seq<char>,
    message: LoggedMessage,
)
    ensures
        accepts(Task::Journal(Journal::Start { list }), Reply::Start),
        accepts(Task::Roll(Roll::Start { contacts }), Reply::Start),
        accepts(Task::LogMsg(LogMsg::Start { prefix, message }), Reply::Start),
{
    lemma_journal_starts(list);
}

}
