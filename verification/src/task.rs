//! The work of the bridge, in steps.
use vstd::prelude::*;

use crate::appservice::{
    email_user_next, settings_next, settings_resume, Caches, DeltaAppservice, EmailUser,
    EmailUserModel, Settings, SettingsModel,
};
use crate::cmdline::{cmdline_next, cmdline_resume, Cmdline, CmdlineModel};
use crate::cmdline::contacts::{roll_next, roll_resume, Roll, RollModel};
use crate::cmdline::messages::{
    journal_next, journal_resume, log_msg_next, log_msg_resume, Journal, JournalModel, LogMsg,
    LogMsgModel,
};
use crate::cmdline::poke::{poke_next, poke_resume, Poke, PokeModel};
use crate::compat::{room_state_next, room_state_resume, RoomState, RoomStateModel};
use crate::control_room::{
    control_next, control_resume, setup_next, setup_resume, Control, ControlModel, Setup,
    SetupModel,
};
use crate::delta_events::{
    arrival_next, arrival_resume, callback_next, callback_resume, delivery_next, delivery_resume,
    failure_next, failure_resume, Arrival, ArrivalModel, Callback, CallbackModel, Delivery,
    DeliveryModel, Failure, FailureModel,
};
use crate::matrix_events::{
    heard_next, heard_resume, member_next, member_resume, reaction_next, reaction_resume,
    spoken_next, spoken_resume, topic_next, topic_resume, Heard, HeardModel, Member, MemberModel,
    Reaction, ReactionModel, Spoken, SpokenModel, Topic, TopicModel,
};
use crate::matrix_intents::{
    backfill_next, backfill_resume, bridge_next, bridge_resume, chat_room_next, chat_room_resume,
    clear_next, clear_resume, space_next, space_resume, Backfill, BackfillModel, Bridge,
    BridgeModel, ChatRoom, ChatRoomModel, Clear, ClearModel, Space, SpaceModel,
};
use crate::protocol::{Reply, ReplyModel, Step, StepModel};
use crate::util::{lookup_next, lookup_resume, Lookup, LookupModel};

verus! {

/// A piece of work that waits: for its start, for a reply, or for another task.
#[derive(Debug, PartialEq, Eq)]
pub enum Task<T = String, L = Vec<String>> {
    Settings(Settings<T>),
    EmailUser(EmailUser<T>),
    RoomState(RoomState<T>),
    Space(Space<T>),
    ChatRoom(ChatRoom<T, L>),
    Backfill(Backfill<T>),
    Clear(Clear<T, L>),
    Bridge(Bridge<T>),
    Lookup(Lookup<T>),
    Callback(Callback<T>),
    Delivery(Delivery<T>),
    Arrival(Arrival<T>),
    Failure(Failure<T>),
    LogMsg(LogMsg<T>),
    Journal(Journal<T>),
    Roll(Roll<T>),
    Poke(Poke<T>),
    Heard(Heard<T>),
    Spoken(Spoken<T>),
    Member(Member<T>),
    Topic(Topic<T>),
    Reaction(Reaction<T>),
    Control(Control<T, L>),
    Setup(Setup<T, L>),
    Cmdline { chat_id: u32, stage: Cmdline<T> },
}

/// The same over mathematical text.
pub type TaskModel = Task<Seq<char>, Seq<Seq<char>>>;

impl View for Task {
    type V = TaskModel;

    open spec fn view(&self) -> TaskModel {
        match self {
            Task::Settings(s) => Task::Settings(s@),
            Task::EmailUser(s) => Task::EmailUser(s@),
            Task::RoomState(s) => Task::RoomState(s@),
            Task::Space(s) => Task::Space(s@),
            Task::ChatRoom(s) => Task::ChatRoom(s@),
            Task::Backfill(s) => Task::Backfill(s@),
            Task::Clear(s) => Task::Clear(s@),
            Task::Bridge(s) => Task::Bridge(s@),
            Task::Lookup(s) => Task::Lookup(s@),
            Task::Callback(s) => Task::Callback(s@),
            Task::Delivery(s) => Task::Delivery(s@),
            Task::Arrival(s) => Task::Arrival(s@),
            Task::Failure(s) => Task::Failure(s@),
            Task::LogMsg(s) => Task::LogMsg(s@),
            Task::Journal(s) => Task::Journal(s@),
            Task::Roll(s) => Task::Roll(s@),
            Task::Poke(s) => Task::Poke(s@),
            Task::Heard(s) => Task::Heard(s@),
            Task::Spoken(s) => Task::Spoken(s@),
            Task::Member(s) => Task::Member(s@),
            Task::Topic(s) => Task::Topic(s@),
            Task::Reaction(s) => Task::Reaction(s@),
            Task::Control(s) => Task::Control(s@),
            Task::Setup(s) => Task::Setup(s@),
            Task::Cmdline { chat_id, stage } => Task::Cmdline { chat_id: *chat_id, stage: stage@ },
        }
    }
}

/// What a task does next, and what the bridge remembers then.
#[verifier::opaque]
pub open spec fn next(task: TaskModel, reply: ReplyModel, caches: Caches) -> (Caches, StepModel) {
    match task {
        Task::Settings(s) => (caches, settings_next(s, reply)),
        Task::EmailUser(s) => email_user_next(s, reply, caches),
        Task::RoomState(s) => (caches, room_state_next(s, reply)),
        Task::Space(s) => (caches, space_next(s, reply)),
        Task::ChatRoom(s) => (caches, chat_room_next(s, reply)),
        Task::Backfill(s) => (caches, backfill_next(s, reply)),
        Task::Clear(s) => (caches, clear_next(s, reply)),
        Task::Bridge(s) => bridge_next(s, reply, caches),
        Task::Lookup(s) => (caches, lookup_next(s, reply)),
        Task::Callback(s) => (caches, callback_next(s, reply)),
        Task::Delivery(s) => (caches, delivery_next(s, reply, caches)),
        Task::Arrival(s) => (caches, arrival_next(s, reply)),
        Task::Failure(s) => (caches, failure_next(s, reply)),
        Task::LogMsg(s) => (caches, log_msg_next(s, reply)),
        Task::Journal(s) => (caches, journal_next(s, reply)),
        Task::Roll(s) => (caches, roll_next(s, reply)),
        Task::Poke(s) => (caches, poke_next(s, reply)),
        Task::Heard(s) => (caches, heard_next(s, reply)),
        Task::Spoken(s) => spoken_next(s, reply, caches),
        Task::Member(s) => (caches, member_next(s, reply)),
        Task::Topic(s) => (caches, topic_next(s, reply)),
        Task::Reaction(s) => (caches, reaction_next(s, reply)),
        Task::Control(s) => (caches, control_next(s, reply)),
        Task::Setup(s) => (caches, setup_next(s, reply)),
        Task::Cmdline { chat_id, stage } => (caches, cmdline_next(chat_id, stage, reply)),
    }
}

impl Task {
    /// Goes on with a task that has got the reply it waited for.
    pub fn resume(self, reply: Reply, da: &mut DeltaAppservice) -> (step: Step)
        ensures
            (final(da)@, step@) == next(self@, reply@, old(da)@),
    {
        proof {
            reveal(next);
        }
        match self {
            Task::Settings(s) => settings_resume(s, reply),
            Task::EmailUser(s) => da.email_user_resume(s, reply),
            Task::RoomState(s) => room_state_resume(s, reply),
            Task::Space(s) => space_resume(s, reply),
            Task::ChatRoom(s) => chat_room_resume(s, reply),
            Task::Backfill(s) => backfill_resume(s, reply),
            Task::Clear(s) => clear_resume(s, reply),
            Task::Bridge(s) => bridge_resume(s, reply, da),
            Task::Lookup(s) => lookup_resume(s, reply),
            Task::Callback(s) => callback_resume(s, reply),
            Task::Delivery(s) => delivery_resume(s, reply, da),
            Task::Arrival(s) => arrival_resume(s, reply),
            Task::Failure(s) => failure_resume(s, reply),
            Task::LogMsg(s) => log_msg_resume(s, reply),
            Task::Journal(s) => journal_resume(s, reply),
            Task::Roll(s) => roll_resume(s, reply),
            Task::Poke(s) => poke_resume(s, reply),
            Task::Heard(s) => heard_resume(s, reply),
            Task::Spoken(s) => spoken_resume(s, reply, da),
            Task::Member(s) => member_resume(s, reply),
            Task::Topic(s) => topic_resume(s, reply),
            Task::Reaction(s) => reaction_resume(s, reply),
            Task::Control(s) => control_resume(s, reply),
            Task::Setup(s) => setup_resume(s, reply),
            Task::Cmdline { chat_id, stage } => cmdline_resume(chat_id, stage, reply),
        }
    }
}

pub broadcast proof fn lemma_settings(s: SettingsModel, reply: ReplyModel, caches: Caches)
    ensures
        #[trigger] next(Task::Settings(s), reply, caches) == (caches, settings_next(s, reply)),
{
    reveal(next);
}

pub broadcast proof fn lemma_email_user(s: EmailUserModel, reply: ReplyModel, caches: Caches)
    ensures
        #[trigger] next(Task::EmailUser(s), reply, caches) == email_user_next(s, reply, caches),
{
    reveal(next);
}

pub broadcast proof fn lemma_room_state(s: RoomStateModel, reply: ReplyModel, caches: Caches)
    ensures
        #[trigger] next(Task::RoomState(s), reply, caches) == (caches, room_state_next(s, reply)),
{
    reveal(next);
}

pub broadcast proof fn lemma_space(s: SpaceModel, reply: ReplyModel, caches: Caches)
    ensures
        #[trigger] next(Task::Space(s), reply, caches) == (caches, space_next(s, reply)),
{
    reveal(next);
}

pub broadcast proof fn lemma_chat_room(s: ChatRoomModel, reply: ReplyModel, caches: Caches)
    ensures
        #[trigger] next(Task::ChatRoom(s), reply, caches) == (caches, chat_room_next(s, reply)),
{
    reveal(next);
}

pub broadcast proof fn lemma_backfill(s: BackfillModel, reply: ReplyModel, caches: Caches)
    ensures
        #[trigger] next(Task::Backfill(s), reply, caches) == (caches, backfill_next(s, reply)),
{
    reveal(next);
}

pub broadcast proof fn lemma_clear(s: ClearModel, reply: ReplyModel, caches: Caches)
    ensures
        #[trigger] next(Task::Clear(s), reply, caches) == (caches, clear_next(s, reply)),
{
    reveal(next);
}

pub broadcast proof fn lemma_bridge(s: BridgeModel, reply: ReplyModel, caches: Caches)
    ensures
        #[trigger] next(Task::Bridge(s), reply, caches) == bridge_next(s, reply, caches),
{
    reveal(next);
}

pub broadcast proof fn lemma_lookup(s: LookupModel, reply: ReplyModel, caches: Caches)
    ensures
        #[trigger] next(Task::Lookup(s), reply, caches) == (caches, lookup_next(s, reply)),
{
    reveal(next);
}

pub broadcast proof fn lemma_callback(s: CallbackModel, reply: ReplyModel, caches: Caches)
    ensures
        #[trigger] next(Task::Callback(s), reply, caches) == (caches, callback_next(s, reply)),
{
    reveal(next);
}

pub broadcast proof fn lemma_delivery(s: DeliveryModel, reply: ReplyModel, caches: Caches)
    ensures
        #[trigger] next(Task::Delivery(s), reply, caches) == (caches, delivery_next(s, reply, caches)),
{
    reveal(next);
}

pub broadcast proof fn lemma_arrival(s: ArrivalModel, reply: ReplyModel, caches: Caches)
    ensures
        #[trigger] next(Task::Arrival(s), reply, caches) == (caches, arrival_next(s, reply)),
{
    reveal(next);
}

pub broadcast proof fn lemma_failure(s: FailureModel, reply: ReplyModel, caches: Caches)
    ensures
        #[trigger] next(Task::Failure(s), reply, caches) == (caches, failure_next(s, reply)),
{
    reveal(next);
}

pub broadcast proof fn lemma_log_msg(s: LogMsgModel, reply: ReplyModel, caches: Caches)
    ensures
        #[trigger] next(Task::LogMsg(s), reply, caches) == (caches, log_msg_next(s, reply)),
{
    reveal(next);
}

pub broadcast proof fn lemma_journal(s: JournalModel, reply: ReplyModel, caches: Caches)
    ensures
        #[trigger] next(Task::Journal(s), reply, caches) == (caches, journal_next(s, reply)),
{
    reveal(next);
}

pub broadcast proof fn lemma_roll(s: RollModel, reply: ReplyModel, caches: Caches)
    ensures
        #[trigger] next(Task::Roll(s), reply, caches) == (caches, roll_next(s, reply)),
{
    reveal(next);
}

pub broadcast proof fn lemma_poke(s: PokeModel, reply: ReplyModel, caches: Caches)
    ensures
        #[trigger] next(Task::Poke(s), reply, caches) == (caches, poke_next(s, reply)),
{
    reveal(next);
}

pub broadcast proof fn lemma_heard(s: HeardModel, reply: ReplyModel, caches: Caches)
    ensures
        #[trigger] next(Task::Heard(s), reply, caches) == (caches, heard_next(s, reply)),
{
    reveal(next);
}

pub broadcast proof fn lemma_spoken(s: SpokenModel, reply: ReplyModel, caches: Caches)
    ensures
        #[trigger] next(Task::Spoken(s), reply, caches) == spoken_next(s, reply, caches),
{
    reveal(next);
}

pub broadcast proof fn lemma_member(s: MemberModel, reply: ReplyModel, caches: Caches)
    ensures
        #[trigger] next(Task::Member(s), reply, caches) == (caches, member_next(s, reply)),
{
    reveal(next);
}

pub broadcast proof fn lemma_topic(s: TopicModel, reply: ReplyModel, caches: Caches)
    ensures
        #[trigger] next(Task::Topic(s), reply, caches) == (caches, topic_next(s, reply)),
{
    reveal(next);
}

pub broadcast proof fn lemma_reaction(s: ReactionModel, reply: ReplyModel, caches: Caches)
    ensures
        #[trigger] next(Task::Reaction(s), reply, caches) == (caches, reaction_next(s, reply)),
{
    reveal(next);
}

pub broadcast proof fn lemma_control(s: ControlModel, reply: ReplyModel, caches: Caches)
    ensures
        #[trigger] next(Task::Control(s), reply, caches) == (caches, control_next(s, reply)),
{
    reveal(next);
}

pub broadcast proof fn lemma_setup(s: SetupModel, reply: ReplyModel, caches: Caches)
    ensures
        #[trigger] next(Task::Setup(s), reply, caches) == (caches, setup_next(s, reply)),
{
    reveal(next);
}

pub broadcast proof fn lemma_cmdline(
    chat_id: u32,
    stage: CmdlineModel,
    reply: ReplyModel,
    caches: Caches,
)
    ensures
        #[trigger] next(Task::Cmdline { chat_id, stage }, reply, caches) == (
            caches,
            cmdline_next(chat_id, stage, reply),
        ),
{
    reveal(next);
}

}
