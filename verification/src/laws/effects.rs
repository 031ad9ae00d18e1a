//! What work of some sort never does.
use vstd::prelude::*;

use crate::appservice::{Caches, Settings, SettingsModel};
use crate::cmdline::{
    cmdline_next, command_next, CmdStep, CmdStepModel, Cmdline, CmdlineModel,
};
use crate::cmdline::commands::command;
use crate::cmdline::contacts::roll_next;
use crate::cmdline::messages::{journal_next, journal_on, log_msg_next, Journal, RULE};
use crate::cmdline::poke::poke_next;
use crate::protocol::{
    listed, ChatInfo, ChatItem, DeltaRequest, Listed, Reply, ReplyModel, Request, RequestModel, Step,
    StepModel, Value,
};
use crate::run::{lemma_asked_grows, performed, reply_to, run, End, Host};
use crate::task::{
    lemma_backfill, lemma_bridge, lemma_cmdline, lemma_email_user, lemma_journal, lemma_log_msg,
    lemma_poke, lemma_roll, lemma_settings, next, Task, TaskModel,
};

verus! {

/// Whether a task is part of obeying a command line.
pub open spec fn is_command_work(task: TaskModel) -> bool {
    match task {
        Task::Cmdline { .. } => true,
        Task::Poke(_) => true,
        Task::LogMsg(_) => true,
        Task::Journal(_) => true,
        Task::Roll(_) => true,
        _ => false,
    }
}

/// Whether a request goes to the e-mail core or the machine, and leaves the configuration of the
/// bridge alone.
pub open spec fn is_command_request(request: RequestModel) -> bool {
    match request {
        Request::Delta(DeltaRequest::UiGet { .. }) => false,
        Request::Delta(DeltaRequest::UiSet { .. }) => false,
        Request::Delta(_) => true,
        Request::Host(_) => true,
        Request::Matrix(_) => false,
    }
}

/// Whether a step of a command stays among the work of commands.
pub open spec fn stays_in_command(s: CmdStepModel) -> bool {
    match s {
        CmdStep::Ask { request, .. } => is_command_request(request),
        CmdStep::Call { callee, .. } => is_command_work(callee),
        _ => true,
    }
}

proof fn lemma_command(line: Seq<char>, chat: Option<ChatInfo>)
    ensures
        stays_in_command(command(line, chat)),
{
    reveal(command);
}

proof fn lemma_command_next(s: CmdlineModel, reply: ReplyModel)
    ensures
        stays_in_command(command_next(s, reply)),
{
    reveal(command_next);
}

/// Whether a step asks only for what commands ask for, and leads to work of commands only.
pub open spec fn keeps_to_commands(step: StepModel) -> bool {
    match step {
        Step::Perform(request, then) => is_command_request(request) && is_command_work(then),
        Step::Call(callee, then) => is_command_work(callee) && is_command_work(then),
        _ => true,
    }
}

proof fn lemma_journal_on(list: Vec<ChatItem>, at: int, text: Seq<char>, open: bool)
    ensures
        keeps_to_commands(journal_on(list, at, text, open)),
    decreases list@.len() - at,
{
    if 0 <= at < list@.len() {
        match listed(list@[at]) {
            Listed::Day => {
                lemma_journal_on(list, at + 1, text + RULE@, true);
            },
            Listed::Special => {
                lemma_journal_on(list, at + 1, text, open);
            },
            Listed::Message(_) => {},
        }
    }
}

/// One step of a command asks for nothing but what commands ask for.
proof fn lemma_command_step(task: TaskModel, reply: ReplyModel, caches: Caches)
    requires
        is_command_work(task),
    ensures
        keeps_to_commands(next(task, reply, caches).1),
{
    match task {
        Task::Cmdline { chat_id, stage } => {
            lemma_cmdline(chat_id, stage, reply, caches);
            lemma_command_next(stage, reply);
            if let Cmdline::Start { line } = stage {
                lemma_command(line, None);
                assert(is_command_request(Request::Delta(DeltaRequest::LoadChat { id: chat_id })));
            }
            if let Cmdline::Selected { line } = stage {
                if let Reply::Chat(chat) = reply {
                    lemma_command(line, Some(chat));
                }
            }
            assert(keeps_to_commands(cmdline_next(chat_id, stage, reply)));
        },
        Task::Poke(s) => {
            lemma_poke(s, reply, caches);
            assert(keeps_to_commands(poke_next(s, reply)));
        },
        Task::LogMsg(s) => {
            lemma_log_msg(s, reply, caches);
            assert(keeps_to_commands(log_msg_next(s, reply)));
        },
        Task::Journal(s) => {
            lemma_journal(s, reply, caches);
            match (s, reply) {
                (Journal::Start { list }, Reply::Start) => {
                    lemma_journal_on(list, 0, ""@, false);
                },
                (Journal::Shown { list, at, text }, Reply::Got(Value::Text(line))) => {
                    lemma_journal_on(list, at as int, text + line, true);
                },
                _ => {},
            }
            assert(keeps_to_commands(journal_next(s, reply)));
        },
        Task::Roll(s) => {
            lemma_roll(s, reply, caches);
            assert(keeps_to_commands(roll_next(s, reply)));
        },
        _ => {},
    }
}

/// Whether all that was asked from a place on is what commands ask for.
pub open spec fn only_commands(asked: Seq<RequestModel>, from: int) -> bool {
    forall|i: int| from <= i < asked.len() ==> is_command_request(#[trigger] asked[i])
}

/// A command line says nothing in any room, and neither reads nor changes what the bridge keeps,
/// however long it runs.
pub proof fn law_commands_touch_no_room_and_no_setting(
    task: TaskModel,
    reply: ReplyModel,
    caches: Caches,
    host: Host,
    steps: nat,
)
    requires
        is_command_work(task),
    ensures
        ({
            let done = run(task, reply, caches, host, steps);
            &&& done.host.settings == host.settings
            &&& host.asked.is_prefix_of(done.host.asked)
            &&& only_commands(done.host.asked, host.asked.len() as int)
        }),
    decreases steps,
{
    lemma_asked_grows(task, reply, caches, host, steps);
    if steps > 0 {
        lemma_command_step(task, reply, caches);
        let (c, step) = next(task, reply, caches);
        let left = (steps - 1) as nat;
        match step {
            Step::Perform(request, then) => {
                let h = performed(host, request);
                law_commands_touch_no_room_and_no_setting(
                    then,
                    reply_to(host, request),
                    c,
                    h,
                    left,
                );
                let asked = run(then, reply_to(host, request), c, h, left).host.asked;
                assert(asked[host.asked.len() as int] == h.asked[host.asked.len() as int]);
            },
            Step::Call(callee, then) => {
                let called = run(callee, Reply::Start, c, host, left);
                law_commands_touch_no_room_and_no_setting(callee, Reply::Start, c, host, left);
                match called.end {
                    End::Return(value) => {
                        let reply = Reply::Got(value);
                        law_commands_touch_no_room_and_no_setting(
                            then,
                            reply,
                            called.caches,
                            called.host,
                            left,
                        );
                        let asked = run(then, reply, called.caches, called.host, left).host.asked;
                        assert forall|i: int|
                            host.asked.len() <= i < asked.len() implies is_command_request(
                            #[trigger] asked[i],
                        ) by {
                            if i < called.host.asked.len() {
                                assert(asked[i] == called.host.asked[i]);
                            }
                        }
                    },
                    End::Raise(error) => {
                        let reply = Reply::Failed(error);
                        law_commands_touch_no_room_and_no_setting(
                            then,
                            reply,
                            called.caches,
                            called.host,
                            left,
                        );
                        let asked = run(then, reply, called.caches, called.host, left).host.asked;
                        assert forall|i: int|
                            host.asked.len() <= i < asked.len() implies is_command_request(
                            #[trigger] asked[i],
                        ) by {
                            if i < called.host.asked.len() {
                                assert(asked[i] == called.host.asked[i]);
                            }
                        }
                    },
                    _ => {},
                }
            },
            _ => {},
        }
    }
}

/// Whether a task on the settings only reads.
pub open spec fn only_reads(s: SettingsModel) -> bool {
    match s {
        Settings::SetOwner { .. } => false,
        Settings::SetControlRoomId { .. } => false,
        Settings::SetReplChat { .. } => false,
        Settings::Write { .. } => false,
        Settings::Clear { .. } => false,
        Settings::ClearOther { .. } => false,
        Settings::Link { .. } => false,
        Settings::LinkOther { .. } => false,
        _ => true,
    }
}

/// Whether a task is part of bringing messages over: getting users ready, reading settings, and
/// sending.
pub open spec fn is_bridging_work(task: TaskModel) -> bool {
    match task {
        Task::EmailUser(_) => true,
        Task::Backfill(_) => true,
        Task::Bridge(_) => true,
        Task::Settings(s) => only_reads(s),
        _ => false,
    }
}

proof fn lemma_bridging_step(task: TaskModel, reply: ReplyModel, caches: Caches)
    requires
        is_bridging_work(task),
    ensures
        match next(task, reply, caches).1 {
            Step::Perform(request, then) => !(request matches Request::Delta(
                DeltaRequest::UiSet { .. },
            )) && is_bridging_work(then),
            Step::Call(callee, then) => is_bridging_work(callee) && is_bridging_work(then),
            _ => true,
        },
{
    match task {
        Task::EmailUser(s) => {
            lemma_email_user(s, reply, caches);
        },
        Task::Backfill(s) => {
            lemma_backfill(s, reply, caches);
        },
        Task::Bridge(s) => {
            lemma_bridge(s, reply, caches);
        },
        Task::Settings(s) => {
            lemma_settings(s, reply, caches);
        },
        _ => {},
    }
}

/// To get users ready and to bring messages over changes nothing of what the bridge keeps.
pub proof fn law_bridging_changes_no_setting(
    task: TaskModel,
    reply: ReplyModel,
    caches: Caches,
    host: Host,
    steps: nat,
)
    requires
        is_bridging_work(task),
    ensures
        run(task, reply, caches, host, steps).host.settings == host.settings,
    decreases steps,
{
    if steps > 0 {
        lemma_bridging_step(task, reply, caches);
        let (c, step) = next(task, reply, caches);
        let left = (steps - 1) as nat;
        match step {
            Step::Perform(request, then) => {
                law_bridging_changes_no_setting(
                    then,
                    reply_to(host, request),
                    c,
                    performed(host, request),
                    left,
                );
            },
            Step::Call(callee, then) => {
                let called = run(callee, Reply::Start, c, host, left);
                law_bridging_changes_no_setting(callee, Reply::Start, c, host, left);
                match called.end {
                    End::Return(value) => {
                        law_bridging_changes_no_setting(
                            then,
                            Reply::Got(value),
                            called.caches,
                            called.host,
                            left,
                        );
                    },
                    End::Raise(error) => {
                        law_bridging_changes_no_setting(
                            then,
                            Reply::Failed(error),
                            called.caches,
                            called.host,
                            left,
                        );
                    },
                    _ => {},
                }
            },
            _ => {},
        }
    }
}

}
