//! What it means that a command line is obeyed.
use vstd::prelude::*;

use crate::appservice::Caches;
use crate::cmdline::{command_next, with_chat, CmdStepModel, Cmdline, CmdlineModel};
use crate::cmdline::commands::command;
use crate::laws::bridging::run_on;
use crate::laws::commands::{line_task, loading};
use crate::protocol::{ChatInfo, DeltaRequestModel, Reply, ReplyModel, Request, Value};
use crate::run::{lemma_ask, performed, reply_to, run, start, End, Host, Run};
use crate::task::{lemma_cmdline, Task};
use crate::text::{after_first_word, first_word};

verus! {

broadcast use lemma_cmdline;

/// A command line, with the chat that is selected and what surrounds it.
pub struct Order {
    pub line: Seq<char>,
    pub chat_id: u32,
    pub caches: Caches,
    pub host: Host,
    pub steps: nat,
}

impl Order {
    /// The command.
    pub open spec fn verb(self) -> Seq<char> {
        first_word(self.line)
    }

    /// Its first argument.
    pub open spec fn arg1(self) -> Seq<char> {
        first_word(after_first_word(self.line))
    }

    /// All that follows its first argument.
    pub open spec fn arg2(self) -> Seq<char> {
        after_first_word(after_first_word(self.line))
    }

    /// Whether a chat is the one that is selected; none where the number is zero.
    pub open spec fn has_selected(self, chat: Option<ChatInfo>) -> bool {
        match chat {
            Some(chat) => self.chat_id != 0 && reply_to(self.host, loading(self.chat_id))
                == ReplyModel::Chat(chat),
            None => self.chat_id == 0,
        }
    }

    /// The surroundings once the selected chat is loaded, if one is selected.
    pub open spec fn before(self) -> Host {
        if self.chat_id == 0 {
            self.host
        } else {
            performed(self.host, loading(self.chat_id))
        }
    }

    /// How many steps are left once the command is known.
    pub open spec fn left(self) -> nat {
        if self.chat_id == 0 {
            (self.steps - 1) as nat
        } else {
            (self.steps - 2) as nat
        }
    }

    /// What becomes of it.
    pub open spec fn done(self) -> Run {
        start(line_task(self.line, self.chat_id), self.caches, self.host, self.steps)
    }

    /// It asks the core for one thing, and for nothing else.
    pub open spec fn asks_only(self, request: DeltaRequestModel) -> bool {
        &&& self.done().caches == self.caches
        &&& self.done().host == performed(self.before(), Request::Delta(request))
    }

    /// It asks the core for two things, one after the other, and for nothing else.
    pub open spec fn asks_both(self, one: DeltaRequestModel, two: DeltaRequestModel) -> bool {
        &&& self.done().caches == self.caches
        &&& self.done().host == performed(
            performed(self.before(), Request::Delta(one)),
            Request::Delta(two),
        )
    }

    /// It asks the core for one thing first.
    pub open spec fn asks_first(self, request: DeltaRequestModel) -> bool {
        self.before().asked.push(Request::Delta(request)).is_prefix_of(self.done().host.asked)
    }

    /// What the core replies to the first thing that it is asked for.
    pub open spec fn hears(self, request: DeltaRequestModel) -> ReplyModel {
        reply_to(self.before(), Request::Delta(request))
    }

    /// It ends and says something. The chat that was selected stays selected.
    pub open spec fn says(self, text: Seq<char>) -> bool {
        self.done().end == End::Return(Value::Said { chat_id: self.chat_id, said: Ok(text) })
    }

    /// It fails, and says why. The chat that was selected stays selected.
    pub open spec fn fails(self, error: Seq<char>) -> bool {
        self.done().end == End::Return(Value::Said { chat_id: self.chat_id, said: Err(error) })
    }

    /// It fails at once, without asking for anything.
    pub open spec fn refuses(self, error: Seq<char>) -> bool {
        &&& self.fails(error)
        &&& self.done().caches == self.caches
        &&& self.done().host == self.before()
    }

    /// It answers at once, without asking for anything.
    pub open spec fn answers_at_once(self, text: Seq<char>) -> bool {
        &&& self.says(text)
        &&& self.done().caches == self.caches
        &&& self.done().host == self.before()
    }

    /// It asks for one thing, and says a text once that is done; where it is not, it says why.
    pub open spec fn tells(self, request: DeltaRequestModel, text: Seq<char>) -> bool {
        &&& self.asks_only(request)
        &&& match self.hears(request) {
            Reply::Got(_) => self.says(text),
            Reply::Failed(error) => self.fails(error),
            _ => true,
        }
    }

    /// It asks for one thing, and says nothing once that is done; where it is not, it says why.
    pub open spec fn quietly(self, request: DeltaRequestModel) -> bool {
        self.tells(request, ""@)
    }

    /// It asks for a text, and says that between two others; where there is none, it says why.
    pub open spec fn frames(
        self,
        request: DeltaRequestModel,
        before: Seq<char>,
        after: Seq<char>,
    ) -> bool {
        &&& self.asks_only(request)
        &&& match self.hears(request) {
            Reply::Got(Value::Text(text)) => self.says(before + text + after),
            Reply::Failed(error) => self.fails(error),
            _ => true,
        }
    }
}

/// How far every command line comes but the one that shows a chat.
pub proof fn lemma_begun(o: Order, chat: Option<ChatInfo>)
    requires
        o.steps >= 3,
        o.has_selected(chat),
        o.verb() != "chat"@,
    ensures
        o.done() == run_on(
            with_chat(o.chat_id, command(o.line, chat)),
            o.caches,
            o.before(),
            o.left(),
        ),
{
    if o.chat_id != 0 {
        lemma_ask(
            line_task(o.line, o.chat_id),
            Reply::Start,
            o.caches,
            o.host,
            o.steps,
            loading(o.chat_id),
            Task::Cmdline { chat_id: o.chat_id, stage: Cmdline::Selected { line: o.line } },
        );
    }
}

/// How a command comes that asks the core for something.
pub proof fn lemma_asked(
    o: Order,
    chat: Option<ChatInfo>,
    request: DeltaRequestModel,
    after: CmdlineModel,
)
    requires
        o.steps >= 3,
        o.has_selected(chat),
        o.verb() != "chat"@,
        command(o.line, chat) == (CmdStepModel::Ask { request: Request::Delta(request), after }),
    ensures
        o.done() == run(
            Task::Cmdline { chat_id: o.chat_id, stage: after },
            o.hears(request),
            o.caches,
            performed(o.before(), Request::Delta(request)),
            o.left(),
        ),
{
    lemma_begun(o, chat);
}

/// How a command fails that fails at once.
pub proof fn lemma_refused(o: Order, chat: Option<ChatInfo>, error: Seq<char>)
    requires
        o.steps >= 3,
        o.has_selected(chat),
        o.verb() != "chat"@,
        command(o.line, chat) == (CmdStepModel::Fail { error }),
    ensures
        o.refuses(error),
{
    lemma_begun(o, chat);
}

/// How a command answers that answers at once.
pub proof fn lemma_answered(o: Order, chat: Option<ChatInfo>, text: Seq<char>)
    requires
        o.steps >= 3,
        o.has_selected(chat),
        o.verb() != "chat"@,
        command(o.line, chat) == (CmdStepModel::Say { text }),
    ensures
        o.answers_at_once(text),
{
    lemma_begun(o, chat);
}

/// How a command ends that says nothing.
pub proof fn lemma_quiet(o: Order, chat: Option<ChatInfo>, request: DeltaRequestModel)
    requires
        o.steps >= 3,
        o.has_selected(chat),
        o.verb() != "chat"@,
        command(o.line, chat) == (CmdStepModel::Ask {
            request: Request::Delta(request),
            after: Cmdline::Quiet,
        }),
    ensures
        o.quietly(request),
{
    lemma_asked(o, chat, request, Cmdline::Quiet);
    reveal(command_next);
}

/// How a command ends that says something of its own.
pub proof fn lemma_told(
    o: Order,
    chat: Option<ChatInfo>,
    request: DeltaRequestModel,
    text: Seq<char>,
)
    requires
        o.steps >= 3,
        o.has_selected(chat),
        o.verb() != "chat"@,
        command(o.line, chat) == (CmdStepModel::Ask {
            request: Request::Delta(request),
            after: Cmdline::Told { text },
        }),
    ensures
        o.tells(request, text),
{
    lemma_asked(o, chat, request, Cmdline::Told { text });
    reveal(command_next);
}

/// How a command ends that says what came back.
pub proof fn lemma_framed(
    o: Order,
    chat: Option<ChatInfo>,
    request: DeltaRequestModel,
    before: Seq<char>,
    after: Seq<char>,
)
    requires
        o.steps >= 3,
        o.has_selected(chat),
        o.verb() != "chat"@,
        command(o.line, chat) == (CmdStepModel::Ask {
            request: Request::Delta(request),
            after: Cmdline::Framed { before, after },
        }),
    ensures
        o.frames(request, before, after),
{
    lemma_asked(o, chat, request, Cmdline::Framed { before, after });
    reveal(command_next);
}

}
