//! What the control room can bring about.
use vstd::prelude::*;

use crate::appservice::{chat_number, Caches, Settings, REPL_CHAT_KEY};
use crate::control_room::{account_setting, Control, Setup};
use crate::laws::commands::{law_only_showing_a_chat_selects_it, line_task, selected_after};
use crate::laws::effects::{is_command_request, law_commands_touch_no_room_and_no_setting};
use crate::laws::rooms::{is_saying, reading, saying};
use crate::laws::settings::logging;
use crate::numbers::{digits, law_unsigned_reads_back};
use crate::outside::shell_words_of;
use crate::protocol::{
    Actor, DeltaRequest, LogLevel, MatrixRequest, Reply, ReplyModel, Request, RequestModel, Value,
};
use crate::run::{
    answers, kept, lemma_ask, lemma_asked_grows, lemma_others_stay, performed, reply_to, run, start,
    written, End, Host, Run,
};
use crate::task::{lemma_control, lemma_settings, lemma_setup, Task};
use crate::text::first_word;

verus! {

broadcast use {lemma_control, lemma_settings, lemma_setup};

/// The question whether the e-mail account is set up.
pub open spec fn is_set_up() -> RequestModel {
    Request::Delta(DeltaRequest::IsConfigured)
}

/// A message that is taken back.
pub open spec fn taking_back(room: Seq<char>, event: Seq<char>) -> RequestModel {
    Request::Matrix(MatrixRequest::Redact { room, event })
}

/// The storing of a setting of the e-mail account.
pub open spec fn storing(words: Seq<Seq<char>>, k: int) -> RequestModel {
    let (key, value) = account_setting(words, k);
    Request::Delta(DeltaRequest::SetSetting { key, value })
}

/// Before the e-mail account is set up, any command but the one that sets it up is answered with
/// that, and does nothing else.
pub proof fn law_nothing_is_done_before_the_setup(
    room_id: Seq<char>,
    event_id: Seq<char>,
    body: Seq<char>,
    caches: Caches,
    host: Host,
    steps: nat,
)
    requires
        steps >= 3,
        first_word(body) != "configure"@,
        answers(host, is_set_up(), Reply::Got(Value::Flag(false))),
        answers(host, saying(Actor::Main, room_id, "Not configured."@), Reply::Got(Value::Unit)),
    ensures
        ({
            let done = start(
                Task::Control(Control::Start { room_id, event_id, body }),
                caches,
                host,
                steps,
            );
            &&& done.end == End::Return(Value::Unit)
            &&& done.caches == caches
            &&& done.host.settings == host.settings
            &&& done.host.asked == host.asked.push(is_set_up()).push(
                saying(Actor::Main, room_id, "Not configured."@),
            )
        }),
{
    reveal_with_fuel(run, 4);
}

/// The command that sets up the account, which holds a password, is taken back before anything
/// else is done, whatever it says.
pub proof fn law_password_is_taken_back_first(
    room_id: Seq<char>,
    event_id: Seq<char>,
    arguments: Seq<char>,
    caches: Caches,
    host: Host,
    steps: nat,
)
    requires
        steps >= 1,
    ensures
        ({
            let asked = start(
                Task::Setup(Setup::Start { room_id, event_id, arguments }),
                caches,
                host,
                steps,
            ).host.asked;
            &&& host.asked.is_prefix_of(asked)
            &&& asked.len() > host.asked.len()
            &&& asked[host.asked.len() as int] == taking_back(room_id, event_id)
        }),
{
    let request = taking_back(room_id, event_id);
    let then = performed(host, request);
    lemma_asked_grows(
        Task::Setup(Setup::Redacted { room_id, arguments }),
        reply_to(host, request),
        caches,
        then,
        (steps - 1) as nat,
    );
    assert(then.asked[host.asked.len() as int] == request);
}

/// Whether a reply says that something was done or refused.
pub open spec fn is_settled(reply: ReplyModel) -> bool {
    reply is Got || reply is Failed
}

/// The surroundings once a message was taken back. Where that is refused, the log says why.
pub open spec fn taken_back(host: Host, room: Seq<char>, event: Seq<char>) -> Host {
    let then = performed(host, taking_back(room, event));
    match reply_to(host, taking_back(room, event)) {
        Reply::Failed(error) => performed(then, logging(LogLevel::Error, error)),
        _ => then,
    }
}

/// How far the setting up of an account comes once its command was taken back.
pub proof fn lemma_taken_back(
    room_id: Seq<char>,
    event_id: Seq<char>,
    arguments: Seq<char>,
    caches: Caches,
    host: Host,
    steps: nat,
) -> (left: nat)
    requires
        steps >= 3,
        is_settled((host.others)(host.asked, taking_back(room_id, event_id))),
    ensures
        steps - 3 <= left,
        ({
            let h = taken_back(host, room_id, event_id);
            &&& h.settings == host.settings
            &&& h.others == host.others
            &&& start(
                Task::Setup(Setup::Start { room_id, event_id, arguments }),
                caches,
                host,
                steps,
            ) == run(
                Task::Setup(Setup::Tested { room_id, arguments }),
                reply_to(h, is_set_up()),
                caches,
                performed(h, is_set_up()),
                left,
            )
        }),
{
    let request = taking_back(room_id, event_id);
    let reply = reply_to(host, request);
    let then = performed(host, request);
    let task = Task::Setup(Setup::Redacted { room_id, arguments });
    let tested = Task::Setup(Setup::Tested { room_id, arguments });
    lemma_ask(
        Task::Setup(Setup::Start { room_id, event_id, arguments }),
        Reply::Start,
        caches,
        host,
        steps,
        request,
        task,
    );
    let left = (steps - 1) as nat;
    match reply {
        Reply::Failed(error) => {
            let line = logging(LogLevel::Error, error);
            let left1 = (left - 1) as nat;
            lemma_ask(task, reply, caches, then, left, line, task);
            lemma_ask(
                task,
                Reply::Got(Value::Unit),
                caches,
                performed(then, line),
                left1,
                is_set_up(),
                tested,
            );
            (left1 - 1) as nat
        },
        _ => {
            lemma_ask(task, reply, caches, then, left, is_set_up(), tested);
            (left - 1) as nat
        },
    }
}

/// An e-mail account that is set up is not set up again: the command is taken back and answered,
/// and no setting is stored.
pub proof fn law_account_is_set_up_once(
    room_id: Seq<char>,
    event_id: Seq<char>,
    arguments: Seq<char>,
    caches: Caches,
    host: Host,
    steps: nat,
)
    requires
        steps >= 5,
        is_settled((host.others)(host.asked, taking_back(room_id, event_id))),
        answers(host, is_set_up(), Reply::Got(Value::Flag(true))),
        answers(host, saying(Actor::Main, room_id, "Already configured."@), Reply::Got(Value::Unit)),
    ensures
        ({
            let done = start(
                Task::Setup(Setup::Start { room_id, event_id, arguments }),
                caches,
                host,
                steps,
            );
            &&& done.end == End::Return(Value::Unit)
            &&& done.caches == caches
            &&& done.host.settings == host.settings
            &&& done.host.asked == taken_back(host, room_id, event_id).asked.push(
                is_set_up(),
            ).push(saying(Actor::Main, room_id, "Already configured."@))
        }),
{
    let left = lemma_taken_back(room_id, event_id, arguments, caches, host, steps);
    lemma_ask(
        Task::Setup(Setup::Tested { room_id, arguments }),
        Reply::Got(Value::Flag(true)),
        caches,
        performed(taken_back(host, room_id, event_id), is_set_up()),
        left,
        saying(Actor::Main, room_id, "Already configured."@),
        Task::Setup(Setup::Finish),
    );
}

/// The surroundings once the settings from a place on are stored.
pub open spec fn stored(host: Host, words: Seq<Seq<char>>, at: nat) -> Host
    decreases 9 - at,
{
    if at < 9 {
        stored(performed(host, storing(words, at as int)), words, at + 1)
    } else {
        host
    }
}

proof fn lemma_stored(
    room_id: Seq<char>,
    words: Seq<Seq<char>>,
    at: usize,
    reply: ReplyModel,
    caches: Caches,
    host: Host,
    steps: nat,
)
    requires
        at <= 9,
        reply == ReplyModel::Got(Value::Unit),
        steps >= (9 - at) + 6,
        forall|k: int|
            answers(host, #[trigger] storing(words, k), Reply::Got(Value::Unit)),
        answers(host, saying(Actor::Main, room_id, "Configuring…"@), Reply::Got(Value::Unit)),
        answers(host, Request::Delta(DeltaRequest::Configure), Reply::Got(Value::Unit)),
        answers(host, saying(Actor::Main, room_id, "Configured."@), Reply::Got(Value::Unit)),
        answers(host, Request::Delta(DeltaRequest::StartIo), Reply::Got(Value::Unit)),
    ensures
        ({
            let done = run(
                Task::Setup(Setup::Storing { room_id, words, at }),
                reply,
                caches,
                host,
                steps,
            );
            &&& done.end == End::Return(Value::Unit)
            &&& done.caches == caches
            &&& done.host == performed(
                performed(
                    performed(
                        performed(
                            stored(host, words, at as nat),
                            saying(Actor::Main, room_id, "Configuring…"@),
                        ),
                        Request::Delta(DeltaRequest::Configure),
                    ),
                    saying(Actor::Main, room_id, "Configured."@),
                ),
                Request::Delta(DeltaRequest::StartIo),
            )
        }),
    decreases 9 - at,
{
    if at < 9 {
        let request = storing(words, at as int);
        let then = performed(host, request);
        assert(reply_to(host, request) == ReplyModel::Got(Value::Unit));
        lemma_stored(
            room_id,
            words,
            (at + 1) as usize,
            reply_to(host, request),
            caches,
            then,
            (steps - 1) as nat,
        );
    } else {
        reveal_with_fuel(run, 6);
    }
}

/// What the setting up of an account asks for, where nothing goes wrong: the command is taken back,
/// the settings are stored one after the other, the core tries them, and starts to work.
pub proof fn law_account_is_set_up(
    room_id: Seq<char>,
    event_id: Seq<char>,
    arguments: Seq<char>,
    words: Seq<Seq<char>>,
    caches: Caches,
    host: Host,
    steps: nat,
)
    requires
        steps >= 20,
        shell_words_of(arguments) == Some(words),
        words.len() >= 3,
        is_settled((host.others)(host.asked, taking_back(room_id, event_id))),
        answers(host, is_set_up(), Reply::Got(Value::Flag(false))),
        forall|k: int|
            answers(host, #[trigger] storing(words, k), Reply::Got(Value::Unit)),
        answers(host, saying(Actor::Main, room_id, "Configuring…"@), Reply::Got(Value::Unit)),
        answers(host, Request::Delta(DeltaRequest::Configure), Reply::Got(Value::Unit)),
        answers(host, saying(Actor::Main, room_id, "Configured."@), Reply::Got(Value::Unit)),
        answers(host, Request::Delta(DeltaRequest::StartIo), Reply::Got(Value::Unit)),
    ensures
        ({
            let done = start(
                Task::Setup(Setup::Start { room_id, event_id, arguments }),
                caches,
                host,
                steps,
            );
            let asked = taken_back(host, room_id, event_id).asked.push(is_set_up()).push(
                is_set_up(),
            ) + Seq::new(9 as nat, |k: int| storing(words, k));
            &&& done.end == End::Return(Value::Unit)
            &&& done.host.asked == asked.push(saying(Actor::Main, room_id, "Configuring…"@)).push(
                Request::Delta(DeltaRequest::Configure),
            ).push(saying(Actor::Main, room_id, "Configured."@)).push(
                Request::Delta(DeltaRequest::StartIo),
            )
        }),
{
    let left = lemma_taken_back(room_id, event_id, arguments, caches, host, steps);
    let h1 = taken_back(host, room_id, event_id);
    let h2 = performed(h1, is_set_up());
    let h3 = performed(h2, is_set_up());
    let task = Task::Setup(Setup::Start { room_id, event_id, arguments });
    let h4 = performed(h3, storing(words, 0));
    let again = Task::Setup(Setup::TestedAgain { room_id, words });
    let then = Task::Setup(Setup::Storing { room_id, words, at: 1 });
    lemma_ask(
        Task::Setup(Setup::Tested { room_id, arguments }),
        Reply::Got(Value::Flag(false)),
        caches,
        h2,
        left,
        is_set_up(),
        again,
    );
    let left1 = (left - 1) as nat;
    lemma_ask(
        again,
        Reply::Got(Value::Flag(false)),
        caches,
        h3,
        left1,
        storing(words, 0),
        then,
    );
    lemma_stored(room_id, words, 1, Reply::Got(Value::Unit), caches, h4, (left1 - 1) as nat);
    reveal_with_fuel(stored, 10);
    let done = start(task, caches, host, steps);
    assert(stored(h4, words, 1).asked =~= h3.asked + Seq::new(
        9 as nat,
        |k: int| storing(words, k),
    ));
}

/// What a command line says, or why it fails.
pub open spec fn outcome(said: Result<Seq<char>, Seq<char>>) -> Seq<char> {
    match said {
        Ok(text) => text,
        Err(text) => text,
    }
}

/// The chat that the command line works on.
pub open spec fn active_chat(host: Host) -> u32 {
    chat_number(kept(host.settings, REPL_CHAT_KEY@))
}

/// What is left behind by a line that the control room hands to the command line.
pub open spec fn line_obeyed(
    line: Seq<char>,
    caches: Caches,
    host: Host,
    steps: nat,
) -> Run {
    start(
        line_task(line, active_chat(host)),
        caches,
        performed(host, reading(REPL_CHAT_KEY@)),
        steps,
    )
}

/// A line that is handed to the command line is answered with exactly one message in the control
/// room: with what it says, or why it fails. In either case the chat that it has selected is the
/// one that the next line works on, and nothing else changes of what the bridge keeps.
pub proof fn law_command_line_is_answered_once(
    room_id: Seq<char>,
    arguments: Seq<char>,
    selected: u32,
    said: Result<Seq<char>, Seq<char>>,
    caches: Caches,
    host: Host,
    steps: nat,
)
    requires
        steps >= 6,
        line_obeyed(arguments, caches, host, (steps - 2) as nat).end == End::Return(
            Value::Said { chat_id: selected, said },
        ),
        answers(host, saying(Actor::Main, room_id, outcome(said)), Reply::Got(Value::Unit)),
    ensures
        ({
            let done = start(
                Task::Control(Control::Repl { room_id, arguments }),
                caches,
                host,
                steps,
            );
            let asked = done.host.asked;
            &&& done.end == End::Return(Value::Unit)
            &&& done.caches == line_obeyed(arguments, caches, host, (steps - 2) as nat).caches
            &&& asked.len() > host.asked.len()
            &&& asked.last() == saying(Actor::Main, room_id, outcome(said))
            &&& forall|i: int|
                host.asked.len() <= i < asked.len() - 1 ==> !is_saying(#[trigger] asked[i])
            &&& active_chat(done.host) == selected
            &&& selected == selected_after(
                arguments,
                active_chat(host),
                performed(host, reading(REPL_CHAT_KEY@)),
            )
            &&& done.host.settings == if selected == active_chat(host) {
                host.settings
            } else {
                written(host.settings, REPL_CHAT_KEY@, Some(digits(selected as nat)))
            }
        }),
{
    let chat_id = active_chat(host);
    let left = (steps - 1) as nat;
    let left1 = (steps - 2) as nat;
    let left2 = (steps - 3) as nat;
    let h1 = performed(host, reading(REPL_CHAT_KEY@));
    assert(start(Task::Settings(Settings::GetReplChat), caches, host, left) == (Run {
        end: End::Return(Value::Number(chat_id)),
        caches,
        host: h1,
    })) by {
        reveal_with_fuel(run, 3);
    }
    let task = line_task(arguments, chat_id);
    let line = start(task, caches, h1, left1);
    law_commands_touch_no_room_and_no_setting(task, Reply::Start, caches, h1, left1);
    lemma_others_stay(task, Reply::Start, caches, h1, left1);
    law_only_showing_a_chat_selects_it(arguments, chat_id, caches, h1, left1);
    let text = outcome(said);
    let last = saying(Actor::Main, room_id, text);
    let reply = Reply::Got(Value::Said { chat_id: selected, said });
    let told = Task::Control(Control::ReplSaid { room_id, chat_id });
    let chat = Task::Control(Control::ReplChat { room_id, arguments });
    let settle = Task::Control(Control::Settle);
    assert(run(chat, Reply::Got(Value::Number(chat_id)), caches, h1, left) == run(
        told,
        reply,
        line.caches,
        line.host,
        left1,
    ));
    assert forall|i: int| host.asked.len() <= i < line.host.asked.len() implies !is_saying(
        #[trigger] line.host.asked[i],
    ) by {
        if i == host.asked.len() {
            assert(line.host.asked[i] == h1.asked[i]);
        } else {
            assert(is_command_request(line.host.asked[i]));
        }
    }
    if selected == chat_id {
        lemma_ask(told, reply, line.caches, line.host, left1, last, settle);
    } else {
        let write: RequestModel = Request::Delta(
            DeltaRequest::UiSet { key: REPL_CHAT_KEY@, value: Some(digits(selected as nat)) },
        );
        let h2 = performed(line.host, write);
        let keep = Task::Settings(Settings::SetReplChat { chat_id: selected });
        assert(start(keep, line.caches, line.host, left2) == (Run {
            end: End::Return(Value::Unit),
            caches: line.caches,
            host: h2,
        })) by {
            reveal_with_fuel(run, 3);
        }
        let saved = Task::Control(Control::ReplSaved { room_id, text });
        assert(run(told, reply, line.caches, line.host, left1) == run(
            saved,
            Reply::Got(Value::Unit),
            line.caches,
            h2,
            left2,
        ));
        lemma_ask(saved, Reply::Got(Value::Unit), line.caches, h2, left2, last, settle);
        law_unsigned_reads_back(selected as nat, 0xffff_ffff);
    }
}

}
