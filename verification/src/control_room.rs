//! The commands that the bridge obeys in its control room.
use vstd::prelude::*;

use crate::appservice::Settings;
use crate::cmdline::Cmdline;
use crate::matrix_intents::ChatRoom;
use crate::numbers::{parse_u32, read_unsigned};
use crate::outside::shell_words_of;
use crate::protocol::{
    ask_delta, ask_matrix, delta, done, finish, finished, matrix, note, noted, settle, settled,
    Actor, DeltaRequest, LogLevel, MatrixRequest, Reply, ReplyModel, Setting, Step, StepModel,
    Value,
};
use crate::task::Task;
use crate::text::{after_first_word, first_word, join2, join3, opt_text, same, split_word, texts};

verus! {

/// What is answered while the e-mail account is not set up.
pub const NOT_CONFIGURED: &'static str = "Not configured.";

/// What is answered when the e-mail account is set up already.
pub const ALREADY_CONFIGURED: &'static str = "Already configured.";

/// What is said while the e-mail account is being set up.
pub const CONFIGURING: &'static str = "Configuring…";

/// What is said once the e-mail account is set up.
pub const CONFIGURED: &'static str = "Configured.";

/// What stands before the reason why the e-mail account could not be set up.
pub const CONFIGURE_ERROR: &'static str = "Error: ";

/// What stands before an unknown command.
pub const UNKNOWN_BEFORE: &'static str = "Unknown command ";

/// What stands behind an unknown command.
pub const UNKNOWN_AFTER: &'static str = ". Commands:\n - repl\n - configure";

/// How to use the command that starts a conversation.
pub const MESSAGE_USAGE: &'static str = "Usage: message <email> [full_name] [subject]";

/// How to use the command that makes a room out of a chat.
pub const ROOM_USAGE: &'static str = "room <chat_id>";

/// How to use the command that sets up the e-mail account.
pub const CONFIGURE_USAGE: &'static str =
    "Usage: configure <email> <password> <displayname> [login_user] [imap_host] [smtp_host]";

/// What stands before the room that a chat has already.
pub const ROOM_EXISTS: &'static str = "Chat is already a room: ";

/// Why the bridge gives up on a line with an open quote.
pub const MUST_PARSE: &'static str = "must parse";

/// How many settings an e-mail account is set up with.
pub const SETTINGS: usize = 9;

/// How a message in the control room is obeyed.
#[derive(Debug, PartialEq, Eq)]
pub enum Control<T = String, L = Vec<String>> {
    Start { room_id: T, event_id: T, body: T },
    Tested { room_id: T, command: T, arguments: T },
    Message { room_id: T, arguments: T },
    AddrTested { room_id: T, words: L },
    Contacted { words: L },
    Chatted { words: L },
    RoomMade { subject: Option<T> },
    RoomTried { made_id: T, subject: T },
    Room { room_id: T, arguments: T },
    RoomTested { room_id: T, arguments: T },
    RoomKnown { room_id: T, chat_id: u32 },
    Repl { room_id: T, arguments: T },
    ReplChat { room_id: T, arguments: T },
    ReplSaid { room_id: T, chat_id: u32 },
    ReplSaved { room_id: T, text: T },
    Finish,
    Settle,
}

/// The same over mathematical text.
pub type ControlModel = Control<Seq<char>, Seq<Seq<char>>>;

impl View for Control {
    type V = ControlModel;

    open spec fn view(&self) -> ControlModel {
        match self {
            Control::Start { room_id, event_id, body } => Control::Start { room_id: room_id@, event_id: event_id@, body: body@ },
            Control::Tested { room_id, command, arguments } => Control::Tested { room_id: room_id@, command: command@, arguments: arguments@ },
            Control::Message { room_id, arguments } => Control::Message { room_id: room_id@, arguments: arguments@ },
            Control::AddrTested { room_id, words } => Control::AddrTested { room_id: room_id@, words: texts(words@) },
            Control::Contacted { words } => Control::Contacted { words: texts(words@) },
            Control::Chatted { words } => Control::Chatted { words: texts(words@) },
            Control::RoomMade { subject } => Control::RoomMade { subject: opt_text(*subject) },
            Control::RoomTried { made_id, subject } => Control::RoomTried { made_id: made_id@, subject: subject@ },
            Control::Room { room_id, arguments } => Control::Room { room_id: room_id@, arguments: arguments@ },
            Control::RoomTested { room_id, arguments } => Control::RoomTested { room_id: room_id@, arguments: arguments@ },
            Control::RoomKnown { room_id, chat_id } => Control::RoomKnown { room_id: room_id@, chat_id: *chat_id },
            Control::Repl { room_id, arguments } => Control::Repl { room_id: room_id@, arguments: arguments@ },
            Control::ReplChat { room_id, arguments } => Control::ReplChat { room_id: room_id@, arguments: arguments@ },
            Control::ReplSaid { room_id, chat_id } => Control::ReplSaid { room_id: room_id@, chat_id: *chat_id },
            Control::ReplSaved { room_id, text } => Control::ReplSaved { room_id: room_id@, text: text@ },
            Control::Finish => Control::Finish,
            Control::Settle => Control::Settle,
        }
    }
}

/// How the e-mail account is set up.
#[derive(Debug, PartialEq, Eq)]
pub enum Setup<T = String, L = Vec<String>> {
    Start { room_id: T, event_id: T, arguments: T },
    Redacted { room_id: T, arguments: T },
    Tested { room_id: T, arguments: T },
    TestedAgain { room_id: T, words: L },
    Storing { room_id: T, words: L, at: usize },
    Announced { room_id: T },
    Done { room_id: T },
    Welcomed,
    Finish,
}

/// The same over mathematical text.
pub type SetupModel = Setup<Seq<char>, Seq<Seq<char>>>;

impl View for Setup {
    type V = SetupModel;

    open spec fn view(&self) -> SetupModel {
        match self {
            Setup::Start { room_id, event_id, arguments } => Setup::Start { room_id: room_id@, event_id: event_id@, arguments: arguments@ },
            Setup::Redacted { room_id, arguments } => Setup::Redacted { room_id: room_id@, arguments: arguments@ },
            Setup::Tested { room_id, arguments } => Setup::Tested { room_id: room_id@, arguments: arguments@ },
            Setup::TestedAgain { room_id, words } => Setup::TestedAgain { room_id: room_id@, words: texts(words@) },
            Setup::Storing { room_id, words, at } => Setup::Storing { room_id: room_id@, words: texts(words@), at: *at },
            Setup::Announced { room_id } => Setup::Announced { room_id: room_id@ },
            Setup::Done { room_id } => Setup::Done { room_id: room_id@ },
            Setup::Welcomed => Setup::Welcomed,
            Setup::Finish => Setup::Finish,
        }
    }
}

/// Says something in a room, which ends the command.
pub open spec fn say(room_id: Seq<char>, text: Seq<char>) -> StepModel {
    matrix(
        MatrixRequest::SendText { who: Actor::Main, room: room_id, text },
        Task::Control(Control::Finish),
    )
}

fn say_in(room_id: String, text: String) -> (s: Step)
    ensures
        s@ == say(room_id@, text@),
{
    ask_matrix(
        MatrixRequest::SendText { who: Actor::Main, room: room_id, text },
        Task::Control(Control::Finish),
    )
}

/// Says something in a room, which must not fail.
pub open spec fn answer(room_id: Seq<char>, text: Seq<char>) -> StepModel {
    matrix(
        MatrixRequest::SendText { who: Actor::Main, room: room_id, text },
        Task::Control(Control::Settle),
    )
}

fn answer_in(room_id: String, text: String) -> (s: Step)
    ensures
        s@ == answer(room_id@, text@),
{
    ask_matrix(
        MatrixRequest::SendText { who: Actor::Main, room: room_id, text },
        Task::Control(Control::Settle),
    )
}

/// The word at a place, if the line has that many.
pub open spec fn word_at(words: Seq<Seq<char>>, k: int) -> Option<Seq<char>> {
    if 0 <= k < words.len() {
        Some(words[k])
    } else {
        None
    }
}

fn get_word(words: &Vec<String>, k: usize) -> (r: Option<String>)
    ensures
        opt_text(r) == word_at(texts(words@), k as int),
{
    if k < words.len() {
        Some(words[k].clone())
    } else {
        None
    }
}

/// The text inside, or the empty text.
pub open spec fn text_or_empty(o: Option<Seq<char>>) -> Seq<char> {
    match o {
        Some(text) => text,
        None => ""@,
    }
}

/// How a message in the control room is obeyed. Its first word is the command. Only the setting up
/// of the e-mail account is obeyed before the account is set up.
pub open spec fn control_next(s: ControlModel, reply: ReplyModel) -> StepModel {
    match (s, reply) {
        (Control::Start { room_id, event_id, body }, Reply::Start) => if first_word(body)
            == "configure"@ {
            Step::Call(
                Task::Setup(
                    Setup::Start { room_id, event_id, arguments: after_first_word(body) },
                ),
                Task::Control(Control::Finish),
            )
        } else {
            delta(
                DeltaRequest::IsConfigured,
                Task::Control(
                    Control::Tested {
                        room_id,
                        command: first_word(body),
                        arguments: after_first_word(body),
                    },
                ),
            )
        },
        (Control::Tested { room_id, command, arguments }, Reply::Got(Value::Flag(configured))) => {
            if !configured {
                say(room_id, NOT_CONFIGURED@)
            } else if command == "repl"@ {
                Step::Call(
                    Task::Control(Control::Repl { room_id, arguments }),
                    Task::Control(Control::Finish),
                )
            } else if command == "room"@ {
                Step::Call(
                    Task::Control(Control::Room { room_id, arguments }),
                    Task::Control(Control::Finish),
                )
            } else if command == "message"@ {
                Step::Call(
                    Task::Control(Control::Message { room_id, arguments }),
                    Task::Control(Control::Finish),
                )
            } else {
                say(room_id, UNKNOWN_BEFORE@ + command + UNKNOWN_AFTER@)
            }
        },
        (Control::Tested { .. }, Reply::Failed(error)) => Step::Raise(error),
        (Control::Message { room_id, arguments }, Reply::Start) => match shell_words_of(
            arguments,
        ) {
            Some(words) => if words.len() < 1 {
                say(room_id, MESSAGE_USAGE@)
            } else {
                delta(
                    DeltaRequest::MayBeValidAddr { addr: words[0] },
                    Task::Control(Control::AddrTested { room_id, words }),
                )
            },
            None => Step::Panic(MUST_PARSE@),
        },
        (Control::AddrTested { room_id, words }, Reply::Got(Value::Flag(valid))) => if valid {
            delta(
                DeltaRequest::CreateContact {
                    name: text_or_empty(word_at(words, 1)),
                    addr: text_or_empty(word_at(words, 0)),
                },
                Task::Control(Control::Contacted { words }),
            )
        } else {
            say(room_id, MESSAGE_USAGE@)
        },
        (Control::Contacted { words }, Reply::Got(Value::Number(contact))) => delta(
            DeltaRequest::CreateChat { contact },
            Task::Control(Control::Chatted { words }),
        ),
        (Control::Chatted { words }, Reply::Got(Value::Number(chat_id))) => Step::Call(
            Task::ChatRoom(ChatRoom::Start { chat_id }),
            Task::Control(Control::RoomMade { subject: word_at(words, 2) }),
        ),
        (Control::RoomMade { subject }, Reply::Got(Value::Text(made_id))) => match subject {
            Some(subject) => matrix(
                MatrixRequest::IsJoined { who: Actor::Main, room: made_id },
                Task::Control(Control::RoomTried { made_id, subject }),
            ),
            None => Step::Return(Value::Unit),
        },
        (Control::RoomTried { made_id, subject }, Reply::Got(Value::Flag(joined))) => if joined {
            matrix(
                MatrixRequest::SendTopic { room: made_id, topic: subject },
                Task::Control(Control::Finish),
            )
        } else {
            Step::Return(Value::Unit)
        },
        (
            Control::Contacted { .. } | Control::Chatted { .. } | Control::RoomMade { .. },
            Reply::Failed(error),
        ) => Step::Raise(error),
        (Control::Room { room_id, arguments }, Reply::Start) => delta(
            DeltaRequest::IsConfigured,
            Task::Control(Control::RoomTested { room_id, arguments }),
        ),
        (Control::RoomTested { room_id, arguments }, Reply::Got(Value::Flag(configured))) => {
            if !configured {
                say(room_id, NOT_CONFIGURED@)
            } else {
                match read_unsigned(arguments, 0xffff_ffff) {
                    Ok(n) => Step::Call(
                        Task::Settings(Settings::GetRoom { chat_id: n as u32 }),
                        Task::Control(Control::RoomKnown { room_id, chat_id: n as u32 }),
                    ),
                    Err(_) => say(room_id, ROOM_USAGE@),
                }
            }
        },
        (Control::RoomTested { .. }, Reply::Failed(error)) => Step::Panic(error),
        (Control::RoomKnown { room_id, chat_id }, Reply::Got(Value::MaybeText(room))) => {
            match room {
                Some(existing) => say(room_id, ROOM_EXISTS@ + existing),
                None => Step::Call(
                    Task::ChatRoom(ChatRoom::Start { chat_id }),
                    Task::Control(Control::Settle),
                ),
            }
        },
        (Control::Repl { room_id, arguments }, Reply::Start) => Step::Call(
            Task::Settings(Settings::GetReplChat),
            Task::Control(Control::ReplChat { room_id, arguments }),
        ),
        (Control::ReplChat { room_id, arguments }, Reply::Got(Value::Number(chat_id))) => {
            Step::Call(
                Task::Cmdline { chat_id, stage: Cmdline::Start { line: arguments } },
                Task::Control(Control::ReplSaid { room_id, chat_id }),
            )
        },
        (
            Control::ReplSaid { room_id, chat_id },
            Reply::Got(Value::Said { chat_id: selected, said }),
        ) => {
            let text = match said {
                Ok(text) => text,
                Err(text) => text,
            };
            if chat_id != selected {
                Step::Call(
                    Task::Settings(Settings::SetReplChat { chat_id: selected }),
                    Task::Control(Control::ReplSaved { room_id, text }),
                )
            } else {
                answer(room_id, text)
            }
        },
        (Control::ReplSaved { room_id, text }, Reply::Got(_)) => answer(room_id, text),
        (Control::Finish, reply) => finished(reply),
        (Control::Settle, reply) => settled(reply),
        _ => Step::Mismatch,
    }
}

/// Goes on with obeying a message in the control room.
pub(crate) fn control_resume(s: Control, reply: Reply) -> (step: Step)
    ensures
        step@ == control_next(s@, reply@),
{
    match (s, reply) {
        (Control::Start { room_id, event_id, body }, Reply::Start) => {
            let (command, arguments) = split_word(body.as_str());
            if same(command, "configure") {
                Step::Call(
                    Task::Setup(
                        Setup::Start { room_id, event_id, arguments: arguments.to_owned() },
                    ),
                    Task::Control(Control::Finish),
                )
            } else {
                ask_delta(
                    DeltaRequest::IsConfigured,
                    Task::Control(
                        Control::Tested {
                            room_id,
                            command: command.to_owned(),
                            arguments: arguments.to_owned(),
                        },
                    ),
                )
            }
        },
        (Control::Tested { room_id, command, arguments }, Reply::Got(Value::Flag(configured))) => {
            if !configured {
                say_in(room_id, NOT_CONFIGURED.to_owned())
            } else if same(command.as_str(), "repl") {
                Step::Call(
                    Task::Control(Control::Repl { room_id, arguments }),
                    Task::Control(Control::Finish),
                )
            } else if same(command.as_str(), "room") {
                Step::Call(
                    Task::Control(Control::Room { room_id, arguments }),
                    Task::Control(Control::Finish),
                )
            } else if same(command.as_str(), "message") {
                Step::Call(
                    Task::Control(Control::Message { room_id, arguments }),
                    Task::Control(Control::Finish),
                )
            } else {
                say_in(room_id, join3(UNKNOWN_BEFORE, command.as_str(), UNKNOWN_AFTER))
            }
        },
        (Control::Tested { .. }, Reply::Failed(error)) => Step::Raise(error),
        (Control::Message { room_id, arguments }, Reply::Start) => {
            match shell_words::split(arguments.as_str()) {
                Ok(words) => {
                    if words.len() < 1 {
                        say_in(room_id, MESSAGE_USAGE.to_owned())
                    } else {
                        ask_delta(
                            DeltaRequest::MayBeValidAddr { addr: words[0].clone() },
                            Task::Control(Control::AddrTested { room_id, words }),
                        )
                    }
                },
                Err(_) => Step::Panic(MUST_PARSE.to_owned()),
            }
        },
        (Control::AddrTested { room_id, words }, Reply::Got(Value::Flag(valid))) => {
            if valid {
                let name: String = match get_word(&words, 1) {
                    Some(name) => name,
                    None => "".to_owned(),
                };
                let addr: String = match get_word(&words, 0) {
                    Some(addr) => addr,
                    None => "".to_owned(),
                };
                ask_delta(
                    DeltaRequest::CreateContact { name, addr },
                    Task::Control(Control::Contacted { words }),
                )
            } else {
                say_in(room_id, MESSAGE_USAGE.to_owned())
            }
        },
        (Control::Contacted { words }, Reply::Got(Value::Number(contact))) => ask_delta(
            DeltaRequest::CreateChat { contact },
            Task::Control(Control::Chatted { words }),
        ),
        (Control::Chatted { words }, Reply::Got(Value::Number(chat_id))) => Step::Call(
            Task::ChatRoom(ChatRoom::Start { chat_id }),
            Task::Control(Control::RoomMade { subject: get_word(&words, 2) }),
        ),
        (Control::RoomMade { subject }, Reply::Got(Value::Text(made_id))) => match subject {
            Some(subject) => ask_matrix(
                MatrixRequest::IsJoined { who: Actor::Main, room: made_id.clone() },
                Task::Control(Control::RoomTried { made_id, subject }),
            ),
            None => done(),
        },
        (Control::RoomTried { made_id, subject }, Reply::Got(Value::Flag(joined))) => {
            if joined {
                ask_matrix(
                    MatrixRequest::SendTopic { room: made_id, topic: subject },
                    Task::Control(Control::Finish),
                )
            } else {
                done()
            }
        },
        (
            Control::Contacted { .. } | Control::Chatted { .. } | Control::RoomMade { .. },
            Reply::Failed(error),
        ) => Step::Raise(error),
        (Control::Room { room_id, arguments }, Reply::Start) => ask_delta(
            DeltaRequest::IsConfigured,
            Task::Control(Control::RoomTested { room_id, arguments }),
        ),
        (Control::RoomTested { room_id, arguments }, Reply::Got(Value::Flag(configured))) => {
            if !configured {
                say_in(room_id, NOT_CONFIGURED.to_owned())
            } else {
                match parse_u32(arguments.as_str()) {
                    Ok(chat_id) => Step::Call(
                        Task::Settings(Settings::GetRoom { chat_id }),
                        Task::Control(Control::RoomKnown { room_id, chat_id }),
                    ),
                    Err(_) => say_in(room_id, ROOM_USAGE.to_owned()),
                }
            }
        },
        (Control::RoomTested { .. }, Reply::Failed(error)) => Step::Panic(error),
        (Control::RoomKnown { room_id, chat_id }, Reply::Got(Value::MaybeText(room))) => {
            match room {
                Some(existing) => say_in(room_id, join2(ROOM_EXISTS, existing.as_str())),
                None => Step::Call(
                    Task::ChatRoom(ChatRoom::Start { chat_id }),
                    Task::Control(Control::Settle),
                ),
            }
        },
        (Control::Repl { room_id, arguments }, Reply::Start) => Step::Call(
            Task::Settings(Settings::GetReplChat),
            Task::Control(Control::ReplChat { room_id, arguments }),
        ),
        (Control::ReplChat { room_id, arguments }, Reply::Got(Value::Number(chat_id))) => {
            Step::Call(
                Task::Cmdline { chat_id, stage: Cmdline::Start { line: arguments } },
                Task::Control(Control::ReplSaid { room_id, chat_id }),
            )
        },
        (
            Control::ReplSaid { room_id, chat_id },
            Reply::Got(Value::Said { chat_id: selected, said }),
        ) => {
            let text: String = match said {
                Ok(text) => text,
                Err(text) => text,
            };
            if chat_id != selected {
                Step::Call(
                    Task::Settings(Settings::SetReplChat { chat_id: selected }),
                    Task::Control(Control::ReplSaved { room_id, text }),
                )
            } else {
                answer_in(room_id, text)
            }
        },
        (Control::ReplSaved { room_id, text }, Reply::Got(_)) => answer_in(room_id, text),
        (Control::Finish, reply) => finish(reply),
        (Control::Settle, reply) => settle(reply),
        _ => Step::Mismatch,
    }
}

/// Says something in a room, which ends the setting up.
pub open spec fn report(room_id: Seq<char>, text: Seq<char>) -> StepModel {
    matrix(
        MatrixRequest::SendText { who: Actor::Main, room: room_id, text },
        Task::Setup(Setup::Finish),
    )
}

fn report_in(room_id: String, text: String) -> (s: Step)
    ensures
        s@ == report(room_id@, text@),
{
    ask_matrix(
        MatrixRequest::SendText { who: Actor::Main, room: room_id, text },
        Task::Setup(Setup::Finish),
    )
}

/// The settings of an e-mail account, out of the words of the command: the address, the password
/// and the name, then the user and the hosts as far as they are given; encryption is off, all
/// mails are shown, and a copy of what is sent goes to the account itself.
pub open spec fn account_setting(words: Seq<Seq<char>>, k: int) -> (Setting, Option<Seq<char>>) {
    if k == 0 {
        (Setting::Addr, word_at(words, 0))
    } else if k == 1 {
        (Setting::MailPw, word_at(words, 1))
    } else if k == 2 {
        (Setting::Displayname, word_at(words, 2))
    } else if k == 3 {
        (Setting::MailUser, word_at(words, 3))
    } else if k == 4 {
        (Setting::MailServer, word_at(words, 4))
    } else if k == 5 {
        (Setting::SendServer, word_at(words, 5))
    } else if k == 6 {
        (Setting::E2eeEnabled, Some("0"@))
    } else if k == 7 {
        (Setting::ShowEmails, Some("2"@))
    } else {
        (Setting::BccSelf, Some("1"@))
    }
}

fn get_account_setting(words: &Vec<String>, k: usize) -> (r: (Setting, Option<String>))
    ensures
        (r.0, opt_text(r.1)) == account_setting(texts(words@), k as int),
{
    if k == 0 {
        (Setting::Addr, get_word(words, 0))
    } else if k == 1 {
        (Setting::MailPw, get_word(words, 1))
    } else if k == 2 {
        (Setting::Displayname, get_word(words, 2))
    } else if k == 3 {
        (Setting::MailUser, get_word(words, 3))
    } else if k == 4 {
        (Setting::MailServer, get_word(words, 4))
    } else if k == 5 {
        (Setting::SendServer, get_word(words, 5))
    } else if k == 6 {
        (Setting::E2eeEnabled, Some("0".to_owned()))
    } else if k == 7 {
        (Setting::ShowEmails, Some("2".to_owned()))
    } else {
        (Setting::BccSelf, Some("1".to_owned()))
    }
}

/// Goes on to the setting at a place; says behind the last one that the account is set up now.
pub open spec fn store(room_id: Seq<char>, words: Seq<Seq<char>>, at: usize) -> StepModel {
    if at < SETTINGS {
        let (key, value) = account_setting(words, at as int);
        delta(
            DeltaRequest::SetSetting { key, value },
            Task::Setup(Setup::Storing { room_id, words, at: (at + 1) as usize }),
        )
    } else {
        matrix(
            MatrixRequest::SendText { who: Actor::Main, room: room_id, text: CONFIGURING@ },
            Task::Setup(Setup::Announced { room_id }),
        )
    }
}

fn store_from(room_id: String, words: Vec<String>, at: usize) -> (s: Step)
    ensures
        s@ == store(room_id@, texts(words@), at),
{
    if at < SETTINGS {
        let (key, value) = get_account_setting(&words, at);
        ask_delta(
            DeltaRequest::SetSetting { key, value },
            Task::Setup(Setup::Storing { room_id, words, at: at + 1 }),
        )
    } else {
        ask_matrix(
            MatrixRequest::SendText {
                who: Actor::Main,
                room: room_id.clone(),
                text: CONFIGURING.to_owned(),
            },
            Task::Setup(Setup::Announced { room_id }),
        )
    }
}

/// How the e-mail account is set up. The command holds a password and is taken back first. An
/// account that is set up already stays as it is. Else the settings are stored, the core tries
/// them, and the room learns what came of it.
pub open spec fn setup_next(s: SetupModel, reply: ReplyModel) -> StepModel {
    match (s, reply) {
        (Setup::Start { room_id, event_id, arguments }, Reply::Start) => matrix(
            MatrixRequest::Redact { room: room_id, event: event_id },
            Task::Setup(Setup::Redacted { room_id, arguments }),
        ),
        (Setup::Redacted { room_id, arguments }, Reply::Got(_)) => delta(
            DeltaRequest::IsConfigured,
            Task::Setup(Setup::Tested { room_id, arguments }),
        ),
        (Setup::Redacted { room_id, arguments }, Reply::Failed(error)) => noted(
            LogLevel::Error,
            error,
            Task::Setup(Setup::Redacted { room_id, arguments }),
        ),
        (Setup::Tested { room_id, arguments }, Reply::Got(Value::Flag(configured))) => {
            if configured {
                report(room_id, ALREADY_CONFIGURED@)
            } else {
                match shell_words_of(arguments) {
                    Some(words) => if words.len() < 3 {
                        report(room_id, CONFIGURE_USAGE@)
                    } else {
                        delta(
                            DeltaRequest::IsConfigured,
                            Task::Setup(Setup::TestedAgain { room_id, words }),
                        )
                    },
                    None => Step::Panic(MUST_PARSE@),
                }
            }
        },
        (Setup::TestedAgain { room_id, words }, Reply::Got(Value::Flag(configured))) => {
            if configured {
                Step::Return(Value::Unit)
            } else {
                store(room_id, words, 0)
            }
        },
        (Setup::Storing { room_id, words, at }, Reply::Got(_)) => store(room_id, words, at),
        (
            Setup::Tested { .. } | Setup::TestedAgain { .. } | Setup::Storing { .. },
            Reply::Failed(error),
        ) => Step::Panic(error),
        (Setup::Announced { room_id }, Reply::Got(_)) => delta(
            DeltaRequest::Configure,
            Task::Setup(Setup::Done { room_id }),
        ),
        (Setup::Done { room_id }, Reply::Got(_)) => matrix(
            MatrixRequest::SendText { who: Actor::Main, room: room_id, text: CONFIGURED@ },
            Task::Setup(Setup::Welcomed),
        ),
        (Setup::Done { room_id }, Reply::Failed(error)) => report(
            room_id,
            CONFIGURE_ERROR@ + error,
        ),
        (Setup::Welcomed, Reply::Got(_)) => delta(
            DeltaRequest::StartIo,
            Task::Setup(Setup::Finish),
        ),
        (Setup::Announced { .. } | Setup::Welcomed, Reply::Failed(error)) => Step::Raise(error),
        (Setup::Finish, reply) => finished(reply),
        _ => Step::Mismatch,
    }
}

/// Goes on with setting up the e-mail account.
pub(crate) fn setup_resume(s: Setup, reply: Reply) -> (step: Step)
    ensures
        step@ == setup_next(s@, reply@),
{
    match (s, reply) {
        (Setup::Start { room_id, event_id, arguments }, Reply::Start) => ask_matrix(
            MatrixRequest::Redact { room: room_id.clone(), event: event_id },
            Task::Setup(Setup::Redacted { room_id, arguments }),
        ),
        (Setup::Redacted { room_id, arguments }, Reply::Got(_)) => ask_delta(
            DeltaRequest::IsConfigured,
            Task::Setup(Setup::Tested { room_id, arguments }),
        ),
        (Setup::Redacted { room_id, arguments }, Reply::Failed(error)) => note(
            LogLevel::Error,
            error,
            Task::Setup(Setup::Redacted { room_id, arguments }),
        ),
        (Setup::Tested { room_id, arguments }, Reply::Got(Value::Flag(configured))) => {
            if configured {
                report_in(room_id, ALREADY_CONFIGURED.to_owned())
            } else {
                match shell_words::split(arguments.as_str()) {
                    Ok(words) => {
                        if words.len() < 3 {
                            report_in(room_id, CONFIGURE_USAGE.to_owned())
                        } else {
                            ask_delta(
                                DeltaRequest::IsConfigured,
                                Task::Setup(Setup::TestedAgain { room_id, words }),
                            )
                        }
                    },
                    Err(_) => Step::Panic(MUST_PARSE.to_owned()),
                }
            }
        },
        (Setup::TestedAgain { room_id, words }, Reply::Got(Value::Flag(configured))) => {
            if configured {
                done()
            } else {
                store_from(room_id, words, 0)
            }
        },
        (Setup::Storing { room_id, words, at }, Reply::Got(_)) => store_from(room_id, words, at),
        (
            Setup::Tested { .. } | Setup::TestedAgain { .. } | Setup::Storing { .. },
            Reply::Failed(error),
        ) => Step::Panic(error),
        (Setup::Announced { room_id }, Reply::Got(_)) => ask_delta(
            DeltaRequest::Configure,
            Task::Setup(Setup::Done { room_id }),
        ),
        (Setup::Done { room_id }, Reply::Got(_)) => ask_matrix(
            MatrixRequest::SendText {
                who: Actor::Main,
                room: room_id,
                text: CONFIGURED.to_owned(),
            },
            Task::Setup(Setup::Welcomed),
        ),
        (Setup::Done { room_id }, Reply::Failed(error)) => report_in(
            room_id,
            join2(CONFIGURE_ERROR, error.as_str()),
        ),
        (Setup::Welcomed, Reply::Got(_)) => ask_delta(
            DeltaRequest::StartIo,
            Task::Setup(Setup::Finish),
        ),
        (Setup::Announced { .. } | Setup::Welcomed, Reply::Failed(error)) => Step::Raise(error),
        (Setup::Finish, reply) => finish(reply),
        _ => Step::Mismatch,
    }
}

}
