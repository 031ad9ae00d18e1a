//! What the commands in the control room do.
use vstd::prelude::*;

use crate::appservice::Caches;
use crate::control_room::{Control, Setup};
use crate::laws::control::{is_settled, is_set_up, storing, taken_back, lemma_taken_back};
use crate::laws::reactions::seeking_room;
use crate::laws::reports::{finishes, room_of, settles};
use crate::laws::rooms::{is_in, saying};
use crate::laws::settings::law_room_of_chat;
use crate::matrix_intents::ChatRoom;
use crate::numbers::read_unsigned;
use crate::outside::shell_words_of;
use crate::protocol::{
    Actor, DeltaRequest, MatrixRequest, Reply, ReplyModel, Request, RequestModel, Setting, Value,
};
use crate::run::{answers, lemma_ask, performed, reply_to, run, start, End, Host, Run};
use crate::task::{lemma_control, lemma_setup, Task, TaskModel};
use crate::text::{after_first_word, first_word};

verus! {

broadcast use {lemma_control, lemma_setup};

/// A message in the control room.
pub open spec fn ordering(
    room_id: Seq<char>,
    event_id: Seq<char>,
    body: Seq<char>,
) -> TaskModel {
    Task::Control(Control::Start { room_id, event_id, body })
}

proof fn lemma_finished(callee: TaskModel, caches: Caches, host: Host, steps: nat)
    requires
        steps >= 1,
    ensures
        ({
            let called = start(callee, caches, host, steps);
            let last: TaskModel = Task::Control(Control::Finish);
            match called.end {
                End::Return(value) => finishes(
                    run(last, Reply::Got(value), called.caches, called.host, steps),
                    called,
                ),
                End::Raise(error) => finishes(
                    run(last, Reply::Failed(error), called.caches, called.host, steps),
                    called,
                ),
                _ => true,
            }
        }),
{
}

/// Once the account is set up, the first word of a message in the control room is the command, and
/// what follows are its arguments: there are commands for the command line, for the room of a chat
/// and for a conversation. Any other one is answered with the commands that there are.
pub proof fn law_first_word_is_the_command(
    room_id: Seq<char>,
    event_id: Seq<char>,
    body: Seq<char>,
    caches: Caches,
    host: Host,
    steps: nat,
)
    requires
        steps >= 4,
        answers(host, is_set_up(), Reply::Got(Value::Flag(true))),
    ensures
        ({
            let done = start(ordering(room_id, event_id, body), caches, host, steps);
            let arguments = after_first_word(body);
            let tested = performed(host, is_set_up());
            let left = (steps - 2) as nat;
            &&& first_word(body) == "configure"@ ==> finishes(
                done,
                start(
                    Task::Setup(Setup::Start { room_id, event_id, arguments }),
                    caches,
                    host,
                    (steps - 1) as nat,
                ),
            )
            &&& first_word(body) == "repl"@ ==> finishes(
                done,
                start(Task::Control(Control::Repl { room_id, arguments }), caches, tested, left),
            )
            &&& first_word(body) == "room"@ ==> finishes(
                done,
                start(Task::Control(Control::Room { room_id, arguments }), caches, tested, left),
            )
            &&& first_word(body) == "message"@ ==> finishes(
                done,
                start(
                    Task::Control(Control::Message { room_id, arguments }),
                    caches,
                    tested,
                    left,
                ),
            )
            &&& first_word(body) != "configure"@ && first_word(body) != "repl"@ && first_word(body)
                != "room"@ && first_word(body) != "message"@ ==> {
                let line = saying(
                    Actor::Main,
                    room_id,
                    "Unknown command "@ + first_word(body)
                        + ". Commands:\n - repl\n - configure"@,
                );
                &&& done.caches == caches
                &&& done.host == performed(tested, line)
                &&& match reply_to(tested, line) {
                    Reply::Got(_) => done.end == End::Return(Value::Unit),
                    Reply::Failed(error) => done.end == End::Raise(error),
                    _ => true,
                }
            }
        }),
{
    let done = start(ordering(room_id, event_id, body), caches, host, steps);
    let command = first_word(body);
    let arguments = after_first_word(body);
    let tested = performed(host, is_set_up());
    let left = (steps - 1) as nat;
    let left1 = (steps - 2) as nat;
    reveal_strlit("configure");
    reveal_strlit("repl");
    reveal_strlit("room");
    reveal_strlit("message");
    assert("configure"@.len() == 9);
    assert("repl"@.len() == 4 && "repl"@[1] == 'e');
    assert("room"@.len() == 4 && "room"@[1] == 'o');
    assert("message"@.len() == 7);
    let stage: TaskModel = Task::Control(Control::Tested { room_id, command, arguments });
    let yes: ReplyModel = Reply::Got(Value::Flag(true));
    if command == "configure"@ {
        lemma_finished(
            Task::Setup(Setup::Start { room_id, event_id, arguments }),
            caches,
            host,
            left,
        );
    } else {
        lemma_ask(
            ordering(room_id, event_id, body),
            Reply::Start,
            caches,
            host,
            steps,
            is_set_up(),
            stage,
        );
        assert(done == run(stage, yes, caches, tested, left));
        if command == "repl"@ {
            lemma_finished(
                Task::Control(Control::Repl { room_id, arguments }),
                caches,
                tested,
                left1,
            );
        } else if command == "room"@ {
            lemma_finished(
                Task::Control(Control::Room { room_id, arguments }),
                caches,
                tested,
                left1,
            );
        } else if command == "message"@ {
            lemma_finished(
                Task::Control(Control::Message { room_id, arguments }),
                caches,
                tested,
                left1,
            );
        } else {
            let line = saying(
                Actor::Main,
                room_id,
                "Unknown command "@ + command + ". Commands:\n - repl\n - configure"@,
            );
            lemma_ask(
                stage,
                yes,
                caches,
                tested,
                left,
                line,
                Task::Control(Control::Finish),
            );
        }
    }
}

/// Whether something is said in a room, as the last thing, and nothing else comes of it.
pub open spec fn is_answered(
    done: Run,
    caches: Caches,
    host: Host,
    room_id: Seq<char>,
    text: Seq<char>,
) -> bool {
    let line = saying(Actor::Main, room_id, text);
    &&& done.caches == caches
    &&& done.host == performed(host, line)
    &&& match reply_to(host, line) {
        Reply::Got(_) => done.end == End::Return(Value::Unit),
        Reply::Failed(error) => done.end == End::Raise(error),
        _ => true,
    }
}

/// The command for the room of a chat does nothing before the account is set up, and says so.
pub proof fn law_room_needs_an_account(
    room_id: Seq<char>,
    arguments: Seq<char>,
    caches: Caches,
    host: Host,
    steps: nat,
)
    requires
        steps >= 3,
        answers(host, is_set_up(), Reply::Got(Value::Flag(false))),
    ensures
        is_answered(
            start(Task::Control(Control::Room { room_id, arguments }), caches, host, steps),
            caches,
            performed(host, is_set_up()),
            room_id,
            "Not configured."@,
        ),
{
    let tested = Task::Control(Control::RoomTested { room_id, arguments });
    lemma_ask(
        Task::Control(Control::Room { room_id, arguments }),
        Reply::Start,
        caches,
        host,
        steps,
        is_set_up(),
        tested,
    );
    lemma_ask(
        tested,
        Reply::Got(Value::Flag(false)),
        caches,
        performed(host, is_set_up()),
        (steps - 1) as nat,
        saying(Actor::Main, room_id, "Not configured."@),
        Task::Control(Control::Finish),
    );
}

/// The command for the room of a chat makes the room of the chat that is named, where the chat has
/// none. Where it has one, it says which; where no chat is named, it says how to use it.
pub proof fn law_room_is_made_on_command(
    room_id: Seq<char>,
    arguments: Seq<char>,
    caches: Caches,
    host: Host,
    steps: nat,
)
    requires
        steps >= 8,
        answers(host, is_set_up(), Reply::Got(Value::Flag(true))),
    ensures
        ({
            let done = start(
                Task::Control(Control::Room { room_id, arguments }),
                caches,
                host,
                steps,
            );
            let tested = performed(host, is_set_up());
            match read_unsigned(arguments, 0xffff_ffff) {
                Ok(n) => {
                    let chat_id = n as u32;
                    let sought = performed(tested, seeking_room(chat_id));
                    match room_of(host, chat_id) {
                        Some(existing) => is_answered(
                            done,
                            caches,
                            sought,
                            room_id,
                            "Chat is already a room: "@ + existing,
                        ),
                        None => settles(
                            done,
                            start(
                                Task::ChatRoom(ChatRoom::Start { chat_id }),
                                caches,
                                sought,
                                (steps - 3) as nat,
                            ),
                        ),
                    }
                },
                Err(_) => is_answered(done, caches, tested, room_id, "room <chat_id>"@),
            }
        }),
{
    let task: TaskModel = Task::Control(Control::Room { room_id, arguments });
    let done = start(task, caches, host, steps);
    let tested = performed(host, is_set_up());
    let stage: TaskModel = Task::Control(Control::RoomTested { room_id, arguments });
    let yes: ReplyModel = Reply::Got(Value::Flag(true));
    lemma_ask(task, Reply::Start, caches, host, steps, is_set_up(), stage);
    let n1 = (steps - 1) as nat;
    let n2 = (steps - 2) as nat;
    let n3 = (steps - 3) as nat;
    let finish: TaskModel = Task::Control(Control::Finish);
    let settle: TaskModel = Task::Control(Control::Settle);
    match read_unsigned(arguments, 0xffff_ffff) {
        Ok(n) => {
            let chat_id = n as u32;
            let sought = performed(tested, seeking_room(chat_id));
            law_room_of_chat(chat_id, caches, tested, n2);
            let room = room_of(host, chat_id);
            let known: TaskModel = Task::Control(Control::RoomKnown { room_id, chat_id });
            let reply: ReplyModel = Reply::Got(Value::MaybeText(room));
            assert(done == run(known, reply, caches, sought, n2));
            match room {
                Some(existing) => {
                    let line = saying(
                        Actor::Main,
                        room_id,
                        "Chat is already a room: "@ + existing,
                    );
                    lemma_ask(known, reply, caches, sought, n2, line, finish);
                },
                None => {
                    let made = start(
                        Task::ChatRoom(ChatRoom::Start { chat_id }),
                        caches,
                        sought,
                        n3,
                    );
                    match made.end {
                        End::Return(value) => {
                            assert(done == run(
                                settle,
                                Reply::Got(value),
                                made.caches,
                                made.host,
                                n3,
                            ));
                        },
                        End::Raise(error) => {
                            assert(done == run(
                                settle,
                                Reply::Failed(error),
                                made.caches,
                                made.host,
                                n3,
                            ));
                        },
                        _ => {},
                    }
                },
            }
        },
        Err(_) => {
            let line = saying(Actor::Main, room_id, "room <chat_id>"@);
            lemma_ask(stage, yes, caches, tested, n1, line, finish);
        },
    }
}

/// The question whether a text may be an address.
pub open spec fn testing_addr(addr: Seq<char>) -> RequestModel {
    Request::Delta(DeltaRequest::MayBeValidAddr { addr })
}

/// The request for a contact with a name and an address.
pub open spec fn adding_contact(name: Seq<char>, addr: Seq<char>) -> RequestModel {
    Request::Delta(DeltaRequest::CreateContact { name, addr })
}

/// The request for a chat with a contact.
pub open spec fn opening_chat(contact: u32) -> RequestModel {
    Request::Delta(DeltaRequest::CreateChat { contact })
}

/// The request for a topic.
pub open spec fn setting_topic(room: Seq<char>, topic: Seq<char>) -> RequestModel {
    Request::Matrix(MatrixRequest::SendTopic { room, topic })
}

/// The name of a contact that a conversation is with: the second word, if there is one.
pub open spec fn name_among(words: Seq<Seq<char>>) -> Seq<char> {
    if words.len() > 1 {
        words[1]
    } else {
        ""@
    }
}

/// What is asked for up to the chat of a conversation: whether the first word may be an address, a
/// contact with that address and the second word as its name, and a chat with that contact.
pub open spec fn conversing(host: Host, words: Seq<Seq<char>>, contact: u32) -> Host {
    performed(
        performed(
            performed(host, testing_addr(words[0])),
            adding_contact(name_among(words), words[0]),
        ),
        opening_chat(contact),
    )
}

/// The command for a conversation makes a contact and a chat with it, and then the room of that
/// chat. Where a third word is given, it becomes the topic of the room, if the bridge is in it.
pub proof fn law_conversation_is_begun(
    room_id: Seq<char>,
    arguments: Seq<char>,
    words: Seq<Seq<char>>,
    contact: u32,
    chat_id: u32,
    joined: bool,
    made_id: Seq<char>,
    caches: Caches,
    host: Host,
    steps: nat,
)
    requires
        steps >= 8,
        shell_words_of(arguments) == Some(words),
        words.len() >= 1,
        answers(host, testing_addr(words[0]), Reply::Got(Value::Flag(true))),
        answers(
            host,
            adding_contact(name_among(words), words[0]),
            Reply::Got(Value::Number(contact)),
        ),
        answers(host, opening_chat(contact), Reply::Got(Value::Number(chat_id))),
        start(
            Task::ChatRoom(ChatRoom::Start { chat_id }),
            caches,
            conversing(host, words, contact),
            (steps - 4) as nat,
        ).end == End::Return(Value::Text(made_id)),
        (host.others)(
            start(
                Task::ChatRoom(ChatRoom::Start { chat_id }),
                caches,
                conversing(host, words, contact),
                (steps - 4) as nat,
            ).host.asked,
            is_in(Actor::Main, made_id),
        ) == ReplyModel::Got(Value::Flag(joined)),
        start(
            Task::ChatRoom(ChatRoom::Start { chat_id }),
            caches,
            conversing(host, words, contact),
            (steps - 4) as nat,
        ).host.others == host.others,
    ensures
        ({
            let done = start(
                Task::Control(Control::Message { room_id, arguments }),
                caches,
                host,
                steps,
            );
            let made = start(
                Task::ChatRoom(ChatRoom::Start { chat_id }),
                caches,
                conversing(host, words, contact),
                (steps - 4) as nat,
            );
            let tried = performed(made.host, is_in(Actor::Main, made_id));
            if words.len() <= 2 {
                done == (Run { end: End::Return(Value::Unit), ..made })
            } else if !joined {
                done == (Run { end: End::Return(Value::Unit), host: tried, ..made })
            } else {
                let topic = setting_topic(made_id, words[2]);
                &&& done.caches == made.caches
                &&& done.host == performed(tried, topic)
                &&& match reply_to(tried, topic) {
                    Reply::Got(_) => done.end == End::Return(Value::Unit),
                    Reply::Failed(error) => done.end == End::Raise(error),
                    _ => true,
                }
            }
        }),
{
    let task: TaskModel = Task::Control(Control::Message { room_id, arguments });
    let done = start(task, caches, host, steps);
    let r1 = testing_addr(words[0]);
    let r2 = adding_contact(name_among(words), words[0]);
    let r3 = opening_chat(contact);
    let h1 = performed(host, r1);
    let h2 = performed(h1, r2);
    let h3 = performed(h2, r3);
    let t1: TaskModel = Task::Control(Control::AddrTested { room_id, words });
    let t2: TaskModel = Task::Control(Control::Contacted { words });
    let t3: TaskModel = Task::Control(Control::Chatted { words });
    let n1 = (steps - 1) as nat;
    let n2 = (steps - 2) as nat;
    let n3 = (steps - 3) as nat;
    let n4 = (steps - 4) as nat;
    lemma_ask(task, Reply::Start, caches, host, steps, r1, t1);
    lemma_ask(t1, Reply::Got(Value::Flag(true)), caches, h1, n1, r2, t2);
    lemma_ask(t2, Reply::Got(Value::Number(contact)), caches, h2, n2, r3, t3);
    assert(done == run(t3, Reply::Got(Value::Number(chat_id)), caches, h3, n3));
    let made = start(Task::ChatRoom(ChatRoom::Start { chat_id }), caches, h3, n4);
    let subject = if words.len() > 2 {
        Some(words[2])
    } else {
        None
    };
    let t4: TaskModel = Task::Control(Control::RoomMade { subject });
    let reply4: ReplyModel = Reply::Got(Value::Text(made_id));
    assert(done == run(t4, reply4, made.caches, made.host, n4));
    if words.len() > 2 {
        let asking = is_in(Actor::Main, made_id);
        let t5: TaskModel = Task::Control(Control::RoomTried { made_id, subject: words[2] });
        lemma_ask(t4, reply4, made.caches, made.host, n4, asking, t5);
        let tried = performed(made.host, asking);
        let n5 = (steps - 5) as nat;
        let flag: ReplyModel = Reply::Got(Value::Flag(joined));
        assert(done == run(t5, flag, made.caches, tried, n5));
        if joined {
            lemma_ask(
                t5,
                flag,
                made.caches,
                tried,
                n5,
                setting_topic(made_id, words[2]),
                Task::Control(Control::Finish),
            );
        }
    }
}

/// The command for a conversation that names no address, or one that cannot be one, is answered
/// with how to use it, and makes nothing.
pub proof fn law_conversation_needs_an_address(
    room_id: Seq<char>,
    arguments: Seq<char>,
    words: Seq<Seq<char>>,
    caches: Caches,
    host: Host,
    steps: nat,
)
    requires
        steps >= 4,
        shell_words_of(arguments) == Some(words),
        words.len() > 0 ==> answers(
            host,
            testing_addr(words[0]),
            Reply::Got(Value::Flag(false)),
        ),
    ensures
        is_answered(
            start(Task::Control(Control::Message { room_id, arguments }), caches, host, steps),
            caches,
            if words.len() == 0 {
                host
            } else {
                performed(host, testing_addr(words[0]))
            },
            room_id,
            "Usage: message <email> [full_name] [subject]"@,
        ),
{
    let task: TaskModel = Task::Control(Control::Message { room_id, arguments });
    let line = saying(Actor::Main, room_id, "Usage: message <email> [full_name] [subject]"@);
    let finish: TaskModel = Task::Control(Control::Finish);
    if words.len() == 0 {
        lemma_ask(task, Reply::Start, caches, host, steps, line, finish);
    } else {
        let t1: TaskModel = Task::Control(Control::AddrTested { room_id, words });
        lemma_ask(task, Reply::Start, caches, host, steps, testing_addr(words[0]), t1);
        lemma_ask(
            t1,
            Reply::Got(Value::Flag(false)),
            caches,
            performed(host, testing_addr(words[0])),
            (steps - 1) as nat,
            line,
            finish,
        );
    }
}

/// The storing of one setting.
pub open spec fn keeping(key: Setting, value: Option<Seq<char>>) -> RequestModel {
    Request::Delta(DeltaRequest::SetSetting { key, value })
}

/// A word, if there are so many.
pub open spec fn word_if_any(words: Seq<Seq<char>>, k: int) -> Option<Seq<char>> {
    if k < words.len() {
        Some(words[k])
    } else {
        None
    }
}

/// What an e-mail account is set up with: the address, the password and the name, in the order in
/// which they are given; the user and the two hosts, as far as they are given; no encryption, all
/// mails, and a copy to oneself.
pub proof fn law_account_gets_the_words_of_the_command(words: Seq<Seq<char>>)
    requires
        words.len() >= 3,
    ensures
        storing(words, 0) == keeping(Setting::Addr, Some(words[0])),
        storing(words, 1) == keeping(Setting::MailPw, Some(words[1])),
        storing(words, 2) == keeping(Setting::Displayname, Some(words[2])),
        storing(words, 3) == keeping(Setting::MailUser, word_if_any(words, 3)),
        storing(words, 4) == keeping(Setting::MailServer, word_if_any(words, 4)),
        storing(words, 5) == keeping(Setting::SendServer, word_if_any(words, 5)),
        storing(words, 6) == keeping(Setting::E2eeEnabled, Some("0"@)),
        storing(words, 7) == keeping(Setting::ShowEmails, Some("2"@)),
        storing(words, 8) == keeping(Setting::BccSelf, Some("1"@)),
{
}

/// The command that sets up the account is answered with how to use it where it has fewer than
/// three words, and nothing is stored.
pub proof fn law_account_needs_three_words(
    room_id: Seq<char>,
    event_id: Seq<char>,
    arguments: Seq<char>,
    words: Seq<Seq<char>>,
    caches: Caches,
    host: Host,
    steps: nat,
)
    requires
        steps >= 6,
        shell_words_of(arguments) == Some(words),
        words.len() < 3,
        is_settled(reply_to(host, taking_back_of(room_id, event_id))),
        answers(host, is_set_up(), Reply::Got(Value::Flag(false))),
    ensures
        is_answered(
            start(
                Task::Setup(Setup::Start { room_id, event_id, arguments }),
                caches,
                host,
                steps,
            ),
            caches,
            performed(taken_back(host, room_id, event_id), is_set_up()),
            room_id,
            "Usage: configure <email> <password> <displayname> [login_user] [imap_host] [smtp_host]"@,
        ),
{
    let left = lemma_taken_back(room_id, event_id, arguments, caches, host, steps);
    let line = saying(
        Actor::Main,
        room_id,
        "Usage: configure <email> <password> <displayname> [login_user] [imap_host] [smtp_host]"@,
    );
    lemma_ask(
        Task::Setup(Setup::Tested { room_id, arguments }),
        Reply::Got(Value::Flag(false)),
        caches,
        performed(taken_back(host, room_id, event_id), is_set_up()),
        left,
        line,
        Task::Setup(Setup::Finish),
    );
}

/// The request that takes a message back.
pub open spec fn taking_back_of(room: Seq<char>, event: Seq<char>) -> RequestModel {
    Request::Matrix(MatrixRequest::Redact { room, event })
}

/// Where the core cannot work with the settings of an account, the reason is said in the room, and
/// the core is not started.
pub proof fn law_account_that_does_not_work_is_not_started(
    room_id: Seq<char>,
    error: Seq<char>,
    caches: Caches,
    host: Host,
    steps: nat,
)
    requires
        steps >= 3,
        answers(host, Request::Delta(DeltaRequest::Configure), Reply::Failed(error)),
    ensures
        is_answered(
            run(
                Task::Setup(Setup::Announced { room_id }),
                Reply::Got(Value::Unit),
                caches,
                host,
                steps,
            ),
            caches,
            performed(host, Request::Delta(DeltaRequest::Configure)),
            room_id,
            "Error: "@ + error,
        ),
{
    let trying: RequestModel = Request::Delta(DeltaRequest::Configure);
    let done: TaskModel = Task::Setup(Setup::Done { room_id });
    let unit: ReplyModel = Reply::Got(Value::Unit);
    lemma_ask(
        Task::Setup(Setup::Announced { room_id }),
        unit,
        caches,
        host,
        steps,
        trying,
        done,
    );
    lemma_ask(
        done,
        Reply::Failed(error),
        caches,
        performed(host, trying),
        (steps - 1) as nat,
        saying(Actor::Main, room_id, "Error: "@ + error),
        Task::Setup(Setup::Finish),
    );
}

}
