//! What the command line keeps and changes.
use vstd::prelude::*;

use crate::appservice::Caches;
use crate::cmdline::{command_next, with_chat, CmdStep, CmdStepModel, Cmdline, CmdlineModel};
use crate::cmdline::commands::{chat_id_after, command, HELP, HELP_IMEX};
use crate::protocol::{
    ChatInfo, DeltaRequest, Reply, ReplyModel, Request, RequestModel, Step, Value,
};
use crate::run::{lemma_ask, performed, reply_to, run, start, End, Host, Run};
use crate::task::{lemma_cmdline, Task, TaskModel};
use crate::text::{after_first_word, first_word};

verus! {

broadcast use lemma_cmdline;

/// The task of a command line.
pub open spec fn line_task(line: Seq<char>, chat_id: u32) -> TaskModel {
    Task::Cmdline { chat_id, stage: Cmdline::Start { line } }
}

/// Whether a command is under way, past the choice of the chat.
pub open spec fn under_way(s: CmdlineModel) -> bool {
    !(s is Start) && !(s is Selected)
}

/// Whether what follows a step of a command is under way.
pub open spec fn stays_under_way(s: CmdStepModel) -> bool {
    match s {
        CmdStep::Ask { after, .. } => under_way(after),
        CmdStep::Call { after, .. } => under_way(after),
        _ => true,
    }
}

proof fn lemma_command_stays_under_way(line: Seq<char>, chat: Option<ChatInfo>)
    ensures
        stays_under_way(command(line, chat)),
{
    reveal(command);
}

proof fn lemma_command_next_stays_under_way(s: CmdlineModel, reply: ReplyModel)
    ensures
        stays_under_way(command_next(s, reply)),
{
    reveal(command_next);
}

/// The chat that is selected when a command line ends.
pub open spec fn selects(end: End, chat_id: u32) -> bool {
    match end {
        End::Return(value) => match value {
            Value::Said { chat_id: selected, .. } => selected == chat_id,
            _ => false,
        },
        End::Raise(_) => false,
        _ => true,
    }
}

proof fn lemma_selection_is_kept(
    chat_id: u32,
    s: CmdlineModel,
    reply: ReplyModel,
    caches: Caches,
    host: Host,
    steps: nat,
)
    requires
        under_way(s),
    ensures
        selects(run(Task::Cmdline { chat_id, stage: s }, reply, caches, host, steps).end, chat_id),
    decreases steps, 1nat,
{
    if steps > 0 {
        lemma_command_next_stays_under_way(s, reply);
        lemma_step_keeps_selection(chat_id, command_next(s, reply), caches, host, steps);
    }
}

/// What becomes of a step of a command.
proof fn lemma_step_keeps_selection(
    chat_id: u32,
    s: CmdStepModel,
    caches: Caches,
    host: Host,
    steps: nat,
)
    requires
        steps > 0,
        stays_under_way(s),
    ensures
        match with_chat(chat_id, s) {
            Step::Perform(request, task) => selects(
                run(
                    task,
                    reply_to(host, request),
                    caches,
                    performed(host, request),
                    (steps - 1) as nat,
                ).end,
                chat_id,
            ),
            Step::Call(callee, task) => {
                let called = run(callee, Reply::Start, caches, host, (steps - 1) as nat);
                match called.end {
                    End::Return(value) => selects(
                        run(
                            task,
                            Reply::Got(value),
                            called.caches,
                            called.host,
                            (steps - 1) as nat,
                        ).end,
                        chat_id,
                    ),
                    End::Raise(error) => selects(
                        run(
                            task,
                            Reply::Failed(error),
                            called.caches,
                            called.host,
                            (steps - 1) as nat,
                        ).end,
                        chat_id,
                    ),
                    _ => true,
                }
            },
            Step::Return(value) => selects(End::Return(value), chat_id),
            Step::Raise(_) => false,
            _ => true,
        },
    decreases steps, 0nat,
{
    let left = (steps - 1) as nat;
    match s {
        CmdStep::Ask { request, after } => {
            lemma_selection_is_kept(
                chat_id,
                after,
                reply_to(host, request),
                caches,
                performed(host, request),
                left,
            );
        },
        CmdStep::Call { callee, after } => {
            let called = run(callee, Reply::Start, caches, host, left);
            match called.end {
                End::Return(value) => {
                    lemma_selection_is_kept(
                        chat_id,
                        after,
                        Reply::Got(value),
                        called.caches,
                        called.host,
                        left,
                    );
                },
                End::Raise(error) => {
                    lemma_selection_is_kept(
                        chat_id,
                        after,
                        Reply::Failed(error),
                        called.caches,
                        called.host,
                        left,
                    );
                },
                _ => {},
            }
        },
        _ => {},
    }
}

/// The request for a chat.
pub open spec fn loading(chat_id: u32) -> RequestModel {
    Request::Delta(DeltaRequest::LoadChat { id: chat_id })
}

/// The chat that is selected when a command line ends: the one that it names, where the command is
/// to show a chat. But where the chat that was selected before cannot be loaded, the line is not
/// obeyed, and that chat stays selected.
pub open spec fn selected_after(line: Seq<char>, chat_id: u32, host: Host) -> u32 {
    if chat_id == 0 || reply_to(host, loading(chat_id)) is Chat {
        chat_id_after(line, chat_id)
    } else {
        chat_id
    }
}

/// Only the command that shows a chat selects another one, and it selects the one that it names,
/// however it ends.
pub proof fn law_only_showing_a_chat_selects_it(
    line: Seq<char>,
    chat_id: u32,
    caches: Caches,
    host: Host,
    steps: nat,
)
    ensures
        selects(
            start(line_task(line, chat_id), caches, host, steps).end,
            selected_after(line, chat_id, host),
        ),
        first_word(line) != "chat"@ ==> selects(
            start(line_task(line, chat_id), caches, host, steps).end,
            chat_id,
        ),
{
    if steps > 0 {
        if chat_id == 0 {
            lemma_command_stays_under_way(line, None);
            lemma_step_keeps_selection(
                chat_id_after(line, chat_id),
                command(line, None),
                caches,
                host,
                steps,
            );
        } else {
            let load = loading(chat_id);
            let left = (steps - 1) as nat;
            let reply = reply_to(host, load);
            let then = performed(host, load);
            lemma_ask(
                line_task(line, chat_id),
                Reply::Start,
                caches,
                host,
                steps,
                load,
                Task::Cmdline { chat_id, stage: Cmdline::Selected { line } },
            );
            if left > 0 {
                if let Reply::Chat(chat) = reply {
                    lemma_command_stays_under_way(line, Some(chat));
                    lemma_step_keeps_selection(
                        chat_id_after(line, chat_id),
                        command(line, Some(chat)),
                        caches,
                        then,
                        left,
                    );
                } else {
                    let s = Cmdline::Selected { line };
                    lemma_command_next_stays_under_way(s, reply);
                    lemma_step_keeps_selection(
                        chat_id,
                        command_next(s, reply),
                        caches,
                        then,
                        left,
                    );
                }
            }
        }
    }
}

/// The commands that work on the selected chat.
pub open spec fn needs_chat(arg0: Seq<char>) -> bool {
    ||| arg0 == "addmember"@
    ||| arg0 == "removemember"@
    ||| arg0 == "groupname"@
    ||| arg0 == "groupimage"@
    ||| arg0 == "chatinfo"@
    ||| arg0 == "getlocations"@
    ||| arg0 == "sendlocations"@
    ||| arg0 == "send"@
    ||| arg0 == "sendempty"@
    ||| arg0 == "sendimage"@
    ||| arg0 == "sendsticker"@
    ||| arg0 == "sendfile"@
    ||| arg0 == "sendhtml"@
    ||| arg0 == "videochat"@
    ||| arg0 == "draft"@
    ||| arg0 == "listmedia"@
}

/// A command that works on the selected chat fails where none is selected, and asks for nothing.
pub proof fn law_no_chat_no_work(line: Seq<char>, caches: Caches, host: Host, steps: nat)
    requires
        steps >= 1,
        needs_chat(first_word(line)),
    ensures
        ({
            let error = if first_word(line) == "addmember"@ {
                "No chat selected"@
            } else {
                "No chat selected."@
            };
            start(line_task(line, 0), caches, host, steps) == (Run {
                end: End::Return(Value::Said { chat_id: 0, said: Err(error) }),
                caches,
                host,
            })
        }),
{
    reveal(command);
    reveal_strlit("chat");
    reveal_strlit("help");
    reveal_strlit("?");
    reveal_strlit("initiate-key-transfer");
    reveal_strlit("get-setupcodebegin");
    reveal_strlit("continue-key-transfer");
    reveal_strlit("has-backup");
    reveal_strlit("import-backup");
    reveal_strlit("import-keys");
    reveal_strlit("export-setup");
    reveal_strlit("poke");
    reveal_strlit("stop");
    reveal_strlit("set");
    reveal_strlit("get");
    reveal_strlit("info");
    reveal_strlit("maybenetwork");
    reveal_strlit("housekeeping");
    reveal_strlit("listchats");
    reveal_strlit("chats");
    reveal_strlit("listarchived");
    reveal_strlit("createchat");
    reveal_strlit("creategroup");
    reveal_strlit("createbroadcast");
    reveal_strlit("createprotected");
    reveal_strlit("addmember");
    reveal_strlit("removemember");
    reveal_strlit("groupname");
    reveal_strlit("groupimage");
    reveal_strlit("chatinfo");
    reveal_strlit("getlocations");
    reveal_strlit("sendlocations");
    reveal_strlit("setlocation");
    reveal_strlit("dellocations");
    reveal_strlit("archive");
    reveal_strlit("unarchive");
    reveal_strlit("unpin");
    reveal_strlit("pin");
    reveal_strlit("mute");
    reveal_strlit("unmute");
    reveal_strlit("protect");
    reveal_strlit("unprotect");
    reveal_strlit("delchat");
    reveal_strlit("accept");
    reveal_strlit("blockchat");
    reveal_strlit("send");
    reveal_strlit("sendempty");
    reveal_strlit("sendimage");
    reveal_strlit("sendsticker");
    reveal_strlit("sendfile");
    reveal_strlit("sendhtml");
    reveal_strlit("sendsyncmsg");
    reveal_strlit("videochat");
    reveal_strlit("listmsgs");
    reveal_strlit("draft");
    reveal_strlit("devicemsg");
    reveal_strlit("listmedia");
    reveal_strlit("msginfo");
    reveal_strlit("download");
    reveal_strlit("listfresh");
    reveal_strlit("forward");
    reveal_strlit("markseen");
    reveal_strlit("delmsg");
    assert("chat"@.len() == 4);
    assert("help"@.len() == 4);
    assert("?"@.len() == 1);
    assert("initiate-key-transfer"@.len() == 21);
    assert("get-setupcodebegin"@.len() == 18);
    assert("continue-key-transfer"@.len() == 21);
    assert("has-backup"@.len() == 10);
    assert("import-backup"@.len() == 13);
    assert("import-keys"@.len() == 11);
    assert("export-setup"@.len() == 12);
    assert("poke"@.len() == 4);
    assert("stop"@.len() == 4);
    assert("set"@.len() == 3);
    assert("get"@.len() == 3);
    assert("info"@.len() == 4);
    assert("maybenetwork"@.len() == 12);
    assert("housekeeping"@.len() == 12);
    assert("listchats"@.len() == 9);
    assert("chats"@.len() == 5);
    assert("listarchived"@.len() == 12);
    assert("createchat"@.len() == 10);
    assert("creategroup"@.len() == 11);
    assert("createbroadcast"@.len() == 15);
    assert("createprotected"@.len() == 15);
    assert("addmember"@.len() == 9);
    assert("removemember"@.len() == 12);
    assert("groupname"@.len() == 9);
    assert("groupimage"@.len() == 10);
    assert("chatinfo"@.len() == 8);
    assert("getlocations"@.len() == 12);
    assert("sendlocations"@.len() == 13);
    assert("setlocation"@.len() == 11);
    assert("dellocations"@.len() == 12);
    assert("archive"@.len() == 7);
    assert("unarchive"@.len() == 9);
    assert("unpin"@.len() == 5);
    assert("pin"@.len() == 3);
    assert("mute"@.len() == 4);
    assert("unmute"@.len() == 6);
    assert("protect"@.len() == 7);
    assert("unprotect"@.len() == 9);
    assert("delchat"@.len() == 7);
    assert("accept"@.len() == 6);
    assert("blockchat"@.len() == 9);
    assert("send"@.len() == 4);
    assert("sendempty"@.len() == 9);
    assert("sendimage"@.len() == 9);
    assert("sendsticker"@.len() == 11);
    assert("sendfile"@.len() == 8);
    assert("sendhtml"@.len() == 8);
    assert("sendsyncmsg"@.len() == 11);
    assert("videochat"@.len() == 9);
    assert("listmsgs"@.len() == 8);
    assert("draft"@.len() == 5);
    assert("devicemsg"@.len() == 9);
    assert("listmedia"@.len() == 9);
    assert("msginfo"@.len() == 7);
    assert("download"@.len() == 8);
    assert("listfresh"@.len() == 9);
    assert("forward"@.len() == 7);
    assert("markseen"@.len() == 8);
    assert("delmsg"@.len() == 6);
    assert("chat"@[0] == 'c');
    assert("help"@[0] == 'h');
    assert("has-backup"@[0] == 'h');
    assert("import-backup"@[0] == 'i');
    assert("import-keys"@[0] == 'i');
    assert("export-setup"@[0] == 'e');
    assert("poke"@[0] == 'p');
    assert("stop"@[1] == 't');
    assert("info"@[0] == 'i');
    assert("maybenetwork"@[0] == 'm');
    assert("housekeeping"@[0] == 'h');
    assert("listchats"@[0] == 'l');
    assert("listchats"@[4] == 'c');
    assert("chats"@[0] == 'c');
    assert("listarchived"@[0] == 'l');
    assert("createchat"@[0] == 'c');
    assert("creategroup"@[0] == 'c');
    assert("addmember"@[0] == 'a');
    assert("removemember"@[0] == 'r');
    assert("groupname"@[0] == 'g');
    assert("groupimage"@[0] == 'g');
    assert("chatinfo"@[0] == 'c');
    assert("getlocations"@[0] == 'g');
    assert("sendlocations"@[0] == 's');
    assert("setlocation"@[2] == 't');
    assert("dellocations"@[0] == 'd');
    assert("unarchive"@[0] == 'u');
    assert("unpin"@[0] == 'u');
    assert("mute"@[0] == 'm');
    assert("unprotect"@[0] == 'u');
    assert("blockchat"@[0] == 'b');
    assert("send"@[0] == 's');
    assert("send"@[1] == 'e');
    assert("sendempty"@[0] == 's');
    assert("sendempty"@[4] == 'e');
    assert("sendimage"@[0] == 's');
    assert("sendimage"@[4] == 'i');
    assert("sendsticker"@[0] == 's');
    assert("sendsticker"@[2] == 'n');
    assert("sendsticker"@[5] == 't');
    assert("sendfile"@[0] == 's');
    assert("sendfile"@[4] == 'f');
    assert("sendhtml"@[0] == 's');
    assert("sendhtml"@[4] == 'h');
    assert("sendsyncmsg"@[5] == 'y');
    assert("videochat"@[0] == 'v');
    assert("listmsgs"@[0] == 'l');
    assert("draft"@[0] == 'd');
    assert("devicemsg"@[0] == 'd');
    assert("listmedia"@[0] == 'l');
    assert("listmedia"@[4] == 'm');
    assert("download"@[0] == 'd');
    assert("listfresh"@[0] == 'l');
    assert("listfresh"@[4] == 'f');
    assert("markseen"@[0] == 'm');
}

/// Asking for help says what the command line can do, and asks for nothing.
pub proof fn law_help_asks_for_nothing(line: Seq<char>, caches: Caches, host: Host, steps: nat)
    requires
        steps >= 1,
        first_word(line) == "help"@ || first_word(line) == "?"@,
    ensures
        ({
            let text = if first_word(after_first_word(line)) == "imex"@ {
                HELP_IMEX@
            } else {
                HELP@
            };
            start(line_task(line, 0), caches, host, steps) == (Run {
                end: End::Return(Value::Said { chat_id: 0, said: Ok(text) }),
                caches,
                host,
            })
        }),
{
    reveal(command);
    reveal_strlit("imex");
    reveal_strlit("help");
    reveal_strlit("?");
    reveal_strlit("chat");
    assert("help"@[0] == 'h');
    assert("chat"@[0] == 'c');
}

/// The empty command says nothing and asks for nothing.
pub proof fn law_empty_command_does_nothing(caches: Caches, host: Host, steps: nat)
    requires
        steps >= 1,
    ensures
        start(line_task(seq![], 0), caches, host, steps) == (Run {
            end: End::Return(Value::Said { chat_id: 0, said: Ok(""@) }),
            caches,
            host,
        }),
{
    reveal(command);
    let line: Seq<char> = seq![];
    line.index_of_first_ensures(' ');
    reveal_strlit("");
    reveal_strlit("help");
    reveal_strlit("?");
    reveal_strlit("initiate-key-transfer");
    reveal_strlit("get-setupcodebegin");
    reveal_strlit("continue-key-transfer");
    reveal_strlit("has-backup");
    reveal_strlit("import-backup");
    reveal_strlit("import-keys");
    reveal_strlit("export-setup");
    reveal_strlit("poke");
    reveal_strlit("stop");
    reveal_strlit("set");
    reveal_strlit("get");
    reveal_strlit("info");
    reveal_strlit("maybenetwork");
    reveal_strlit("housekeeping");
    reveal_strlit("listchats");
    reveal_strlit("chats");
    reveal_strlit("listarchived");
    reveal_strlit("createchat");
    reveal_strlit("creategroup");
    reveal_strlit("createbroadcast");
    reveal_strlit("createprotected");
    reveal_strlit("addmember");
    reveal_strlit("removemember");
    reveal_strlit("groupname");
    reveal_strlit("groupimage");
    reveal_strlit("chatinfo");
    reveal_strlit("getlocations");
    reveal_strlit("sendlocations");
    reveal_strlit("setlocation");
    reveal_strlit("dellocations");
    reveal_strlit("archive");
    reveal_strlit("unarchive");
    reveal_strlit("unpin");
    reveal_strlit("pin");
    reveal_strlit("mute");
    reveal_strlit("unmute");
    reveal_strlit("protect");
    reveal_strlit("unprotect");
    reveal_strlit("delchat");
    reveal_strlit("accept");
    reveal_strlit("blockchat");
    reveal_strlit("send");
    reveal_strlit("sendempty");
    reveal_strlit("sendimage");
    reveal_strlit("sendsticker");
    reveal_strlit("sendfile");
    reveal_strlit("sendhtml");
    reveal_strlit("sendsyncmsg");
    reveal_strlit("videochat");
    reveal_strlit("listmsgs");
    reveal_strlit("draft");
    reveal_strlit("devicemsg");
    reveal_strlit("listmedia");
    reveal_strlit("msginfo");
    reveal_strlit("download");
    reveal_strlit("listfresh");
    reveal_strlit("forward");
    reveal_strlit("markseen");
    reveal_strlit("delmsg");
    reveal_strlit("chat");
    reveal_strlit("listcontacts");
    reveal_strlit("contacts");
    reveal_strlit("listverified");
    reveal_strlit("addcontact");
    reveal_strlit("contactinfo");
    reveal_strlit("delcontact");
    reveal_strlit("block");
    reveal_strlit("unblock");
    reveal_strlit("listblocked");
    reveal_strlit("checkqr");
    reveal_strlit("setqr");
    reveal_strlit("providerinfo");
    reveal_strlit("fileinfo");
    reveal_strlit("estimatedeletion");
}

}
