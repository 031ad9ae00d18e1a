//! What the commands on the account do.
use vstd::prelude::*;

use crate::cmdline::{command_next, CmdStepModel, Cmdline};
use crate::cmdline::commands::{command, number, HELP, HELP_IMEX};
use crate::laws::orders::{
    lemma_answered, lemma_asked, lemma_framed, lemma_quiet, lemma_refused, Order,
};
use crate::laws::words::lemma_marks;
use crate::protocol::{ChatInfo, DeltaRequest, Reply, Request, RequestModel, Value};
use crate::run::{performed, reply_to, run};
use crate::task::{lemma_cmdline, Task, TaskModel};

verus! {

broadcast use lemma_cmdline;

impl Order {
    /// It asks for a setting, and for nothing else, and shows it.
    pub open spec fn shows_setting(self, key: Seq<char>) -> bool {
        let request = DeltaRequest::GetConfig { key };
        &&& self.asks_only(request)
        &&& match self.hears(request) {
            Reply::Shown { key, value } => self.says(key@ + "="@ + value@),
            Reply::Failed(error) => self.fails(error),
            _ => true,
        }
    }

    /// It asks for the transfer of the keys, and for nothing else, and says the code.
    pub open spec fn transfers_keys(self) -> bool {
        let request = DeltaRequest::InitiateKeyTransfer;
        &&& self.asks_only(request)
        &&& match self.hears(request) {
            Reply::Got(Value::Text(code)) => self.says(
                "Setup code for the transferred setup message: "@ + code,
            ),
            Reply::Failed(error) => self.fails("Failed to generate setup code: "@ + error),
            _ => true,
        }
    }

    /// It asks for the housekeeping, and for nothing else, and never says anything of it.
    pub open spec fn keeps_house(self) -> bool {
        let request = DeltaRequest::Housekeeping;
        &&& self.asks_only(request)
        &&& match self.hears(request) {
            Reply::Got(_) => self.says(""@),
            Reply::Failed(_) => self.says(""@),
            _ => true,
        }
    }

    /// It shows how the code of a setup message begins.
    pub open spec fn shows_setup_code(self, id: u32) -> bool {
        let one = DeltaRequest::LoadSetupMessage { id };
        let two = DeltaRequest::SetupCodeBegin { id };
        let first = performed(self.before(), Request::Delta(one));
        match self.hears(one) {
            Reply::SetupMessage { label, is_setup: true } => {
                &&& self.asks_both(one, two)
                &&& match reply_to(first, Request::Delta(two)) {
                    Reply::Got(Value::MaybeText(Some(begin))) => self.says(
                        "The setup code for setup message "@ + label@ + " starts with: "@ + begin,
                    ),
                    Reply::Failed(error) => self.fails(error),
                    _ => true,
                }
            },
            Reply::SetupMessage { label, is_setup: false } => {
                self.asks_only(one) && self.fails(label@ + " is no setup message."@)
            },
            Reply::Failed(error) => self.asks_only(one) && self.fails(error),
            _ => true,
        }
    }

    /// It exports the setup under a new code.
    pub open spec fn exports_setup(self) -> bool {
        let one = DeltaRequest::CreateSetupCode;
        let first = performed(self.before(), Request::Delta(one));
        match self.hears(one) {
            Reply::Got(Value::Text(code)) => {
                let two: RequestModel = Request::Delta(DeltaRequest::RenderSetupFile { code });
                let second = performed(first, two);
                match reply_to(first, two) {
                    Reply::Got(Value::Text(content)) => {
                        let three: RequestModel = Request::Delta(
                            DeltaRequest::WriteBlob {
                                name: "autocrypt-setup-message.html"@,
                                content,
                            },
                        );
                        &&& self.done().host == performed(second, three)
                        &&& match reply_to(second, three) {
                            Reply::Got(Value::Text(path)) => self.says(
                                "Setup message written to: "@ + path + "\nSetup code: "@ + code,
                            ),
                            Reply::Failed(error) => self.fails(error),
                            _ => true,
                        }
                    },
                    Reply::Failed(error) => self.done().host == second && self.fails(error),
                    _ => true,
                }
            },
            Reply::Failed(error) => self.asks_only(one) && self.fails(error),
            _ => true,
        }
    }
}

proof fn lemma_setting_shown(o: Order, chat: Option<ChatInfo>)
    requires
        o.steps >= 3,
        o.has_selected(chat),
        o.verb() != "chat"@,
        command(o.line, chat) == (CmdStepModel::Ask {
            request: Request::Delta(DeltaRequest::GetConfig { key: o.arg1() }),
            after: Cmdline::ConfigShown,
        }),
    ensures
        o.shows_setting(o.arg1()),
{
    lemma_asked(o, chat, DeltaRequest::GetConfig { key: o.arg1() }, Cmdline::ConfigShown);
    reveal(command_next);
}

proof fn lemma_keys_transferred(o: Order, chat: Option<ChatInfo>)
    requires
        o.steps >= 3,
        o.has_selected(chat),
        o.verb() != "chat"@,
        command(o.line, chat) == (CmdStepModel::Ask {
            request: Request::Delta(DeltaRequest::InitiateKeyTransfer),
            after: Cmdline::KeyTransfer,
        }),
    ensures
        o.transfers_keys(),
{
    lemma_asked(o, chat, DeltaRequest::InitiateKeyTransfer, Cmdline::KeyTransfer);
    reveal(command_next);
}

proof fn lemma_house_kept(o: Order, chat: Option<ChatInfo>)
    requires
        o.steps >= 3,
        o.has_selected(chat),
        o.verb() != "chat"@,
        command(o.line, chat) == (CmdStepModel::Ask {
            request: Request::Delta(DeltaRequest::Housekeeping),
            after: Cmdline::Deaf,
        }),
    ensures
        o.keeps_house(),
{
    lemma_asked(o, chat, DeltaRequest::Housekeeping, Cmdline::Deaf);
    reveal(command_next);
}

proof fn lemma_setup_code(o: Order, chat: Option<ChatInfo>, id: u32)
    requires
        o.steps >= 4,
        o.has_selected(chat),
        o.verb() != "chat"@,
        command(o.line, chat) == (CmdStepModel::Ask {
            request: Request::Delta(DeltaRequest::LoadSetupMessage { id }),
            after: Cmdline::SetupLoaded { msg_id: id },
        }),
    ensures
        o.shows_setup_code(id),
{
    let one = DeltaRequest::LoadSetupMessage { id };
    lemma_asked(o, chat, one, Cmdline::SetupLoaded { msg_id: id });
    reveal(command_next);
    let first = performed(o.before(), Request::Delta(one));
    if let Reply::SetupMessage { label, is_setup } = o.hears(one) {
        if is_setup {
            let two: RequestModel = Request::Delta(DeltaRequest::SetupCodeBegin { id });
            let last: TaskModel = Task::Cmdline {
                chat_id: o.chat_id,
                stage: Cmdline::SetupBegin { label: label@ },
            };
            assert(o.done() == run(
                last,
                reply_to(first, two),
                o.caches,
                performed(first, two),
                (o.left() - 1) as nat,
            ));
        }
    }
}

proof fn lemma_setup_exported(o: Order, chat: Option<ChatInfo>)
    requires
        o.steps >= 5,
        o.has_selected(chat),
        o.verb() != "chat"@,
        command(o.line, chat) == (CmdStepModel::Ask {
            request: Request::Delta(DeltaRequest::CreateSetupCode),
            after: Cmdline::SetupCode,
        }),
    ensures
        o.exports_setup(),
{
    let one = DeltaRequest::CreateSetupCode;
    lemma_asked(o, chat, one, Cmdline::SetupCode);
    reveal(command_next);
    let first = performed(o.before(), Request::Delta(one));
    if let Reply::Got(Value::Text(code)) = o.hears(one) {
        let two: RequestModel = Request::Delta(DeltaRequest::RenderSetupFile { code });
        let second = performed(first, two);
        let rendered: TaskModel = Task::Cmdline {
            chat_id: o.chat_id,
            stage: Cmdline::SetupRendered { code },
        };
        assert(o.done() == run(
            rendered,
            reply_to(first, two),
            o.caches,
            second,
            (o.left() - 1) as nat,
        ));
        if let Reply::Got(Value::Text(content)) = reply_to(first, two) {
            let three: RequestModel = Request::Delta(
                DeltaRequest::WriteBlob { name: "autocrypt-setup-message.html"@, content },
            );
            let written: TaskModel = Task::Cmdline {
                chat_id: o.chat_id,
                stage: Cmdline::SetupWritten { code },
            };
            assert(o.done() == run(
                written,
                reply_to(second, three),
                o.caches,
                performed(second, three),
                (o.left() - 2) as nat,
            ));
        }
    }
}

proof fn lemma_account_is_looked_after(o: Order, chat: Option<ChatInfo>)
    ensures
        (o.verb() == "set"@) ==> o.verb() != "chat"@ && ({
            if o.arg1().len() == 0 {
                command(o.line, chat) == (CmdStepModel::Fail { error: "Argument <key> missing."@ })
            } else {
                if o.arg2().len() == 0 {
                    command(o.line, chat) == (CmdStepModel::Ask {
                        request: Request::Delta(DeltaRequest::SetConfig {
                            key: o.arg1(),
                            value: None,
                        }),
                        after: Cmdline::Quiet,
                    })
                } else {
                    command(o.line, chat) == (CmdStepModel::Ask {
                        request: Request::Delta(DeltaRequest::SetConfig {
                            key: o.arg1(),
                            value: Some(o.arg2()),
                        }),
                        after: Cmdline::Quiet,
                    })
                }
            }
        }),
        (o.verb() == "get"@) ==> o.verb() != "chat"@ && ({
            if o.arg1().len() == 0 {
                command(o.line, chat) == (CmdStepModel::Fail { error: "Argument <key> missing."@ })
            } else {
                command(o.line, chat) == (CmdStepModel::Ask {
                    request: Request::Delta(DeltaRequest::GetConfig { key: o.arg1() }),
                    after: Cmdline::ConfigShown,
                })
            }
        }),
        (o.verb() == "has-backup"@) ==> o.verb() != "chat"@ && ({
            command(o.line, chat) == (CmdStepModel::Ask {
                request: Request::Delta(DeltaRequest::HasBackup),
                after: Cmdline::Quiet,
            })
        }),
        (o.verb() == "import-backup"@) ==> o.verb() != "chat"@ && ({
            if o.arg1().len() == 0 {
                command(o.line, chat) == (CmdStepModel::Fail {
                    error: "Argument <backup-file> missing."@,
                })
            } else {
                command(o.line, chat) == (CmdStepModel::Ask {
                    request: Request::Delta(DeltaRequest::ImportBackup { file: o.arg1() }),
                    after: Cmdline::Quiet,
                })
            }
        }),
        (o.verb() == "import-keys"@) ==> o.verb() != "chat"@ && ({
            command(o.line, chat) == (CmdStepModel::Ask {
                request: Request::Delta(DeltaRequest::ImportKeys { file: o.arg1() }),
                after: Cmdline::Quiet,
            })
        }),
        (o.verb() == "continue-key-transfer"@) ==> o.verb() != "chat"@ && ({
            if o.arg1().len() == 0 || o.arg2().len() == 0 {
                command(o.line, chat) == (CmdStepModel::Fail {
                    error: "Arguments <msg-id> <setup-code> expected"@,
                })
            } else {
                match number(o.arg1()) {
                    Ok(n) => {
                        command(o.line, chat) == (CmdStepModel::Ask {
                            request: Request::Delta(DeltaRequest::ContinueKeyTransfer {
                                id: n,
                                code: o.arg2(),
                            }),
                            after: Cmdline::Quiet,
                        })
                    },
                    Err(error) => {
                        command(o.line, chat) == (CmdStepModel::Fail { error: error })
                    },
                }
            }
        }),
        (o.verb() == "initiate-key-transfer"@) ==> o.verb() != "chat"@ && ({
            command(o.line, chat) == (CmdStepModel::Ask {
                request: Request::Delta(DeltaRequest::InitiateKeyTransfer),
                after: Cmdline::KeyTransfer,
            })
        }),
        (o.verb() == "stop"@) ==> o.verb() != "chat"@ && ({
            command(o.line, chat) == (CmdStepModel::Ask {
                request: Request::Delta(DeltaRequest::StopOngoing),
                after: Cmdline::Quiet,
            })
        }),
        (o.verb() == "info"@) ==> o.verb() != "chat"@ && ({
            command(o.line, chat) == (CmdStepModel::Ask {
                request: Request::Delta(DeltaRequest::Info),
                after: Cmdline::Framed { before: ""@, after: ""@ },
            })
        }),
        (o.verb() == "maybenetwork"@) ==> o.verb() != "chat"@ && ({
            command(o.line, chat) == (CmdStepModel::Ask {
                request: Request::Delta(DeltaRequest::MaybeNetwork),
                after: Cmdline::Quiet,
            })
        }),
        (o.verb() == "housekeeping"@) ==> o.verb() != "chat"@ && ({
            command(o.line, chat) == (CmdStepModel::Ask {
                request: Request::Delta(DeltaRequest::Housekeeping),
                after: Cmdline::Deaf,
            })
        }),
{
    reveal(command);
    lemma_marks();
}

/// The commands on the account ask for exactly what they name: a setting is stored, taken back or
/// shown; a backup is looked for or read in; keys are read in; the setup is continued with its
/// code; what goes on is stopped; the network is looked at; the house is kept, of which nothing is
/// ever said.
pub proof fn law_account_is_looked_after(o: Order, chat: Option<ChatInfo>)
    requires
        o.steps >= 3,
        o.has_selected(chat),
    ensures
        (o.verb() == "set"@) ==> ({
            if o.arg1().len() == 0 {
                o.refuses("Argument <key> missing."@)
            } else {
                if o.arg2().len() == 0 {
                    o.quietly(DeltaRequest::SetConfig { key: o.arg1(), value: None })
                } else {
                    o.quietly(DeltaRequest::SetConfig { key: o.arg1(), value: Some(o.arg2()) })
                }
            }
        }),
        (o.verb() == "get"@) ==> ({
            if o.arg1().len() == 0 {
                o.refuses("Argument <key> missing."@)
            } else {
                o.shows_setting(o.arg1())
            }
        }),
        (o.verb() == "has-backup"@) ==> ({
            o.quietly(DeltaRequest::HasBackup)
        }),
        (o.verb() == "import-backup"@) ==> ({
            if o.arg1().len() == 0 {
                o.refuses("Argument <backup-file> missing."@)
            } else {
                o.quietly(DeltaRequest::ImportBackup { file: o.arg1() })
            }
        }),
        (o.verb() == "import-keys"@) ==> ({
            o.quietly(DeltaRequest::ImportKeys { file: o.arg1() })
        }),
        (o.verb() == "continue-key-transfer"@) ==> ({
            if o.arg1().len() == 0 || o.arg2().len() == 0 {
                o.refuses("Arguments <msg-id> <setup-code> expected"@)
            } else {
                match number(o.arg1()) {
                    Ok(n) => {
                        o.quietly(DeltaRequest::ContinueKeyTransfer { id: n, code: o.arg2() })
                    },
                    Err(error) => {
                        o.refuses(error)
                    },
                }
            }
        }),
        (o.verb() == "initiate-key-transfer"@) ==> ({
            o.transfers_keys()
        }),
        (o.verb() == "stop"@) ==> ({
            o.quietly(DeltaRequest::StopOngoing)
        }),
        (o.verb() == "info"@) ==> ({
            o.frames(DeltaRequest::Info, ""@, ""@)
        }),
        (o.verb() == "maybenetwork"@) ==> ({
            o.quietly(DeltaRequest::MaybeNetwork)
        }),
        (o.verb() == "housekeeping"@) ==> ({
            o.keeps_house()
        }),
{
    lemma_account_is_looked_after(o, chat);
    if o.verb() == "set"@ {
        if o.arg1().len() == 0 {
            lemma_refused(o, chat, "Argument <key> missing."@);
        } else {
            if o.arg2().len() == 0 {
                lemma_quiet(o, chat, DeltaRequest::SetConfig { key: o.arg1(), value: None });
            } else {
                lemma_quiet(
                    o,
                    chat,
                    DeltaRequest::SetConfig { key: o.arg1(), value: Some(o.arg2()) },
                );
            }
        }
    }
    if o.verb() == "get"@ {
        if o.arg1().len() == 0 {
            lemma_refused(o, chat, "Argument <key> missing."@);
        } else {
            lemma_setting_shown(o, chat);
        }
    }
    if o.verb() == "has-backup"@ {
        lemma_quiet(o, chat, DeltaRequest::HasBackup);
    }
    if o.verb() == "import-backup"@ {
        if o.arg1().len() == 0 {
            lemma_refused(o, chat, "Argument <backup-file> missing."@);
        } else {
            lemma_quiet(o, chat, DeltaRequest::ImportBackup { file: o.arg1() });
        }
    }
    if o.verb() == "import-keys"@ {
        lemma_quiet(o, chat, DeltaRequest::ImportKeys { file: o.arg1() });
    }
    if o.verb() == "continue-key-transfer"@ {
        if o.arg1().len() == 0 || o.arg2().len() == 0 {
            lemma_refused(o, chat, "Arguments <msg-id> <setup-code> expected"@);
        } else {
            match number(o.arg1()) {
                Ok(n) => {
                    lemma_quiet(
                        o,
                        chat,
                        DeltaRequest::ContinueKeyTransfer { id: n, code: o.arg2() },
                    );
                },
                Err(error) => {
                    lemma_refused(o, chat, error);
                },
            }
        }
    }
    if o.verb() == "initiate-key-transfer"@ {
        lemma_keys_transferred(o, chat);
    }
    if o.verb() == "stop"@ {
        lemma_quiet(o, chat, DeltaRequest::StopOngoing);
    }
    if o.verb() == "info"@ {
        lemma_framed(o, chat, DeltaRequest::Info, ""@, ""@);
    }
    if o.verb() == "maybenetwork"@ {
        lemma_quiet(o, chat, DeltaRequest::MaybeNetwork);
    }
    if o.verb() == "housekeeping"@ {
        lemma_house_kept(o, chat);
    }
}

proof fn lemma_help_is_given(o: Order, chat: Option<ChatInfo>)
    ensures
        (o.verb() == "help"@ || o.verb() == "?"@) ==> o.verb() != "chat"@ && ({
            if o.arg1() == "imex"@ {
                command(o.line, chat) == (CmdStepModel::Say { text: HELP_IMEX@ })
            } else {
                command(o.line, chat) == (CmdStepModel::Say { text: HELP@ })
            }
        }),
{
    reveal(command);
    lemma_marks();
}

/// Asking for help says what the command line can do, or what it can do to import and export,
/// whatever chat is selected.
pub proof fn law_help_is_given(o: Order, chat: Option<ChatInfo>)
    requires
        o.steps >= 3,
        o.has_selected(chat),
    ensures
        (o.verb() == "help"@ || o.verb() == "?"@) ==> ({
            if o.arg1() == "imex"@ {
                o.answers_at_once(HELP_IMEX@)
            } else {
                o.answers_at_once(HELP@)
            }
        }),
{
    lemma_help_is_given(o, chat);
    if o.verb() == "help"@ || o.verb() == "?"@ {
        if o.arg1() == "imex"@ {
            lemma_answered(o, chat, HELP_IMEX@);
        } else {
            lemma_answered(o, chat, HELP@);
        }
    }
}

proof fn lemma_setup_code_begins(o: Order, chat: Option<ChatInfo>)
    ensures
        (o.verb() == "get-setupcodebegin"@) ==> o.verb() != "chat"@ && ({
            if o.arg1().len() == 0 {
                command(o.line, chat) == (CmdStepModel::Fail {
                    error: "Argument <msg-id> missing."@,
                })
            } else {
                match number(o.arg1()) {
                    Ok(n) => {
                        command(o.line, chat) == (CmdStepModel::Ask {
                            request: Request::Delta(DeltaRequest::LoadSetupMessage { id: n }),
                            after: Cmdline::SetupLoaded { msg_id: n },
                        })
                    },
                    Err(error) => {
                        command(o.line, chat) == (CmdStepModel::Fail { error: error })
                    },
                }
            }
        }),
{
    reveal(command);
    lemma_marks();
}

/// The command that shows how a setup code begins does so for the message that is named, if that is
/// a setup message.
pub proof fn law_setup_code_begins(o: Order, chat: Option<ChatInfo>)
    requires
        o.steps >= 4,
        o.has_selected(chat),
    ensures
        (o.verb() == "get-setupcodebegin"@) ==> ({
            if o.arg1().len() == 0 {
                o.refuses("Argument <msg-id> missing."@)
            } else {
                match number(o.arg1()) {
                    Ok(n) => {
                        o.shows_setup_code(n)
                    },
                    Err(error) => {
                        o.refuses(error)
                    },
                }
            }
        }),
{
    lemma_setup_code_begins(o, chat);
    if o.verb() == "get-setupcodebegin"@ {
        if o.arg1().len() == 0 {
            lemma_refused(o, chat, "Argument <msg-id> missing."@);
        } else {
            match number(o.arg1()) {
                Ok(n) => {
                    lemma_setup_code(o, chat, n);
                },
                Err(error) => {
                    lemma_refused(o, chat, error);
                },
            }
        }
    }
}

proof fn lemma_setup_is_exported(o: Order, chat: Option<ChatInfo>)
    ensures
        (o.verb() == "export-setup"@) ==> o.verb() != "chat"@ && ({
            command(o.line, chat) == (CmdStepModel::Ask {
                request: Request::Delta(DeltaRequest::CreateSetupCode),
                after: Cmdline::SetupCode,
            })
        }),
{
    reveal(command);
    lemma_marks();
}

/// The command that exports the setup makes a code, renders a file with it, writes the file, and
/// says where it is and what the code is.
pub proof fn law_setup_is_exported(o: Order, chat: Option<ChatInfo>)
    requires
        o.steps >= 5,
        o.has_selected(chat),
    ensures
        (o.verb() == "export-setup"@) ==> ({
            o.exports_setup()
        }),
{
    lemma_setup_is_exported(o, chat);
    if o.verb() == "export-setup"@ {
        lemma_setup_exported(o, chat);
    }
}

}
