//! What the commands on messages do.
use vstd::prelude::*;

use crate::cmdline::{command_next, CmdStepModel, Cmdline};
use crate::cmdline::commands::{command, number};
use crate::cmdline::messages::Journal;
use crate::laws::orders::{
    lemma_asked, lemma_begun, lemma_framed, lemma_quiet, lemma_refused, lemma_told, Order,
};
use crate::laws::words::lemma_marks;
use crate::numbers::digits;
use crate::protocol::{
    ChatInfo, DeltaRequest, DeltaRequestModel, FileKind, HostRequest, Reply, Request, RequestModel,
    Value,
};
use crate::run::{performed, reply_to, run, start, End, Run};
use crate::task::{lemma_cmdline, Task, TaskModel};
use crate::text::{joined, texts};

verus! {

broadcast use lemma_cmdline;

impl Order {
    /// It asks for a message to the other devices, and for nothing else, and says what came of it.
    pub open spec fn sends_sync(self) -> bool {
        let request = DeltaRequest::SendSyncMessage;
        &&& self.asks_only(request)
        &&& match self.hears(request) {
            Reply::Got(Value::MaybeText(Some(label))) => self.says(
                "sync message sent as "@ + label + "."@,
            ),
            Reply::Got(Value::MaybeText(None)) => self.says("sync message not needed."@),
            Reply::Failed(error) => self.fails(error),
            _ => true,
        }
    }

    /// What becomes of a list of messages that it shows after one request.
    pub open spec fn listing_of(self, request: DeltaRequestModel, task: TaskModel) -> Run {
        start(
            task,
            self.caches,
            performed(self.before(), Request::Delta(request)),
            (self.left() - 1) as nat,
        )
    }

    /// It shows what another task has made of what it asked for, and a text behind it.
    pub open spec fn shows(
        self,
        request: DeltaRequestModel,
        task: TaskModel,
        after: Seq<char>,
    ) -> bool {
        let shown = self.listing_of(request, task);
        match shown.end {
            End::Return(Value::Text(text)) => self.done() == (Run {
                end: End::Return(
                    Value::Said { chat_id: self.chat_id, said: Ok(text + after) },
                ),
                ..shown
            }),
            End::Raise(error) => self.done() == (Run {
                end: End::Return(Value::Said { chat_id: self.chat_id, said: Err(error) }),
                ..shown
            }),
            End::Return(_) => true,
            _ => self.done() == shown,
        }
    }

    /// It asks for messages, shows all that are found, and says how many they are and how long it
    /// took.
    pub open spec fn shows_found(self, request: DeltaRequestModel) -> bool {
        match self.hears(request) {
            Reply::Found { items, elapsed } => self.shows(
                request,
                Task::Journal(Journal::Start { list: items }),
                digits(items@.len()) + " messages.\n"@ + elapsed@ + " to create this list"@,
            ),
            Reply::Failed(error) => self.asks_only(request) && self.fails(error),
            _ => true,
        }
    }

    /// It asks for fresh messages, shows all of them, and says how many they are.
    pub open spec fn shows_fresh(self) -> bool {
        let request = DeltaRequest::FreshMessages;
        match self.hears(request) {
            Reply::Found { items, .. } => self.shows(
                request,
                Task::Journal(Journal::Start { list: items }),
                digits(items@.len()) + " fresh messages."@,
            ),
            Reply::Failed(error) => self.asks_only(request) && self.fails(error),
            _ => true,
        }
    }

    /// It asks for the media of a chat, prints all of them, and says how many they are.
    pub open spec fn shows_media(self, chat: u32) -> bool {
        let request = DeltaRequest::ChatMedia { chat };
        match self.hears(request) {
            Reply::Texts(labels) => {
                let printing: RequestModel = Request::Host(
                    HostRequest::Print { text: joined(texts(labels@), ", "@) },
                );
                let first = performed(self.before(), Request::Delta(request));
                &&& self.done().caches == self.caches
                &&& self.done().host == performed(first, printing)
                &&& match reply_to(first, printing) {
                    Reply::Got(_) => self.says(digits(labels@.len()) + " images or videos: \n"@),
                    Reply::Failed(error) => self.fails(error),
                    _ => true,
                }
            },
            Reply::Failed(error) => self.asks_only(request) && self.fails(error),
            _ => true,
        }
    }
}

proof fn lemma_sync_sent(o: Order, chat: Option<ChatInfo>)
    requires
        o.steps >= 3,
        o.has_selected(chat),
        o.verb() != "chat"@,
        command(o.line, chat) == (CmdStepModel::Ask {
            request: Request::Delta(DeltaRequest::SendSyncMessage),
            after: Cmdline::SyncSent,
        }),
    ensures
        o.sends_sync(),
{
    lemma_asked(o, chat, DeltaRequest::SendSyncMessage, Cmdline::SyncSent);
    reveal(command_next);
}

/// How a command ends that shows a list, once the list is there.
pub proof fn lemma_shown(
    o: Order,
    chat: Option<ChatInfo>,
    request: DeltaRequestModel,
    waiting: Cmdline<Seq<char>>,
    task: TaskModel,
    after: Seq<char>,
)
    requires
        o.steps >= 4,
        o.has_selected(chat),
        o.verb() != "chat"@,
        command(o.line, chat) == (CmdStepModel::Ask {
            request: Request::Delta(request),
            after: waiting,
        }),
        !(waiting is Start),
        !(waiting is Selected),
        command_next(waiting, o.hears(request)) == (CmdStepModel::Call {
            callee: task,
            after: Cmdline::Appended { after },
        }),
    ensures
        o.shows(request, task, after),
{
    lemma_asked(o, chat, request, waiting);
    let shown = o.listing_of(request, task);
    let left = (o.left() - 1) as nat;
    let last: TaskModel = Task::Cmdline {
        chat_id: o.chat_id,
        stage: Cmdline::Appended { after },
    };
    match shown.end {
        End::Return(value) => {
            assert(o.done() == run(last, Reply::Got(value), shown.caches, shown.host, left));
            reveal(command_next);
        },
        End::Raise(error) => {
            assert(o.done() == run(last, Reply::Failed(error), shown.caches, shown.host, left));
            reveal(command_next);
        },
        _ => {},
    }
}

proof fn lemma_found(o: Order, chat: Option<ChatInfo>, request: DeltaRequestModel)
    requires
        o.steps >= 4,
        o.has_selected(chat),
        o.verb() != "chat"@,
        command(o.line, chat) == (CmdStepModel::Ask {
            request: Request::Delta(request),
            after: Cmdline::Searched,
        }),
    ensures
        o.shows_found(request),
{
    lemma_asked(o, chat, request, Cmdline::Searched);
    reveal(command_next);
    if let Reply::Found { items, elapsed } = o.hears(request) {
        lemma_shown(
            o,
            chat,
            request,
            Cmdline::Searched,
            Task::Journal(Journal::Start { list: items }),
            digits(items@.len()) + " messages.\n"@ + elapsed@ + " to create this list"@,
        );
    }
}

proof fn lemma_fresh(o: Order, chat: Option<ChatInfo>)
    requires
        o.steps >= 4,
        o.has_selected(chat),
        o.verb() != "chat"@,
        command(o.line, chat) == (CmdStepModel::Ask {
            request: Request::Delta(DeltaRequest::FreshMessages),
            after: Cmdline::FreshListed,
        }),
    ensures
        o.shows_fresh(),
{
    let request = DeltaRequest::FreshMessages;
    lemma_asked(o, chat, request, Cmdline::FreshListed);
    reveal(command_next);
    if let Reply::Found { items, elapsed } = o.hears(request) {
        lemma_shown(
            o,
            chat,
            request,
            Cmdline::FreshListed,
            Task::Journal(Journal::Start { list: items }),
            digits(items@.len()) + " fresh messages."@,
        );
    }
}

proof fn lemma_media(o: Order, chat: Option<ChatInfo>, id: u32)
    requires
        o.steps >= 4,
        o.has_selected(chat),
        o.verb() != "chat"@,
        command(o.line, chat) == (CmdStepModel::Ask {
            request: Request::Delta(DeltaRequest::ChatMedia { chat: id }),
            after: Cmdline::MediaListed,
        }),
    ensures
        o.shows_media(id),
{
    let request = DeltaRequest::ChatMedia { chat: id };
    lemma_asked(o, chat, request, Cmdline::MediaListed);
    reveal(command_next);
    if let Reply::Texts(labels) = o.hears(request) {
        let first = performed(o.before(), Request::Delta(request));
        let printing: RequestModel = Request::Host(
            HostRequest::Print { text: joined(texts(labels@), ", "@) },
        );
        let text = digits(labels@.len()) + " images or videos: "@ + "\n"@;
        reveal_strlit(" images or videos: ");
        reveal_strlit("\n");
        reveal_strlit(" images or videos: \n");
        assert(text =~= digits(labels@.len()) + " images or videos: \n"@);
        let last: TaskModel = Task::Cmdline { chat_id: o.chat_id, stage: Cmdline::Told { text } };
        assert(o.done() == run(
            last,
            reply_to(first, printing),
            o.caches,
            performed(first, printing),
            (o.left() - 1) as nat,
        ));
    }
}

/// The request for a file in HTML.
pub open spec fn reading_html(path: Seq<char>) -> RequestModel {
    Request::Host(HostRequest::ReadHtml { path })
}

/// The command that sends a file in HTML reads the file that is named and sends it to the selected
/// chat, with the text behind it as its plain form; where there is none, with the name of the file.
pub proof fn law_html_is_sent(o: Order, chat: Option<ChatInfo>)
    requires
        o.steps >= 4,
        o.has_selected(chat),
        o.verb() == "sendhtml"@,
    ensures
        match chat {
            Some(selected) => if o.arg1().len() == 0 {
                o.refuses("No html-file given."@)
            } else {
                let first = performed(o.before(), reading_html(o.arg1()));
                match reply_to(o.before(), reading_html(o.arg1())) {
                    Reply::Html { html, file_name } => if o.arg2().len() > 0 || file_name is Some {
                        let text = if o.arg2().len() > 0 {
                            o.arg2()
                        } else {
                            file_name->Some_0@
                        };
                        let request: RequestModel = Request::Delta(
                            DeltaRequest::SendHtml { chat: selected.id, html: html@, text },
                        );
                        &&& o.done().caches == o.caches
                        &&& o.done().host == performed(first, request)
                        &&& match reply_to(first, request) {
                            Reply::Got(_) => o.says(""@),
                            Reply::Failed(error) => o.fails(error),
                            _ => true,
                        }
                    } else {
                        o.done().host == first && o.done().end is Panic
                    },
                    Reply::Failed(error) => o.done().host == first && o.fails(error),
                    _ => true,
                }
            },
            None => o.refuses("No chat selected."@),
        },
{
    lemma_html_command(o, chat);
    match chat {
        Some(selected) => {
            if o.arg1().len() == 0 {
                lemma_refused(o, chat, "No html-file given."@);
            } else {
                lemma_begun(o, chat);
                reveal(command_next);
                let first = performed(o.before(), reading_html(o.arg1()));
                let reply = reply_to(o.before(), reading_html(o.arg1()));
                let waiting: TaskModel = Task::Cmdline {
                    chat_id: o.chat_id,
                    stage: Cmdline::HtmlRead { chat: selected.id, text: o.arg2() },
                };
                assert(o.done() == run(waiting, reply, o.caches, first, o.left()));
                if let Reply::Html { html, file_name } = reply {
                    if o.arg2().len() > 0 || file_name is Some {
                        let text = if o.arg2().len() > 0 {
                            o.arg2()
                        } else {
                            file_name->Some_0@
                        };
                        let request: RequestModel = Request::Delta(
                            DeltaRequest::SendHtml { chat: selected.id, html: html@, text },
                        );
                        let last: TaskModel = Task::Cmdline {
                            chat_id: o.chat_id,
                            stage: Cmdline::Quiet,
                        };
                        assert(o.done() == run(
                            last,
                            reply_to(first, request),
                            o.caches,
                            performed(first, request),
                            (o.left() - 1) as nat,
                        ));
                    }
                }
            }
        },
        None => {
            lemma_refused(o, chat, "No chat selected."@);
        },
    }
}

proof fn lemma_html_command(o: Order, chat: Option<ChatInfo>)
    requires
        o.verb() == "sendhtml"@,
    ensures
        o.verb() != "chat"@,
        command(o.line, chat) == match chat {
            Some(selected) => if o.arg1().len() == 0 {
                CmdStepModel::Fail { error: "No html-file given."@ }
            } else {
                CmdStepModel::Ask {
                    request: reading_html(o.arg1()),
                    after: Cmdline::HtmlRead { chat: selected.id, text: o.arg2() },
                }
            },
            None => CmdStepModel::Fail { error: "No chat selected."@ },
        },
{
    reveal(command);
    lemma_marks();
}

proof fn lemma_words_and_files_are_sent(o: Order, chat: Option<ChatInfo>)
    ensures
        (o.verb() == "send"@) ==> o.verb() != "chat"@ && ({
            match chat {
                Some(selected) => {
                    if o.arg1().len() == 0 {
                        command(o.line, chat) == (CmdStepModel::Fail {
                            error: "No message text given."@,
                        })
                    } else {
                        command(o.line, chat) == (CmdStepModel::Ask {
                            request: Request::Delta(DeltaRequest::SendText {
                                chat: selected.id,
                                text: o.arg1() + " "@ + o.arg2(),
                            }),
                            after: Cmdline::Quiet,
                        })
                    }
                },
                None => {
                    command(o.line, chat) == (CmdStepModel::Fail { error: "No chat selected."@ })
                },
            }
        }),
        (o.verb() == "sendempty"@) ==> o.verb() != "chat"@ && ({
            match chat {
                Some(selected) => {
                    command(o.line, chat) == (CmdStepModel::Ask {
                        request: Request::Delta(DeltaRequest::SendText {
                            chat: selected.id,
                            text: ""@,
                        }),
                        after: Cmdline::Quiet,
                    })
                },
                None => {
                    command(o.line, chat) == (CmdStepModel::Fail { error: "No chat selected."@ })
                },
            }
        }),
        (o.verb() == "sendimage"@) ==> o.verb() != "chat"@ && ({
            match chat {
                Some(selected) => {
                    if o.arg1().len() == 0 {
                        command(o.line, chat) == (CmdStepModel::Fail { error: "No file given."@ })
                    } else {
                        if o.arg2().len() == 0 {
                            command(o.line, chat) == (CmdStepModel::Ask {
                                request: Request::Delta(DeltaRequest::SendFile {
                                    chat: selected.id,
                                    kind: FileKind::Image,
                                    file: o.arg1(),
                                    text: None,
                                }),
                                after: Cmdline::Quiet,
                            })
                        } else {
                            command(o.line, chat) == (CmdStepModel::Ask {
                                request: Request::Delta(DeltaRequest::SendFile {
                                    chat: selected.id,
                                    kind: FileKind::Image,
                                    file: o.arg1(),
                                    text: Some(o.arg2()),
                                }),
                                after: Cmdline::Quiet,
                            })
                        }
                    }
                },
                None => {
                    command(o.line, chat) == (CmdStepModel::Fail { error: "No chat selected."@ })
                },
            }
        }),
        (o.verb() == "sendsticker"@) ==> o.verb() != "chat"@ && ({
            match chat {
                Some(selected) => {
                    if o.arg1().len() == 0 {
                        command(o.line, chat) == (CmdStepModel::Fail { error: "No file given."@ })
                    } else {
                        if o.arg2().len() == 0 {
                            command(o.line, chat) == (CmdStepModel::Ask {
                                request: Request::Delta(DeltaRequest::SendFile {
                                    chat: selected.id,
                                    kind: FileKind::Sticker,
                                    file: o.arg1(),
                                    text: None,
                                }),
                                after: Cmdline::Quiet,
                            })
                        } else {
                            command(o.line, chat) == (CmdStepModel::Ask {
                                request: Request::Delta(DeltaRequest::SendFile {
                                    chat: selected.id,
                                    kind: FileKind::Sticker,
                                    file: o.arg1(),
                                    text: Some(o.arg2()),
                                }),
                                after: Cmdline::Quiet,
                            })
                        }
                    }
                },
                None => {
                    command(o.line, chat) == (CmdStepModel::Fail { error: "No chat selected."@ })
                },
            }
        }),
        (o.verb() == "sendfile"@) ==> o.verb() != "chat"@ && ({
            match chat {
                Some(selected) => {
                    if o.arg1().len() == 0 {
                        command(o.line, chat) == (CmdStepModel::Fail { error: "No file given."@ })
                    } else {
                        if o.arg2().len() == 0 {
                            command(o.line, chat) == (CmdStepModel::Ask {
                                request: Request::Delta(DeltaRequest::SendFile {
                                    chat: selected.id,
                                    kind: FileKind::File,
                                    file: o.arg1(),
                                    text: None,
                                }),
                                after: Cmdline::Quiet,
                            })
                        } else {
                            command(o.line, chat) == (CmdStepModel::Ask {
                                request: Request::Delta(DeltaRequest::SendFile {
                                    chat: selected.id,
                                    kind: FileKind::File,
                                    file: o.arg1(),
                                    text: Some(o.arg2()),
                                }),
                                after: Cmdline::Quiet,
                            })
                        }
                    }
                },
                None => {
                    command(o.line, chat) == (CmdStepModel::Fail { error: "No chat selected."@ })
                },
            }
        }),
        (o.verb() == "videochat"@) ==> o.verb() != "chat"@ && ({
            match chat {
                Some(selected) => {
                    command(o.line, chat) == (CmdStepModel::Ask {
                        request: Request::Delta(DeltaRequest::SendVideochat { chat: selected.id }),
                        after: Cmdline::Quiet,
                    })
                },
                None => {
                    command(o.line, chat) == (CmdStepModel::Fail { error: "No chat selected."@ })
                },
            }
        }),
        (o.verb() == "devicemsg"@) ==> o.verb() != "chat"@ && ({
            if o.arg1().len() == 0 {
                command(o.line, chat) == (CmdStepModel::Fail {
                    error: "Please specify text to add as device message."@,
                })
            } else {
                command(o.line, chat) == (CmdStepModel::Ask {
                    request: Request::Delta(DeltaRequest::AddDeviceMessage { text: o.arg1() }),
                    after: Cmdline::Quiet,
                })
            }
        }),
        (o.verb() == "sendsyncmsg"@) ==> o.verb() != "chat"@ && ({
            command(o.line, chat) == (CmdStepModel::Ask {
                request: Request::Delta(DeltaRequest::SendSyncMessage),
                after: Cmdline::SyncSent,
            })
        }),
{
    reveal(command);
    lemma_marks();
}

/// The commands that send something send exactly that to the selected chat: all words that follow,
/// nothing at all, or a file of its sort with the text behind it, if there is one.
pub proof fn law_words_and_files_are_sent(o: Order, chat: Option<ChatInfo>)
    requires
        o.steps >= 3,
        o.has_selected(chat),
    ensures
        (o.verb() == "send"@) ==> ({
            match chat {
                Some(selected) => {
                    if o.arg1().len() == 0 {
                        o.refuses("No message text given."@)
                    } else {
                        o.quietly(DeltaRequest::SendText {
                            chat: selected.id,
                            text: o.arg1() + " "@ + o.arg2(),
                        })
                    }
                },
                None => {
                    o.refuses("No chat selected."@)
                },
            }
        }),
        (o.verb() == "sendempty"@) ==> ({
            match chat {
                Some(selected) => {
                    o.quietly(DeltaRequest::SendText { chat: selected.id, text: ""@ })
                },
                None => {
                    o.refuses("No chat selected."@)
                },
            }
        }),
        (o.verb() == "sendimage"@) ==> ({
            match chat {
                Some(selected) => {
                    if o.arg1().len() == 0 {
                        o.refuses("No file given."@)
                    } else {
                        if o.arg2().len() == 0 {
                            o.quietly(DeltaRequest::SendFile {
                                chat: selected.id,
                                kind: FileKind::Image,
                                file: o.arg1(),
                                text: None,
                            })
                        } else {
                            o.quietly(DeltaRequest::SendFile {
                                chat: selected.id,
                                kind: FileKind::Image,
                                file: o.arg1(),
                                text: Some(o.arg2()),
                            })
                        }
                    }
                },
                None => {
                    o.refuses("No chat selected."@)
                },
            }
        }),
        (o.verb() == "sendsticker"@) ==> ({
            match chat {
                Some(selected) => {
                    if o.arg1().len() == 0 {
                        o.refuses("No file given."@)
                    } else {
                        if o.arg2().len() == 0 {
                            o.quietly(DeltaRequest::SendFile {
                                chat: selected.id,
                                kind: FileKind::Sticker,
                                file: o.arg1(),
                                text: None,
                            })
                        } else {
                            o.quietly(DeltaRequest::SendFile {
                                chat: selected.id,
                                kind: FileKind::Sticker,
                                file: o.arg1(),
                                text: Some(o.arg2()),
                            })
                        }
                    }
                },
                None => {
                    o.refuses("No chat selected."@)
                },
            }
        }),
        (o.verb() == "sendfile"@) ==> ({
            match chat {
                Some(selected) => {
                    if o.arg1().len() == 0 {
                        o.refuses("No file given."@)
                    } else {
                        if o.arg2().len() == 0 {
                            o.quietly(DeltaRequest::SendFile {
                                chat: selected.id,
                                kind: FileKind::File,
                                file: o.arg1(),
                                text: None,
                            })
                        } else {
                            o.quietly(DeltaRequest::SendFile {
                                chat: selected.id,
                                kind: FileKind::File,
                                file: o.arg1(),
                                text: Some(o.arg2()),
                            })
                        }
                    }
                },
                None => {
                    o.refuses("No chat selected."@)
                },
            }
        }),
        (o.verb() == "videochat"@) ==> ({
            match chat {
                Some(selected) => {
                    o.quietly(DeltaRequest::SendVideochat { chat: selected.id })
                },
                None => {
                    o.refuses("No chat selected."@)
                },
            }
        }),
        (o.verb() == "devicemsg"@) ==> ({
            if o.arg1().len() == 0 {
                o.refuses("Please specify text to add as device message."@)
            } else {
                o.quietly(DeltaRequest::AddDeviceMessage { text: o.arg1() })
            }
        }),
        (o.verb() == "sendsyncmsg"@) ==> ({
            o.sends_sync()
        }),
{
    lemma_words_and_files_are_sent(o, chat);
    if o.verb() == "send"@ {
        match chat {
            Some(selected) => {
                if o.arg1().len() == 0 {
                    lemma_refused(o, chat, "No message text given."@);
                } else {
                    lemma_quiet(
                        o,
                        chat,
                        DeltaRequest::SendText {
                            chat: selected.id,
                            text: o.arg1() + " "@ + o.arg2(),
                        },
                    );
                }
            },
            None => {
                lemma_refused(o, chat, "No chat selected."@);
            },
        }
    }
    if o.verb() == "sendempty"@ {
        match chat {
            Some(selected) => {
                lemma_quiet(o, chat, DeltaRequest::SendText { chat: selected.id, text: ""@ });
            },
            None => {
                lemma_refused(o, chat, "No chat selected."@);
            },
        }
    }
    if o.verb() == "sendimage"@ {
        match chat {
            Some(selected) => {
                if o.arg1().len() == 0 {
                    lemma_refused(o, chat, "No file given."@);
                } else {
                    if o.arg2().len() == 0 {
                        lemma_quiet(
                            o,
                            chat,
                            DeltaRequest::SendFile {
                                chat: selected.id,
                                kind: FileKind::Image,
                                file: o.arg1(),
                                text: None,
                            },
                        );
                    } else {
                        lemma_quiet(
                            o,
                            chat,
                            DeltaRequest::SendFile {
                                chat: selected.id,
                                kind: FileKind::Image,
                                file: o.arg1(),
                                text: Some(o.arg2()),
                            },
                        );
                    }
                }
            },
            None => {
                lemma_refused(o, chat, "No chat selected."@);
            },
        }
    }
    if o.verb() == "sendsticker"@ {
        match chat {
            Some(selected) => {
                if o.arg1().len() == 0 {
                    lemma_refused(o, chat, "No file given."@);
                } else {
                    if o.arg2().len() == 0 {
                        lemma_quiet(
                            o,
                            chat,
                            DeltaRequest::SendFile {
                                chat: selected.id,
                                kind: FileKind::Sticker,
                                file: o.arg1(),
                                text: None,
                            },
                        );
                    } else {
                        lemma_quiet(
                            o,
                            chat,
                            DeltaRequest::SendFile {
                                chat: selected.id,
                                kind: FileKind::Sticker,
                                file: o.arg1(),
                                text: Some(o.arg2()),
                            },
                        );
                    }
                }
            },
            None => {
                lemma_refused(o, chat, "No chat selected."@);
            },
        }
    }
    if o.verb() == "sendfile"@ {
        match chat {
            Some(selected) => {
                if o.arg1().len() == 0 {
                    lemma_refused(o, chat, "No file given."@);
                } else {
                    if o.arg2().len() == 0 {
                        lemma_quiet(
                            o,
                            chat,
                            DeltaRequest::SendFile {
                                chat: selected.id,
                                kind: FileKind::File,
                                file: o.arg1(),
                                text: None,
                            },
                        );
                    } else {
                        lemma_quiet(
                            o,
                            chat,
                            DeltaRequest::SendFile {
                                chat: selected.id,
                                kind: FileKind::File,
                                file: o.arg1(),
                                text: Some(o.arg2()),
                            },
                        );
                    }
                }
            },
            None => {
                lemma_refused(o, chat, "No chat selected."@);
            },
        }
    }
    if o.verb() == "videochat"@ {
        match chat {
            Some(selected) => {
                lemma_quiet(o, chat, DeltaRequest::SendVideochat { chat: selected.id });
            },
            None => {
                lemma_refused(o, chat, "No chat selected."@);
            },
        }
    }
    if o.verb() == "devicemsg"@ {
        if o.arg1().len() == 0 {
            lemma_refused(o, chat, "Please specify text to add as device message."@);
        } else {
            lemma_quiet(o, chat, DeltaRequest::AddDeviceMessage { text: o.arg1() });
        }
    }
    if o.verb() == "sendsyncmsg"@ {
        lemma_sync_sent(o, chat);
    }
}

proof fn lemma_drafts_are_kept(o: Order, chat: Option<ChatInfo>)
    ensures
        (o.verb() == "draft"@) ==> o.verb() != "chat"@ && ({
            match chat {
                Some(selected) => {
                    if o.arg1().len() == 0 {
                        command(o.line, chat) == (CmdStepModel::Ask {
                            request: Request::Delta(DeltaRequest::SetDraft {
                                chat: selected.id,
                                text: None,
                            }),
                            after: Cmdline::Told { text: "Draft deleted."@ },
                        })
                    } else {
                        command(o.line, chat) == (CmdStepModel::Ask {
                            request: Request::Delta(DeltaRequest::SetDraft {
                                chat: selected.id,
                                text: Some(o.arg1()),
                            }),
                            after: Cmdline::Told { text: "Draft saved."@ },
                        })
                    }
                },
                None => {
                    command(o.line, chat) == (CmdStepModel::Fail { error: "No chat selected."@ })
                },
            }
        }),
{
    reveal(command);
    lemma_marks();
}

/// The command on drafts keeps the word that follows as the draft of the selected chat, or deletes
/// the draft where none follows.
pub proof fn law_drafts_are_kept(o: Order, chat: Option<ChatInfo>)
    requires
        o.steps >= 3,
        o.has_selected(chat),
    ensures
        (o.verb() == "draft"@) ==> ({
            match chat {
                Some(selected) => {
                    if o.arg1().len() == 0 {
                        o.tells(
                            DeltaRequest::SetDraft { chat: selected.id, text: None },
                            "Draft deleted."@,
                        )
                    } else {
                        o.tells(
                            DeltaRequest::SetDraft { chat: selected.id, text: Some(o.arg1()) },
                            "Draft saved."@,
                        )
                    }
                },
                None => {
                    o.refuses("No chat selected."@)
                },
            }
        }),
{
    lemma_drafts_are_kept(o, chat);
    if o.verb() == "draft"@ {
        match chat {
            Some(selected) => {
                if o.arg1().len() == 0 {
                    lemma_told(
                        o,
                        chat,
                        DeltaRequest::SetDraft { chat: selected.id, text: None },
                        "Draft deleted."@,
                    );
                } else {
                    lemma_told(
                        o,
                        chat,
                        DeltaRequest::SetDraft { chat: selected.id, text: Some(o.arg1()) },
                        "Draft saved."@,
                    );
                }
            },
            None => {
                lemma_refused(o, chat, "No chat selected."@);
            },
        }
    }
}

proof fn lemma_messages_are_dealt_with(o: Order, chat: Option<ChatInfo>)
    ensures
        (o.verb() == "msginfo"@) ==> o.verb() != "chat"@ && ({
            if o.arg1().len() == 0 {
                command(o.line, chat) == (CmdStepModel::Fail {
                    error: "Argument <msg-id> missing."@,
                })
            } else {
                match number(o.arg1()) {
                    Ok(n) => {
                        command(o.line, chat) == (CmdStepModel::Ask {
                            request: Request::Delta(DeltaRequest::MessageDetails { id: n }),
                            after: Cmdline::Framed { before: ""@, after: ""@ },
                        })
                    },
                    Err(error) => {
                        command(o.line, chat) == (CmdStepModel::Fail { error: error })
                    },
                }
            }
        }),
        (o.verb() == "download"@) ==> o.verb() != "chat"@ && ({
            if o.arg1().len() == 0 {
                command(o.line, chat) == (CmdStepModel::Fail {
                    error: "Argument <msg-id> missing."@,
                })
            } else {
                match number(o.arg1()) {
                    Ok(n) => {
                        command(o.line, chat) == (CmdStepModel::Ask {
                            request: Request::Delta(DeltaRequest::Download { id: n }),
                            after: Cmdline::Framed {
                                before: "Scheduling download for "@,
                                after: ""@,
                            },
                        })
                    },
                    Err(error) => {
                        command(o.line, chat) == (CmdStepModel::Fail { error: error })
                    },
                }
            }
        }),
        (o.verb() == "markseen"@) ==> o.verb() != "chat"@ && ({
            if o.arg1().len() == 0 {
                command(o.line, chat) == (CmdStepModel::Fail {
                    error: "Argument <msg-id> missing."@,
                })
            } else {
                match number(o.arg1()) {
                    Ok(n) => {
                        command(o.line, chat) == (CmdStepModel::Ask {
                            request: Request::Delta(DeltaRequest::MarkSeen { id: n }),
                            after: Cmdline::Quiet,
                        })
                    },
                    Err(error) => {
                        command(o.line, chat) == (CmdStepModel::Fail { error: error })
                    },
                }
            }
        }),
        (o.verb() == "delmsg"@) ==> o.verb() != "chat"@ && ({
            if o.arg1().len() == 0 {
                command(o.line, chat) == (CmdStepModel::Fail {
                    error: "Argument <msg-id> missing."@,
                })
            } else {
                match number(o.arg1()) {
                    Ok(n) => {
                        command(o.line, chat) == (CmdStepModel::Ask {
                            request: Request::Delta(DeltaRequest::DeleteMessage { id: n }),
                            after: Cmdline::Quiet,
                        })
                    },
                    Err(error) => {
                        command(o.line, chat) == (CmdStepModel::Fail { error: error })
                    },
                }
            }
        }),
        (o.verb() == "forward"@) ==> o.verb() != "chat"@ && ({
            if o.arg1().len() == 0 || o.arg2().len() == 0 {
                command(o.line, chat) == (CmdStepModel::Fail {
                    error: "Arguments <msg-id> <chat-id> expected"@,
                })
            } else {
                match number(o.arg2()) {
                    Ok(m) => {
                        match number(o.arg1()) {
                            Ok(n) => {
                                command(o.line, chat) == (CmdStepModel::Ask {
                                    request: Request::Delta(DeltaRequest::Forward {
                                        id: n,
                                        chat: m,
                                    }),
                                    after: Cmdline::Quiet,
                                })
                            },
                            Err(error) => {
                                command(o.line, chat) == (CmdStepModel::Fail { error: error })
                            },
                        }
                    },
                    Err(error) => {
                        command(o.line, chat) == (CmdStepModel::Fail { error: error })
                    },
                }
            }
        }),
{
    reveal(command);
    lemma_marks();
}

/// The commands on a message show it, download it, mark it as seen, delete it or forward it: the
/// message that is named, to the chat that is named, and no other.
pub proof fn law_messages_are_dealt_with(o: Order, chat: Option<ChatInfo>)
    requires
        o.steps >= 3,
        o.has_selected(chat),
    ensures
        (o.verb() == "msginfo"@) ==> ({
            if o.arg1().len() == 0 {
                o.refuses("Argument <msg-id> missing."@)
            } else {
                match number(o.arg1()) {
                    Ok(n) => {
                        o.frames(DeltaRequest::MessageDetails { id: n }, ""@, ""@)
                    },
                    Err(error) => {
                        o.refuses(error)
                    },
                }
            }
        }),
        (o.verb() == "download"@) ==> ({
            if o.arg1().len() == 0 {
                o.refuses("Argument <msg-id> missing."@)
            } else {
                match number(o.arg1()) {
                    Ok(n) => {
                        o.frames(DeltaRequest::Download { id: n }, "Scheduling download for "@, ""@)
                    },
                    Err(error) => {
                        o.refuses(error)
                    },
                }
            }
        }),
        (o.verb() == "markseen"@) ==> ({
            if o.arg1().len() == 0 {
                o.refuses("Argument <msg-id> missing."@)
            } else {
                match number(o.arg1()) {
                    Ok(n) => {
                        o.quietly(DeltaRequest::MarkSeen { id: n })
                    },
                    Err(error) => {
                        o.refuses(error)
                    },
                }
            }
        }),
        (o.verb() == "delmsg"@) ==> ({
            if o.arg1().len() == 0 {
                o.refuses("Argument <msg-id> missing."@)
            } else {
                match number(o.arg1()) {
                    Ok(n) => {
                        o.quietly(DeltaRequest::DeleteMessage { id: n })
                    },
                    Err(error) => {
                        o.refuses(error)
                    },
                }
            }
        }),
        (o.verb() == "forward"@) ==> ({
            if o.arg1().len() == 0 || o.arg2().len() == 0 {
                o.refuses("Arguments <msg-id> <chat-id> expected"@)
            } else {
                match number(o.arg2()) {
                    Ok(m) => {
                        match number(o.arg1()) {
                            Ok(n) => {
                                o.quietly(DeltaRequest::Forward { id: n, chat: m })
                            },
                            Err(error) => {
                                o.refuses(error)
                            },
                        }
                    },
                    Err(error) => {
                        o.refuses(error)
                    },
                }
            }
        }),
{
    lemma_messages_are_dealt_with(o, chat);
    if o.verb() == "msginfo"@ {
        if o.arg1().len() == 0 {
            lemma_refused(o, chat, "Argument <msg-id> missing."@);
        } else {
            match number(o.arg1()) {
                Ok(n) => {
                    lemma_framed(o, chat, DeltaRequest::MessageDetails { id: n }, ""@, ""@);
                },
                Err(error) => {
                    lemma_refused(o, chat, error);
                },
            }
        }
    }
    if o.verb() == "download"@ {
        if o.arg1().len() == 0 {
            lemma_refused(o, chat, "Argument <msg-id> missing."@);
        } else {
            match number(o.arg1()) {
                Ok(n) => {
                    lemma_framed(
                        o,
                        chat,
                        DeltaRequest::Download { id: n },
                        "Scheduling download for "@,
                        ""@,
                    );
                },
                Err(error) => {
                    lemma_refused(o, chat, error);
                },
            }
        }
    }
    if o.verb() == "markseen"@ {
        if o.arg1().len() == 0 {
            lemma_refused(o, chat, "Argument <msg-id> missing."@);
        } else {
            match number(o.arg1()) {
                Ok(n) => {
                    lemma_quiet(o, chat, DeltaRequest::MarkSeen { id: n });
                },
                Err(error) => {
                    lemma_refused(o, chat, error);
                },
            }
        }
    }
    if o.verb() == "delmsg"@ {
        if o.arg1().len() == 0 {
            lemma_refused(o, chat, "Argument <msg-id> missing."@);
        } else {
            match number(o.arg1()) {
                Ok(n) => {
                    lemma_quiet(o, chat, DeltaRequest::DeleteMessage { id: n });
                },
                Err(error) => {
                    lemma_refused(o, chat, error);
                },
            }
        }
    }
    if o.verb() == "forward"@ {
        if o.arg1().len() == 0 || o.arg2().len() == 0 {
            lemma_refused(o, chat, "Arguments <msg-id> <chat-id> expected"@);
        } else {
            match number(o.arg2()) {
                Ok(m) => {
                    match number(o.arg1()) {
                        Ok(n) => {
                            lemma_quiet(o, chat, DeltaRequest::Forward { id: n, chat: m });
                        },
                        Err(error) => {
                            lemma_refused(o, chat, error);
                        },
                    }
                },
                Err(error) => {
                    lemma_refused(o, chat, error);
                },
            }
        }
    }
}

proof fn lemma_messages_are_searched_for(o: Order, chat: Option<ChatInfo>)
    ensures
        (o.verb() == "listmsgs"@) ==> o.verb() != "chat"@ && ({
            if o.arg1().len() == 0 {
                command(o.line, chat) == (CmdStepModel::Fail {
                    error: "Argument <query> missing."@,
                })
            } else {
                if chat is Some {
                    command(o.line, chat) == (CmdStepModel::Ask {
                        request: Request::Delta(DeltaRequest::SearchMessages {
                            chat: Some(chat->Some_0.id),
                            query: o.arg1(),
                        }),
                        after: Cmdline::Searched,
                    })
                } else {
                    command(o.line, chat) == (CmdStepModel::Ask {
                        request: Request::Delta(DeltaRequest::SearchMessages {
                            chat: None,
                            query: o.arg1(),
                        }),
                        after: Cmdline::Searched,
                    })
                }
            }
        }),
        (o.verb() == "listfresh"@) ==> o.verb() != "chat"@ && ({
            command(o.line, chat) == (CmdStepModel::Ask {
                request: Request::Delta(DeltaRequest::FreshMessages),
                after: Cmdline::FreshListed,
            })
        }),
{
    reveal(command);
    lemma_marks();
}

/// The commands that list messages look for what is named, in the selected chat or, where none is
/// selected, in all chats, or for what is fresh. They show all that is found, and how much that is.
pub proof fn law_messages_are_searched_for(o: Order, chat: Option<ChatInfo>)
    requires
        o.steps >= 4,
        o.has_selected(chat),
    ensures
        (o.verb() == "listmsgs"@) ==> ({
            if o.arg1().len() == 0 {
                o.refuses("Argument <query> missing."@)
            } else {
                if chat is Some {
                    o.shows_found(DeltaRequest::SearchMessages {
                        chat: Some(chat->Some_0.id),
                        query: o.arg1(),
                    })
                } else {
                    o.shows_found(DeltaRequest::SearchMessages { chat: None, query: o.arg1() })
                }
            }
        }),
        (o.verb() == "listfresh"@) ==> ({
            o.shows_fresh()
        }),
{
    lemma_messages_are_searched_for(o, chat);
    if o.verb() == "listmsgs"@ {
        if o.arg1().len() == 0 {
            lemma_refused(o, chat, "Argument <query> missing."@);
        } else {
            if chat is Some {
                lemma_found(
                    o,
                    chat,
                    DeltaRequest::SearchMessages { chat: Some(chat->Some_0.id), query: o.arg1() },
                );
            } else {
                lemma_found(o, chat, DeltaRequest::SearchMessages { chat: None, query: o.arg1() });
            }
        }
    }
    if o.verb() == "listfresh"@ {
        lemma_fresh(o, chat);
    }
}

proof fn lemma_media_are_listed(o: Order, chat: Option<ChatInfo>)
    ensures
        (o.verb() == "listmedia"@) ==> o.verb() != "chat"@ && ({
            match chat {
                Some(selected) => {
                    command(o.line, chat) == (CmdStepModel::Ask {
                        request: Request::Delta(DeltaRequest::ChatMedia { chat: selected.id }),
                        after: Cmdline::MediaListed,
                    })
                },
                None => {
                    command(o.line, chat) == (CmdStepModel::Fail { error: "No chat selected."@ })
                },
            }
        }),
{
    reveal(command);
    lemma_marks();
}

/// The command that lists media prints all media of the selected chat, and says how many they are.
pub proof fn law_media_are_listed(o: Order, chat: Option<ChatInfo>)
    requires
        o.steps >= 4,
        o.has_selected(chat),
    ensures
        (o.verb() == "listmedia"@) ==> ({
            match chat {
                Some(selected) => {
                    o.shows_media(selected.id)
                },
                None => {
                    o.refuses("No chat selected."@)
                },
            }
        }),
{
    lemma_media_are_listed(o, chat);
    if o.verb() == "listmedia"@ {
        match chat {
            Some(selected) => {
                lemma_media(o, chat, selected.id);
            },
            None => {
                lemma_refused(o, chat, "No chat selected."@);
            },
        }
    }
}

}
