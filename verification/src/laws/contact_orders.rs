//! What the commands on contacts do, and the rest.
use vstd::prelude::*;

use crate::cmdline::{command_next, provider_lines, CmdStepModel, Cmdline};
use crate::cmdline::chats::ContactView;
use crate::cmdline::commands::{command, number, signed_number};
use crate::cmdline::contacts::Roll;
use crate::laws::chat_orders::lemma_first;
use crate::laws::message_orders::lemma_shown;
use crate::laws::orders::{
    lemma_answered, lemma_asked, lemma_framed, lemma_quiet, lemma_refused, Order,
};
use crate::laws::words::lemma_marks;
use crate::numbers::{digits, signed_digits};
use crate::protocol::{
    ChatInfo, DeltaRequest, DeltaRequestModel, Reply, Request, RequestModel, Value,
};
use crate::run::{performed, reply_to, run, End};
use crate::task::{lemma_cmdline, Task, TaskModel};

verus! {

broadcast use lemma_cmdline;

impl Order {
    /// It asks for contacts, shows all that are found, and says how many they are.
    pub open spec fn shows_contacts(self, request: DeltaRequestModel, after: Seq<char>) -> bool {
        match self.hears(request) {
            Reply::Numbers(contacts) => self.shows(
                request,
                Task::Roll(Roll::Start { contacts }),
                digits(contacts@.len()) + after,
            ),
            Reply::Failed(error) => self.asks_only(request) && self.fails(error),
            _ => true,
        }
    }

    /// It sets the account up by a code, and asks for nothing else; it says whether it could.
    pub open spec fn sets_up_by(self, content: Seq<char>) -> bool {
        let request = DeltaRequest::SetConfigFromQr { content };
        &&& self.asks_only(request)
        &&& match self.hears(request) {
            Reply::Got(_) => self.says("Config set from QR code, you can now call 'configure'"@),
            Reply::Failed(error) => self.says("Cannot set config from QR code: "@ + error),
            _ => true,
        }
    }

    /// It measures an image, and asks for nothing else.
    pub open spec fn measures(self, file: Seq<char>) -> bool {
        let request = DeltaRequest::ImageSize { file };
        &&& self.asks_only(request)
        &&& match self.hears(request) {
            Reply::Size { width, height } => self.says(
                "width="@ + digits(width as nat) + ", height="@ + digits(height as nat),
            ),
            Reply::Unreadable => self.fails("Command failed."@),
            Reply::Failed(error) => self.fails(error),
            _ => true,
        }
    }

    /// It shows what is known of the provider of an address.
    pub open spec fn shows_provider(self, addr: Seq<char>) -> bool {
        let one = DeltaRequest::GetSocks5Enabled;
        let first = performed(self.before(), Request::Delta(one));
        match self.hears(one) {
            Reply::Got(Value::Flag(socks5)) => {
                let two = DeltaRequest::ProviderInfo { addr, socks5 };
                &&& self.asks_both(one, two)
                &&& match reply_to(first, Request::Delta(two)) {
                    Reply::Provider(info) => self.says(provider_lines(addr, info)),
                    Reply::Failed(error) => self.fails(error),
                    _ => true,
                }
            },
            Reply::Failed(error) => self.asks_only(one) && self.fails(error),
            _ => true,
        }
    }

    /// It counts old messages, on the device and then on the server.
    pub open spec fn counts_deletions(self, seconds: i64) -> bool {
        let one = DeltaRequest::EstimateDeletion { from_server: false, seconds };
        let two = DeltaRequest::EstimateDeletion { from_server: true, seconds };
        let first = performed(self.before(), Request::Delta(one));
        match self.hears(one) {
            Reply::Got(Value::Count(device)) => {
                &&& self.asks_both(one, two)
                &&& match reply_to(first, Request::Delta(two)) {
                    Reply::Got(Value::Count(server)) => self.says(
                        "estimated count of messages older than "@ + signed_digits(seconds as int)
                            + " seconds:\non device: "@ + digits(device as nat) + "\non server: "@
                            + digits(server as nat),
                    ),
                    Reply::Failed(error) => self.fails(error),
                    _ => true,
                }
            },
            Reply::Failed(error) => self.asks_only(one) && self.fails(error),
            _ => true,
        }
    }

    /// It lists the members of a chat, and says how many they are and whether places are sent.
    pub open spec fn shows_members(self, chat: u32) -> bool {
        let request = DeltaRequest::ChatContacts { chat };
        match self.hears(request) {
            Reply::Numbers(contacts) => {
                let shown = self.listing_of(request, Task::Roll(Roll::Start { contacts }));
                let asking: RequestModel = Request::Delta(
                    DeltaRequest::IsSendingLocations { chat: Some(chat) },
                );
                match shown.end {
                    End::Return(_) => {
                        &&& self.done().caches == shown.caches
                        &&& self.done().host == performed(shown.host, asking)
                        &&& match reply_to(shown.host, asking) {
                            Reply::Got(Value::Flag(true)) => self.says(
                                "Memberlist:"@ + digits(contacts@.len())
                                    + " contacts\nLocation streaming: "@ + "true"@,
                            ),
                            Reply::Got(Value::Flag(false)) => self.says(
                                "Memberlist:"@ + digits(contacts@.len())
                                    + " contacts\nLocation streaming: "@ + "false"@,
                            ),
                            Reply::Failed(error) => self.fails(error),
                            _ => true,
                        }
                    },
                    End::Raise(error) => self.done().host == shown.host && self.fails(error),
                    _ => self.done() == shown,
                }
            },
            Reply::Failed(error) => self.asks_only(request) && self.fails(error),
            _ => true,
        }
    }
}

proof fn lemma_contacts(
    o: Order,
    chat: Option<ChatInfo>,
    request: DeltaRequestModel,
    after: Seq<char>,
)
    requires
        o.steps >= 4,
        o.has_selected(chat),
        o.verb() != "chat"@,
        command(o.line, chat) == (CmdStepModel::Ask {
            request: Request::Delta(request),
            after: Cmdline::ContactsListed { after },
        }),
    ensures
        o.shows_contacts(request, after),
{
    lemma_asked(o, chat, request, Cmdline::ContactsListed { after });
    reveal(command_next);
    if let Reply::Numbers(contacts) = o.hears(request) {
        lemma_shown(
            o,
            chat,
            request,
            Cmdline::ContactsListed { after },
            Task::Roll(Roll::Start { contacts }),
            digits(contacts@.len()) + after,
        );
    }
}

proof fn lemma_set_up_by(o: Order, chat: Option<ChatInfo>)
    requires
        o.steps >= 3,
        o.has_selected(chat),
        o.verb() != "chat"@,
        command(o.line, chat) == (CmdStepModel::Ask {
            request: Request::Delta(DeltaRequest::SetConfigFromQr { content: o.arg1() }),
            after: Cmdline::QrSet,
        }),
    ensures
        o.sets_up_by(o.arg1()),
{
    lemma_asked(o, chat, DeltaRequest::SetConfigFromQr { content: o.arg1() }, Cmdline::QrSet);
    reveal(command_next);
}

proof fn lemma_measured(o: Order, chat: Option<ChatInfo>)
    requires
        o.steps >= 3,
        o.has_selected(chat),
        o.verb() != "chat"@,
        command(o.line, chat) == (CmdStepModel::Ask {
            request: Request::Delta(DeltaRequest::ImageSize { file: o.arg1() }),
            after: Cmdline::FileMeasured,
        }),
    ensures
        o.measures(o.arg1()),
{
    lemma_asked(o, chat, DeltaRequest::ImageSize { file: o.arg1() }, Cmdline::FileMeasured);
    reveal(command_next);
}

proof fn lemma_provider(o: Order, chat: Option<ChatInfo>)
    requires
        o.steps >= 4,
        o.has_selected(chat),
        o.verb() != "chat"@,
        command(o.line, chat) == (CmdStepModel::Ask {
            request: Request::Delta(DeltaRequest::GetSocks5Enabled),
            after: Cmdline::ProviderSocks { addr: o.arg1() },
        }),
    ensures
        o.shows_provider(o.arg1()),
{
    let one = DeltaRequest::GetSocks5Enabled;
    lemma_asked(o, chat, one, Cmdline::ProviderSocks { addr: o.arg1() });
    reveal(command_next);
    let first = performed(o.before(), Request::Delta(one));
    if let Reply::Got(Value::Flag(socks5)) = o.hears(one) {
        let two: RequestModel = Request::Delta(
            DeltaRequest::ProviderInfo { addr: o.arg1(), socks5 },
        );
        let last: TaskModel = Task::Cmdline {
            chat_id: o.chat_id,
            stage: Cmdline::ProviderKnown { addr: o.arg1() },
        };
        assert(o.done() == run(
            last,
            reply_to(first, two),
            o.caches,
            performed(first, two),
            (o.left() - 1) as nat,
        ));
    }
}

proof fn lemma_deletions(o: Order, chat: Option<ChatInfo>, seconds: i64)
    requires
        o.steps >= 4,
        o.has_selected(chat),
        o.verb() != "chat"@,
        command(o.line, chat) == (CmdStepModel::Ask {
            request: Request::Delta(DeltaRequest::EstimateDeletion { from_server: false, seconds }),
            after: Cmdline::DeviceCounted { seconds },
        }),
    ensures
        o.counts_deletions(seconds),
{
    let one = DeltaRequest::EstimateDeletion { from_server: false, seconds };
    lemma_asked(o, chat, one, Cmdline::DeviceCounted { seconds });
    reveal(command_next);
    let first = performed(o.before(), Request::Delta(one));
    if let Reply::Got(Value::Count(device)) = o.hears(one) {
        let two: RequestModel = Request::Delta(
            DeltaRequest::EstimateDeletion { from_server: true, seconds },
        );
        let last: TaskModel = Task::Cmdline {
            chat_id: o.chat_id,
            stage: Cmdline::ServerCounted { seconds, device },
        };
        assert(o.done() == run(
            last,
            reply_to(first, two),
            o.caches,
            performed(first, two),
            (o.left() - 1) as nat,
        ));
    }
}

proof fn lemma_members(o: Order, chat: Option<ChatInfo>, id: u32)
    requires
        o.steps >= 5,
        o.has_selected(chat),
        o.verb() != "chat"@,
        command(o.line, chat) == (CmdStepModel::Ask {
            request: Request::Delta(DeltaRequest::ChatContacts { chat: id }),
            after: Cmdline::Members { chat: id },
        }),
    ensures
        o.shows_members(id),
{
    let request = DeltaRequest::ChatContacts { chat: id };
    lemma_asked(o, chat, request, Cmdline::Members { chat: id });
    reveal(command_next);
    if let Reply::Numbers(contacts) = o.hears(request) {
        let shown = o.listing_of(request, Task::Roll(Roll::Start { contacts }));
        let left = (o.left() - 1) as nat;
        assert(contacts.len() == contacts@.len());
        let count = contacts@.len() as usize;
        let listed: TaskModel = Task::Cmdline {
            chat_id: o.chat_id,
            stage: Cmdline::MembersListed { chat: id, count },
        };
        match shown.end {
            End::Return(value) => {
                let asking: RequestModel = Request::Delta(
                    DeltaRequest::IsSendingLocations { chat: Some(id) },
                );
                let last: TaskModel = Task::Cmdline {
                    chat_id: o.chat_id,
                    stage: Cmdline::MembersLocated { count },
                };
                assert(o.done() == run(
                    listed,
                    Reply::Got(value),
                    shown.caches,
                    shown.host,
                    left,
                ));
                assert(o.done() == run(
                    last,
                    reply_to(shown.host, asking),
                    shown.caches,
                    performed(shown.host, asking),
                    (left - 1) as nat,
                ));
            },
            End::Raise(error) => {
                assert(o.done() == run(
                    listed,
                    Reply::Failed(error),
                    shown.caches,
                    shown.host,
                    left,
                ));
            },
            _ => {},
        }
    }
}

proof fn lemma_contacts_are_dealt_with(o: Order, chat: Option<ChatInfo>)
    ensures
        (o.verb() == "addcontact"@) ==> o.verb() != "chat"@ && ({
            if o.arg1().len() == 0 {
                command(o.line, chat) == (CmdStepModel::Fail {
                    error: "Arguments [<name>] <addr> expected."@,
                })
            } else {
                if o.arg2().len() == 0 {
                    command(o.line, chat) == (CmdStepModel::Ask {
                        request: Request::Delta(DeltaRequest::CreateContact {
                            name: ""@,
                            addr: o.arg1(),
                        }),
                        after: Cmdline::Quiet,
                    })
                } else {
                    command(o.line, chat) == (CmdStepModel::Ask {
                        request: Request::Delta(DeltaRequest::AddAddressBook {
                            book: o.arg1() + "\n"@ + o.arg2(),
                        }),
                        after: Cmdline::Quiet,
                    })
                }
            }
        }),
        (o.verb() == "delcontact"@) ==> o.verb() != "chat"@ && ({
            if o.arg1().len() == 0 {
                command(o.line, chat) == (CmdStepModel::Fail {
                    error: "Argument <contact-id> missing."@,
                })
            } else {
                match number(o.arg1()) {
                    Ok(n) => {
                        command(o.line, chat) == (CmdStepModel::Ask {
                            request: Request::Delta(DeltaRequest::DeleteContact { id: n }),
                            after: Cmdline::Quiet,
                        })
                    },
                    Err(error) => {
                        command(o.line, chat) == (CmdStepModel::Fail { error: error })
                    },
                }
            }
        }),
        (o.verb() == "block"@) ==> o.verb() != "chat"@ && ({
            if o.arg1().len() == 0 {
                command(o.line, chat) == (CmdStepModel::Fail {
                    error: "Argument <contact-id> missing."@,
                })
            } else {
                match number(o.arg1()) {
                    Ok(n) => {
                        command(o.line, chat) == (CmdStepModel::Ask {
                            request: Request::Delta(DeltaRequest::BlockContact { id: n }),
                            after: Cmdline::Quiet,
                        })
                    },
                    Err(error) => {
                        command(o.line, chat) == (CmdStepModel::Fail { error: error })
                    },
                }
            }
        }),
        (o.verb() == "unblock"@) ==> o.verb() != "chat"@ && ({
            if o.arg1().len() == 0 {
                command(o.line, chat) == (CmdStepModel::Fail {
                    error: "Argument <contact-id> missing."@,
                })
            } else {
                match number(o.arg1()) {
                    Ok(n) => {
                        command(o.line, chat) == (CmdStepModel::Ask {
                            request: Request::Delta(DeltaRequest::UnblockContact { id: n }),
                            after: Cmdline::Quiet,
                        })
                    },
                    Err(error) => {
                        command(o.line, chat) == (CmdStepModel::Fail { error: error })
                    },
                }
            }
        }),
{
    reveal(command);
    lemma_marks();
}

/// The commands on a contact add one with its address, and its name if that is given, or delete,
/// block or unblock the one that is named, and no other.
pub proof fn law_contacts_are_dealt_with(o: Order, chat: Option<ChatInfo>)
    requires
        o.steps >= 3,
        o.has_selected(chat),
    ensures
        (o.verb() == "addcontact"@) ==> ({
            if o.arg1().len() == 0 {
                o.refuses("Arguments [<name>] <addr> expected."@)
            } else {
                if o.arg2().len() == 0 {
                    o.quietly(DeltaRequest::CreateContact { name: ""@, addr: o.arg1() })
                } else {
                    o.quietly(DeltaRequest::AddAddressBook { book: o.arg1() + "\n"@ + o.arg2() })
                }
            }
        }),
        (o.verb() == "delcontact"@) ==> ({
            if o.arg1().len() == 0 {
                o.refuses("Argument <contact-id> missing."@)
            } else {
                match number(o.arg1()) {
                    Ok(n) => {
                        o.quietly(DeltaRequest::DeleteContact { id: n })
                    },
                    Err(error) => {
                        o.refuses(error)
                    },
                }
            }
        }),
        (o.verb() == "block"@) ==> ({
            if o.arg1().len() == 0 {
                o.refuses("Argument <contact-id> missing."@)
            } else {
                match number(o.arg1()) {
                    Ok(n) => {
                        o.quietly(DeltaRequest::BlockContact { id: n })
                    },
                    Err(error) => {
                        o.refuses(error)
                    },
                }
            }
        }),
        (o.verb() == "unblock"@) ==> ({
            if o.arg1().len() == 0 {
                o.refuses("Argument <contact-id> missing."@)
            } else {
                match number(o.arg1()) {
                    Ok(n) => {
                        o.quietly(DeltaRequest::UnblockContact { id: n })
                    },
                    Err(error) => {
                        o.refuses(error)
                    },
                }
            }
        }),
{
    lemma_contacts_are_dealt_with(o, chat);
    if o.verb() == "addcontact"@ {
        if o.arg1().len() == 0 {
            lemma_refused(o, chat, "Arguments [<name>] <addr> expected."@);
        } else {
            if o.arg2().len() == 0 {
                lemma_quiet(o, chat, DeltaRequest::CreateContact { name: ""@, addr: o.arg1() });
            } else {
                lemma_quiet(
                    o,
                    chat,
                    DeltaRequest::AddAddressBook { book: o.arg1() + "\n"@ + o.arg2() },
                );
            }
        }
    }
    if o.verb() == "delcontact"@ {
        if o.arg1().len() == 0 {
            lemma_refused(o, chat, "Argument <contact-id> missing."@);
        } else {
            match number(o.arg1()) {
                Ok(n) => {
                    lemma_quiet(o, chat, DeltaRequest::DeleteContact { id: n });
                },
                Err(error) => {
                    lemma_refused(o, chat, error);
                },
            }
        }
    }
    if o.verb() == "block"@ {
        if o.arg1().len() == 0 {
            lemma_refused(o, chat, "Argument <contact-id> missing."@);
        } else {
            match number(o.arg1()) {
                Ok(n) => {
                    lemma_quiet(o, chat, DeltaRequest::BlockContact { id: n });
                },
                Err(error) => {
                    lemma_refused(o, chat, error);
                },
            }
        }
    }
    if o.verb() == "unblock"@ {
        if o.arg1().len() == 0 {
            lemma_refused(o, chat, "Argument <contact-id> missing."@);
        } else {
            match number(o.arg1()) {
                Ok(n) => {
                    lemma_quiet(o, chat, DeltaRequest::UnblockContact { id: n });
                },
                Err(error) => {
                    lemma_refused(o, chat, error);
                },
            }
        }
    }
}

proof fn lemma_contacts_are_listed(o: Order, chat: Option<ChatInfo>)
    ensures
        (o.verb() == "listcontacts"@ || o.verb() == "contacts"@) ==> o.verb() != "chat"@ && ({
            command(o.line, chat) == (CmdStepModel::Ask {
                request: Request::Delta(DeltaRequest::ListContacts {
                    verified_only: false,
                    query: o.arg1(),
                }),
                after: Cmdline::ContactsListed { after: " contacts."@ },
            })
        }),
        (o.verb() == "listverified"@) ==> o.verb() != "chat"@ && ({
            command(o.line, chat) == (CmdStepModel::Ask {
                request: Request::Delta(DeltaRequest::ListContacts {
                    verified_only: true,
                    query: o.arg1(),
                }),
                after: Cmdline::ContactsListed { after: " contacts."@ },
            })
        }),
        (o.verb() == "listblocked"@) ==> o.verb() != "chat"@ && ({
            command(o.line, chat) == (CmdStepModel::Ask {
                request: Request::Delta(DeltaRequest::ListBlocked),
                after: Cmdline::ContactsListed { after: " blocked contacts."@ },
            })
        }),
{
    reveal(command);
    lemma_marks();
}

/// The commands that list contacts ask for all of them, for the verified ones or for the blocked
/// ones, and show all that are found, and how many they are.
pub proof fn law_contacts_are_listed(o: Order, chat: Option<ChatInfo>)
    requires
        o.steps >= 4,
        o.has_selected(chat),
    ensures
        (o.verb() == "listcontacts"@ || o.verb() == "contacts"@) ==> ({
            o.shows_contacts(
                DeltaRequest::ListContacts { verified_only: false, query: o.arg1() },
                " contacts."@,
            )
        }),
        (o.verb() == "listverified"@) ==> ({
            o.shows_contacts(
                DeltaRequest::ListContacts { verified_only: true, query: o.arg1() },
                " contacts."@,
            )
        }),
        (o.verb() == "listblocked"@) ==> ({
            o.shows_contacts(DeltaRequest::ListBlocked, " blocked contacts."@)
        }),
{
    lemma_contacts_are_listed(o, chat);
    if o.verb() == "listcontacts"@ || o.verb() == "contacts"@ {
        lemma_contacts(
            o,
            chat,
            DeltaRequest::ListContacts { verified_only: false, query: o.arg1() },
            " contacts."@,
        );
    }
    if o.verb() == "listverified"@ {
        lemma_contacts(
            o,
            chat,
            DeltaRequest::ListContacts { verified_only: true, query: o.arg1() },
            " contacts."@,
        );
    }
    if o.verb() == "listblocked"@ {
        lemma_contacts(o, chat, DeltaRequest::ListBlocked, " blocked contacts."@);
    }
}

proof fn lemma_codes_and_files_are_looked_at(o: Order, chat: Option<ChatInfo>)
    ensures
        (o.verb() == "checkqr"@) ==> o.verb() != "chat"@ && ({
            if o.arg1().len() == 0 {
                command(o.line, chat) == (CmdStepModel::Fail {
                    error: "Argument <qr-content> missing."@,
                })
            } else {
                command(o.line, chat) == (CmdStepModel::Ask {
                    request: Request::Delta(DeltaRequest::CheckQr { content: o.arg1() }),
                    after: Cmdline::Framed { before: "qr="@, after: ""@ },
                })
            }
        }),
        (o.verb() == "setqr"@) ==> o.verb() != "chat"@ && ({
            if o.arg1().len() == 0 {
                command(o.line, chat) == (CmdStepModel::Fail {
                    error: "Argument <qr-content> missing."@,
                })
            } else {
                command(o.line, chat) == (CmdStepModel::Ask {
                    request: Request::Delta(DeltaRequest::SetConfigFromQr { content: o.arg1() }),
                    after: Cmdline::QrSet,
                })
            }
        }),
        (o.verb() == "fileinfo"@) ==> o.verb() != "chat"@ && ({
            if o.arg1().len() == 0 {
                command(o.line, chat) == (CmdStepModel::Fail { error: "Argument <file> missing."@ })
            } else {
                command(o.line, chat) == (CmdStepModel::Ask {
                    request: Request::Delta(DeltaRequest::ImageSize { file: o.arg1() }),
                    after: Cmdline::FileMeasured,
                })
            }
        }),
{
    reveal(command);
    lemma_marks();
}

/// The commands on codes and files look at exactly what is named: a code is checked, or the account
/// is set up by it; an image is measured.
pub proof fn law_codes_and_files_are_looked_at(o: Order, chat: Option<ChatInfo>)
    requires
        o.steps >= 3,
        o.has_selected(chat),
    ensures
        (o.verb() == "checkqr"@) ==> ({
            if o.arg1().len() == 0 {
                o.refuses("Argument <qr-content> missing."@)
            } else {
                o.frames(DeltaRequest::CheckQr { content: o.arg1() }, "qr="@, ""@)
            }
        }),
        (o.verb() == "setqr"@) ==> ({
            if o.arg1().len() == 0 {
                o.refuses("Argument <qr-content> missing."@)
            } else {
                o.sets_up_by(o.arg1())
            }
        }),
        (o.verb() == "fileinfo"@) ==> ({
            if o.arg1().len() == 0 {
                o.refuses("Argument <file> missing."@)
            } else {
                o.measures(o.arg1())
            }
        }),
{
    lemma_codes_and_files_are_looked_at(o, chat);
    if o.verb() == "checkqr"@ {
        if o.arg1().len() == 0 {
            lemma_refused(o, chat, "Argument <qr-content> missing."@);
        } else {
            lemma_framed(o, chat, DeltaRequest::CheckQr { content: o.arg1() }, "qr="@, ""@);
        }
    }
    if o.verb() == "setqr"@ {
        if o.arg1().len() == 0 {
            lemma_refused(o, chat, "Argument <qr-content> missing."@);
        } else {
            lemma_set_up_by(o, chat);
        }
    }
    if o.verb() == "fileinfo"@ {
        if o.arg1().len() == 0 {
            lemma_refused(o, chat, "Argument <file> missing."@);
        } else {
            lemma_measured(o, chat);
        }
    }
}

proof fn lemma_providers_and_deletions_are_looked_up(o: Order, chat: Option<ChatInfo>)
    ensures
        (o.verb() == "providerinfo"@) ==> o.verb() != "chat"@ && ({
            if o.arg1().len() == 0 {
                command(o.line, chat) == (CmdStepModel::Fail { error: "Argument <addr> missing."@ })
            } else {
                command(o.line, chat) == (CmdStepModel::Ask {
                    request: Request::Delta(DeltaRequest::GetSocks5Enabled),
                    after: Cmdline::ProviderSocks { addr: o.arg1() },
                })
            }
        }),
        (o.verb() == "estimatedeletion"@) ==> o.verb() != "chat"@ && ({
            if o.arg1().len() == 0 {
                command(o.line, chat) == (CmdStepModel::Fail {
                    error: "Argument <seconds> missing"@,
                })
            } else {
                match signed_number(o.arg1()) {
                    Ok(n) => {
                        command(o.line, chat) == (CmdStepModel::Ask {
                            request: Request::Delta(DeltaRequest::EstimateDeletion {
                                from_server: false,
                                seconds: n,
                            }),
                            after: Cmdline::DeviceCounted { seconds: n },
                        })
                    },
                    Err(error) => {
                        command(o.line, chat) == (CmdStepModel::Fail { error: error })
                    },
                }
            }
        }),
{
    reveal(command);
    lemma_marks();
}

/// The command on providers asks for what is known of the provider of the address that is named, in
/// the way the network is set up; the one on deletions counts the messages that are older than is
/// named, on the device and on the server.
pub proof fn law_providers_and_deletions_are_looked_up(o: Order, chat: Option<ChatInfo>)
    requires
        o.steps >= 4,
        o.has_selected(chat),
    ensures
        (o.verb() == "providerinfo"@) ==> ({
            if o.arg1().len() == 0 {
                o.refuses("Argument <addr> missing."@)
            } else {
                o.shows_provider(o.arg1())
            }
        }),
        (o.verb() == "estimatedeletion"@) ==> ({
            if o.arg1().len() == 0 {
                o.refuses("Argument <seconds> missing"@)
            } else {
                match signed_number(o.arg1()) {
                    Ok(n) => {
                        o.counts_deletions(n)
                    },
                    Err(error) => {
                        o.refuses(error)
                    },
                }
            }
        }),
{
    lemma_providers_and_deletions_are_looked_up(o, chat);
    if o.verb() == "providerinfo"@ {
        if o.arg1().len() == 0 {
            lemma_refused(o, chat, "Argument <addr> missing."@);
        } else {
            lemma_provider(o, chat);
        }
    }
    if o.verb() == "estimatedeletion"@ {
        if o.arg1().len() == 0 {
            lemma_refused(o, chat, "Argument <seconds> missing"@);
        } else {
            match signed_number(o.arg1()) {
                Ok(n) => {
                    lemma_deletions(o, chat, n);
                },
                Err(error) => {
                    lemma_refused(o, chat, error);
                },
            }
        }
    }
}

proof fn lemma_contact_is_looked_up(o: Order, chat: Option<ChatInfo>)
    ensures
        (o.verb() == "contactinfo"@) ==> o.verb() != "chat"@ && ({
            if o.arg1().len() == 0 {
                command(o.line, chat) == (CmdStepModel::Fail {
                    error: "Argument <contact-id> missing."@,
                })
            } else {
                match number(o.arg1()) {
                    Ok(n) => {
                        command(o.line, chat) == (CmdStepModel::Ask {
                            request: Request::Delta(DeltaRequest::GetContact { id: n }),
                            after: Cmdline::ContactView { stage: ContactView::Loaded { id: n } },
                        })
                    },
                    Err(error) => {
                        command(o.line, chat) == (CmdStepModel::Fail { error: error })
                    },
                }
            }
        }),
{
    reveal(command);
    lemma_marks();
}

/// The command on one contact asks for the contact that is named first.
pub proof fn law_contact_is_looked_up(o: Order, chat: Option<ChatInfo>)
    requires
        o.steps >= 3,
        o.has_selected(chat),
    ensures
        (o.verb() == "contactinfo"@) ==> ({
            if o.arg1().len() == 0 {
                o.refuses("Argument <contact-id> missing."@)
            } else {
                match number(o.arg1()) {
                    Ok(n) => {
                        o.asks_first(DeltaRequest::GetContact { id: n })
                    },
                    Err(error) => {
                        o.refuses(error)
                    },
                }
            }
        }),
{
    lemma_contact_is_looked_up(o, chat);
    if o.verb() == "contactinfo"@ {
        if o.arg1().len() == 0 {
            lemma_refused(o, chat, "Argument <contact-id> missing."@);
        } else {
            match number(o.arg1()) {
                Ok(n) => {
                    lemma_first(
                        o,
                        chat,
                        DeltaRequest::GetContact { id: n },
                        Cmdline::ContactView { stage: ContactView::Loaded { id: n } },
                    );
                },
                Err(error) => {
                    lemma_refused(o, chat, error);
                },
            }
        }
    }
}

proof fn lemma_members_are_shown(o: Order, chat: Option<ChatInfo>)
    ensures
        (o.verb() == "chatinfo"@) ==> o.verb() != "chat"@ && ({
            match chat {
                Some(selected) => {
                    command(o.line, chat) == (CmdStepModel::Ask {
                        request: Request::Delta(DeltaRequest::ChatContacts { chat: selected.id }),
                        after: Cmdline::Members { chat: selected.id },
                    })
                },
                None => {
                    command(o.line, chat) == (CmdStepModel::Fail { error: "No chat selected."@ })
                },
            }
        }),
{
    reveal(command);
    lemma_marks();
}

/// The command on the members of the selected chat lists all of them, and says how many they are
/// and whether places are sent to the chat.
pub proof fn law_members_are_shown(o: Order, chat: Option<ChatInfo>)
    requires
        o.steps >= 5,
        o.has_selected(chat),
    ensures
        (o.verb() == "chatinfo"@) ==> ({
            match chat {
                Some(selected) => {
                    o.shows_members(selected.id)
                },
                None => {
                    o.refuses("No chat selected."@)
                },
            }
        }),
{
    lemma_members_are_shown(o, chat);
    if o.verb() == "chatinfo"@ {
        match chat {
            Some(selected) => {
                lemma_members(o, chat, selected.id);
            },
            None => {
                lemma_refused(o, chat, "No chat selected."@);
            },
        }
    }
}

/// The commands that there are.
pub open spec fn is_known(verb: Seq<char>) -> bool {
    ||| verb == "chat"@
    ||| verb == "help"@
    ||| verb == "?"@
    ||| verb == "initiate-key-transfer"@
    ||| verb == "get-setupcodebegin"@
    ||| verb == "continue-key-transfer"@
    ||| verb == "has-backup"@
    ||| verb == "import-backup"@
    ||| verb == "import-keys"@
    ||| verb == "export-setup"@
    ||| verb == "poke"@
    ||| verb == "stop"@
    ||| verb == "set"@
    ||| verb == "get"@
    ||| verb == "info"@
    ||| verb == "maybenetwork"@
    ||| verb == "housekeeping"@
    ||| verb == "listchats"@
    ||| verb == "chats"@
    ||| verb == "listarchived"@
    ||| verb == "createchat"@
    ||| verb == "creategroup"@
    ||| verb == "createbroadcast"@
    ||| verb == "createprotected"@
    ||| verb == "addmember"@
    ||| verb == "removemember"@
    ||| verb == "groupname"@
    ||| verb == "groupimage"@
    ||| verb == "chatinfo"@
    ||| verb == "getlocations"@
    ||| verb == "sendlocations"@
    ||| verb == "setlocation"@
    ||| verb == "dellocations"@
    ||| verb == "archive"@
    ||| verb == "unarchive"@
    ||| verb == "unpin"@
    ||| verb == "pin"@
    ||| verb == "mute"@
    ||| verb == "unmute"@
    ||| verb == "protect"@
    ||| verb == "unprotect"@
    ||| verb == "delchat"@
    ||| verb == "accept"@
    ||| verb == "blockchat"@
    ||| verb == "send"@
    ||| verb == "sendempty"@
    ||| verb == "sendimage"@
    ||| verb == "sendsticker"@
    ||| verb == "sendfile"@
    ||| verb == "sendhtml"@
    ||| verb == "sendsyncmsg"@
    ||| verb == "videochat"@
    ||| verb == "listmsgs"@
    ||| verb == "draft"@
    ||| verb == "devicemsg"@
    ||| verb == "listmedia"@
    ||| verb == "msginfo"@
    ||| verb == "download"@
    ||| verb == "listfresh"@
    ||| verb == "forward"@
    ||| verb == "markseen"@
    ||| verb == "delmsg"@
    ||| verb == "listcontacts"@
    ||| verb == "contacts"@
    ||| verb == "listverified"@
    ||| verb == "addcontact"@
    ||| verb == "contactinfo"@
    ||| verb == "delcontact"@
    ||| verb == "block"@
    ||| verb == "unblock"@
    ||| verb == "listblocked"@
    ||| verb == "checkqr"@
    ||| verb == "setqr"@
    ||| verb == "providerinfo"@
    ||| verb == "fileinfo"@
    ||| verb == "estimatedeletion"@
}

/// A command that there is not is refused, by its name; where nothing is said, nothing is done.
pub proof fn law_unknown_commands_are_refused(o: Order, chat: Option<ChatInfo>)
    requires
        o.steps >= 3,
        o.has_selected(chat),
        !is_known(o.verb()),
    ensures
        if o.verb().len() == 0 {
            o.answers_at_once(""@)
        } else {
            o.refuses("Unknown command: \""@ + o.verb() + "\" type ? for help."@)
        },
{
    reveal(command);
    if o.verb().len() == 0 {
        lemma_answered(o, chat, ""@);
    } else {
        lemma_refused(o, chat, "Unknown command: \""@ + o.verb() + "\" type ? for help."@);
    }
}

}
