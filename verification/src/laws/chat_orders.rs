//! What the commands on chats do.
use vstd::prelude::*;

use crate::cmdline::{command_next, location_lines, CmdStepModel, Cmdline, CmdlineModel};
use crate::cmdline::chats::ChatList;
use crate::cmdline::commands::{command, long_number, number, signed_number};
use crate::laws::orders::{lemma_asked, lemma_framed, lemma_quiet, lemma_refused, lemma_told, Order};
use crate::laws::words::lemma_marks;
use crate::numbers::signed_digits;
use crate::protocol::{
    ChatInfo, DeltaRequest, DeltaRequestModel, Mute, Reply, Request, Value, Visibility,
};
use crate::run::lemma_asked_grows;
use crate::run::performed;
use crate::task::{lemma_cmdline, Task};

verus! {

broadcast use lemma_cmdline;

impl Order {
    /// It sets the place, asks for nothing else, and says whether places still have to be sent.
    pub open spec fn sets_location(self, latitude: Seq<char>, longitude: Seq<char>) -> bool {
        let request = DeltaRequest::SetLocation { latitude, longitude };
        &&& self.asks_only(request)
        &&& match self.hears(request) {
            Reply::Got(Value::Flag(true)) => self.says("Success, streaming should be continued."@),
            Reply::Got(Value::Flag(false)) => self.says("Success, streaming can be stoppped."@),
            Reply::Failed(error) => self.fails(error),
            _ => true,
        }
    }

    /// It asks for places, and for nothing else, and shows all of them.
    pub open spec fn lists_locations(self, request: DeltaRequestModel) -> bool {
        &&& self.asks_only(request)
        &&& match self.hears(request) {
            Reply::Locations(list) => self.says(
                if list@.len() == 0 {
                    "No locations."@
                } else {
                    location_lines(list@)
                },
            ),
            Reply::Failed(error) => self.fails(error),
            _ => true,
        }
    }
}

proof fn lemma_location_set(o: Order, chat: Option<ChatInfo>)
    requires
        o.steps >= 3,
        o.has_selected(chat),
        o.verb() != "chat"@,
        command(o.line, chat) == (CmdStepModel::Ask {
            request: Request::Delta(
                DeltaRequest::SetLocation { latitude: o.arg1(), longitude: o.arg2() },
            ),
            after: Cmdline::LocationSet,
        }),
    ensures
        o.sets_location(o.arg1(), o.arg2()),
{
    let request = DeltaRequest::SetLocation { latitude: o.arg1(), longitude: o.arg2() };
    lemma_asked(o, chat, request, Cmdline::LocationSet);
    reveal(command_next);
}

proof fn lemma_locations_listed(o: Order, chat: Option<ChatInfo>, request: DeltaRequestModel)
    requires
        o.steps >= 3,
        o.has_selected(chat),
        o.verb() != "chat"@,
        command(o.line, chat) == (CmdStepModel::Ask {
            request: Request::Delta(request),
            after: Cmdline::LocationsListed,
        }),
    ensures
        o.lists_locations(request),
{
    lemma_asked(o, chat, request, Cmdline::LocationsListed);
    reveal(command_next);
}

/// How a command begins that asks for several things.
pub proof fn lemma_first(
    o: Order,
    chat: Option<ChatInfo>,
    request: DeltaRequestModel,
    after: CmdlineModel,
)
    requires
        o.steps >= 3,
        o.has_selected(chat),
        o.verb() != "chat"@,
        command(o.line, chat) == (CmdStepModel::Ask { request: Request::Delta(request), after }),
    ensures
        o.asks_first(request),
{
    lemma_asked(o, chat, request, after);
    lemma_asked_grows(
        Task::Cmdline { chat_id: o.chat_id, stage: after },
        o.hears(request),
        o.caches,
        performed(o.before(), Request::Delta(request)),
        o.left(),
    );
}

proof fn lemma_chats_are_made(o: Order, chat: Option<ChatInfo>)
    ensures
        (o.verb() == "createchat"@) ==> o.verb() != "chat"@ && ({
            if o.arg1().len() == 0 {
                command(o.line, chat) == (CmdStepModel::Fail {
                    error: "Argument <contact-id> missing."@,
                })
            } else {
                match number(o.arg1()) {
                    Ok(n) => {
                        command(o.line, chat) == (CmdStepModel::Ask {
                            request: Request::Delta(DeltaRequest::CreateChatShown { contact: n }),
                            after: Cmdline::Framed {
                                before: "Single#"@,
                                after: " created successfully."@,
                            },
                        })
                    },
                    Err(error) => {
                        command(o.line, chat) == (CmdStepModel::Fail { error: error })
                    },
                }
            }
        }),
        (o.verb() == "creategroup"@) ==> o.verb() != "chat"@ && ({
            if o.arg1().len() == 0 {
                command(o.line, chat) == (CmdStepModel::Fail { error: "Argument <name> missing."@ })
            } else {
                command(o.line, chat) == (CmdStepModel::Ask {
                    request: Request::Delta(DeltaRequest::CreateGroup {
                        name: o.arg1(),
                        protected: false,
                    }),
                    after: Cmdline::Framed { before: "Group#"@, after: " created successfully."@ },
                })
            }
        }),
        (o.verb() == "createprotected"@) ==> o.verb() != "chat"@ && ({
            if o.arg1().len() == 0 {
                command(o.line, chat) == (CmdStepModel::Fail { error: "Argument <name> missing."@ })
            } else {
                command(o.line, chat) == (CmdStepModel::Ask {
                    request: Request::Delta(DeltaRequest::CreateGroup {
                        name: o.arg1(),
                        protected: true,
                    }),
                    after: Cmdline::Framed {
                        before: "Group#"@,
                        after: " created and protected successfully."@,
                    },
                })
            }
        }),
        (o.verb() == "createbroadcast"@) ==> o.verb() != "chat"@ && ({
            command(o.line, chat) == (CmdStepModel::Ask {
                request: Request::Delta(DeltaRequest::CreateBroadcast),
                after: Cmdline::Framed { before: "Broadcast#"@, after: " created successfully."@ },
            })
        }),
{
    reveal(command);
    lemma_marks();
}

/// The commands that make a chat ask for exactly the chat that they name: one with a contact, a
/// group with a name that is protected or not, or a list to broadcast to. They say which chat came
/// of it.
pub proof fn law_chats_are_made(o: Order, chat: Option<ChatInfo>)
    requires
        o.steps >= 3,
        o.has_selected(chat),
    ensures
        (o.verb() == "createchat"@) ==> ({
            if o.arg1().len() == 0 {
                o.refuses("Argument <contact-id> missing."@)
            } else {
                match number(o.arg1()) {
                    Ok(n) => {
                        o.frames(
                            DeltaRequest::CreateChatShown { contact: n },
                            "Single#"@,
                            " created successfully."@,
                        )
                    },
                    Err(error) => {
                        o.refuses(error)
                    },
                }
            }
        }),
        (o.verb() == "creategroup"@) ==> ({
            if o.arg1().len() == 0 {
                o.refuses("Argument <name> missing."@)
            } else {
                o.frames(
                    DeltaRequest::CreateGroup { name: o.arg1(), protected: false },
                    "Group#"@,
                    " created successfully."@,
                )
            }
        }),
        (o.verb() == "createprotected"@) ==> ({
            if o.arg1().len() == 0 {
                o.refuses("Argument <name> missing."@)
            } else {
                o.frames(
                    DeltaRequest::CreateGroup { name: o.arg1(), protected: true },
                    "Group#"@,
                    " created and protected successfully."@,
                )
            }
        }),
        (o.verb() == "createbroadcast"@) ==> ({
            o.frames(DeltaRequest::CreateBroadcast, "Broadcast#"@, " created successfully."@)
        }),
{
    lemma_chats_are_made(o, chat);
    if o.verb() == "createchat"@ {
        if o.arg1().len() == 0 {
            lemma_refused(o, chat, "Argument <contact-id> missing."@);
        } else {
            match number(o.arg1()) {
                Ok(n) => {
                    lemma_framed(
                        o,
                        chat,
                        DeltaRequest::CreateChatShown { contact: n },
                        "Single#"@,
                        " created successfully."@,
                    );
                },
                Err(error) => {
                    lemma_refused(o, chat, error);
                },
            }
        }
    }
    if o.verb() == "creategroup"@ {
        if o.arg1().len() == 0 {
            lemma_refused(o, chat, "Argument <name> missing."@);
        } else {
            lemma_framed(
                o,
                chat,
                DeltaRequest::CreateGroup { name: o.arg1(), protected: false },
                "Group#"@,
                " created successfully."@,
            );
        }
    }
    if o.verb() == "createprotected"@ {
        if o.arg1().len() == 0 {
            lemma_refused(o, chat, "Argument <name> missing."@);
        } else {
            lemma_framed(
                o,
                chat,
                DeltaRequest::CreateGroup { name: o.arg1(), protected: true },
                "Group#"@,
                " created and protected successfully."@,
            );
        }
    }
    if o.verb() == "createbroadcast"@ {
        lemma_framed(
            o,
            chat,
            DeltaRequest::CreateBroadcast,
            "Broadcast#"@,
            " created successfully."@,
        );
    }
}

proof fn lemma_members_come_and_go(o: Order, chat: Option<ChatInfo>)
    ensures
        (o.verb() == "addmember"@) ==> o.verb() != "chat"@ && ({
            match chat {
                Some(selected) => {
                    if o.arg1().len() == 0 {
                        command(o.line, chat) == (CmdStepModel::Fail {
                            error: "Argument <contact-id> missing."@,
                        })
                    } else {
                        match number(o.arg1()) {
                            Ok(n) => {
                                command(o.line, chat) == (CmdStepModel::Ask {
                                    request: Request::Delta(DeltaRequest::AddMember {
                                        chat: selected.id,
                                        contact: n,
                                    }),
                                    after: Cmdline::Told { text: "Contact added to chat."@ },
                                })
                            },
                            Err(error) => {
                                command(o.line, chat) == (CmdStepModel::Fail { error: error })
                            },
                        }
                    }
                },
                None => {
                    command(o.line, chat) == (CmdStepModel::Fail { error: "No chat selected"@ })
                },
            }
        }),
        (o.verb() == "removemember"@) ==> o.verb() != "chat"@ && ({
            match chat {
                Some(selected) => {
                    if o.arg1().len() == 0 {
                        command(o.line, chat) == (CmdStepModel::Fail {
                            error: "Argument <contact-id> missing."@,
                        })
                    } else {
                        match number(o.arg1()) {
                            Ok(n) => {
                                command(o.line, chat) == (CmdStepModel::Ask {
                                    request: Request::Delta(DeltaRequest::RemoveMember {
                                        chat: selected.id,
                                        contact: n,
                                    }),
                                    after: Cmdline::Told { text: "Contact added to chat."@ },
                                })
                            },
                            Err(error) => {
                                command(o.line, chat) == (CmdStepModel::Fail { error: error })
                            },
                        }
                    }
                },
                None => {
                    command(o.line, chat) == (CmdStepModel::Fail { error: "No chat selected."@ })
                },
            }
        }),
{
    reveal(command);
    lemma_marks();
}

/// The commands on the members of a chat add the contact that is named to the selected chat, or
/// remove it from there.
pub proof fn law_members_come_and_go(o: Order, chat: Option<ChatInfo>)
    requires
        o.steps >= 3,
        o.has_selected(chat),
    ensures
        (o.verb() == "addmember"@) ==> ({
            match chat {
                Some(selected) => {
                    if o.arg1().len() == 0 {
                        o.refuses("Argument <contact-id> missing."@)
                    } else {
                        match number(o.arg1()) {
                            Ok(n) => {
                                o.tells(
                                    DeltaRequest::AddMember { chat: selected.id, contact: n },
                                    "Contact added to chat."@,
                                )
                            },
                            Err(error) => {
                                o.refuses(error)
                            },
                        }
                    }
                },
                None => {
                    o.refuses("No chat selected"@)
                },
            }
        }),
        (o.verb() == "removemember"@) ==> ({
            match chat {
                Some(selected) => {
                    if o.arg1().len() == 0 {
                        o.refuses("Argument <contact-id> missing."@)
                    } else {
                        match number(o.arg1()) {
                            Ok(n) => {
                                o.tells(
                                    DeltaRequest::RemoveMember { chat: selected.id, contact: n },
                                    "Contact added to chat."@,
                                )
                            },
                            Err(error) => {
                                o.refuses(error)
                            },
                        }
                    }
                },
                None => {
                    o.refuses("No chat selected."@)
                },
            }
        }),
{
    lemma_members_come_and_go(o, chat);
    if o.verb() == "addmember"@ {
        match chat {
            Some(selected) => {
                if o.arg1().len() == 0 {
                    lemma_refused(o, chat, "Argument <contact-id> missing."@);
                } else {
                    match number(o.arg1()) {
                        Ok(n) => {
                            lemma_told(
                                o,
                                chat,
                                DeltaRequest::AddMember { chat: selected.id, contact: n },
                                "Contact added to chat."@,
                            );
                        },
                        Err(error) => {
                            lemma_refused(o, chat, error);
                        },
                    }
                }
            },
            None => {
                lemma_refused(o, chat, "No chat selected"@);
            },
        }
    }
    if o.verb() == "removemember"@ {
        match chat {
            Some(selected) => {
                if o.arg1().len() == 0 {
                    lemma_refused(o, chat, "Argument <contact-id> missing."@);
                } else {
                    match number(o.arg1()) {
                        Ok(n) => {
                            lemma_told(
                                o,
                                chat,
                                DeltaRequest::RemoveMember { chat: selected.id, contact: n },
                                "Contact added to chat."@,
                            );
                        },
                        Err(error) => {
                            lemma_refused(o, chat, error);
                        },
                    }
                }
            },
            None => {
                lemma_refused(o, chat, "No chat selected."@);
            },
        }
    }
}

proof fn lemma_selected_chat_is_renamed_and_pictured(o: Order, chat: Option<ChatInfo>)
    ensures
        (o.verb() == "groupname"@) ==> o.verb() != "chat"@ && ({
            match chat {
                Some(selected) => {
                    if o.arg1().len() == 0 {
                        command(o.line, chat) == (CmdStepModel::Fail {
                            error: "Argument <name> missing."@,
                        })
                    } else {
                        command(o.line, chat) == (CmdStepModel::Ask {
                            request: Request::Delta(DeltaRequest::SetChatName {
                                chat: selected.id,
                                name: o.arg1(),
                            }),
                            after: Cmdline::Told { text: "Chat name set"@ },
                        })
                    }
                },
                None => {
                    command(o.line, chat) == (CmdStepModel::Fail { error: "No chat selected."@ })
                },
            }
        }),
        (o.verb() == "groupimage"@) ==> o.verb() != "chat"@ && ({
            match chat {
                Some(selected) => {
                    if o.arg1().len() == 0 {
                        command(o.line, chat) == (CmdStepModel::Ask {
                            request: Request::Delta(DeltaRequest::SetChatImage {
                                chat: selected.id,
                                file: None,
                            }),
                            after: Cmdline::Told { text: "Chat image set"@ },
                        })
                    } else {
                        command(o.line, chat) == (CmdStepModel::Ask {
                            request: Request::Delta(DeltaRequest::SetChatImage {
                                chat: selected.id,
                                file: Some(o.arg1()),
                            }),
                            after: Cmdline::Told { text: "Chat image set"@ },
                        })
                    }
                },
                None => {
                    command(o.line, chat) == (CmdStepModel::Fail { error: "No chat selected."@ })
                },
            }
        }),
{
    reveal(command);
    lemma_marks();
}

/// The commands on the name and the image of a chat change those of the selected chat, to what is
/// named.
pub proof fn law_selected_chat_is_renamed_and_pictured(o: Order, chat: Option<ChatInfo>)
    requires
        o.steps >= 3,
        o.has_selected(chat),
    ensures
        (o.verb() == "groupname"@) ==> ({
            match chat {
                Some(selected) => {
                    if o.arg1().len() == 0 {
                        o.refuses("Argument <name> missing."@)
                    } else {
                        o.tells(
                            DeltaRequest::SetChatName { chat: selected.id, name: o.arg1() },
                            "Chat name set"@,
                        )
                    }
                },
                None => {
                    o.refuses("No chat selected."@)
                },
            }
        }),
        (o.verb() == "groupimage"@) ==> ({
            match chat {
                Some(selected) => {
                    if o.arg1().len() == 0 {
                        o.tells(
                            DeltaRequest::SetChatImage { chat: selected.id, file: None },
                            "Chat image set"@,
                        )
                    } else {
                        o.tells(
                            DeltaRequest::SetChatImage { chat: selected.id, file: Some(o.arg1()) },
                            "Chat image set"@,
                        )
                    }
                },
                None => {
                    o.refuses("No chat selected."@)
                },
            }
        }),
{
    lemma_selected_chat_is_renamed_and_pictured(o, chat);
    if o.verb() == "groupname"@ {
        match chat {
            Some(selected) => {
                if o.arg1().len() == 0 {
                    lemma_refused(o, chat, "Argument <name> missing."@);
                } else {
                    lemma_told(
                        o,
                        chat,
                        DeltaRequest::SetChatName { chat: selected.id, name: o.arg1() },
                        "Chat name set"@,
                    );
                }
            },
            None => {
                lemma_refused(o, chat, "No chat selected."@);
            },
        }
    }
    if o.verb() == "groupimage"@ {
        match chat {
            Some(selected) => {
                if o.arg1().len() == 0 {
                    lemma_told(
                        o,
                        chat,
                        DeltaRequest::SetChatImage { chat: selected.id, file: None },
                        "Chat image set"@,
                    );
                } else {
                    lemma_told(
                        o,
                        chat,
                        DeltaRequest::SetChatImage { chat: selected.id, file: Some(o.arg1()) },
                        "Chat image set"@,
                    );
                }
            },
            None => {
                lemma_refused(o, chat, "No chat selected."@);
            },
        }
    }
}

proof fn lemma_locations_are_sent_and_set(o: Order, chat: Option<ChatInfo>)
    ensures
        (o.verb() == "sendlocations"@) ==> o.verb() != "chat"@ && ({
            match chat {
                Some(selected) => {
                    if o.arg1().len() == 0 {
                        command(o.line, chat) == (CmdStepModel::Fail {
                            error: "No timeout given."@,
                        })
                    } else {
                        match signed_number(o.arg1()) {
                            Ok(n) => {
                                command(o.line, chat) == (CmdStepModel::Ask {
                                    request: Request::Delta(DeltaRequest::SendLocations {
                                        chat: selected.id,
                                        seconds: n,
                                    }),
                                    after: Cmdline::Told {
                                        text: "Locations will be sent to Chat#"@ + selected.label@
                                            + " for "@ + signed_digits(n as int)
                                            + " seconds. Use 'setlocation <lat> <lng>' to play around."@,
                                    },
                                })
                            },
                            Err(error) => {
                                command(o.line, chat) == (CmdStepModel::Fail { error: error })
                            },
                        }
                    }
                },
                None => {
                    command(o.line, chat) == (CmdStepModel::Fail { error: "No chat selected."@ })
                },
            }
        }),
        (o.verb() == "setlocation"@) ==> o.verb() != "chat"@ && ({
            if o.arg1().len() == 0 || o.arg2().len() == 0 {
                command(o.line, chat) == (CmdStepModel::Fail {
                    error: "Latitude or longitude not given."@,
                })
            } else {
                command(o.line, chat) == (CmdStepModel::Ask {
                    request: Request::Delta(DeltaRequest::SetLocation {
                        latitude: o.arg1(),
                        longitude: o.arg2(),
                    }),
                    after: Cmdline::LocationSet,
                })
            }
        }),
        (o.verb() == "dellocations"@) ==> o.verb() != "chat"@ && ({
            command(o.line, chat) == (CmdStepModel::Ask {
                request: Request::Delta(DeltaRequest::DeleteLocations),
                after: Cmdline::Quiet,
            })
        }),
        (o.verb() == "getlocations"@) ==> o.verb() != "chat"@ && ({
            match chat {
                Some(selected) => {
                    if number(o.arg1()) is Ok {
                        command(o.line, chat) == (CmdStepModel::Ask {
                            request: Request::Delta(DeltaRequest::Locations {
                                chat: selected.id,
                                contact: Some(number(o.arg1())->Ok_0),
                            }),
                            after: Cmdline::LocationsListed,
                        })
                    } else {
                        command(o.line, chat) == (CmdStepModel::Ask {
                            request: Request::Delta(DeltaRequest::Locations {
                                chat: selected.id,
                                contact: None,
                            }),
                            after: Cmdline::LocationsListed,
                        })
                    }
                },
                None => {
                    command(o.line, chat) == (CmdStepModel::Fail { error: "No chat selected."@ })
                },
            }
        }),
{
    reveal(command);
    lemma_marks();
}

/// The commands on locations: they are sent to the selected chat for as long as is named; the place
/// is set to the two coordinates; all places are deleted.
pub proof fn law_locations_are_sent_and_set(o: Order, chat: Option<ChatInfo>)
    requires
        o.steps >= 3,
        o.has_selected(chat),
    ensures
        (o.verb() == "sendlocations"@) ==> ({
            match chat {
                Some(selected) => {
                    if o.arg1().len() == 0 {
                        o.refuses("No timeout given."@)
                    } else {
                        match signed_number(o.arg1()) {
                            Ok(n) => {
                                o.tells(
                                    DeltaRequest::SendLocations { chat: selected.id, seconds: n },
                                    "Locations will be sent to Chat#"@ + selected.label@ + " for "@
                                        + signed_digits(n as int)
                                        + " seconds. Use 'setlocation <lat> <lng>' to play around."@,
                                )
                            },
                            Err(error) => {
                                o.refuses(error)
                            },
                        }
                    }
                },
                None => {
                    o.refuses("No chat selected."@)
                },
            }
        }),
        (o.verb() == "setlocation"@) ==> ({
            if o.arg1().len() == 0 || o.arg2().len() == 0 {
                o.refuses("Latitude or longitude not given."@)
            } else {
                o.sets_location(o.arg1(), o.arg2())
            }
        }),
        (o.verb() == "dellocations"@) ==> ({
            o.quietly(DeltaRequest::DeleteLocations)
        }),
        (o.verb() == "getlocations"@) ==> ({
            match chat {
                Some(selected) => {
                    if number(o.arg1()) is Ok {
                        o.lists_locations(DeltaRequest::Locations {
                            chat: selected.id,
                            contact: Some(number(o.arg1())->Ok_0),
                        })
                    } else {
                        o.lists_locations(DeltaRequest::Locations {
                            chat: selected.id,
                            contact: None,
                        })
                    }
                },
                None => {
                    o.refuses("No chat selected."@)
                },
            }
        }),
{
    lemma_locations_are_sent_and_set(o, chat);
    if o.verb() == "sendlocations"@ {
        match chat {
            Some(selected) => {
                if o.arg1().len() == 0 {
                    lemma_refused(o, chat, "No timeout given."@);
                } else {
                    match signed_number(o.arg1()) {
                        Ok(n) => {
                            lemma_told(
                                o,
                                chat,
                                DeltaRequest::SendLocations { chat: selected.id, seconds: n },
                                "Locations will be sent to Chat#"@ + selected.label@ + " for "@
                                    + signed_digits(n as int)
                                    + " seconds. Use 'setlocation <lat> <lng>' to play around."@,
                            );
                        },
                        Err(error) => {
                            lemma_refused(o, chat, error);
                        },
                    }
                }
            },
            None => {
                lemma_refused(o, chat, "No chat selected."@);
            },
        }
    }
    if o.verb() == "setlocation"@ {
        if o.arg1().len() == 0 || o.arg2().len() == 0 {
            lemma_refused(o, chat, "Latitude or longitude not given."@);
        } else {
            lemma_location_set(o, chat);
        }
    }
    if o.verb() == "dellocations"@ {
        lemma_quiet(o, chat, DeltaRequest::DeleteLocations);
    }
    if o.verb() == "getlocations"@ {
        match chat {
            Some(selected) => {
                if number(o.arg1()) is Ok {
                    lemma_locations_listed(
                        o,
                        chat,
                        DeltaRequest::Locations {
                            chat: selected.id,
                            contact: Some(number(o.arg1())->Ok_0),
                        },
                    );
                } else {
                    lemma_locations_listed(
                        o,
                        chat,
                        DeltaRequest::Locations { chat: selected.id, contact: None },
                    );
                }
            },
            None => {
                lemma_refused(o, chat, "No chat selected."@);
            },
        }
    }
}

proof fn lemma_chats_are_archived_and_pinned(o: Order, chat: Option<ChatInfo>)
    ensures
        (o.verb() == "archive"@) ==> o.verb() != "chat"@ && ({
            if o.arg1().len() == 0 {
                command(o.line, chat) == (CmdStepModel::Fail {
                    error: "Argument <chat-id> missing."@,
                })
            } else {
                match number(o.arg1()) {
                    Ok(n) => {
                        command(o.line, chat) == (CmdStepModel::Ask {
                            request: Request::Delta(DeltaRequest::SetVisibility {
                                chat: n,
                                visibility: Visibility::Archived,
                            }),
                            after: Cmdline::Quiet,
                        })
                    },
                    Err(error) => {
                        command(o.line, chat) == (CmdStepModel::Fail { error: error })
                    },
                }
            }
        }),
        (o.verb() == "unarchive"@ || o.verb() == "unpin"@) ==> o.verb() != "chat"@ && ({
            if o.arg1().len() == 0 {
                command(o.line, chat) == (CmdStepModel::Fail {
                    error: "Argument <chat-id> missing."@,
                })
            } else {
                match number(o.arg1()) {
                    Ok(n) => {
                        command(o.line, chat) == (CmdStepModel::Ask {
                            request: Request::Delta(DeltaRequest::SetVisibility {
                                chat: n,
                                visibility: Visibility::Normal,
                            }),
                            after: Cmdline::Quiet,
                        })
                    },
                    Err(error) => {
                        command(o.line, chat) == (CmdStepModel::Fail { error: error })
                    },
                }
            }
        }),
        (o.verb() == "pin"@) ==> o.verb() != "chat"@ && ({
            if o.arg1().len() == 0 {
                command(o.line, chat) == (CmdStepModel::Fail {
                    error: "Argument <chat-id> missing."@,
                })
            } else {
                match number(o.arg1()) {
                    Ok(n) => {
                        command(o.line, chat) == (CmdStepModel::Ask {
                            request: Request::Delta(DeltaRequest::SetVisibility {
                                chat: n,
                                visibility: Visibility::Pinned,
                            }),
                            after: Cmdline::Quiet,
                        })
                    },
                    Err(error) => {
                        command(o.line, chat) == (CmdStepModel::Fail { error: error })
                    },
                }
            }
        }),
{
    reveal(command);
    lemma_marks();
}

/// The commands on where a chat stands put the chat that is named among the archived ones, the
/// pinned ones, or the others.
pub proof fn law_chats_are_archived_and_pinned(o: Order, chat: Option<ChatInfo>)
    requires
        o.steps >= 3,
        o.has_selected(chat),
    ensures
        (o.verb() == "archive"@) ==> ({
            if o.arg1().len() == 0 {
                o.refuses("Argument <chat-id> missing."@)
            } else {
                match number(o.arg1()) {
                    Ok(n) => {
                        o.quietly(DeltaRequest::SetVisibility {
                            chat: n,
                            visibility: Visibility::Archived,
                        })
                    },
                    Err(error) => {
                        o.refuses(error)
                    },
                }
            }
        }),
        (o.verb() == "unarchive"@ || o.verb() == "unpin"@) ==> ({
            if o.arg1().len() == 0 {
                o.refuses("Argument <chat-id> missing."@)
            } else {
                match number(o.arg1()) {
                    Ok(n) => {
                        o.quietly(DeltaRequest::SetVisibility {
                            chat: n,
                            visibility: Visibility::Normal,
                        })
                    },
                    Err(error) => {
                        o.refuses(error)
                    },
                }
            }
        }),
        (o.verb() == "pin"@) ==> ({
            if o.arg1().len() == 0 {
                o.refuses("Argument <chat-id> missing."@)
            } else {
                match number(o.arg1()) {
                    Ok(n) => {
                        o.quietly(DeltaRequest::SetVisibility {
                            chat: n,
                            visibility: Visibility::Pinned,
                        })
                    },
                    Err(error) => {
                        o.refuses(error)
                    },
                }
            }
        }),
{
    lemma_chats_are_archived_and_pinned(o, chat);
    if o.verb() == "archive"@ {
        if o.arg1().len() == 0 {
            lemma_refused(o, chat, "Argument <chat-id> missing."@);
        } else {
            match number(o.arg1()) {
                Ok(n) => {
                    lemma_quiet(
                        o,
                        chat,
                        DeltaRequest::SetVisibility { chat: n, visibility: Visibility::Archived },
                    );
                },
                Err(error) => {
                    lemma_refused(o, chat, error);
                },
            }
        }
    }
    if o.verb() == "unarchive"@ || o.verb() == "unpin"@ {
        if o.arg1().len() == 0 {
            lemma_refused(o, chat, "Argument <chat-id> missing."@);
        } else {
            match number(o.arg1()) {
                Ok(n) => {
                    lemma_quiet(
                        o,
                        chat,
                        DeltaRequest::SetVisibility { chat: n, visibility: Visibility::Normal },
                    );
                },
                Err(error) => {
                    lemma_refused(o, chat, error);
                },
            }
        }
    }
    if o.verb() == "pin"@ {
        if o.arg1().len() == 0 {
            lemma_refused(o, chat, "Argument <chat-id> missing."@);
        } else {
            match number(o.arg1()) {
                Ok(n) => {
                    lemma_quiet(
                        o,
                        chat,
                        DeltaRequest::SetVisibility { chat: n, visibility: Visibility::Pinned },
                    );
                },
                Err(error) => {
                    lemma_refused(o, chat, error);
                },
            }
        }
    }
}

proof fn lemma_chats_are_muted(o: Order, chat: Option<ChatInfo>)
    ensures
        (o.verb() == "mute"@) ==> o.verb() != "chat"@ && ({
            if o.arg1().len() == 0 {
                command(o.line, chat) == (CmdStepModel::Fail {
                    error: "Argument <chat-id> missing."@,
                })
            } else {
                match number(o.arg1()) {
                    Ok(n) => {
                        if o.arg2().len() == 0 {
                            command(o.line, chat) == (CmdStepModel::Ask {
                                request: Request::Delta(DeltaRequest::SetMuted {
                                    chat: n,
                                    mute: Mute::Forever,
                                }),
                                after: Cmdline::Quiet,
                            })
                        } else {
                            match long_number(o.arg2()) {
                                Ok(m) => {
                                    command(o.line, chat) == (CmdStepModel::Ask {
                                        request: Request::Delta(DeltaRequest::SetMuted {
                                            chat: n,
                                            mute: Mute::ForSeconds(m),
                                        }),
                                        after: Cmdline::Quiet,
                                    })
                                },
                                Err(error) => {
                                    command(o.line, chat) == (CmdStepModel::Fail { error: error })
                                },
                            }
                        }
                    },
                    Err(error) => {
                        command(o.line, chat) == (CmdStepModel::Fail { error: error })
                    },
                }
            }
        }),
        (o.verb() == "unmute"@) ==> o.verb() != "chat"@ && ({
            if o.arg1().len() == 0 {
                command(o.line, chat) == (CmdStepModel::Fail {
                    error: "Argument <chat-id> missing."@,
                })
            } else {
                match number(o.arg1()) {
                    Ok(n) => {
                        command(o.line, chat) == (CmdStepModel::Ask {
                            request: Request::Delta(DeltaRequest::SetMuted {
                                chat: n,
                                mute: Mute::NotMuted,
                            }),
                            after: Cmdline::Quiet,
                        })
                    },
                    Err(error) => {
                        command(o.line, chat) == (CmdStepModel::Fail { error: error })
                    },
                }
            }
        }),
{
    reveal(command);
    lemma_marks();
}

/// The commands on the sound of a chat mute the chat that is named, for ever or for so many
/// seconds, or let it be heard again.
pub proof fn law_chats_are_muted(o: Order, chat: Option<ChatInfo>)
    requires
        o.steps >= 3,
        o.has_selected(chat),
    ensures
        (o.verb() == "mute"@) ==> ({
            if o.arg1().len() == 0 {
                o.refuses("Argument <chat-id> missing."@)
            } else {
                match number(o.arg1()) {
                    Ok(n) => {
                        if o.arg2().len() == 0 {
                            o.quietly(DeltaRequest::SetMuted { chat: n, mute: Mute::Forever })
                        } else {
                            match long_number(o.arg2()) {
                                Ok(m) => {
                                    o.quietly(DeltaRequest::SetMuted {
                                        chat: n,
                                        mute: Mute::ForSeconds(m),
                                    })
                                },
                                Err(error) => {
                                    o.refuses(error)
                                },
                            }
                        }
                    },
                    Err(error) => {
                        o.refuses(error)
                    },
                }
            }
        }),
        (o.verb() == "unmute"@) ==> ({
            if o.arg1().len() == 0 {
                o.refuses("Argument <chat-id> missing."@)
            } else {
                match number(o.arg1()) {
                    Ok(n) => {
                        o.quietly(DeltaRequest::SetMuted { chat: n, mute: Mute::NotMuted })
                    },
                    Err(error) => {
                        o.refuses(error)
                    },
                }
            }
        }),
{
    lemma_chats_are_muted(o, chat);
    if o.verb() == "mute"@ {
        if o.arg1().len() == 0 {
            lemma_refused(o, chat, "Argument <chat-id> missing."@);
        } else {
            match number(o.arg1()) {
                Ok(n) => {
                    if o.arg2().len() == 0 {
                        lemma_quiet(
                            o,
                            chat,
                            DeltaRequest::SetMuted { chat: n, mute: Mute::Forever },
                        );
                    } else {
                        match long_number(o.arg2()) {
                            Ok(m) => {
                                lemma_quiet(
                                    o,
                                    chat,
                                    DeltaRequest::SetMuted { chat: n, mute: Mute::ForSeconds(m) },
                                );
                            },
                            Err(error) => {
                                lemma_refused(o, chat, error);
                            },
                        }
                    }
                },
                Err(error) => {
                    lemma_refused(o, chat, error);
                },
            }
        }
    }
    if o.verb() == "unmute"@ {
        if o.arg1().len() == 0 {
            lemma_refused(o, chat, "Argument <chat-id> missing."@);
        } else {
            match number(o.arg1()) {
                Ok(n) => {
                    lemma_quiet(o, chat, DeltaRequest::SetMuted { chat: n, mute: Mute::NotMuted });
                },
                Err(error) => {
                    lemma_refused(o, chat, error);
                },
            }
        }
    }
}

proof fn lemma_chats_are_protected_and_dealt_with(o: Order, chat: Option<ChatInfo>)
    ensures
        (o.verb() == "protect"@) ==> o.verb() != "chat"@ && ({
            if o.arg1().len() == 0 {
                command(o.line, chat) == (CmdStepModel::Fail {
                    error: "Argument <chat-id> missing."@,
                })
            } else {
                match number(o.arg1()) {
                    Ok(n) => {
                        command(o.line, chat) == (CmdStepModel::Ask {
                            request: Request::Delta(DeltaRequest::SetProtection {
                                chat: n,
                                protected: true,
                            }),
                            after: Cmdline::Quiet,
                        })
                    },
                    Err(error) => {
                        command(o.line, chat) == (CmdStepModel::Fail { error: error })
                    },
                }
            }
        }),
        (o.verb() == "unprotect"@) ==> o.verb() != "chat"@ && ({
            if o.arg1().len() == 0 {
                command(o.line, chat) == (CmdStepModel::Fail {
                    error: "Argument <chat-id> missing."@,
                })
            } else {
                match number(o.arg1()) {
                    Ok(n) => {
                        command(o.line, chat) == (CmdStepModel::Ask {
                            request: Request::Delta(DeltaRequest::SetProtection {
                                chat: n,
                                protected: false,
                            }),
                            after: Cmdline::Quiet,
                        })
                    },
                    Err(error) => {
                        command(o.line, chat) == (CmdStepModel::Fail { error: error })
                    },
                }
            }
        }),
        (o.verb() == "delchat"@) ==> o.verb() != "chat"@ && ({
            if o.arg1().len() == 0 {
                command(o.line, chat) == (CmdStepModel::Fail {
                    error: "Argument <chat-id> missing."@,
                })
            } else {
                match number(o.arg1()) {
                    Ok(n) => {
                        command(o.line, chat) == (CmdStepModel::Ask {
                            request: Request::Delta(DeltaRequest::DeleteChat { chat: n }),
                            after: Cmdline::Quiet,
                        })
                    },
                    Err(error) => {
                        command(o.line, chat) == (CmdStepModel::Fail { error: error })
                    },
                }
            }
        }),
        (o.verb() == "accept"@) ==> o.verb() != "chat"@ && ({
            if o.arg1().len() == 0 {
                command(o.line, chat) == (CmdStepModel::Fail {
                    error: "Argument <chat-id> missing."@,
                })
            } else {
                match number(o.arg1()) {
                    Ok(n) => {
                        command(o.line, chat) == (CmdStepModel::Ask {
                            request: Request::Delta(DeltaRequest::AcceptChat { chat: n }),
                            after: Cmdline::Quiet,
                        })
                    },
                    Err(error) => {
                        command(o.line, chat) == (CmdStepModel::Fail { error: error })
                    },
                }
            }
        }),
        (o.verb() == "blockchat"@) ==> o.verb() != "chat"@ && ({
            if o.arg1().len() == 0 {
                command(o.line, chat) == (CmdStepModel::Fail {
                    error: "Argument <chat-id> missing."@,
                })
            } else {
                match number(o.arg1()) {
                    Ok(n) => {
                        command(o.line, chat) == (CmdStepModel::Ask {
                            request: Request::Delta(DeltaRequest::BlockChat { chat: n }),
                            after: Cmdline::Quiet,
                        })
                    },
                    Err(error) => {
                        command(o.line, chat) == (CmdStepModel::Fail { error: error })
                    },
                }
            }
        }),
{
    reveal(command);
    lemma_marks();
}

/// The commands that protect a chat or not, delete it, accept it or block it do that with the chat
/// that is named, and with no other.
pub proof fn law_chats_are_protected_and_dealt_with(o: Order, chat: Option<ChatInfo>)
    requires
        o.steps >= 3,
        o.has_selected(chat),
    ensures
        (o.verb() == "protect"@) ==> ({
            if o.arg1().len() == 0 {
                o.refuses("Argument <chat-id> missing."@)
            } else {
                match number(o.arg1()) {
                    Ok(n) => {
                        o.quietly(DeltaRequest::SetProtection { chat: n, protected: true })
                    },
                    Err(error) => {
                        o.refuses(error)
                    },
                }
            }
        }),
        (o.verb() == "unprotect"@) ==> ({
            if o.arg1().len() == 0 {
                o.refuses("Argument <chat-id> missing."@)
            } else {
                match number(o.arg1()) {
                    Ok(n) => {
                        o.quietly(DeltaRequest::SetProtection { chat: n, protected: false })
                    },
                    Err(error) => {
                        o.refuses(error)
                    },
                }
            }
        }),
        (o.verb() == "delchat"@) ==> ({
            if o.arg1().len() == 0 {
                o.refuses("Argument <chat-id> missing."@)
            } else {
                match number(o.arg1()) {
                    Ok(n) => {
                        o.quietly(DeltaRequest::DeleteChat { chat: n })
                    },
                    Err(error) => {
                        o.refuses(error)
                    },
                }
            }
        }),
        (o.verb() == "accept"@) ==> ({
            if o.arg1().len() == 0 {
                o.refuses("Argument <chat-id> missing."@)
            } else {
                match number(o.arg1()) {
                    Ok(n) => {
                        o.quietly(DeltaRequest::AcceptChat { chat: n })
                    },
                    Err(error) => {
                        o.refuses(error)
                    },
                }
            }
        }),
        (o.verb() == "blockchat"@) ==> ({
            if o.arg1().len() == 0 {
                o.refuses("Argument <chat-id> missing."@)
            } else {
                match number(o.arg1()) {
                    Ok(n) => {
                        o.quietly(DeltaRequest::BlockChat { chat: n })
                    },
                    Err(error) => {
                        o.refuses(error)
                    },
                }
            }
        }),
{
    lemma_chats_are_protected_and_dealt_with(o, chat);
    if o.verb() == "protect"@ {
        if o.arg1().len() == 0 {
            lemma_refused(o, chat, "Argument <chat-id> missing."@);
        } else {
            match number(o.arg1()) {
                Ok(n) => {
                    lemma_quiet(o, chat, DeltaRequest::SetProtection { chat: n, protected: true });
                },
                Err(error) => {
                    lemma_refused(o, chat, error);
                },
            }
        }
    }
    if o.verb() == "unprotect"@ {
        if o.arg1().len() == 0 {
            lemma_refused(o, chat, "Argument <chat-id> missing."@);
        } else {
            match number(o.arg1()) {
                Ok(n) => {
                    lemma_quiet(o, chat, DeltaRequest::SetProtection { chat: n, protected: false });
                },
                Err(error) => {
                    lemma_refused(o, chat, error);
                },
            }
        }
    }
    if o.verb() == "delchat"@ {
        if o.arg1().len() == 0 {
            lemma_refused(o, chat, "Argument <chat-id> missing."@);
        } else {
            match number(o.arg1()) {
                Ok(n) => {
                    lemma_quiet(o, chat, DeltaRequest::DeleteChat { chat: n });
                },
                Err(error) => {
                    lemma_refused(o, chat, error);
                },
            }
        }
    }
    if o.verb() == "accept"@ {
        if o.arg1().len() == 0 {
            lemma_refused(o, chat, "Argument <chat-id> missing."@);
        } else {
            match number(o.arg1()) {
                Ok(n) => {
                    lemma_quiet(o, chat, DeltaRequest::AcceptChat { chat: n });
                },
                Err(error) => {
                    lemma_refused(o, chat, error);
                },
            }
        }
    }
    if o.verb() == "blockchat"@ {
        if o.arg1().len() == 0 {
            lemma_refused(o, chat, "Argument <chat-id> missing."@);
        } else {
            match number(o.arg1()) {
                Ok(n) => {
                    lemma_quiet(o, chat, DeltaRequest::BlockChat { chat: n });
                },
                Err(error) => {
                    lemma_refused(o, chat, error);
                },
            }
        }
    }
}

proof fn lemma_chats_are_listed(o: Order, chat: Option<ChatInfo>)
    ensures
        (o.verb() == "listchats"@ || o.verb() == "chats"@) ==> o.verb() != "chat"@ && ({
            if o.arg1().len() == 0 {
                command(o.line, chat) == (CmdStepModel::Ask {
                    request: Request::Delta(DeltaRequest::ListChats {
                        archived: false,
                        query: None,
                        contact: None,
                    }),
                    after: Cmdline::ChatList { stage: ChatList::Loaded },
                })
            } else {
                command(o.line, chat) == (CmdStepModel::Ask {
                    request: Request::Delta(DeltaRequest::ListChats {
                        archived: false,
                        query: Some(o.arg1()),
                        contact: None,
                    }),
                    after: Cmdline::ChatList { stage: ChatList::Loaded },
                })
            }
        }),
        (o.verb() == "listarchived"@) ==> o.verb() != "chat"@ && ({
            if o.arg1().len() == 0 {
                command(o.line, chat) == (CmdStepModel::Ask {
                    request: Request::Delta(DeltaRequest::ListChats {
                        archived: true,
                        query: None,
                        contact: None,
                    }),
                    after: Cmdline::ChatList { stage: ChatList::Loaded },
                })
            } else {
                command(o.line, chat) == (CmdStepModel::Ask {
                    request: Request::Delta(DeltaRequest::ListChats {
                        archived: true,
                        query: Some(o.arg1()),
                        contact: None,
                    }),
                    after: Cmdline::ChatList { stage: ChatList::Loaded },
                })
            }
        }),
{
    reveal(command);
    lemma_marks();
}

/// The commands that list chats ask for the archived ones or the others, and for those that match
/// what is named, if anything is; the first thing that they ask for is that list.
pub proof fn law_chats_are_listed(o: Order, chat: Option<ChatInfo>)
    requires
        o.steps >= 3,
        o.has_selected(chat),
    ensures
        (o.verb() == "listchats"@ || o.verb() == "chats"@) ==> ({
            if o.arg1().len() == 0 {
                o.asks_first(DeltaRequest::ListChats {
                    archived: false,
                    query: None,
                    contact: None,
                })
            } else {
                o.asks_first(DeltaRequest::ListChats {
                    archived: false,
                    query: Some(o.arg1()),
                    contact: None,
                })
            }
        }),
        (o.verb() == "listarchived"@) ==> ({
            if o.arg1().len() == 0 {
                o.asks_first(DeltaRequest::ListChats { archived: true, query: None, contact: None })
            } else {
                o.asks_first(DeltaRequest::ListChats {
                    archived: true,
                    query: Some(o.arg1()),
                    contact: None,
                })
            }
        }),
{
    lemma_chats_are_listed(o, chat);
    if o.verb() == "listchats"@ || o.verb() == "chats"@ {
        if o.arg1().len() == 0 {
            lemma_first(
                o,
                chat,
                DeltaRequest::ListChats { archived: false, query: None, contact: None },
                Cmdline::ChatList { stage: ChatList::Loaded },
            );
        } else {
            lemma_first(
                o,
                chat,
                DeltaRequest::ListChats { archived: false, query: Some(o.arg1()), contact: None },
                Cmdline::ChatList { stage: ChatList::Loaded },
            );
        }
    }
    if o.verb() == "listarchived"@ {
        if o.arg1().len() == 0 {
            lemma_first(
                o,
                chat,
                DeltaRequest::ListChats { archived: true, query: None, contact: None },
                Cmdline::ChatList { stage: ChatList::Loaded },
            );
        } else {
            lemma_first(
                o,
                chat,
                DeltaRequest::ListChats { archived: true, query: Some(o.arg1()), contact: None },
                Cmdline::ChatList { stage: ChatList::Loaded },
            );
        }
    }
}

}
