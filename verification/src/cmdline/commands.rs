//! The commands of the command line.
use vstd::prelude::*;

use crate::cmdline::{ask, ask_machine, asks, asks_host, fail, say, CmdStep, CmdStepModel, Cmdline};
use crate::cmdline::chats::{list_items, request_items, ChatList, ChatView, ContactView};
use crate::cmdline::poke::{is_address, looks_like_address, Poke};
use crate::numbers::{
    parse_i64, parse_u32, parse_unsigned, read_signed, read_unsigned, signed_decimal, signed_digits,
};
use crate::protocol::{ChatInfo, DeltaRequest, FileKind, HostRequest, Mute, Visibility};
use crate::task::Task;
use crate::text::{after_first_word, first_word, join3, opt_text, same, split_word};

verus! {

/// What the command line can do.
pub const HELP: &'static str =
    "==========================Database commands==\n\
    info\n\
    open <file to open or create>\n\
    close\n\
    set <configuration-key> [<value>]\n\
    get <configuration-key>\n\
    oauth2\n\
    connectivity\n\
    maybenetwork\n\
    housekeeping\n\
    help imex (Import/Export)\n\
    ==============================Chat commands==\n\
    listchats [<query>]\n\
    listarchived\n\
    chat [<chat-id>|0]\n\
    createchat <contact-id>\n\
    creategroup <name>\n\
    createbroadcast\n\
    createprotected <name>\n\
    addmember <contact-id>\n\
    removemember <contact-id>\n\
    groupname <name>\n\
    groupimage [<file>]\n\
    chatinfo\n\
    sendlocations <seconds>\n\
    setlocation <lat> <lng>\n\
    dellocations\n\
    getlocations [<contact-id>]\n\
    send <text>\n\
    sendimage <file> [<text>]\n\
    sendsticker <file> [<text>]\n\
    sendfile <file> [<text>]\n\
    sendhtml <file for html-part> [<text for plain-part>]\n\
    sendsyncmsg\n\
    videochat\n\
    draft [<text>]\n\
    devicemsg <text>\n\
    listmedia\n\
    archive <chat-id>\n\
    unarchive <chat-id>\n\
    pin <chat-id>\n\
    unpin <chat-id>\n\
    mute <chat-id> [<seconds>]\n\
    unmute <chat-id>\n\
    protect <chat-id>\n\
    unprotect <chat-id>\n\
    delchat <chat-id>\n\
    accept <chat-id>\n\
    decline <chat-id>\n\
    ===========================Message commands==\n\
    listmsgs <query>\n\
    msginfo <msg-id>\n\
    download <msg-id>\n\
    html <msg-id>\n\
    listfresh\n\
    forward <msg-id> <chat-id>\n\
    markseen <msg-id>\n\
    delmsg <msg-id>\n\
    ===========================Contact commands==\n\
    listcontacts [<query>]\n\
    listverified [<query>]\n\
    addcontact [<name>] <addr>\n\
    contactinfo <contact-id>\n\
    delcontact <contact-id>\n\
    cleanupcontacts\n\
    block <contact-id>\n\
    unblock <contact-id>\n\
    listblocked\n\
    ======================================Misc.==\n\
    getqr [<chat-id>]\n\
    getbadqr\n\
    checkqr <qr-content>\n\
    joinqr <qr-content>\n\
    setqr <qr-content>\n\
    providerinfo <addr>\n\
    event <event-id to test>\n\
    fileinfo <file>\n\
    estimatedeletion <seconds>\n\
    =============================================\n";

/// What the command line can do to import and export.
pub const HELP_IMEX: &'static str =
    "====================Import/Export commands==\n\
    initiate-key-transfer\n\
    get-setupcodebegin <msg-id>\n\
    continue-key-transfer <msg-id> <setup-code>\n\
    has-backup\n\
    export-backup\n\
    import-backup <backup-file>\n\
    export-keys\n\
    import-keys\n\
    export-setup\n\
    poke [<eml-file>|<folder>|<addr> <key-file>]\n\
    reset <flags>\n\
    stop\n\
    =============================================\n";

/// The view of a step that may not be there.
pub open spec fn some_step(s: Option<CmdStep>) -> Option<CmdStepModel> {
    match s {
        Some(s) => Some(s@),
        None => None,
    }
}

/// A text, unless it is empty.
pub open spec fn if_any(text: Seq<char>) -> Option<Seq<char>> {
    if text.len() == 0 {
        None
    } else {
        Some(text)
    }
}

fn is_empty(text: &str) -> (r: bool)
    ensures
        r == (text@.len() == 0),
{
    text.unicode_len() == 0
}

fn some_if_any(text: &str) -> (r: Option<String>)
    ensures
        opt_text(r) == if_any(text@),
{
    if is_empty(text) {
        None
    } else {
        Some(text.to_owned())
    }
}

/// What is to be imported: a file or a directory, or an address with its key; nothing where
/// nothing is named.
pub open spec fn import_argument(arg1: Seq<char>, arg2: Seq<char>) -> Option<Seq<char>> {
    if is_address(arg1) && arg2.len() > 0 {
        Some(arg1 + " "@ + arg2)
    } else {
        if_any(arg1)
    }
}

fn get_import_argument(arg1: &str, arg2: &str) -> (r: Option<String>)
    ensures
        opt_text(r) == import_argument(arg1@, arg2@),
{
    if looks_like_address(arg1) && !is_empty(arg2) {
        Some(join3(arg1, " ", arg2))
    } else {
        some_if_any(arg1)
    }
}

/// The number of a chat, a message or a contact; why a text is none.
pub open spec fn number(text: Seq<char>) -> Result<u32, Seq<char>> {
    match read_unsigned(text, 0xffff_ffff) {
        Ok(n) => Ok(n as u32),
        Err(error) => Err(error.message()),
    }
}

fn get_number(text: &str) -> (r: Result<u32, String>)
    ensures
        match r {
            Ok(n) => number(text@) == Ok::<u32, Seq<char>>(n),
            Err(error) => number(text@) == Err::<u32, Seq<char>>(error@),
        },
{
    match parse_u32(text) {
        Ok(n) => Ok(n),
        Err(error) => Err(error.text()),
    }
}

/// The number that a text stands for, if it is one.
pub open spec fn number_if_any(text: Seq<char>) -> Option<u32> {
    match number(text) {
        Ok(n) => Some(n),
        Err(_) => None,
    }
}

fn some_number(text: &str) -> (r: Option<u32>)
    ensures
        r == number_if_any(text@),
{
    match get_number(text) {
        Ok(n) => Some(n),
        Err(_) => None,
    }
}

/// A number of seconds that may be negative; why a text is none.
pub open spec fn signed_number(text: Seq<char>) -> Result<i64, Seq<char>> {
    match read_signed(text) {
        Ok(n) => Ok(n as i64),
        Err(error) => Err(error.message()),
    }
}

fn get_signed_number(text: &str) -> (r: Result<i64, String>)
    ensures
        match r {
            Ok(n) => signed_number(text@) == Ok::<i64, Seq<char>>(n),
            Err(error) => signed_number(text@) == Err::<i64, Seq<char>>(error@),
        },
{
    match parse_i64(text) {
        Ok(n) => Ok(n),
        Err(error) => Err(error.text()),
    }
}

/// A number of seconds; why a text is none.
pub open spec fn long_number(text: Seq<char>) -> Result<u64, Seq<char>> {
    match read_unsigned(text, 0xffff_ffff_ffff_ffff) {
        Ok(n) => Ok(n as u64),
        Err(error) => Err(error.message()),
    }
}

fn get_long_number(text: &str) -> (r: Result<u64, String>)
    ensures
        match r {
            Ok(n) => long_number(text@) == Ok::<u64, Seq<char>>(n),
            Err(error) => long_number(text@) == Err::<u64, Seq<char>>(error@),
        },
{
    match parse_unsigned(text, 0xffff_ffff_ffff_ffff) {
        Ok(n) => Ok(n),
        Err(error) => Err(error.text()),
    }
}

/// The number of the selected chat, if one is selected.
pub open spec fn chat_id_of(chat: Option<ChatInfo>) -> Option<u32> {
    match chat {
        Some(chat) => Some(chat.id),
        None => None,
    }
}

fn get_chat_id(chat: &Option<ChatInfo>) -> (r: Option<u32>)
    ensures
        r == chat_id_of(*chat),
{
    match chat {
        Some(chat) => Some(chat.id),
        None => None,
    }
}

/// What is said when locations are being sent.
pub open spec fn locations_sent(label: Seq<char>, seconds: i64) -> Seq<char> {
    "Locations will be sent to Chat#"@ + label + " for "@ + signed_digits(seconds as int)
        + " seconds. Use 'setlocation <lat> <lng>' to play around."@
}

fn say_locations_sent(label: &str, seconds: i64) -> (r: String)
    ensures
        r@ == locations_sent(label@, seconds),
{
    let mut r: String = "Locations will be sent to Chat#".to_owned();
    r.append(label);
    r.append(" for ");
    r.append(signed_decimal(seconds).as_str());
    r.append(" seconds. Use 'setlocation <lat> <lng>' to play around.");
    r
}

/// The commands on the account and on keys.
pub open spec fn account_command(
    arg0: Seq<char>,
    arg1: Seq<char>,
    arg2: Seq<char>,
) -> Option<CmdStepModel> {
    if (arg0 == "help"@ || arg0 == "?"@) && arg1 == "imex"@ {
        Some(
            CmdStep::Say { text: HELP_IMEX@ },
        )
    } else if arg0 == "help"@ || arg0 == "?"@ {
        Some(
            CmdStep::Say { text: HELP@ },
        )
    } else if arg0 == "initiate-key-transfer"@ {
        Some(
            asks(DeltaRequest::InitiateKeyTransfer, Cmdline::KeyTransfer),
        )
    } else if arg0 == "get-setupcodebegin"@ {
        Some(
            if arg1.len() == 0 {
                CmdStep::Fail { error: "Argument <msg-id> missing."@ }
            } else {
                match number(arg1) {
                    Ok(n) => asks(
                        DeltaRequest::LoadSetupMessage { id: n },
                        Cmdline::SetupLoaded { msg_id: n },
                    ),
                    Err(error) => CmdStep::Fail { error },
                }
            },
        )
    } else if arg0 == "continue-key-transfer"@ {
        Some(
            if arg1.len() == 0 || arg2.len() == 0 {
                CmdStep::Fail { error: "Arguments <msg-id> <setup-code> expected"@ }
            } else {
                match number(arg1) {
                    Ok(n) => asks(
                        DeltaRequest::ContinueKeyTransfer { id: n, code: arg2 },
                        Cmdline::Quiet,
                    ),
                    Err(error) => CmdStep::Fail { error },
                }
            },
        )
    } else if arg0 == "has-backup"@ {
        Some(
            asks(DeltaRequest::HasBackup, Cmdline::Quiet),
        )
    } else if arg0 == "import-backup"@ {
        Some(
            if arg1.len() == 0 {
                CmdStep::Fail { error: "Argument <backup-file> missing."@ }
            } else {
                asks(DeltaRequest::ImportBackup { file: arg1 }, Cmdline::Quiet)
            },
        )
    } else if arg0 == "import-keys"@ {
        Some(
            asks(DeltaRequest::ImportKeys { file: arg1 }, Cmdline::Quiet),
        )
    } else if arg0 == "export-setup"@ {
        Some(
            asks(DeltaRequest::CreateSetupCode, Cmdline::SetupCode),
        )
    } else if arg0 == "poke"@ {
        Some(
            CmdStep::Call {
                callee: Task::Poke(Poke::Start { spec: import_argument(arg1, arg2) }),
                after: Cmdline::Poked,
            },
        )
    } else if arg0 == "stop"@ {
        Some(
            asks(DeltaRequest::StopOngoing, Cmdline::Quiet),
        )
    } else if arg0 == "set"@ {
        Some(
            if arg1.len() == 0 {
                CmdStep::Fail { error: "Argument <key> missing."@ }
            } else {
                asks(DeltaRequest::SetConfig { key: arg1, value: if_any(arg2) }, Cmdline::Quiet)
            },
        )
    } else if arg0 == "get"@ {
        Some(
            if arg1.len() == 0 {
                CmdStep::Fail { error: "Argument <key> missing."@ }
            } else {
                asks(DeltaRequest::GetConfig { key: arg1 }, Cmdline::ConfigShown)
            },
        )
    } else if arg0 == "info"@ {
        Some(
            asks(DeltaRequest::Info, Cmdline::Framed { before: ""@, after: ""@ }),
        )
    } else if arg0 == "maybenetwork"@ {
        Some(
            asks(DeltaRequest::MaybeNetwork, Cmdline::Quiet),
        )
    } else if arg0 == "housekeeping"@ {
        Some(
            asks(DeltaRequest::Housekeeping, Cmdline::Deaf),
        )
    } else {
        None
    }
}

fn account_step(
    arg0: &str,
    arg1: &str,
    arg2: &str,
) -> (r: Option<CmdStep>)
    ensures
        some_step(r) == account_command(arg0@, arg1@, arg2@),
{
    if (same(arg0, "help") || same(arg0, "?")) && same(arg1, "imex") {
        Some(
            say(HELP_IMEX),
        )
    } else if same(arg0, "help") || same(arg0, "?") {
        Some(
            say(HELP),
        )
    } else if same(arg0, "initiate-key-transfer") {
        Some(
            ask(DeltaRequest::InitiateKeyTransfer, Cmdline::KeyTransfer),
        )
    } else if same(arg0, "get-setupcodebegin") {
        Some(
            if is_empty(arg1) {
                fail("Argument <msg-id> missing.")
            } else {
                match get_number(arg1) {
                    Ok(n) => ask(
                        DeltaRequest::LoadSetupMessage { id: n },
                        Cmdline::SetupLoaded { msg_id: n },
                    ),
                    Err(error) => CmdStep::Fail { error },
                }
            },
        )
    } else if same(arg0, "continue-key-transfer") {
        Some(
            if is_empty(arg1) || is_empty(arg2) {
                fail("Arguments <msg-id> <setup-code> expected")
            } else {
                match get_number(arg1) {
                    Ok(n) => ask(
                        DeltaRequest::ContinueKeyTransfer { id: n, code: arg2.to_owned() },
                        Cmdline::Quiet,
                    ),
                    Err(error) => CmdStep::Fail { error },
                }
            },
        )
    } else if same(arg0, "has-backup") {
        Some(
            ask(DeltaRequest::HasBackup, Cmdline::Quiet),
        )
    } else if same(arg0, "import-backup") {
        Some(
            if is_empty(arg1) {
                fail("Argument <backup-file> missing.")
            } else {
                ask(DeltaRequest::ImportBackup { file: arg1.to_owned() }, Cmdline::Quiet)
            },
        )
    } else if same(arg0, "import-keys") {
        Some(
            ask(DeltaRequest::ImportKeys { file: arg1.to_owned() }, Cmdline::Quiet),
        )
    } else if same(arg0, "export-setup") {
        Some(
            ask(DeltaRequest::CreateSetupCode, Cmdline::SetupCode),
        )
    } else if same(arg0, "poke") {
        Some(
            CmdStep::Call {
                callee: Task::Poke(Poke::Start { spec: get_import_argument(arg1, arg2) }),
                after: Cmdline::Poked,
            },
        )
    } else if same(arg0, "stop") {
        Some(
            ask(DeltaRequest::StopOngoing, Cmdline::Quiet),
        )
    } else if same(arg0, "set") {
        Some(
            if is_empty(arg1) {
                fail("Argument <key> missing.")
            } else {
                ask(
                    DeltaRequest::SetConfig { key: arg1.to_owned(), value: some_if_any(arg2) },
                    Cmdline::Quiet,
                )
            },
        )
    } else if same(arg0, "get") {
        Some(
            if is_empty(arg1) {
                fail("Argument <key> missing.")
            } else {
                ask(DeltaRequest::GetConfig { key: arg1.to_owned() }, Cmdline::ConfigShown)
            },
        )
    } else if same(arg0, "info") {
        Some(
            ask(
                DeltaRequest::Info,
                Cmdline::Framed { before: "".to_owned(), after: "".to_owned() },
            ),
        )
    } else if same(arg0, "maybenetwork") {
        Some(
            ask(DeltaRequest::MaybeNetwork, Cmdline::Quiet),
        )
    } else if same(arg0, "housekeeping") {
        Some(
            ask(DeltaRequest::Housekeeping, Cmdline::Deaf),
        )
    } else {
        None
    }
}

/// The commands on chats.
pub open spec fn chat_command(
    arg0: Seq<char>,
    arg1: Seq<char>,
    arg2: Seq<char>,
    chat: Option<ChatInfo>,
) -> Option<CmdStepModel> {
    if arg0 == "listchats"@ || arg0 == "chats"@ {
        Some(
            asks(
                DeltaRequest::ListChats { archived: false, query: if_any(arg1), contact: None },
                Cmdline::ChatList { stage: ChatList::Loaded },
            ),
        )
    } else if arg0 == "listarchived"@ {
        Some(
            asks(
                DeltaRequest::ListChats { archived: true, query: if_any(arg1), contact: None },
                Cmdline::ChatList { stage: ChatList::Loaded },
            ),
        )
    } else if arg0 == "createchat"@ {
        Some(
            if arg1.len() == 0 {
                CmdStep::Fail { error: "Argument <contact-id> missing."@ }
            } else {
                match number(arg1) {
                    Ok(n) => asks(
                        DeltaRequest::CreateChatShown { contact: n },
                        Cmdline::Framed { before: "Single#"@, after: " created successfully."@ },
                    ),
                    Err(error) => CmdStep::Fail { error },
                }
            },
        )
    } else if arg0 == "creategroup"@ {
        Some(
            if arg1.len() == 0 {
                CmdStep::Fail { error: "Argument <name> missing."@ }
            } else {
                asks(
                    DeltaRequest::CreateGroup { name: arg1, protected: false },
                    Cmdline::Framed { before: "Group#"@, after: " created successfully."@ },
                )
            },
        )
    } else if arg0 == "createbroadcast"@ {
        Some(
            asks(
                DeltaRequest::CreateBroadcast,
                Cmdline::Framed { before: "Broadcast#"@, after: " created successfully."@ },
            ),
        )
    } else if arg0 == "createprotected"@ {
        Some(
            if arg1.len() == 0 {
                CmdStep::Fail { error: "Argument <name> missing."@ }
            } else {
                asks(
                    DeltaRequest::CreateGroup { name: arg1, protected: true },
                    Cmdline::Framed {
                        before: "Group#"@,
                        after: " created and protected successfully."@,
                    },
                )
            },
        )
    } else if arg0 == "addmember"@ {
        Some(
            match chat {
                Some(chat) => if arg1.len() == 0 {
                    CmdStep::Fail { error: "Argument <contact-id> missing."@ }
                } else {
                    match number(arg1) {
                        Ok(n) => asks(
                            DeltaRequest::AddMember { chat: chat.id, contact: n },
                            Cmdline::Told { text: "Contact added to chat."@ },
                        ),
                        Err(error) => CmdStep::Fail { error },
                    }
                },
                None => CmdStep::Fail { error: "No chat selected"@ },
            },
        )
    } else if arg0 == "removemember"@ {
        Some(
            match chat {
                Some(chat) => if arg1.len() == 0 {
                    CmdStep::Fail { error: "Argument <contact-id> missing."@ }
                } else {
                    match number(arg1) {
                        Ok(n) => asks(
                            DeltaRequest::RemoveMember { chat: chat.id, contact: n },
                            Cmdline::Told { text: "Contact added to chat."@ },
                        ),
                        Err(error) => CmdStep::Fail { error },
                    }
                },
                None => CmdStep::Fail { error: "No chat selected."@ },
            },
        )
    } else if arg0 == "groupname"@ {
        Some(
            match chat {
                Some(chat) => if arg1.len() == 0 {
                    CmdStep::Fail { error: "Argument <name> missing."@ }
                } else {
                    asks(
                        DeltaRequest::SetChatName { chat: chat.id, name: arg1 },
                        Cmdline::Told { text: "Chat name set"@ },
                    )
                },
                None => CmdStep::Fail { error: "No chat selected."@ },
            },
        )
    } else if arg0 == "groupimage"@ {
        Some(
            match chat {
                Some(chat) => asks(
                    DeltaRequest::SetChatImage { chat: chat.id, file: if_any(arg1) },
                    Cmdline::Told { text: "Chat image set"@ },
                ),
                None => CmdStep::Fail { error: "No chat selected."@ },
            },
        )
    } else if arg0 == "chatinfo"@ {
        Some(
            match chat {
                Some(chat) => asks(
                    DeltaRequest::ChatContacts { chat: chat.id },
                    Cmdline::Members { chat: chat.id },
                ),
                None => CmdStep::Fail { error: "No chat selected."@ },
            },
        )
    } else if arg0 == "getlocations"@ {
        Some(
            match chat {
                Some(chat) => asks(
                    DeltaRequest::Locations { chat: chat.id, contact: number_if_any(arg1) },
                    Cmdline::LocationsListed,
                ),
                None => CmdStep::Fail { error: "No chat selected."@ },
            },
        )
    } else if arg0 == "sendlocations"@ {
        Some(
            match chat {
                Some(chat) => if arg1.len() == 0 {
                    CmdStep::Fail { error: "No timeout given."@ }
                } else {
                    match signed_number(arg1) {
                        Ok(seconds) => asks(
                            DeltaRequest::SendLocations { chat: chat.id, seconds },
                            Cmdline::Told { text: locations_sent(chat.label@, seconds) },
                        ),
                        Err(error) => CmdStep::Fail { error },
                    }
                },
                None => CmdStep::Fail { error: "No chat selected."@ },
            },
        )
    } else if arg0 == "setlocation"@ {
        Some(
            if arg1.len() == 0 || arg2.len() == 0 {
                CmdStep::Fail { error: "Latitude or longitude not given."@ }
            } else {
                asks(
                    DeltaRequest::SetLocation { latitude: arg1, longitude: arg2 },
                    Cmdline::LocationSet,
                )
            },
        )
    } else if arg0 == "dellocations"@ {
        Some(
            asks(DeltaRequest::DeleteLocations, Cmdline::Quiet),
        )
    } else if arg0 == "archive"@ {
        Some(
            if arg1.len() == 0 {
                CmdStep::Fail { error: "Argument <chat-id> missing."@ }
            } else {
                match number(arg1) {
                    Ok(n) => asks(
                        DeltaRequest::SetVisibility { chat: n, visibility: Visibility::Archived },
                        Cmdline::Quiet,
                    ),
                    Err(error) => CmdStep::Fail { error },
                }
            },
        )
    } else if arg0 == "unarchive"@ || arg0 == "unpin"@ {
        Some(
            if arg1.len() == 0 {
                CmdStep::Fail { error: "Argument <chat-id> missing."@ }
            } else {
                match number(arg1) {
                    Ok(n) => asks(
                        DeltaRequest::SetVisibility { chat: n, visibility: Visibility::Normal },
                        Cmdline::Quiet,
                    ),
                    Err(error) => CmdStep::Fail { error },
                }
            },
        )
    } else if arg0 == "pin"@ {
        Some(
            if arg1.len() == 0 {
                CmdStep::Fail { error: "Argument <chat-id> missing."@ }
            } else {
                match number(arg1) {
                    Ok(n) => asks(
                        DeltaRequest::SetVisibility { chat: n, visibility: Visibility::Pinned },
                        Cmdline::Quiet,
                    ),
                    Err(error) => CmdStep::Fail { error },
                }
            },
        )
    } else if arg0 == "mute"@ && arg2.len() == 0 {
        Some(
            if arg1.len() == 0 {
                CmdStep::Fail { error: "Argument <chat-id> missing."@ }
            } else {
                match number(arg1) {
                    Ok(n) => asks(
                        DeltaRequest::SetMuted { chat: n, mute: Mute::Forever },
                        Cmdline::Quiet,
                    ),
                    Err(error) => CmdStep::Fail { error },
                }
            },
        )
    } else if arg0 == "mute"@ {
        Some(
            if arg1.len() == 0 {
                CmdStep::Fail { error: "Argument <chat-id> missing."@ }
            } else {
                match number(arg1) {
                    Ok(n) => match long_number(arg2) {
                        Ok(seconds) => asks(
                            DeltaRequest::SetMuted { chat: n, mute: Mute::ForSeconds(seconds) },
                            Cmdline::Quiet,
                        ),
                        Err(error) => CmdStep::Fail { error },
                    },
                    Err(error) => CmdStep::Fail { error },
                }
            },
        )
    } else if arg0 == "unmute"@ {
        Some(
            if arg1.len() == 0 {
                CmdStep::Fail { error: "Argument <chat-id> missing."@ }
            } else {
                match number(arg1) {
                    Ok(n) => asks(
                        DeltaRequest::SetMuted { chat: n, mute: Mute::NotMuted },
                        Cmdline::Quiet,
                    ),
                    Err(error) => CmdStep::Fail { error },
                }
            },
        )
    } else if arg0 == "protect"@ {
        Some(
            if arg1.len() == 0 {
                CmdStep::Fail { error: "Argument <chat-id> missing."@ }
            } else {
                match number(arg1) {
                    Ok(n) => asks(
                        DeltaRequest::SetProtection { chat: n, protected: true },
                        Cmdline::Quiet,
                    ),
                    Err(error) => CmdStep::Fail { error },
                }
            },
        )
    } else if arg0 == "unprotect"@ {
        Some(
            if arg1.len() == 0 {
                CmdStep::Fail { error: "Argument <chat-id> missing."@ }
            } else {
                match number(arg1) {
                    Ok(n) => asks(
                        DeltaRequest::SetProtection { chat: n, protected: false },
                        Cmdline::Quiet,
                    ),
                    Err(error) => CmdStep::Fail { error },
                }
            },
        )
    } else if arg0 == "delchat"@ {
        Some(
            if arg1.len() == 0 {
                CmdStep::Fail { error: "Argument <chat-id> missing."@ }
            } else {
                match number(arg1) {
                    Ok(n) => asks(DeltaRequest::DeleteChat { chat: n }, Cmdline::Quiet),
                    Err(error) => CmdStep::Fail { error },
                }
            },
        )
    } else if arg0 == "accept"@ {
        Some(
            if arg1.len() == 0 {
                CmdStep::Fail { error: "Argument <chat-id> missing."@ }
            } else {
                match number(arg1) {
                    Ok(n) => asks(DeltaRequest::AcceptChat { chat: n }, Cmdline::Quiet),
                    Err(error) => CmdStep::Fail { error },
                }
            },
        )
    } else if arg0 == "blockchat"@ {
        Some(
            if arg1.len() == 0 {
                CmdStep::Fail { error: "Argument <chat-id> missing."@ }
            } else {
                match number(arg1) {
                    Ok(n) => asks(DeltaRequest::BlockChat { chat: n }, Cmdline::Quiet),
                    Err(error) => CmdStep::Fail { error },
                }
            },
        )
    } else {
        None
    }
}

fn chat_step(
    arg0: &str,
    arg1: &str,
    arg2: &str,
    chat: &Option<ChatInfo>,
) -> (r: Option<CmdStep>)
    ensures
        some_step(r) == chat_command(arg0@, arg1@, arg2@, *chat),
{
    if same(arg0, "listchats") || same(arg0, "chats") {
        Some(
            ask(
                DeltaRequest::ListChats {
                    archived: false,
                    query: some_if_any(arg1),
                    contact: None,
                },
                Cmdline::ChatList { stage: ChatList::Loaded },
            ),
        )
    } else if same(arg0, "listarchived") {
        Some(
            ask(
                DeltaRequest::ListChats {
                    archived: true,
                    query: some_if_any(arg1),
                    contact: None,
                },
                Cmdline::ChatList { stage: ChatList::Loaded },
            ),
        )
    } else if same(arg0, "createchat") {
        Some(
            if is_empty(arg1) {
                fail("Argument <contact-id> missing.")
            } else {
                match get_number(arg1) {
                    Ok(n) => ask(
                        DeltaRequest::CreateChatShown { contact: n },
                        Cmdline::Framed {
                            before: "Single#".to_owned(),
                            after: " created successfully.".to_owned(),
                        },
                    ),
                    Err(error) => CmdStep::Fail { error },
                }
            },
        )
    } else if same(arg0, "creategroup") {
        Some(
            if is_empty(arg1) {
                fail("Argument <name> missing.")
            } else {
                ask(
                    DeltaRequest::CreateGroup { name: arg1.to_owned(), protected: false },
                    Cmdline::Framed {
                        before: "Group#".to_owned(),
                        after: " created successfully.".to_owned(),
                    },
                )
            },
        )
    } else if same(arg0, "createbroadcast") {
        Some(
            ask(
                DeltaRequest::CreateBroadcast,
                Cmdline::Framed {
                    before: "Broadcast#".to_owned(),
                    after: " created successfully.".to_owned(),
                },
            ),
        )
    } else if same(arg0, "createprotected") {
        Some(
            if is_empty(arg1) {
                fail("Argument <name> missing.")
            } else {
                ask(
                    DeltaRequest::CreateGroup { name: arg1.to_owned(), protected: true },
                    Cmdline::Framed {
                        before: "Group#".to_owned(),
                        after: " created and protected successfully.".to_owned(),
                    },
                )
            },
        )
    } else if same(arg0, "addmember") {
        Some(
            match chat {
                Some(chat) => if is_empty(arg1) {
                    fail("Argument <contact-id> missing.")
                } else {
                    match get_number(arg1) {
                        Ok(n) => ask(
                            DeltaRequest::AddMember { chat: chat.id, contact: n },
                            Cmdline::Told { text: "Contact added to chat.".to_owned() },
                        ),
                        Err(error) => CmdStep::Fail { error },
                    }
                },
                None => fail("No chat selected"),
            },
        )
    } else if same(arg0, "removemember") {
        Some(
            match chat {
                Some(chat) => if is_empty(arg1) {
                    fail("Argument <contact-id> missing.")
                } else {
                    match get_number(arg1) {
                        Ok(n) => ask(
                            DeltaRequest::RemoveMember { chat: chat.id, contact: n },
                            Cmdline::Told { text: "Contact added to chat.".to_owned() },
                        ),
                        Err(error) => CmdStep::Fail { error },
                    }
                },
                None => fail("No chat selected."),
            },
        )
    } else if same(arg0, "groupname") {
        Some(
            match chat {
                Some(chat) => if is_empty(arg1) {
                    fail("Argument <name> missing.")
                } else {
                    ask(
                        DeltaRequest::SetChatName { chat: chat.id, name: arg1.to_owned() },
                        Cmdline::Told { text: "Chat name set".to_owned() },
                    )
                },
                None => fail("No chat selected."),
            },
        )
    } else if same(arg0, "groupimage") {
        Some(
            match chat {
                Some(chat) => ask(
                    DeltaRequest::SetChatImage { chat: chat.id, file: some_if_any(arg1) },
                    Cmdline::Told { text: "Chat image set".to_owned() },
                ),
                None => fail("No chat selected."),
            },
        )
    } else if same(arg0, "chatinfo") {
        Some(
            match chat {
                Some(chat) => ask(
                    DeltaRequest::ChatContacts { chat: chat.id },
                    Cmdline::Members { chat: chat.id },
                ),
                None => fail("No chat selected."),
            },
        )
    } else if same(arg0, "getlocations") {
        Some(
            match chat {
                Some(chat) => ask(
                    DeltaRequest::Locations { chat: chat.id, contact: some_number(arg1) },
                    Cmdline::LocationsListed,
                ),
                None => fail("No chat selected."),
            },
        )
    } else if same(arg0, "sendlocations") {
        Some(
            match chat {
                Some(chat) => if is_empty(arg1) {
                    fail("No timeout given.")
                } else {
                    match get_signed_number(arg1) {
                        Ok(seconds) => ask(
                            DeltaRequest::SendLocations { chat: chat.id, seconds },
                            Cmdline::Told {
                                text: say_locations_sent(chat.label.as_str(), seconds),
                            },
                        ),
                        Err(error) => CmdStep::Fail { error },
                    }
                },
                None => fail("No chat selected."),
            },
        )
    } else if same(arg0, "setlocation") {
        Some(
            if is_empty(arg1) || is_empty(arg2) {
                fail("Latitude or longitude not given.")
            } else {
                ask(
                    DeltaRequest::SetLocation {
                        latitude: arg1.to_owned(),
                        longitude: arg2.to_owned(),
                    },
                    Cmdline::LocationSet,
                )
            },
        )
    } else if same(arg0, "dellocations") {
        Some(
            ask(DeltaRequest::DeleteLocations, Cmdline::Quiet),
        )
    } else if same(arg0, "archive") {
        Some(
            if is_empty(arg1) {
                fail("Argument <chat-id> missing.")
            } else {
                match get_number(arg1) {
                    Ok(n) => ask(
                        DeltaRequest::SetVisibility { chat: n, visibility: Visibility::Archived },
                        Cmdline::Quiet,
                    ),
                    Err(error) => CmdStep::Fail { error },
                }
            },
        )
    } else if same(arg0, "unarchive") || same(arg0, "unpin") {
        Some(
            if is_empty(arg1) {
                fail("Argument <chat-id> missing.")
            } else {
                match get_number(arg1) {
                    Ok(n) => ask(
                        DeltaRequest::SetVisibility { chat: n, visibility: Visibility::Normal },
                        Cmdline::Quiet,
                    ),
                    Err(error) => CmdStep::Fail { error },
                }
            },
        )
    } else if same(arg0, "pin") {
        Some(
            if is_empty(arg1) {
                fail("Argument <chat-id> missing.")
            } else {
                match get_number(arg1) {
                    Ok(n) => ask(
                        DeltaRequest::SetVisibility { chat: n, visibility: Visibility::Pinned },
                        Cmdline::Quiet,
                    ),
                    Err(error) => CmdStep::Fail { error },
                }
            },
        )
    } else if same(arg0, "mute") && is_empty(arg2) {
        Some(
            if is_empty(arg1) {
                fail("Argument <chat-id> missing.")
            } else {
                match get_number(arg1) {
                    Ok(n) => ask(DeltaRequest::SetMuted { chat: n, mute: Mute::Forever }, Cmdline::Quiet),
                    Err(error) => CmdStep::Fail { error },
                }
            },
        )
    } else if same(arg0, "mute") {
        Some(
            if is_empty(arg1) {
                fail("Argument <chat-id> missing.")
            } else {
                match get_number(arg1) {
                    Ok(n) => match get_long_number(arg2) {
                        Ok(seconds) => ask(
                            DeltaRequest::SetMuted { chat: n, mute: Mute::ForSeconds(seconds) },
                            Cmdline::Quiet,
                        ),
                        Err(error) => CmdStep::Fail { error },
                    },
                    Err(error) => CmdStep::Fail { error },
                }
            },
        )
    } else if same(arg0, "unmute") {
        Some(
            if is_empty(arg1) {
                fail("Argument <chat-id> missing.")
            } else {
                match get_number(arg1) {
                    Ok(n) => ask(
                        DeltaRequest::SetMuted { chat: n, mute: Mute::NotMuted },
                        Cmdline::Quiet,
                    ),
                    Err(error) => CmdStep::Fail { error },
                }
            },
        )
    } else if same(arg0, "protect") {
        Some(
            if is_empty(arg1) {
                fail("Argument <chat-id> missing.")
            } else {
                match get_number(arg1) {
                    Ok(n) => ask(
                        DeltaRequest::SetProtection { chat: n, protected: true },
                        Cmdline::Quiet,
                    ),
                    Err(error) => CmdStep::Fail { error },
                }
            },
        )
    } else if same(arg0, "unprotect") {
        Some(
            if is_empty(arg1) {
                fail("Argument <chat-id> missing.")
            } else {
                match get_number(arg1) {
                    Ok(n) => ask(
                        DeltaRequest::SetProtection { chat: n, protected: false },
                        Cmdline::Quiet,
                    ),
                    Err(error) => CmdStep::Fail { error },
                }
            },
        )
    } else if same(arg0, "delchat") {
        Some(
            if is_empty(arg1) {
                fail("Argument <chat-id> missing.")
            } else {
                match get_number(arg1) {
                    Ok(n) => ask(DeltaRequest::DeleteChat { chat: n }, Cmdline::Quiet),
                    Err(error) => CmdStep::Fail { error },
                }
            },
        )
    } else if same(arg0, "accept") {
        Some(
            if is_empty(arg1) {
                fail("Argument <chat-id> missing.")
            } else {
                match get_number(arg1) {
                    Ok(n) => ask(DeltaRequest::AcceptChat { chat: n }, Cmdline::Quiet),
                    Err(error) => CmdStep::Fail { error },
                }
            },
        )
    } else if same(arg0, "blockchat") {
        Some(
            if is_empty(arg1) {
                fail("Argument <chat-id> missing.")
            } else {
                match get_number(arg1) {
                    Ok(n) => ask(DeltaRequest::BlockChat { chat: n }, Cmdline::Quiet),
                    Err(error) => CmdStep::Fail { error },
                }
            },
        )
    } else {
        None
    }
}

/// The commands on messages.
pub open spec fn message_command(
    arg0: Seq<char>,
    arg1: Seq<char>,
    arg2: Seq<char>,
    chat: Option<ChatInfo>,
) -> Option<CmdStepModel> {
    if arg0 == "send"@ {
        Some(
            match chat {
                Some(chat) => if arg1.len() == 0 {
                    CmdStep::Fail { error: "No message text given."@ }
                } else {
                    asks(
                        DeltaRequest::SendText { chat: chat.id, text: arg1 + " "@ + arg2 },
                        Cmdline::Quiet,
                    )
                },
                None => CmdStep::Fail { error: "No chat selected."@ },
            },
        )
    } else if arg0 == "sendempty"@ {
        Some(
            match chat {
                Some(chat) => asks(DeltaRequest::SendText { chat: chat.id, text: ""@ }, Cmdline::Quiet),
                None => CmdStep::Fail { error: "No chat selected."@ },
            },
        )
    } else if arg0 == "sendimage"@ {
        Some(
            match chat {
                Some(chat) => if arg1.len() == 0 {
                    CmdStep::Fail { error: "No file given."@ }
                } else {
                    asks(
                        DeltaRequest::SendFile {
                            chat: chat.id,
                            kind: FileKind::Image,
                            file: arg1,
                            text: if_any(arg2),
                        },
                        Cmdline::Quiet,
                    )
                },
                None => CmdStep::Fail { error: "No chat selected."@ },
            },
        )
    } else if arg0 == "sendsticker"@ {
        Some(
            match chat {
                Some(chat) => if arg1.len() == 0 {
                    CmdStep::Fail { error: "No file given."@ }
                } else {
                    asks(
                        DeltaRequest::SendFile {
                            chat: chat.id,
                            kind: FileKind::Sticker,
                            file: arg1,
                            text: if_any(arg2),
                        },
                        Cmdline::Quiet,
                    )
                },
                None => CmdStep::Fail { error: "No chat selected."@ },
            },
        )
    } else if arg0 == "sendfile"@ {
        Some(
            match chat {
                Some(chat) => if arg1.len() == 0 {
                    CmdStep::Fail { error: "No file given."@ }
                } else {
                    asks(
                        DeltaRequest::SendFile {
                            chat: chat.id,
                            kind: FileKind::File,
                            file: arg1,
                            text: if_any(arg2),
                        },
                        Cmdline::Quiet,
                    )
                },
                None => CmdStep::Fail { error: "No chat selected."@ },
            },
        )
    } else if arg0 == "sendhtml"@ {
        Some(
            match chat {
                Some(chat) => if arg1.len() == 0 {
                    CmdStep::Fail { error: "No html-file given."@ }
                } else {
                    asks_host(
                        HostRequest::ReadHtml { path: arg1 },
                        Cmdline::HtmlRead { chat: chat.id, text: arg2 },
                    )
                },
                None => CmdStep::Fail { error: "No chat selected."@ },
            },
        )
    } else if arg0 == "sendsyncmsg"@ {
        Some(
            asks(DeltaRequest::SendSyncMessage, Cmdline::SyncSent),
        )
    } else if arg0 == "videochat"@ {
        Some(
            match chat {
                Some(chat) => asks(DeltaRequest::SendVideochat { chat: chat.id }, Cmdline::Quiet),
                None => CmdStep::Fail { error: "No chat selected."@ },
            },
        )
    } else if arg0 == "listmsgs"@ {
        Some(
            if arg1.len() == 0 {
                CmdStep::Fail { error: "Argument <query> missing."@ }
            } else {
                asks(
                    DeltaRequest::SearchMessages { chat: chat_id_of(chat), query: arg1 },
                    Cmdline::Searched,
                )
            },
        )
    } else if arg0 == "draft"@ && arg1.len() == 0 {
        Some(
            match chat {
                Some(chat) => asks(
                    DeltaRequest::SetDraft { chat: chat.id, text: None },
                    Cmdline::Told { text: "Draft deleted."@ },
                ),
                None => CmdStep::Fail { error: "No chat selected."@ },
            },
        )
    } else if arg0 == "draft"@ {
        Some(
            match chat {
                Some(chat) => asks(
                    DeltaRequest::SetDraft { chat: chat.id, text: Some(arg1) },
                    Cmdline::Told { text: "Draft saved."@ },
                ),
                None => CmdStep::Fail { error: "No chat selected."@ },
            },
        )
    } else if arg0 == "devicemsg"@ {
        Some(
            if arg1.len() == 0 {
                CmdStep::Fail { error: "Please specify text to add as device message."@ }
            } else {
                asks(DeltaRequest::AddDeviceMessage { text: arg1 }, Cmdline::Quiet)
            },
        )
    } else if arg0 == "listmedia"@ {
        Some(
            match chat {
                Some(chat) => asks(DeltaRequest::ChatMedia { chat: chat.id }, Cmdline::MediaListed),
                None => CmdStep::Fail { error: "No chat selected."@ },
            },
        )
    } else if arg0 == "msginfo"@ {
        Some(
            if arg1.len() == 0 {
                CmdStep::Fail { error: "Argument <msg-id> missing."@ }
            } else {
                match number(arg1) {
                    Ok(n) => asks(
                        DeltaRequest::MessageDetails { id: n },
                        Cmdline::Framed { before: ""@, after: ""@ },
                    ),
                    Err(error) => CmdStep::Fail { error },
                }
            },
        )
    } else if arg0 == "download"@ {
        Some(
            if arg1.len() == 0 {
                CmdStep::Fail { error: "Argument <msg-id> missing."@ }
            } else {
                match number(arg1) {
                    Ok(n) => asks(
                        DeltaRequest::Download { id: n },
                        Cmdline::Framed { before: "Scheduling download for "@, after: ""@ },
                    ),
                    Err(error) => CmdStep::Fail { error },
                }
            },
        )
    } else if arg0 == "listfresh"@ {
        Some(
            asks(DeltaRequest::FreshMessages, Cmdline::FreshListed),
        )
    } else if arg0 == "forward"@ {
        Some(
            if arg1.len() == 0 || arg2.len() == 0 {
                CmdStep::Fail { error: "Arguments <msg-id> <chat-id> expected"@ }
            } else {
                match number(arg2) {
                    Ok(to) => match number(arg1) {
                        Ok(n) => asks(DeltaRequest::Forward { id: n, chat: to }, Cmdline::Quiet),
                        Err(error) => CmdStep::Fail { error },
                    },
                    Err(error) => CmdStep::Fail { error },
                }
            },
        )
    } else if arg0 == "markseen"@ {
        Some(
            if arg1.len() == 0 {
                CmdStep::Fail { error: "Argument <msg-id> missing."@ }
            } else {
                match number(arg1) {
                    Ok(n) => asks(DeltaRequest::MarkSeen { id: n }, Cmdline::Quiet),
                    Err(error) => CmdStep::Fail { error },
                }
            },
        )
    } else if arg0 == "delmsg"@ {
        Some(
            if arg1.len() == 0 {
                CmdStep::Fail { error: "Argument <msg-id> missing."@ }
            } else {
                match number(arg1) {
                    Ok(n) => asks(DeltaRequest::DeleteMessage { id: n }, Cmdline::Quiet),
                    Err(error) => CmdStep::Fail { error },
                }
            },
        )
    } else {
        None
    }
}

fn message_step(
    arg0: &str,
    arg1: &str,
    arg2: &str,
    chat: &Option<ChatInfo>,
) -> (r: Option<CmdStep>)
    ensures
        some_step(r) == message_command(arg0@, arg1@, arg2@, *chat),
{
    if same(arg0, "send") {
        Some(
            match chat {
                Some(chat) => if is_empty(arg1) {
                    fail("No message text given.")
                } else {
                    ask(
                        DeltaRequest::SendText { chat: chat.id, text: join3(arg1, " ", arg2) },
                        Cmdline::Quiet,
                    )
                },
                None => fail("No chat selected."),
            },
        )
    } else if same(arg0, "sendempty") {
        Some(
            match chat {
                Some(chat) => ask(
                    DeltaRequest::SendText { chat: chat.id, text: "".to_owned() },
                    Cmdline::Quiet,
                ),
                None => fail("No chat selected."),
            },
        )
    } else if same(arg0, "sendimage") {
        Some(
            match chat {
                Some(chat) => if is_empty(arg1) {
                    fail("No file given.")
                } else {
                    ask(
                        DeltaRequest::SendFile {
                            chat: chat.id,
                            kind: FileKind::Image,
                            file: arg1.to_owned(),
                            text: some_if_any(arg2),
                        },
                        Cmdline::Quiet,
                    )
                },
                None => fail("No chat selected."),
            },
        )
    } else if same(arg0, "sendsticker") {
        Some(
            match chat {
                Some(chat) => if is_empty(arg1) {
                    fail("No file given.")
                } else {
                    ask(
                        DeltaRequest::SendFile {
                            chat: chat.id,
                            kind: FileKind::Sticker,
                            file: arg1.to_owned(),
                            text: some_if_any(arg2),
                        },
                        Cmdline::Quiet,
                    )
                },
                None => fail("No chat selected."),
            },
        )
    } else if same(arg0, "sendfile") {
        Some(
            match chat {
                Some(chat) => if is_empty(arg1) {
                    fail("No file given.")
                } else {
                    ask(
                        DeltaRequest::SendFile {
                            chat: chat.id,
                            kind: FileKind::File,
                            file: arg1.to_owned(),
                            text: some_if_any(arg2),
                        },
                        Cmdline::Quiet,
                    )
                },
                None => fail("No chat selected."),
            },
        )
    } else if same(arg0, "sendhtml") {
        Some(
            match chat {
                Some(chat) => if is_empty(arg1) {
                    fail("No html-file given.")
                } else {
                    ask_machine(
                        HostRequest::ReadHtml { path: arg1.to_owned() },
                        Cmdline::HtmlRead { chat: chat.id, text: arg2.to_owned() },
                    )
                },
                None => fail("No chat selected."),
            },
        )
    } else if same(arg0, "sendsyncmsg") {
        Some(
            ask(DeltaRequest::SendSyncMessage, Cmdline::SyncSent),
        )
    } else if same(arg0, "videochat") {
        Some(
            match chat {
                Some(chat) => ask(DeltaRequest::SendVideochat { chat: chat.id }, Cmdline::Quiet),
                None => fail("No chat selected."),
            },
        )
    } else if same(arg0, "listmsgs") {
        Some(
            if is_empty(arg1) {
                fail("Argument <query> missing.")
            } else {
                ask(
                    DeltaRequest::SearchMessages {
                        chat: get_chat_id(chat),
                        query: arg1.to_owned(),
                    },
                    Cmdline::Searched,
                )
            },
        )
    } else if same(arg0, "draft") && is_empty(arg1) {
        Some(
            match chat {
                Some(chat) => ask(
                    DeltaRequest::SetDraft { chat: chat.id, text: None },
                    Cmdline::Told { text: "Draft deleted.".to_owned() },
                ),
                None => fail("No chat selected."),
            },
        )
    } else if same(arg0, "draft") {
        Some(
            match chat {
                Some(chat) => ask(
                    DeltaRequest::SetDraft { chat: chat.id, text: Some(arg1.to_owned()) },
                    Cmdline::Told { text: "Draft saved.".to_owned() },
                ),
                None => fail("No chat selected."),
            },
        )
    } else if same(arg0, "devicemsg") {
        Some(
            if is_empty(arg1) {
                fail("Please specify text to add as device message.")
            } else {
                ask(DeltaRequest::AddDeviceMessage { text: arg1.to_owned() }, Cmdline::Quiet)
            },
        )
    } else if same(arg0, "listmedia") {
        Some(
            match chat {
                Some(chat) => ask(DeltaRequest::ChatMedia { chat: chat.id }, Cmdline::MediaListed),
                None => fail("No chat selected."),
            },
        )
    } else if same(arg0, "msginfo") {
        Some(
            if is_empty(arg1) {
                fail("Argument <msg-id> missing.")
            } else {
                match get_number(arg1) {
                    Ok(n) => ask(
                        DeltaRequest::MessageDetails { id: n },
                        Cmdline::Framed { before: "".to_owned(), after: "".to_owned() },
                    ),
                    Err(error) => CmdStep::Fail { error },
                }
            },
        )
    } else if same(arg0, "download") {
        Some(
            if is_empty(arg1) {
                fail("Argument <msg-id> missing.")
            } else {
                match get_number(arg1) {
                    Ok(n) => ask(
                        DeltaRequest::Download { id: n },
                        Cmdline::Framed {
                            before: "Scheduling download for ".to_owned(),
                            after: "".to_owned(),
                        },
                    ),
                    Err(error) => CmdStep::Fail { error },
                }
            },
        )
    } else if same(arg0, "listfresh") {
        Some(
            ask(DeltaRequest::FreshMessages, Cmdline::FreshListed),
        )
    } else if same(arg0, "forward") {
        Some(
            if is_empty(arg1) || is_empty(arg2) {
                fail("Arguments <msg-id> <chat-id> expected")
            } else {
                match get_number(arg2) {
                    Ok(to) => match get_number(arg1) {
                        Ok(n) => ask(DeltaRequest::Forward { id: n, chat: to }, Cmdline::Quiet),
                        Err(error) => CmdStep::Fail { error },
                    },
                    Err(error) => CmdStep::Fail { error },
                }
            },
        )
    } else if same(arg0, "markseen") {
        Some(
            if is_empty(arg1) {
                fail("Argument <msg-id> missing.")
            } else {
                match get_number(arg1) {
                    Ok(n) => ask(DeltaRequest::MarkSeen { id: n }, Cmdline::Quiet),
                    Err(error) => CmdStep::Fail { error },
                }
            },
        )
    } else if same(arg0, "delmsg") {
        Some(
            if is_empty(arg1) {
                fail("Argument <msg-id> missing.")
            } else {
                match get_number(arg1) {
                    Ok(n) => ask(DeltaRequest::DeleteMessage { id: n }, Cmdline::Quiet),
                    Err(error) => CmdStep::Fail { error },
                }
            },
        )
    } else {
        None
    }
}

/// The commands on contacts, and the rest.
pub open spec fn contact_command(
    arg0: Seq<char>,
    arg1: Seq<char>,
    arg2: Seq<char>,
) -> Option<CmdStepModel> {
    if arg0 == "listcontacts"@ || arg0 == "contacts"@ {
        Some(
            asks(
                DeltaRequest::ListContacts { verified_only: false, query: arg1 },
                Cmdline::ContactsListed { after: " contacts."@ },
            ),
        )
    } else if arg0 == "listverified"@ {
        Some(
            asks(
                DeltaRequest::ListContacts { verified_only: true, query: arg1 },
                Cmdline::ContactsListed { after: " contacts."@ },
            ),
        )
    } else if arg0 == "addcontact"@ && arg2.len() == 0 {
        Some(
            if arg1.len() == 0 {
                CmdStep::Fail { error: "Arguments [<name>] <addr> expected."@ }
            } else {
                asks(DeltaRequest::CreateContact { name: ""@, addr: arg1 }, Cmdline::Quiet)
            },
        )
    } else if arg0 == "addcontact"@ {
        Some(
            if arg1.len() == 0 {
                CmdStep::Fail { error: "Arguments [<name>] <addr> expected."@ }
            } else {
                asks(DeltaRequest::AddAddressBook { book: arg1 + "\n"@ + arg2 }, Cmdline::Quiet)
            },
        )
    } else if arg0 == "contactinfo"@ {
        Some(
            if arg1.len() == 0 {
                CmdStep::Fail { error: "Argument <contact-id> missing."@ }
            } else {
                match number(arg1) {
                    Ok(n) => asks(
                        DeltaRequest::GetContact { id: n },
                        Cmdline::ContactView { stage: ContactView::Loaded { id: n } },
                    ),
                    Err(error) => CmdStep::Fail { error },
                }
            },
        )
    } else if arg0 == "delcontact"@ {
        Some(
            if arg1.len() == 0 {
                CmdStep::Fail { error: "Argument <contact-id> missing."@ }
            } else {
                match number(arg1) {
                    Ok(n) => asks(DeltaRequest::DeleteContact { id: n }, Cmdline::Quiet),
                    Err(error) => CmdStep::Fail { error },
                }
            },
        )
    } else if arg0 == "block"@ {
        Some(
            if arg1.len() == 0 {
                CmdStep::Fail { error: "Argument <contact-id> missing."@ }
            } else {
                match number(arg1) {
                    Ok(n) => asks(DeltaRequest::BlockContact { id: n }, Cmdline::Quiet),
                    Err(error) => CmdStep::Fail { error },
                }
            },
        )
    } else if arg0 == "unblock"@ {
        Some(
            if arg1.len() == 0 {
                CmdStep::Fail { error: "Argument <contact-id> missing."@ }
            } else {
                match number(arg1) {
                    Ok(n) => asks(DeltaRequest::UnblockContact { id: n }, Cmdline::Quiet),
                    Err(error) => CmdStep::Fail { error },
                }
            },
        )
    } else if arg0 == "listblocked"@ {
        Some(
            asks(
                DeltaRequest::ListBlocked,
                Cmdline::ContactsListed { after: " blocked contacts."@ },
            ),
        )
    } else if arg0 == "checkqr"@ {
        Some(
            if arg1.len() == 0 {
                CmdStep::Fail { error: "Argument <qr-content> missing."@ }
            } else {
                asks(
                    DeltaRequest::CheckQr { content: arg1 },
                    Cmdline::Framed { before: "qr="@, after: ""@ },
                )
            },
        )
    } else if arg0 == "setqr"@ {
        Some(
            if arg1.len() == 0 {
                CmdStep::Fail { error: "Argument <qr-content> missing."@ }
            } else {
                asks(DeltaRequest::SetConfigFromQr { content: arg1 }, Cmdline::QrSet)
            },
        )
    } else if arg0 == "providerinfo"@ {
        Some(
            if arg1.len() == 0 {
                CmdStep::Fail { error: "Argument <addr> missing."@ }
            } else {
                asks(DeltaRequest::GetSocks5Enabled, Cmdline::ProviderSocks { addr: arg1 })
            },
        )
    } else if arg0 == "fileinfo"@ {
        Some(
            if arg1.len() == 0 {
                CmdStep::Fail { error: "Argument <file> missing."@ }
            } else {
                asks(DeltaRequest::ImageSize { file: arg1 }, Cmdline::FileMeasured)
            },
        )
    } else if arg0 == "estimatedeletion"@ {
        Some(
            if arg1.len() == 0 {
                CmdStep::Fail { error: "Argument <seconds> missing"@ }
            } else {
                match signed_number(arg1) {
                    Ok(seconds) => asks(
                        DeltaRequest::EstimateDeletion { from_server: false, seconds },
                        Cmdline::DeviceCounted { seconds },
                    ),
                    Err(error) => CmdStep::Fail { error },
                }
            },
        )
    } else {
        None
    }
}

fn contact_step(
    arg0: &str,
    arg1: &str,
    arg2: &str,
) -> (r: Option<CmdStep>)
    ensures
        some_step(r) == contact_command(arg0@, arg1@, arg2@),
{
    if same(arg0, "listcontacts") || same(arg0, "contacts") {
        Some(
            ask(
                DeltaRequest::ListContacts { verified_only: false, query: arg1.to_owned() },
                Cmdline::ContactsListed { after: " contacts.".to_owned() },
            ),
        )
    } else if same(arg0, "listverified") {
        Some(
            ask(
                DeltaRequest::ListContacts { verified_only: true, query: arg1.to_owned() },
                Cmdline::ContactsListed { after: " contacts.".to_owned() },
            ),
        )
    } else if same(arg0, "addcontact") && is_empty(arg2) {
        Some(
            if is_empty(arg1) {
                fail("Arguments [<name>] <addr> expected.")
            } else {
                ask(
                    DeltaRequest::CreateContact { name: "".to_owned(), addr: arg1.to_owned() },
                    Cmdline::Quiet,
                )
            },
        )
    } else if same(arg0, "addcontact") {
        Some(
            if is_empty(arg1) {
                fail("Arguments [<name>] <addr> expected.")
            } else {
                ask(
                    DeltaRequest::AddAddressBook { book: join3(arg1, "\n", arg2) },
                    Cmdline::Quiet,
                )
            },
        )
    } else if same(arg0, "contactinfo") {
        Some(
            if is_empty(arg1) {
                fail("Argument <contact-id> missing.")
            } else {
                match get_number(arg1) {
                    Ok(n) => ask(
                        DeltaRequest::GetContact { id: n },
                        Cmdline::ContactView { stage: ContactView::Loaded { id: n } },
                    ),
                    Err(error) => CmdStep::Fail { error },
                }
            },
        )
    } else if same(arg0, "delcontact") {
        Some(
            if is_empty(arg1) {
                fail("Argument <contact-id> missing.")
            } else {
                match get_number(arg1) {
                    Ok(n) => ask(DeltaRequest::DeleteContact { id: n }, Cmdline::Quiet),
                    Err(error) => CmdStep::Fail { error },
                }
            },
        )
    } else if same(arg0, "block") {
        Some(
            if is_empty(arg1) {
                fail("Argument <contact-id> missing.")
            } else {
                match get_number(arg1) {
                    Ok(n) => ask(DeltaRequest::BlockContact { id: n }, Cmdline::Quiet),
                    Err(error) => CmdStep::Fail { error },
                }
            },
        )
    } else if same(arg0, "unblock") {
        Some(
            if is_empty(arg1) {
                fail("Argument <contact-id> missing.")
            } else {
                match get_number(arg1) {
                    Ok(n) => ask(DeltaRequest::UnblockContact { id: n }, Cmdline::Quiet),
                    Err(error) => CmdStep::Fail { error },
                }
            },
        )
    } else if same(arg0, "listblocked") {
        Some(
            ask(
                DeltaRequest::ListBlocked,
                Cmdline::ContactsListed { after: " blocked contacts.".to_owned() },
            ),
        )
    } else if same(arg0, "checkqr") {
        Some(
            if is_empty(arg1) {
                fail("Argument <qr-content> missing.")
            } else {
                ask(
                    DeltaRequest::CheckQr { content: arg1.to_owned() },
                    Cmdline::Framed { before: "qr=".to_owned(), after: "".to_owned() },
                )
            },
        )
    } else if same(arg0, "setqr") {
        Some(
            if is_empty(arg1) {
                fail("Argument <qr-content> missing.")
            } else {
                ask(DeltaRequest::SetConfigFromQr { content: arg1.to_owned() }, Cmdline::QrSet)
            },
        )
    } else if same(arg0, "providerinfo") {
        Some(
            if is_empty(arg1) {
                fail("Argument <addr> missing.")
            } else {
                ask(
                    DeltaRequest::GetSocks5Enabled,
                    Cmdline::ProviderSocks { addr: arg1.to_owned() },
                )
            },
        )
    } else if same(arg0, "fileinfo") {
        Some(
            if is_empty(arg1) {
                fail("Argument <file> missing.")
            } else {
                ask(DeltaRequest::ImageSize { file: arg1.to_owned() }, Cmdline::FileMeasured)
            },
        )
    } else if same(arg0, "estimatedeletion") {
        Some(
            if is_empty(arg1) {
                fail("Argument <seconds> missing")
            } else {
                match get_signed_number(arg1) {
                    Ok(seconds) => ask(
                        DeltaRequest::EstimateDeletion { from_server: false, seconds },
                        Cmdline::DeviceCounted { seconds },
                    ),
                    Err(error) => CmdStep::Fail { error },
                }
            },
        )
    } else {
        None
    }
}

/// Shows a chat: the one that is named, or the one that is selected.
pub open spec fn view_command(arg1: Seq<char>, chat: Option<ChatInfo>) -> CmdStepModel {
    if arg1.len() > 0 {
        match number(arg1) {
            Ok(n) => asks(
                DeltaRequest::LoadChat { id: n },
                Cmdline::ChatView { stage: ChatView::Opened },
            ),
            Err(error) => CmdStep::Fail { error },
        }
    } else {
        match chat {
            Some(chat) => list_items(chat, ""@),
            None => CmdStep::Fail { error: "Argument [chat-id] is missing."@ },
        }
    }
}

fn view_step(arg1: &str, chat: Option<ChatInfo>) -> (s: CmdStep)
    ensures
        s@ == view_command(arg1@, chat),
{
    if !is_empty(arg1) {
        match get_number(arg1) {
            Ok(n) => ask(
                DeltaRequest::LoadChat { id: n },
                Cmdline::ChatView { stage: ChatView::Opened },
            ),
            Err(error) => CmdStep::Fail { error },
        }
    } else {
        match chat {
            Some(chat) => request_items(chat, "".to_owned()),
            None => fail("Argument [chat-id] is missing."),
        }
    }
}

/// What a command line does first: its first word is the command, its second word and what
/// follows are the arguments.
#[verifier::opaque]
pub open spec fn command(line: Seq<char>, chat: Option<ChatInfo>) -> CmdStepModel {
    let arg0 = first_word(line);
    let arg1 = first_word(after_first_word(line));
    let arg2 = after_first_word(after_first_word(line));
    if arg0 == "chat"@ {
        view_command(arg1, chat)
    } else if let Some(step) = account_command(arg0, arg1, arg2) {
        step
    } else if let Some(step) = chat_command(arg0, arg1, arg2, chat) {
        step
    } else if let Some(step) = message_command(arg0, arg1, arg2, chat) {
        step
    } else if let Some(step) = contact_command(arg0, arg1, arg2) {
        step
    } else if arg0.len() == 0 {
        CmdStep::Say { text: ""@ }
    } else {
        CmdStep::Fail { error: "Unknown command: \""@ + arg0 + "\" type ? for help."@ }
    }
}

/// The chat that is selected after a command line: the one that it names, where the command is to
/// show a chat, else the one that was selected before.
pub open spec fn chat_id_after(line: Seq<char>, chat_id: u32) -> u32 {
    let arg1 = first_word(after_first_word(line));
    if first_word(line) == "chat"@ && arg1.len() > 0 {
        match number(arg1) {
            Ok(n) => n,
            Err(_) => chat_id,
        }
    } else {
        chat_id
    }
}

/// Starts to obey a command line.
pub(crate) fn obey(line: &str, chat: Option<ChatInfo>, chat_id: u32) -> (r: (u32, CmdStep))
    ensures
        r.0 == chat_id_after(line@, chat_id),
        r.1@ == command(line@, chat),
{
    proof {
        reveal(command);
    }
    let (arg0, rest) = split_word(line);
    let (arg1, arg2) = split_word(rest);
    if same(arg0, "chat") {
        let selected: u32 = match some_number(arg1) {
            Some(n) => if is_empty(arg1) {
                chat_id
            } else {
                n
            },
            None => chat_id,
        };
        return (selected, view_step(arg1, chat));
    }
    if let Some(step) = account_step(arg0, arg1, arg2) {
        return (chat_id, step);
    }
    if let Some(step) = chat_step(arg0, arg1, arg2, &chat) {
        return (chat_id, step);
    }
    if let Some(step) = message_step(arg0, arg1, arg2, &chat) {
        return (chat_id, step);
    }
    if let Some(step) = contact_step(arg0, arg1, arg2) {
        return (chat_id, step);
    }
    if is_empty(arg0) {
        (chat_id, say(""))
    } else {
        (
            chat_id,
            CmdStep::Fail { error: join3("Unknown command: \"", arg0, "\" type ? for help.") },
        )
    }
}

}
