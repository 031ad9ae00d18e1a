//! How the commands of the command line are told apart.
use vstd::prelude::*;

verus! {

/// The character at a place of a word; none where the word is shorter.
pub open spec fn letter(s: Seq<char>, i: int) -> char {
    if 0 <= i < s.len() {
        s[i]
    } else {
        '\0'
    }
}

/// What tells the commands apart: how long they are, and three of their characters.
pub open spec fn mark(s: Seq<char>) -> (nat, char, char, char) {
    (s.len(), letter(s, 0), letter(s, 1), letter(s, 6))
}

/// The marks of the commands on the account, and of the one that shows a chat.
pub proof fn lemma_account_marks()
    ensures
        mark("chat"@) == (4nat, 'c', 'h', '\0'),
        mark("help"@) == (4nat, 'h', 'e', '\0'),
        mark("?"@) == (1nat, '?', '\0', '\0'),
        mark("initiate-key-transfer"@) == (21nat, 'i', 'n', 't'),
        mark("get-setupcodebegin"@) == (18nat, 'g', 'e', 't'),
        mark("continue-key-transfer"@) == (21nat, 'c', 'o', 'u'),
        mark("has-backup"@) == (10nat, 'h', 'a', 'c'),
        mark("import-backup"@) == (13nat, 'i', 'm', '-'),
        mark("import-keys"@) == (11nat, 'i', 'm', '-'),
        mark("export-setup"@) == (12nat, 'e', 'x', '-'),
        mark("poke"@) == (4nat, 'p', 'o', '\0'),
        mark("stop"@) == (4nat, 's', 't', '\0'),
        mark("set"@) == (3nat, 's', 'e', '\0'),
        mark("get"@) == (3nat, 'g', 'e', '\0'),
        mark("info"@) == (4nat, 'i', 'n', '\0'),
        mark("maybenetwork"@) == (12nat, 'm', 'a', 'e'),
        mark("housekeeping"@) == (12nat, 'h', 'o', 'e'),
{
    reveal_strlit("chat");
    reveal_strlit("help");
    reveal_strlit("?");
    reveal_strlit("initiate-key-transfer");
    reveal_strlit("get-setupcodebegin");
    reveal_strlit("continue-key-transfer");
    reveal_strlit("has-backup");
    reveal_strlit("import-backup");
    reveal_strlit("import-keys");
    reveal_strlit("export-setup");
    reveal_strlit("poke");
    reveal_strlit("stop");
    reveal_strlit("set");
    reveal_strlit("get");
    reveal_strlit("info");
    reveal_strlit("maybenetwork");
    reveal_strlit("housekeeping");
}

/// The marks of the commands on chats.
pub proof fn lemma_chat_marks()
    ensures
        mark("listchats"@) == (9nat, 'l', 'i', 'a'),
        mark("chats"@) == (5nat, 'c', 'h', '\0'),
        mark("listarchived"@) == (12nat, 'l', 'i', 'c'),
        mark("createchat"@) == (10nat, 'c', 'r', 'c'),
        mark("creategroup"@) == (11nat, 'c', 'r', 'g'),
        mark("createbroadcast"@) == (15nat, 'c', 'r', 'b'),
        mark("createprotected"@) == (15nat, 'c', 'r', 'p'),
        mark("addmember"@) == (9nat, 'a', 'd', 'b'),
        mark("removemember"@) == (12nat, 'r', 'e', 'm'),
        mark("groupname"@) == (9nat, 'g', 'r', 'a'),
        mark("groupimage"@) == (10nat, 'g', 'r', 'm'),
        mark("chatinfo"@) == (8nat, 'c', 'h', 'f'),
        mark("getlocations"@) == (12nat, 'g', 'e', 'a'),
        mark("sendlocations"@) == (13nat, 's', 'e', 'c'),
        mark("setlocation"@) == (11nat, 's', 'e', 'a'),
        mark("dellocations"@) == (12nat, 'd', 'e', 'a'),
        mark("archive"@) == (7nat, 'a', 'r', 'e'),
        mark("unarchive"@) == (9nat, 'u', 'n', 'i'),
        mark("unpin"@) == (5nat, 'u', 'n', '\0'),
        mark("pin"@) == (3nat, 'p', 'i', '\0'),
        mark("mute"@) == (4nat, 'm', 'u', '\0'),
        mark("unmute"@) == (6nat, 'u', 'n', '\0'),
        mark("protect"@) == (7nat, 'p', 'r', 't'),
        mark("unprotect"@) == (9nat, 'u', 'n', 'e'),
        mark("delchat"@) == (7nat, 'd', 'e', 't'),
        mark("accept"@) == (6nat, 'a', 'c', '\0'),
        mark("blockchat"@) == (9nat, 'b', 'l', 'h'),
{
    reveal_strlit("listchats");
    reveal_strlit("chats");
    reveal_strlit("listarchived");
    reveal_strlit("createchat");
    reveal_strlit("creategroup");
    reveal_strlit("createbroadcast");
    reveal_strlit("createprotected");
    reveal_strlit("addmember");
    reveal_strlit("removemember");
    reveal_strlit("groupname");
    reveal_strlit("groupimage");
    reveal_strlit("chatinfo");
    reveal_strlit("getlocations");
    reveal_strlit("sendlocations");
    reveal_strlit("setlocation");
    reveal_strlit("dellocations");
    reveal_strlit("archive");
    reveal_strlit("unarchive");
    reveal_strlit("unpin");
    reveal_strlit("pin");
    reveal_strlit("mute");
    reveal_strlit("unmute");
    reveal_strlit("protect");
    reveal_strlit("unprotect");
    reveal_strlit("delchat");
    reveal_strlit("accept");
    reveal_strlit("blockchat");
}

/// The marks of the commands on messages.
pub proof fn lemma_message_marks()
    ensures
        mark("send"@) == (4nat, 's', 'e', '\0'),
        mark("sendempty"@) == (9nat, 's', 'e', 'p'),
        mark("sendimage"@) == (9nat, 's', 'e', 'a'),
        mark("sendsticker"@) == (11nat, 's', 'e', 'i'),
        mark("sendfile"@) == (8nat, 's', 'e', 'l'),
        mark("sendhtml"@) == (8nat, 's', 'e', 'm'),
        mark("sendsyncmsg"@) == (11nat, 's', 'e', 'n'),
        mark("videochat"@) == (9nat, 'v', 'i', 'h'),
        mark("listmsgs"@) == (8nat, 'l', 'i', 'g'),
        mark("draft"@) == (5nat, 'd', 'r', '\0'),
        mark("devicemsg"@) == (9nat, 'd', 'e', 'm'),
        mark("listmedia"@) == (9nat, 'l', 'i', 'd'),
        mark("msginfo"@) == (7nat, 'm', 's', 'o'),
        mark("download"@) == (8nat, 'd', 'o', 'a'),
        mark("listfresh"@) == (9nat, 'l', 'i', 'e'),
        mark("forward"@) == (7nat, 'f', 'o', 'd'),
        mark("markseen"@) == (8nat, 'm', 'a', 'e'),
        mark("delmsg"@) == (6nat, 'd', 'e', '\0'),
{
    reveal_strlit("send");
    reveal_strlit("sendempty");
    reveal_strlit("sendimage");
    reveal_strlit("sendsticker");
    reveal_strlit("sendfile");
    reveal_strlit("sendhtml");
    reveal_strlit("sendsyncmsg");
    reveal_strlit("videochat");
    reveal_strlit("listmsgs");
    reveal_strlit("draft");
    reveal_strlit("devicemsg");
    reveal_strlit("listmedia");
    reveal_strlit("msginfo");
    reveal_strlit("download");
    reveal_strlit("listfresh");
    reveal_strlit("forward");
    reveal_strlit("markseen");
    reveal_strlit("delmsg");
}

/// The marks of the commands on contacts, and of the rest.
pub proof fn lemma_contact_marks()
    ensures
        mark("listcontacts"@) == (12nat, 'l', 'i', 'n'),
        mark("contacts"@) == (8nat, 'c', 'o', 't'),
        mark("listverified"@) == (12nat, 'l', 'i', 'r'),
        mark("addcontact"@) == (10nat, 'a', 'd', 't'),
        mark("contactinfo"@) == (11nat, 'c', 'o', 't'),
        mark("delcontact"@) == (10nat, 'd', 'e', 't'),
        mark("block"@) == (5nat, 'b', 'l', '\0'),
        mark("unblock"@) == (7nat, 'u', 'n', 'k'),
        mark("listblocked"@) == (11nat, 'l', 'i', 'o'),
        mark("checkqr"@) == (7nat, 'c', 'h', 'r'),
        mark("setqr"@) == (5nat, 's', 'e', '\0'),
        mark("providerinfo"@) == (12nat, 'p', 'r', 'e'),
        mark("fileinfo"@) == (8nat, 'f', 'i', 'f'),
        mark("estimatedeletion"@) == (16nat, 'e', 's', 't'),
{
    reveal_strlit("listcontacts");
    reveal_strlit("contacts");
    reveal_strlit("listverified");
    reveal_strlit("addcontact");
    reveal_strlit("contactinfo");
    reveal_strlit("delcontact");
    reveal_strlit("block");
    reveal_strlit("unblock");
    reveal_strlit("listblocked");
    reveal_strlit("checkqr");
    reveal_strlit("setqr");
    reveal_strlit("providerinfo");
    reveal_strlit("fileinfo");
    reveal_strlit("estimatedeletion");
}

/// The marks of all commands.
pub proof fn lemma_marks()
    ensures
        mark("chat"@) == (4nat, 'c', 'h', '\0'),
        mark("help"@) == (4nat, 'h', 'e', '\0'),
        mark("?"@) == (1nat, '?', '\0', '\0'),
        mark("initiate-key-transfer"@) == (21nat, 'i', 'n', 't'),
        mark("get-setupcodebegin"@) == (18nat, 'g', 'e', 't'),
        mark("continue-key-transfer"@) == (21nat, 'c', 'o', 'u'),
        mark("has-backup"@) == (10nat, 'h', 'a', 'c'),
        mark("import-backup"@) == (13nat, 'i', 'm', '-'),
        mark("import-keys"@) == (11nat, 'i', 'm', '-'),
        mark("export-setup"@) == (12nat, 'e', 'x', '-'),
        mark("poke"@) == (4nat, 'p', 'o', '\0'),
        mark("stop"@) == (4nat, 's', 't', '\0'),
        mark("set"@) == (3nat, 's', 'e', '\0'),
        mark("get"@) == (3nat, 'g', 'e', '\0'),
        mark("info"@) == (4nat, 'i', 'n', '\0'),
        mark("maybenetwork"@) == (12nat, 'm', 'a', 'e'),
        mark("housekeeping"@) == (12nat, 'h', 'o', 'e'),
        mark("listchats"@) == (9nat, 'l', 'i', 'a'),
        mark("chats"@) == (5nat, 'c', 'h', '\0'),
        mark("listarchived"@) == (12nat, 'l', 'i', 'c'),
        mark("createchat"@) == (10nat, 'c', 'r', 'c'),
        mark("creategroup"@) == (11nat, 'c', 'r', 'g'),
        mark("createbroadcast"@) == (15nat, 'c', 'r', 'b'),
        mark("createprotected"@) == (15nat, 'c', 'r', 'p'),
        mark("addmember"@) == (9nat, 'a', 'd', 'b'),
        mark("removemember"@) == (12nat, 'r', 'e', 'm'),
        mark("groupname"@) == (9nat, 'g', 'r', 'a'),
        mark("groupimage"@) == (10nat, 'g', 'r', 'm'),
        mark("chatinfo"@) == (8nat, 'c', 'h', 'f'),
        mark("getlocations"@) == (12nat, 'g', 'e', 'a'),
        mark("sendlocations"@) == (13nat, 's', 'e', 'c'),
        mark("setlocation"@) == (11nat, 's', 'e', 'a'),
        mark("dellocations"@) == (12nat, 'd', 'e', 'a'),
        mark("archive"@) == (7nat, 'a', 'r', 'e'),
        mark("unarchive"@) == (9nat, 'u', 'n', 'i'),
        mark("unpin"@) == (5nat, 'u', 'n', '\0'),
        mark("pin"@) == (3nat, 'p', 'i', '\0'),
        mark("mute"@) == (4nat, 'm', 'u', '\0'),
        mark("unmute"@) == (6nat, 'u', 'n', '\0'),
        mark("protect"@) == (7nat, 'p', 'r', 't'),
        mark("unprotect"@) == (9nat, 'u', 'n', 'e'),
        mark("delchat"@) == (7nat, 'd', 'e', 't'),
        mark("accept"@) == (6nat, 'a', 'c', '\0'),
        mark("blockchat"@) == (9nat, 'b', 'l', 'h'),
        mark("send"@) == (4nat, 's', 'e', '\0'),
        mark("sendempty"@) == (9nat, 's', 'e', 'p'),
        mark("sendimage"@) == (9nat, 's', 'e', 'a'),
        mark("sendsticker"@) == (11nat, 's', 'e', 'i'),
        mark("sendfile"@) == (8nat, 's', 'e', 'l'),
        mark("sendhtml"@) == (8nat, 's', 'e', 'm'),
        mark("sendsyncmsg"@) == (11nat, 's', 'e', 'n'),
        mark("videochat"@) == (9nat, 'v', 'i', 'h'),
        mark("listmsgs"@) == (8nat, 'l', 'i', 'g'),
        mark("draft"@) == (5nat, 'd', 'r', '\0'),
        mark("devicemsg"@) == (9nat, 'd', 'e', 'm'),
        mark("listmedia"@) == (9nat, 'l', 'i', 'd'),
        mark("msginfo"@) == (7nat, 'm', 's', 'o'),
        mark("download"@) == (8nat, 'd', 'o', 'a'),
        mark("listfresh"@) == (9nat, 'l', 'i', 'e'),
        mark("forward"@) == (7nat, 'f', 'o', 'd'),
        mark("markseen"@) == (8nat, 'm', 'a', 'e'),
        mark("delmsg"@) == (6nat, 'd', 'e', '\0'),
        mark("listcontacts"@) == (12nat, 'l', 'i', 'n'),
        mark("contacts"@) == (8nat, 'c', 'o', 't'),
        mark("listverified"@) == (12nat, 'l', 'i', 'r'),
        mark("addcontact"@) == (10nat, 'a', 'd', 't'),
        mark("contactinfo"@) == (11nat, 'c', 'o', 't'),
        mark("delcontact"@) == (10nat, 'd', 'e', 't'),
        mark("block"@) == (5nat, 'b', 'l', '\0'),
        mark("unblock"@) == (7nat, 'u', 'n', 'k'),
        mark("listblocked"@) == (11nat, 'l', 'i', 'o'),
        mark("checkqr"@) == (7nat, 'c', 'h', 'r'),
        mark("setqr"@) == (5nat, 's', 'e', '\0'),
        mark("providerinfo"@) == (12nat, 'p', 'r', 'e'),
        mark("fileinfo"@) == (8nat, 'f', 'i', 'f'),
        mark("estimatedeletion"@) == (16nat, 'e', 's', 't'),
{
    lemma_account_marks();
    lemma_chat_marks();
    lemma_message_marks();
    lemma_contact_marks();
}

}
