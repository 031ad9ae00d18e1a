//! What the lines say that show messages, contacts and chats.
use vstd::prelude::*;

use crate::cmdline::{location_line, location_lines, provider_lines, server_lines};
use crate::cmdline::chats::{chat_line, header, summary_line};
use crate::cmdline::contacts::contact_line;
use crate::cmdline::messages::{
    author, download_mark, invitation, message_line, seen_mark, state_mark,
};
use crate::numbers::digits;
use crate::protocol::{
    ChatInfo, ContactInfo, DownloadState, LocationInfo, LoggedMessage, MessageState, ProfileImage,
    ProviderInfo, SummaryInfo, VerifiedStatus, Visibility,
};
use crate::text::or_empty;

verus! {

/// A mark that stands there where something is so.
pub open spec fn marked(so: bool, mark: Seq<char>) -> Seq<char> {
    if so {
        mark
    } else {
        ""@
    }
}

/// How far a message has got on its way out.
pub open spec fn way_out(state: MessageState) -> Seq<char> {
    if state == MessageState::OutPending {
        " o"@
    } else if state == MessageState::OutDelivered {
        " √"@
    } else if state == MessageState::OutMdnRcvd {
        " √√"@
    } else if state == MessageState::OutFailed {
        " !!"@
    } else {
        ""@
    }
}

/// How far a message has got with the reader; nothing is said of one's own.
pub open spec fn notice(message: LoggedMessage) -> Seq<char> {
    if message.from_id == 1 {
        ""@
    } else if message.state == MessageState::InSeen {
        "[SEEN]"@
    } else if message.state == MessageState::InNoticed {
        "[NOTICED]"@
    } else {
        "[FRESH]"@
    }
}

/// How far the download of a message has got.
pub open spec fn way_down(state: DownloadState) -> Seq<char> {
    if state == DownloadState::Available {
        " [⬇ Download available]"@
    } else if state == DownloadState::InProgress {
        " [⬇ Download in progress...]\u{fe0f}"@
    } else if state == DownloadState::Failure {
        " [⬇ Download failed]"@
    } else {
        ""@
    }
}

/// The line of a message says which message it is, who wrote it, what it says and when it was sent,
/// and all that is known of its state. One without a text says none.
pub proof fn law_line_of_a_message(prefix: Seq<char>, m: LoggedMessage, c: ContactInfo)
    ensures
        ({
            let name = if m.override_name is Some {
                "~"@ + m.override_name->Some_0@
            } else {
                c.display_name@
            };
            let text = if m.text is Some {
                m.text->Some_0@
            } else {
                ""@
            };
            let call = if m.videochat is Some {
                let v = m.videochat->Some_0;
                "[VIDEOCHAT-INVITATION: "@ + (if v.url is Some {
                    v.url->Some_0@
                } else {
                    ""@
                }) + ", type="@ + v.kind@ + "]"@
            } else {
                ""@
            };
            message_line(prefix, m, c) == prefix + m.label@ + marked(m.padlock, "🔒"@) + marked(
                m.location,
                "📍"@,
            ) + ": "@ + name + " (Contact#"@ + digits(c.id as nat) + "): "@ + text + " "@ + marked(
                m.html,
                "[HAS-HTML]\u{fe0f}"@,
            ) + notice(m) + marked(m.info, "[INFO]"@) + call + marked(m.forwarded, "[FORWARDED]"@)
                + way_out(m.state) + way_down(m.download) + " ["@ + m.time@ + "]\n"@
        }),
{
    lemma_marks_of_a_message(m, c);
    let call = if m.videochat is Some {
        let v = m.videochat->Some_0;
        "[VIDEOCHAT-INVITATION: "@ + (if v.url is Some {
            v.url->Some_0@
        } else {
            ""@
        }) + ", type="@ + v.kind@ + "]"@
    } else {
        ""@
    };
    lemma_call_of_a_message(m);
    let s1 = prefix + m.label@ + marked(m.padlock, "🔒"@) + marked(m.location, "📍"@) + ": "@;
    let s2 = s1 + author(m, c) + " (Contact#"@ + digits(c.id as nat) + "): "@ + or_empty(m.text)
        + " "@ + marked(m.html, "[HAS-HTML]\u{fe0f}"@);
    let s3 = s2 + notice(m) + marked(m.info, "[INFO]"@) + call + marked(
        m.forwarded,
        "[FORWARDED]"@,
    );
    assert(message_line(prefix, m, c) == s3 + way_out(m.state) + way_down(m.download) + " ["@
        + m.time@ + "]\n"@);
}

proof fn lemma_marks_of_a_message(m: LoggedMessage, c: ContactInfo)
    ensures
        seen_mark(m.from_id, m.state) == notice(m),
        state_mark(m.state) == way_out(m.state),
        download_mark(m.download) == way_down(m.download),
        author(m, c) == if m.override_name is Some {
            "~"@ + m.override_name->Some_0@
        } else {
            c.display_name@
        },
        or_empty(m.text) == if m.text is Some {
            m.text->Some_0@
        } else {
            ""@
        },
{
}

proof fn lemma_call_of_a_message(m: LoggedMessage)
    ensures
        invitation(m.videochat) == if m.videochat is Some {
            let v = m.videochat->Some_0;
            "[VIDEOCHAT-INVITATION: "@ + (if v.url is Some {
                v.url->Some_0@
            } else {
                ""@
            }) + ", type="@ + v.kind@ + "]"@
        } else {
            ""@
        },
{
}

/// The line of a contact says its number, its name and its address, how far its key is verified,
/// and what it prefers of encryption, which is not said of oneself.
pub proof fn law_line_of_a_contact(
    id: u32,
    c: ContactInfo,
    verified: VerifiedStatus,
    prefers: Option<Seq<char>>,
)
    ensures
        ({
            let name = if c.display_name@.len() == 0 {
                "<name unset>"@
            } else {
                c.display_name@
            };
            let addr = if c.addr@.len() == 0 {
                "addr unset"@
            } else {
                c.addr@
            };
            let ticks = if verified == VerifiedStatus::BidirectVerified {
                " √√"@
            } else if verified == VerifiedStatus::Verified {
                " √"@
            } else {
                ""@
            };
            let wish = if prefers is Some && id != 1 {
                ", prefer-encrypt="@ + prefers->Some_0
            } else {
                ""@
            };
            contact_line(id, c, verified, prefers) == "Contact#"@ + digits(id as nat) + ": "@ + name
                + ticks + " <"@ + addr + ">"@ + wish + "\n"@
        }),
{
}

/// The lines of a chat in a list say which chat it is, how it is called, how many fresh messages it
/// has and how it is kept; then what was said last, by whom and when.
pub proof fn law_lines_of_a_chat(chat: ChatInfo, fresh: u64, last: SummaryInfo)
    ensures
        chat_line(chat, fresh) == chat.prefix@ + "#"@ + chat.label@ + ": "@ + chat.name@ + " ["@
            + digits(fresh as nat) + " fresh] "@ + marked(chat.muted, "🔇"@) + (
        if chat.visibility == Visibility::Archived {
            "📦"@
        } else if chat.visibility == Visibility::Pinned {
            "📌"@
        } else {
            ""@
        }) + marked(chat.protected, "🛡\u{fe0f}"@) + marked(chat.contact_request, "🆕"@) + "\n"@,
        summary_line(chat, last) == (if last.prefix is Some {
            last.prefix->Some_0@ + ": "@
        } else {
            ""@
        }) + last.text@ + (if chat.visibility == Visibility::Archived {
            " [Archived]"@
        } else {
            way_out(last.state)
        }) + " ["@ + last.time@ + "]"@ + marked(chat.sending_locations, "📍"@) + "\n"@,
{
}

/// The line above the messages of a chat says which chat it is, how it is called, who is in it, how
/// it is kept, and where its image is.
pub proof fn law_line_above_a_chat(chat: ChatInfo, people: Seq<char>, image: ProfileImage)
    ensures
        header(chat, people, image) == chat.prefix@ + "#"@ + chat.label@ + ": "@ + chat.name@
            + " ["@
            + people + "]"@ + marked(chat.muted, "🔇"@) + marked(chat.sending_locations, "📍"@)
            + marked(chat.protected, "🛡\u{fe0f}"@) + " "@ + (if image is Path {
            " Icon: "@ + image->Path_0@ + "\n"@
        } else if image is Unreadable {
            " Icon: Err"@
        } else {
            ""@
        }) + "\n"@,
{
}

/// The line of a place says all that is known of it.
pub proof fn law_line_of_a_place(l: LocationInfo)
    ensures
        location_line(l) == "Loc#"@ + digits(l.id as nat) + ": "@ + l.time@ + ": lat="@
            + l.latitude@ + " lng="@ + l.longitude@ + " acc="@ + l.accuracy@ + " Chat#"@ + l.chat@
            + " Contact#"@ + digits(l.contact_id as nat) + " "@ + digits(l.msg_id as nat) + " "@ + (
        if l.marker is Some {
            l.marker->Some_0@
        } else {
            "-"@
        }) + "\n"@,
{
}

/// A list of places has a line for each of them, in the order of the list.
pub proof fn law_lines_of_places(list: Seq<LocationInfo>, l: LocationInfo)
    ensures
        location_lines(seq![]) == ""@,
        location_lines(list.push(l)) == location_lines(list) + location_line(l),
{
    assert(list.push(l).drop_last() =~= list);
}

/// What is said of a provider that is known: its state, the hints and the page for its users, and
/// then its servers, each with its host and its port.
pub proof fn law_known_provider(addr: Seq<char>, p: ProviderInfo)
    ensures
        provider_lines(addr, Some(p)) == "Information for provider belonging to "@ + addr + ":"@
            + "status: "@ + digits(p.status as nat) + "before_login_hint: "@ + p.before_login_hint@
            + "after_login_hint: "@ + p.after_login_hint@ + "overview_page: "@ + p.overview_page@
            + server_lines(p, p.servers@.len()),
        server_lines(p, 0) == ""@,
        forall|n: nat|
            n < p.servers@.len() ==> #[trigger] server_lines(p, n + 1) == server_lines(p, n)
                + "server: "@ + p.servers@[n as int].hostname@ + ":"@ + digits(
                p.servers@[n as int].port as nat,
            ),
{
    reveal_with_fuel(server_lines, 2);
}

/// A provider of which nothing is known is said to be unknown.
pub proof fn law_unknown_provider(addr: Seq<char>)
    ensures
        provider_lines(addr, None) == "No information for provider belonging to "@ + addr
            + " found."@,
{
}

}
