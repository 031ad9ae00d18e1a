//! What the bridge keeps in the configuration is read back as it was written.
use vstd::prelude::*;

use crate::appservice::{
    chat_by_room, custom_key, room_by_chat, Caches, Settings, BAD_ROOM_ID, CHAT_BY_ROOM_PREFIX,
    CONTROL_ROOM_KEY, CUSTOM_PREFIX, OWNER_KEY, REPL_CHAT_KEY, ROOM_BY_CHAT_PREFIX,
};
use crate::numbers::{digits, law_digits_tell_numbers_apart, law_unsigned_reads_back};
use crate::outside::{is_room_id, user_id_parts};
use crate::protocol::{
    Actor, DeltaRequest, HostRequest, LogLevel, MatrixRequest, Reply, Request, RequestModel, Value,
};
use crate::run::{answers, kept, lemma_ask, performed, run, start, written, End, Host, Run};
use crate::task::{lemma_settings, Task};

verus! {

broadcast use lemma_settings;

proof fn lemma_same_prefix(prefix: Seq<char>, a: Seq<char>, b: Seq<char>)
    requires
        prefix + a == prefix + b,
    ensures
        a == b,
{
    assert((prefix + a).skip(prefix.len() as int) =~= a);
    assert((prefix + b).skip(prefix.len() as int) =~= b);
}

/// No two settings of the bridge are kept under the same key: those with a key of their own,
/// those of a room and those of a chat are all apart.
pub proof fn law_keys_are_distinct(room: Seq<char>, room2: Seq<char>, chat: u32, chat2: u32)
    ensures
        OWNER_KEY@ != CONTROL_ROOM_KEY@,
        OWNER_KEY@ != REPL_CHAT_KEY@,
        CONTROL_ROOM_KEY@ != REPL_CHAT_KEY@,
        forall|key: Seq<char>| #[trigger] custom_key(key) != OWNER_KEY@,
        forall|key: Seq<char>| #[trigger] custom_key(key) != CONTROL_ROOM_KEY@,
        forall|key: Seq<char>| #[trigger] custom_key(key) != REPL_CHAT_KEY@,
        custom_key(chat_by_room(room)) != custom_key(room_by_chat(chat)),
        custom_key(chat_by_room(room)) == custom_key(chat_by_room(room2)) ==> room == room2,
        custom_key(room_by_chat(chat)) == custom_key(room_by_chat(chat2)) ==> chat == chat2,
{
    reveal_strlit("ui.appservice.owner_user_id");
    reveal_strlit("ui.appservice.control_room_id");
    reveal_strlit("ui.appservice.repl_active_chat_id");
    reveal_strlit("ui.appservice.custom.");
    reveal_strlit("chat_id_by_room_id.");
    reveal_strlit("room_id_by_chat_id.");
    assert(OWNER_KEY@[14] == 'o');
    assert(CONTROL_ROOM_KEY@[14] == 'c');
    assert(CONTROL_ROOM_KEY@[15] == 'o');
    assert(REPL_CHAT_KEY@[14] == 'r');
    assert forall|key: Seq<char>|
        #![trigger custom_key(key)]
        custom_key(key)[14] == 'c' && custom_key(key)[15] == 'u' by {
        assert(custom_key(key)[14] == CUSTOM_PREFIX@[14]);
        assert(custom_key(key)[15] == CUSTOM_PREFIX@[15]);
    }
    assert(custom_key(chat_by_room(room))[21] == 'c') by {
        assert(custom_key(chat_by_room(room))[21] == chat_by_room(room)[0]);
        assert(chat_by_room(room)[0] == CHAT_BY_ROOM_PREFIX@[0]);
    }
    assert(custom_key(room_by_chat(chat))[21] == 'r') by {
        assert(custom_key(room_by_chat(chat))[21] == room_by_chat(chat)[0]);
        assert(room_by_chat(chat)[0] == ROOM_BY_CHAT_PREFIX@[0]);
    }
    if custom_key(chat_by_room(room)) == custom_key(chat_by_room(room2)) {
        lemma_same_prefix(CUSTOM_PREFIX@, chat_by_room(room), chat_by_room(room2));
        lemma_same_prefix(CHAT_BY_ROOM_PREFIX@, room, room2);
    }
    if custom_key(room_by_chat(chat)) == custom_key(room_by_chat(chat2)) {
        lemma_same_prefix(CUSTOM_PREFIX@, room_by_chat(chat), room_by_chat(chat2));
        lemma_same_prefix(ROOM_BY_CHAT_PREFIX@, digits(chat as nat), digits(chat2 as nat));
        law_digits_tell_numbers_apart(chat as nat, chat2 as nat);
    }
}

/// The keys that the settings of a room and of a chat are kept under, and those of the bridge
/// itself.
pub proof fn law_settings_have_their_keys(room: Seq<char>, chat: u32)
    ensures
        OWNER_KEY@ == "ui.appservice.owner_user_id"@,
        CONTROL_ROOM_KEY@ == "ui.appservice.control_room_id"@,
        REPL_CHAT_KEY@ == "ui.appservice.repl_active_chat_id"@,
        custom_key(chat_by_room(room)) == "ui.appservice.custom."@ + ("chat_id_by_room_id."@
            + room),
        custom_key(room_by_chat(chat)) == "ui.appservice.custom."@ + ("room_id_by_chat_id."@
            + digits(
            chat as nat,
        )),
{
}

/// A setting that was written is what is read, and a setting that was removed is not there. No
/// other setting is touched.
pub proof fn law_setting_is_read_back(
    key: Seq<char>,
    value: Option<Seq<char>>,
    other: Seq<char>,
    caches: Caches,
    host: Host,
    steps: nat,
)
    requires
        steps >= 2,
    ensures
        ({
            let done = start(
                Task::Settings(Settings::Write { key, value }),
                caches,
                host,
                steps,
            );
            let read = Task::Settings(Settings::Read { key });
            let read_other = Task::Settings(Settings::Read { key: other });
            &&& done.end == End::Return(Value::Unit)
            &&& start(read, done.caches, done.host, steps).end == End::Return(
                Value::MaybeText(value),
            )
            &&& other != key ==> start(read_other, done.caches, done.host, steps).end == start(
                read_other,
                caches,
                host,
                steps,
            ).end
        }),
{
    reveal_with_fuel(run, 3);
    if custom_key(other) == custom_key(key) {
        lemma_same_prefix(CUSTOM_PREFIX@, other, key);
    }
}

proof fn lemma_write(
    key: Seq<char>,
    value: Option<Seq<char>>,
    caches: Caches,
    host: Host,
    steps: nat,
)
    requires
        steps >= 2,
    ensures
        start(Task::Settings(Settings::Write { key, value }), caches, host, steps) == (Run {
            end: End::Return(Value::Unit),
            caches,
            host: performed(
                host,
                Request::Delta(DeltaRequest::UiSet { key: custom_key(key), value }),
            ),
        }),
{
    reveal_with_fuel(run, 3);
}

proof fn lemma_read(key: Seq<char>, caches: Caches, host: Host, steps: nat)
    requires
        steps >= 2,
    ensures
        start(Task::Settings(Settings::Read { key }), caches, host, steps) == (Run {
            end: End::Return(Value::MaybeText(kept(host.settings, custom_key(key)))),
            caches,
            host: performed(host, Request::Delta(DeltaRequest::UiGet { key: custom_key(key) })),
        }),
{
    reveal_with_fuel(run, 3);
}

/// What a room and a chat are found to have, by what is kept.
pub open spec fn found_chat(host: Host, room_id: Seq<char>) -> Option<Seq<char>> {
    kept(host.settings, custom_key(chat_by_room(room_id)))
}

/// What a chat is found to have, by what is kept.
pub open spec fn found_room(host: Host, chat_id: u32) -> Option<Seq<char>> {
    kept(host.settings, custom_key(room_by_chat(chat_id)))
}

/// How the search for the chat of a room ends: with the chat that is kept for it, if there is
/// one.
pub proof fn law_chat_of_room(room_id: Seq<char>, caches: Caches, host: Host, steps: nat)
    requires
        steps >= 4,
    ensures
        ({
            let found = start(Task::Settings(Settings::GetChat { room_id }), caches, host, steps);
            &&& found.caches == caches
            &&& found.host.settings == host.settings
            &&& match found_chat(host, room_id) {
                Some(text) => forall|n: u32|
                    text == #[trigger] digits(n as nat) ==> found.end == End::Return(
                        Value::MaybeNumber(Some(n)),
                    ),
                None => found.end == End::Return(Value::MaybeNumber(None)),
            }
        }),
{
    reveal_with_fuel(run, 2);
    lemma_read(chat_by_room(room_id), caches, host, (steps - 1) as nat);
    assert forall|n: u32| found_chat(host, room_id) == Some(#[trigger] digits(n as nat)) implies start(
        Task::Settings(Settings::GetChat { room_id }),
        caches,
        host,
        steps,
    ).end == End::Return(Value::MaybeNumber(Some(n))) by {
        law_unsigned_reads_back(n as nat, 0xffff_ffff);
    }
    match found_chat(host, room_id) {
        Some(text) => {},
        None => {},
    }
}

/// What the search for the chat of a room asks for.
pub proof fn lemma_chat_search(room_id: Seq<char>, caches: Caches, host: Host, steps: nat)
    requires
        steps >= 4,
    ensures
        start(Task::Settings(Settings::GetChat { room_id }), caches, host, steps).host
            == performed(
            host,
            Request::Delta(DeltaRequest::UiGet { key: custom_key(chat_by_room(room_id)) }),
        ),
{
    reveal_with_fuel(run, 2);
    lemma_read(chat_by_room(room_id), caches, host, (steps - 1) as nat);
}

/// How the search for the room of a chat ends: with the room that is kept for it, if there is one
/// and it is a room identifier.
pub proof fn law_room_of_chat(chat_id: u32, caches: Caches, host: Host, steps: nat)
    requires
        steps >= 4,
    ensures
        ({
            let found = start(Task::Settings(Settings::GetRoom { chat_id }), caches, host, steps);
            &&& found.caches == caches
            &&& found.host == performed(
                host,
                Request::Delta(DeltaRequest::UiGet { key: custom_key(room_by_chat(chat_id)) }),
            )
            &&& found.end == End::Return(
                Value::MaybeText(
                    match found_room(host, chat_id) {
                        Some(room_id) => if is_room_id(room_id) {
                            Some(room_id)
                        } else {
                            None
                        },
                        None => None,
                    },
                ),
            )
        }),
{
    reveal_with_fuel(run, 2);
    lemma_read(room_by_chat(chat_id), caches, host, (steps - 1) as nat);
}

pub proof fn lemma_link(
    room_id: Seq<char>,
    chat_id: u32,
    caches: Caches,
    host: Host,
    steps: nat,
)
    requires
        steps >= 5,
    ensures
        ({
            let tied = start(
                Task::Settings(Settings::Link { room_id, chat_id }),
                caches,
                host,
                steps,
            );
            &&& tied.end == End::Return(Value::Unit)
            &&& tied.caches == caches
            &&& tied.host.settings == written(
                written(
                    host.settings,
                    custom_key(chat_by_room(room_id)),
                    Some(digits(chat_id as nat)),
                ),
                custom_key(room_by_chat(chat_id)),
                Some(room_id),
            )
        }),
{
    reveal_with_fuel(run, 3);
    let first = performed(
        host,
        Request::Delta(
            DeltaRequest::UiSet {
                key: custom_key(chat_by_room(room_id)),
                value: Some(digits(chat_id as nat)),
            },
        ),
    );
    let one = (steps - 1) as nat;
    let two = (steps - 2) as nat;
    lemma_write(chat_by_room(room_id), Some(digits(chat_id as nat)), caches, host, one);
    lemma_write(room_by_chat(chat_id), Some(room_id), caches, first, two);
}

pub proof fn lemma_clear_pair(
    room_id: Seq<char>,
    chat_id: u32,
    caches: Caches,
    host: Host,
    steps: nat,
)
    requires
        steps >= 5,
    ensures
        ({
            let parted = start(
                Task::Settings(Settings::Clear { room_id, chat_id }),
                caches,
                host,
                steps,
            );
            &&& parted.end == End::Return(Value::Unit)
            &&& parted.caches == caches
            &&& parted.host.settings == written(
                written(host.settings, custom_key(chat_by_room(room_id)), None),
                custom_key(room_by_chat(chat_id)),
                None,
            )
        }),
{
    reveal_with_fuel(run, 3);
    let first = performed(
        host,
        Request::Delta(DeltaRequest::UiSet { key: custom_key(chat_by_room(room_id)), value: None }),
    );
    let one = (steps - 1) as nat;
    let two = (steps - 2) as nat;
    lemma_write(chat_by_room(room_id), None, caches, host, one);
    lemma_write(room_by_chat(chat_id), None, caches, first, two);
}

/// Once a room and a chat are tied, each is found by the other, and what is found for any other
/// room or chat stays the same.
pub proof fn law_room_and_chat_find_each_other(
    room_id: Seq<char>,
    chat_id: u32,
    other_room: Seq<char>,
    other_chat: u32,
    caches: Caches,
    host: Host,
    steps: nat,
)
    requires
        steps >= 5,
    ensures
        ({
            let tied = start(
                Task::Settings(Settings::Link { room_id, chat_id }),
                caches,
                host,
                steps,
            );
            let chat = start(
                Task::Settings(Settings::GetChat { room_id }),
                tied.caches,
                tied.host,
                steps,
            );
            let room = start(
                Task::Settings(Settings::GetRoom { chat_id }),
                tied.caches,
                tied.host,
                steps,
            );
            &&& tied.end == End::Return(Value::Unit)
            &&& chat.end == End::Return(Value::MaybeNumber(Some(chat_id)))
            &&& is_room_id(room_id) ==> room.end == End::Return(Value::MaybeText(Some(room_id)))
            &&& other_room != room_id ==> found_chat(tied.host, other_room) == found_chat(
                host,
                other_room,
            )
            &&& other_chat != chat_id ==> found_room(tied.host, other_chat) == found_room(
                host,
                other_chat,
            )
        }),
{
    law_keys_are_distinct(room_id, other_room, chat_id, other_chat);
    law_keys_are_distinct(other_room, room_id, other_chat, chat_id);
    law_keys_are_distinct(room_id, other_room, other_chat, chat_id);
    law_keys_are_distinct(other_room, room_id, chat_id, other_chat);
    lemma_link(room_id, chat_id, caches, host, steps);
    let tied = start(Task::Settings(Settings::Link { room_id, chat_id }), caches, host, steps);
    law_chat_of_room(room_id, tied.caches, tied.host, steps);
    law_room_of_chat(chat_id, tied.caches, tied.host, steps);
}

/// Once a room is parted from its chat, neither is found by the other, and what is found for any
/// other room or chat stays the same.
pub proof fn law_parted_room_and_chat_are_not_found(
    room_id: Seq<char>,
    chat_id: u32,
    other_room: Seq<char>,
    other_chat: u32,
    caches: Caches,
    host: Host,
    steps: nat,
)
    requires
        steps >= 5,
    ensures
        ({
            let parted = start(
                Task::Settings(Settings::Clear { room_id, chat_id }),
                caches,
                host,
                steps,
            );
            let chat = start(
                Task::Settings(Settings::GetChat { room_id }),
                parted.caches,
                parted.host,
                steps,
            );
            let room = start(
                Task::Settings(Settings::GetRoom { chat_id }),
                parted.caches,
                parted.host,
                steps,
            );
            &&& parted.end == End::Return(Value::Unit)
            &&& chat.end == End::Return(Value::MaybeNumber(None))
            &&& room.end == End::Return(Value::MaybeText(None))
            &&& other_room != room_id ==> found_chat(parted.host, other_room) == found_chat(
                host,
                other_room,
            )
            &&& other_chat != chat_id ==> found_room(parted.host, other_chat) == found_room(
                host,
                other_chat,
            )
        }),
{
    law_keys_are_distinct(room_id, other_room, chat_id, other_chat);
    law_keys_are_distinct(other_room, room_id, other_chat, chat_id);
    law_keys_are_distinct(room_id, other_room, other_chat, chat_id);
    law_keys_are_distinct(other_room, room_id, chat_id, other_chat);
    lemma_clear_pair(room_id, chat_id, caches, host, steps);
    let parted = start(Task::Settings(Settings::Clear { room_id, chat_id }), caches, host, steps);
    law_chat_of_room(room_id, parted.caches, parted.host, steps);
    law_room_of_chat(chat_id, parted.caches, parted.host, steps);
}

/// The chat of the command line is read back as it was written; it is no chat as long as none was
/// written.
pub proof fn law_repl_chat_is_read_back(chat_id: u32, caches: Caches, host: Host, steps: nat)
    requires
        steps >= 2,
    ensures
        ({
            let done = start(
                Task::Settings(Settings::SetReplChat { chat_id }),
                caches,
                host,
                steps,
            );
            let read = Task::Settings(Settings::GetReplChat);
            &&& done.end == End::Return(Value::Unit)
            &&& start(read, done.caches, done.host, steps).end == End::Return(
                Value::Number(chat_id),
            )
            &&& !host.settings.contains_key(REPL_CHAT_KEY@) ==> start(
                read,
                caches,
                host,
                steps,
            ).end == End::Return(Value::Number(0))
        }),
{
    reveal_with_fuel(run, 3);
    law_unsigned_reads_back(chat_id as nat, 0xffff_ffff);
}

/// The control room is read back as it was written, if it is a room identifier.
pub proof fn law_control_room_is_read_back(
    room_id: Seq<char>,
    caches: Caches,
    host: Host,
    steps: nat,
)
    requires
        steps >= 2,
        is_room_id(room_id),
    ensures
        ({
            let done = start(
                Task::Settings(Settings::SetControlRoomId { room_id }),
                caches,
                host,
                steps,
            );
            let read = Task::Settings(Settings::GetControlRoomId);
            &&& done.end == End::Return(Value::Unit)
            &&& start(read, done.caches, done.host, steps).end == End::Return(
                Value::MaybeText(Some(room_id)),
            )
        }),
{
    reveal_with_fuel(run, 3);
}

/// A line in the log.
pub open spec fn logging(level: LogLevel, text: Seq<char>) -> RequestModel {
    Request::Host(HostRequest::Log { level, text })
}

/// The search for the control room that is kept.
pub proof fn lemma_control_room_id(caches: Caches, host: Host, steps: nat)
    requires
        steps >= 2,
    ensures
        start(Task::Settings(Settings::GetControlRoomId), caches, host, steps) == (Run {
            end: match kept(host.settings, CONTROL_ROOM_KEY@) {
                Some(room_id) => if is_room_id(room_id) {
                    End::Return(Value::MaybeText(Some(room_id)))
                } else {
                    End::Panic(BAD_ROOM_ID@)
                },
                None => End::Return(Value::MaybeText(None)),
            },
            caches,
            host: performed(host, Request::Delta(DeltaRequest::UiGet { key: CONTROL_ROOM_KEY@ })),
        }),
{
    reveal_with_fuel(run, 3);
}

/// What is asked in search of the control room.
pub open spec fn seeking_control(host: Host) -> Host {
    let h1 = performed(host, Request::Delta(DeltaRequest::UiGet { key: CONTROL_ROOM_KEY@ }));
    match kept(host.settings, CONTROL_ROOM_KEY@) {
        Some(room_id) => performed(
            performed(h1, logging(LogLevel::Info, "control room: "@ + room_id)),
            Request::Matrix(MatrixRequest::IsJoined { who: Actor::Main, room: room_id }),
        ),
        None => performed(h1, logging(LogLevel::Warning, "no control room configured!"@)),
    }
}

/// The search for a control room that the bridge is in.
pub proof fn lemma_control_room(joined: bool, caches: Caches, host: Host, steps: nat)
    requires
        steps >= 4,
        kept(host.settings, CONTROL_ROOM_KEY@) matches Some(room_id) ==> is_room_id(room_id)
            && answers(
            host,
            Request::Matrix(MatrixRequest::IsJoined { who: Actor::Main, room: room_id }),
            Reply::Got(Value::Flag(joined)),
        ),
    ensures
        start(Task::Settings(Settings::GetControlRoom), caches, host, steps) == (Run {
            end: End::Return(
                Value::MaybeText(
                    if joined {
                        kept(host.settings, CONTROL_ROOM_KEY@)
                    } else {
                        None
                    },
                ),
            ),
            caches,
            host: seeking_control(host),
        }),
{
    let left = (steps - 1) as nat;
    lemma_control_room_id(caches, host, left);
    let h1 = performed(host, Request::Delta(DeltaRequest::UiGet { key: CONTROL_ROOM_KEY@ }));
    let known = Task::Settings(Settings::ControlRoomKnown);
    match kept(host.settings, CONTROL_ROOM_KEY@) {
        Some(room_id) => {
            let line = logging(LogLevel::Info, "control room: "@ + room_id);
            let h2 = performed(h1, line);
            lemma_ask(
                known,
                Reply::Got(Value::MaybeText(Some(room_id))),
                caches,
                h1,
                left,
                line,
                Task::Settings(Settings::ControlRoomNoted { room_id }),
            );
            lemma_ask(
                Task::Settings(Settings::ControlRoomNoted { room_id }),
                Reply::Got(Value::Unit),
                caches,
                h2,
                (steps - 2) as nat,
                Request::Matrix(MatrixRequest::IsJoined { who: Actor::Main, room: room_id }),
                Task::Settings(Settings::ControlRoomTried { room_id }),
            );
        },
        None => {
            lemma_ask(
                known,
                Reply::Got(Value::MaybeText(None)),
                caches,
                h1,
                left,
                logging(LogLevel::Warning, "no control room configured!"@),
                Task::Settings(Settings::ControlRoomMissed),
            );
        },
    }
}

/// The owner of the bridge is read back as it was written, if it is a user identifier.
pub proof fn law_owner_is_read_back(user_id: Seq<char>, caches: Caches, host: Host, steps: nat)
    requires
        steps >= 2,
        user_id_parts(user_id) is Ok,
    ensures
        ({
            let done = start(
                Task::Settings(Settings::SetOwner { user_id }),
                caches,
                host,
                steps,
            );
            let read = Task::Settings(Settings::GetOwner);
            &&& done.end == End::Return(Value::Unit)
            &&& start(read, done.caches, done.host, steps).end == End::Return(Value::Text(user_id))
        }),
{
    reveal_with_fuel(run, 3);
}

}
