//! What becomes of what fails.
use vstd::prelude::*;

use crate::appservice::{Caches, Settings};
use crate::cmdline::{cmdline_next, command_next, CmdlineModel};
use crate::cmdline::poke::{address_and_key, Poke};
use crate::laws::imports::{lemma_import_begins, recalling, remembering, suffix_of, summary};
use crate::laws::parts::{carrying, measuring, posting, uploading, words};
use crate::laws::rooms::is_in;
use crate::matrix_intents::Bridge;
use crate::numbers::{
    digits, is_numeral, law_numerals_are_read, law_other_texts_are_no_numbers, worth,
};
use crate::outside::{is_room_id, user_id_parts};
use crate::protocol::{
    Actor, DeltaRequest, HostRequest, MessageInfo, Reply, ReplyModel, Request, RequestModel, Step,
    StepModel, Value, ViewType,
};
use crate::run::{answers, kept, lemma_ask, performed, reply_to, run, start, End, Host, Run};
use crate::task::{
    lemma_arrival, lemma_backfill, lemma_bridge, lemma_callback, lemma_chat_room, lemma_clear,
    lemma_cmdline, lemma_control, lemma_delivery, lemma_email_user, lemma_failure, lemma_heard,
    lemma_journal, lemma_log_msg, lemma_lookup, lemma_member, lemma_poke, lemma_reaction, lemma_roll,
    lemma_room_state, lemma_settings, lemma_setup, lemma_space, lemma_spoken, lemma_topic, next, Task,
    TaskModel,
};
use crate::text::opt_text;

verus! {

/// Whether a failure brings the bridge down that a task hears of. What is kept must be there, and
/// so must what the core has told of; and a chat gets its room, or nothing does.
pub open spec fn is_brought_down(task: TaskModel) -> bool {
    match task {
        Task::Settings(s) => !(s is Saved),
        Task::EmailUser(s) => s is Loaded || s is Known,
        Task::Space(s) => s is Created || s is Synced,
        Task::ChatRoom(s) => !(s is ChildSent),
        Task::Backfill(s) => s is Listed || s is Loaded,
        Task::Clear(s) => s is Left || s is MainLeft,
        Task::Callback(_) => true,
        Task::Arrival(s) => s is Loaded || s is Noticed,
        Task::Failure(s) => s is Loaded,
        Task::LogMsg(_) => true,
        Task::Roll(s) => s is Preferred,
        Task::Poke(s) => s is Remembered || s is Recalled,
        Task::Spoken(s) => s is Accepted || s is Sent,
        Task::Member(s) => s is Gone,
        Task::Topic(_) => true,
        Task::Reaction(s) => s is Blocked,
        Task::Control(s) => s is RoomTested || s is Settle,
        Task::Setup(s) => s is Tested || s is TestedAgain || s is Storing,
        _ => false,
    }
}

/// Whether a task goes on after a failure: with a user that is registered or invited already, with
/// a member that stays where it is, without a reader, with the other files of an import, with a
/// command that could not be taken back, and where the failure itself is what is to be told.
pub open spec fn shrugs_off(task: TaskModel) -> bool {
    match task {
        Task::EmailUser(s) => s is Registered || s is Invited || s is Joined,
        Task::Clear(s) => s is Ready,
        Task::Delivery(s) => s is ReadUser,
        Task::Poke(s) => s is FileDone || s is Dir || s is Entry || s is EmlReceived,
        Task::Setup(s) => s is Redacted || s is Done,
        Task::Cmdline { stage, .. } => stage is Deaf || stage is QrSet || stage is KeyTransfer,
        _ => false,
    }
}

/// Whether a step passes a failure on as it has to.
pub open spec fn passes_on(task: TaskModel, error: Seq<char>, step: StepModel) -> bool {
    match step {
        Step::Raise(reason) => reason == error && !is_brought_down(task),
        Step::Panic(reason) => reason == error && is_brought_down(task),
        Step::Return(Value::Said { said: Err(reason), .. }) => reason == error || shrugs_off(task),
        Step::Mismatch => true,
        _ => shrugs_off(task),
    }
}

proof fn lemma_command_passes_on(chat_id: u32, stage: CmdlineModel, error: Seq<char>)
    ensures
        passes_on(
            Task::Cmdline { chat_id, stage },
            error,
            cmdline_next(chat_id, stage, Reply::Failed(error)),
        ),
{
    reveal(command_next);
}

/// No failure goes unnoticed: whatever fails, with whatever reason, the reason is passed on to
/// whoever waits for it, or said, or brings the bridge down; but for the few failures that do not
/// matter.
pub proof fn law_failures_do_not_go_unnoticed(task: TaskModel, error: Seq<char>, caches: Caches)
    ensures
        passes_on(task, error, next(task, Reply::Failed(error), caches).1),
{
    let reply: ReplyModel = Reply::Failed(error);
    match task {
        Task::Settings(s) => lemma_settings(s, reply, caches),
        Task::EmailUser(s) => lemma_email_user(s, reply, caches),
        Task::RoomState(s) => lemma_room_state(s, reply, caches),
        Task::Space(s) => lemma_space(s, reply, caches),
        Task::ChatRoom(s) => lemma_chat_room(s, reply, caches),
        Task::Backfill(s) => lemma_backfill(s, reply, caches),
        Task::Clear(s) => lemma_clear(s, reply, caches),
        Task::Bridge(s) => lemma_bridge(s, reply, caches),
        Task::Lookup(s) => lemma_lookup(s, reply, caches),
        Task::Callback(s) => lemma_callback(s, reply, caches),
        Task::Delivery(s) => lemma_delivery(s, reply, caches),
        Task::Arrival(s) => lemma_arrival(s, reply, caches),
        Task::Failure(s) => lemma_failure(s, reply, caches),
        Task::LogMsg(s) => lemma_log_msg(s, reply, caches),
        Task::Journal(s) => lemma_journal(s, reply, caches),
        Task::Roll(s) => lemma_roll(s, reply, caches),
        Task::Poke(s) => lemma_poke(s, reply, caches),
        Task::Heard(s) => lemma_heard(s, reply, caches),
        Task::Spoken(s) => lemma_spoken(s, reply, caches),
        Task::Member(s) => lemma_member(s, reply, caches),
        Task::Topic(s) => lemma_topic(s, reply, caches),
        Task::Reaction(s) => lemma_reaction(s, reply, caches),
        Task::Control(s) => lemma_control(s, reply, caches),
        Task::Setup(s) => lemma_setup(s, reply, caches),
        Task::Cmdline { chat_id, stage } => {
            lemma_cmdline(chat_id, stage, reply, caches);
            lemma_command_passes_on(chat_id, stage, error);
        },
    }
}

/// The chat that the command line works on is the one whose number is kept; none where nothing is
/// kept, or where it is no number.
pub proof fn law_active_chat_is_what_is_kept(caches: Caches, host: Host, steps: nat)
    requires
        steps >= 2,
    ensures
        ({
            let done = start(Task::Settings(Settings::GetReplChat), caches, host, steps);
            &&& done.caches == caches
            &&& done.host == performed(
                host,
                Request::Delta(DeltaRequest::UiGet { key: "ui.appservice.repl_active_chat_id"@ }),
            )
            &&& match kept(host.settings, "ui.appservice.repl_active_chat_id"@) {
                Some(text) => {
                    &&& is_numeral(text) ==> done.end == End::Return(
                        Value::Number(
                            if worth(text) <= 0xffff_ffff {
                                worth(text) as u32
                            } else {
                                0
                            },
                        ),
                    )
                    &&& text.len() == 0 || (!('0' <= text[0] <= '9') && text[0] != '+') ==> done.end
                        == End::Return(Value::Number(0))
                },
                None => done.end == End::Return(Value::Number(0)),
            }
        }),
{
    broadcast use lemma_settings;

    reveal_with_fuel(run, 2);
    if let Some(text) = kept(host.settings, "ui.appservice.repl_active_chat_id"@) {
        law_other_texts_are_no_numbers(text, 0xffff_ffff);
        if is_numeral(text) {
            law_numerals_are_read(text, 0xffff_ffff);
        }
    }
}

/// What is kept has to make sense: an owner that is not kept, or is no user, brings the bridge
/// down, and so does the chat of a room whose number is none. A room of a chat that is no room
/// counts for nothing.
pub proof fn law_what_is_kept_has_to_make_sense(
    room_id: Seq<char>,
    chat_id: u32,
    caches: Caches,
    host: Host,
    steps: nat,
)
    requires
        steps >= 4,
    ensures
        ({
            let done = start(Task::Settings(Settings::GetOwner), caches, host, steps);
            match kept(host.settings, "ui.appservice.owner_user_id"@) {
                Some(user) => match user_id_parts(user) {
                    Ok(_) => done.end == End::Return(Value::Text(user)),
                    Err(error) => done.end == End::Panic(error),
                },
                None => done.end is Panic,
            }
        }),
        ({
            let done = start(Task::Settings(Settings::GetChat { room_id }), caches, host, steps);
            let key = "ui.appservice.custom."@ + ("chat_id_by_room_id."@ + room_id);
            match kept(host.settings, key) {
                Some(text) => {
                    &&& is_numeral(text) && worth(text) <= 0xffff_ffff ==> done.end == End::Return(
                        Value::MaybeNumber(Some(worth(text) as u32)),
                    )
                    &&& text.len() == 0 || (!('0' <= text[0] <= '9') && text[0] != '+') ==> done.end
                        is Panic
                },
                None => done.end == End::Return(Value::MaybeNumber(None)),
            }
        }),
        ({
            let done = start(Task::Settings(Settings::GetRoom { chat_id }), caches, host, steps);
            let key = "ui.appservice.custom."@ + ("room_id_by_chat_id."@ + digits(chat_id as nat));
            match kept(host.settings, key) {
                Some(room) => if is_room_id(room) {
                    done.end == End::Return(Value::MaybeText(Some(room)))
                } else {
                    done.end == End::Return(Value::MaybeText(None))
                },
                None => done.end == End::Return(Value::MaybeText(None)),
            }
        }),
{
    broadcast use lemma_settings;

    reveal_with_fuel(run, 4);
    if let Some(text) = kept(
        host.settings,
        "ui.appservice.custom."@ + ("chat_id_by_room_id."@ + room_id),
    ) {
        law_other_texts_are_no_numbers(text, 0xffff_ffff);
        if is_numeral(text) {
            law_numerals_are_read(text, 0xffff_ffff);
        }
    }
}

/// A message whose file cannot be uploaded does not come over: the reason is passed on, and nothing
/// is sent.
pub proof fn law_failed_upload_is_passed_on(
    who: Actor<Seq<char>>,
    room_id: Seq<char>,
    message: MessageInfo,
    mime: Seq<char>,
    file: Seq<char>,
    error: Seq<char>,
    caches: Caches,
    host: Host,
    steps: nat,
)
    requires
        steps >= 4,
        !message.system,
        message.view_type != ViewType::Other,
        opt_text(message.mime) == Some(mime),
        opt_text(message.file) == Some(file),
        answers(host, uploading(who, mime, file), Reply::Failed(error)),
    ensures
        start(Task::Bridge(Bridge::Start { who, room_id, message }), caches, host, steps) == (Run {
            end: End::Raise(error),
            caches,
            host: performed(host, uploading(who, mime, file)),
        }),
{
    broadcast use lemma_bridge;

    let upload = Task::Bridge(Bridge::Upload { who, mime: Some(mime), file: Some(file) });
    let uploaded = Task::Bridge(Bridge::Uploaded { who, room_id, message });
    let h1 = performed(host, uploading(who, mime, file));
    let n1 = (steps - 1) as nat;
    let done = start(Task::Bridge(Bridge::Start { who, room_id, message }), caches, host, steps);
    lemma_ask(
        upload,
        Reply::Start,
        caches,
        host,
        n1,
        uploading(who, mime, file),
        Task::Bridge(Bridge::UploadDone),
    );
    assert(start(upload, caches, host, n1) == (Run { end: End::Raise(error), caches, host: h1 }));
    assert(done == run(uploaded, Reply::Failed(error), caches, h1, n1));
}

/// An image with a negative width or height, and a file that is larger than an event can say, bring
/// the bridge down once they are uploaded; nothing is sent.
pub proof fn law_sizes_that_do_not_fit_bring_down(
    who: Actor<Seq<char>>,
    room_id: Seq<char>,
    message: MessageInfo,
    mime: Seq<char>,
    file: Seq<char>,
    url: Seq<char>,
    size: u64,
    caches: Caches,
    host: Host,
    steps: nat,
)
    requires
        steps >= 6,
        !message.system,
        message.view_type != ViewType::Other,
        opt_text(message.mime) == Some(mime),
        opt_text(message.file) == Some(file),
        answers(host, uploading(who, mime, file), Reply::Got(Value::Text(url))),
        answers(host, measuring(message.id), Reply::Got(Value::Count(size))),
    ensures
        ({
            let done = start(
                Task::Bridge(Bridge::Start { who, room_id, message }),
                caches,
                host,
                steps,
            );
            let uploaded = performed(host, uploading(who, mime, file));
            let brought_down = End::Panic("out of range integral type conversion attempted"@);
            if message.view_type != ViewType::File && (message.width < 0 || message.height < 0) {
                done == (Run { end: brought_down, caches, host: uploaded })
            } else {
                size >= 0x20_0000_0000_0000 ==> done == (Run {
                    end: brought_down,
                    caches,
                    host: performed(uploaded, measuring(message.id)),
                })
            }
        }),
{
    broadcast use lemma_bridge;

    let upload = Task::Bridge(Bridge::Upload { who, mime: Some(mime), file: Some(file) });
    let uploaded = Task::Bridge(Bridge::Uploaded { who, room_id, message });
    let h1 = performed(host, uploading(who, mime, file));
    let n1 = (steps - 1) as nat;
    let n2 = (steps - 2) as nat;
    let done = start(Task::Bridge(Bridge::Start { who, room_id, message }), caches, host, steps);
    lemma_ask(
        upload,
        Reply::Start,
        caches,
        host,
        n1,
        uploading(who, mime, file),
        Task::Bridge(Bridge::UploadDone),
    );
    assert(start(upload, caches, host, n1) == (Run {
        end: End::Return(Value::MaybeText(Some(url))),
        caches,
        host: h1,
    }));
    assert(done == run(uploaded, Reply::Got(Value::MaybeText(Some(url))), caches, h1, n1));
    if message.view_type == ViewType::File {
        let info = Task::Bridge(Bridge::FileInfo { mime: Some(mime), msg_id: message.id });
        let sized = Task::Bridge(Bridge::FileSized { mime });
        lemma_ask(info, Reply::Start, caches, h1, n2, measuring(message.id), sized);
    } else if message.width >= 0 && message.height >= 0 {
        let info = Task::Bridge(
            Bridge::ImageInfo {
                mime: Some(mime),
                msg_id: message.id,
                width: message.width,
                height: message.height,
            },
        );
        let sized = Task::Bridge(
            Bridge::ImageSized {
                mime,
                width: message.width as u64,
                height: message.height as u64,
            },
        );
        lemma_ask(info, Reply::Start, caches, h1, n2, measuring(message.id), sized);
    }
}

/// A text that cannot be sent does not come over: the reason is passed on, and no event is
/// remembered for the message.
pub proof fn law_text_that_cannot_be_sent_is_passed_on(
    who: Actor<Seq<char>>,
    room_id: Seq<char>,
    message: MessageInfo,
    text: Seq<char>,
    error: Seq<char>,
    caches: Caches,
    host: Host,
    steps: nat,
)
    requires
        steps >= 5,
        !message.system,
        message.view_type == ViewType::Other,
        opt_text(message.text) == Some(text),
        answers(host, is_in(who, room_id), Reply::Got(Value::Flag(true))),
        answers(host, posting(who, room_id, message, words(text), true), Reply::Failed(error)),
    ensures
        start(Task::Bridge(Bridge::Start { who, room_id, message }), caches, host, steps) == (Run {
            end: End::Raise(error),
            caches,
            host: performed(
                performed(host, is_in(who, room_id)),
                posting(who, room_id, message, words(text), true),
            ),
        }),
{
    broadcast use lemma_bridge;

    let request = posting(who, room_id, message, words(text), true);
    let content = carrying(message, words(text));
    let msg_id = message.id;
    let part = Task::Bridge(Bridge::Content { who, room_id, msg_id, content });
    let tried = Task::Bridge(Bridge::Tried { who, room_id, msg_id, content });
    let sent = Task::Bridge(Bridge::ContentSent { msg_id });
    let h1 = performed(host, is_in(who, room_id));
    let h2 = performed(h1, request);
    let n1 = (steps - 1) as nat;
    lemma_ask(part, Reply::Start, caches, host, n1, is_in(who, room_id), tried);
    lemma_ask(
        tried,
        Reply::Got(Value::Flag(true)),
        caches,
        h1,
        (n1 - 1) as nat,
        request,
        sent,
    );
    assert(start(part, caches, host, n1) == (Run { end: End::Raise(error), caches, host: h2 }));
    let done = start(Task::Bridge(Bridge::Start { who, room_id, message }), caches, host, steps);
    assert(done == run(Task::Bridge(Bridge::TextSent), Reply::Failed(error), caches, h2, n1));
}

/// The question for the entries of a directory.
pub open spec fn looking_into(spec: Seq<char>) -> RequestModel {
    Request::Host(HostRequest::ReadDir { path: spec })
}

/// The report of an import that is refused.
pub open spec fn complaining(text: Seq<char>) -> RequestModel {
    Request::Delta(DeltaRequest::EmitError { text })
}

/// Where nothing is to be imported, because nothing is named and nothing ever was, the import is
/// refused.
pub proof fn law_import_of_nothing_is_refused(caches: Caches, host: Host, steps: nat)
    requires
        steps >= 3,
        !host.remembered.contains_key("import_spec"@),
        answers(
            host,
            complaining("Import: No file or folder given."@),
            Reply::Got(Value::Unit),
        ),
    ensures
        start(Task::Poke(Poke::Start { spec: None }), caches, host, steps) == (Run {
            end: End::Return(Value::Flag(false)),
            caches,
            host: performed(
                performed(host, recalling()),
                complaining("Import: No file or folder given."@),
            ),
        }),
{
    broadcast use lemma_poke;

    let complaint = complaining("Import: No file or folder given."@);
    let h1 = performed(host, recalling());
    lemma_ask(
        Task::Poke(Poke::Start { spec: None }),
        Reply::Start,
        caches,
        host,
        steps,
        recalling(),
        Task::Poke(Poke::Recalled),
    );
    lemma_ask(
        Task::Poke(Poke::Recalled),
        Reply::Got(Value::MaybeText(None)),
        caches,
        h1,
        (steps - 1) as nat,
        complaint,
        Task::Poke(Poke::Refused),
    );
}

/// What is neither an e-mail nor an address with a key: a name with another ending is passed over,
/// and a name without one is a directory. Where that cannot be opened, the import is refused.
pub proof fn law_other_names_are_directories_or_passed_over(
    spec: Seq<char>,
    suffix: Option<Seq<char>>,
    caches: Caches,
    host: Host,
    steps: nat,
)
    requires
        steps >= 6,
        address_and_key(spec) is None,
        suffix != Some("eml"@),
        answers(host, suffix_of(spec), Reply::Got(Value::MaybeText(suffix))),
        answers(host, summary(spec, 0), Reply::Got(Value::Unit)),
        answers(
            host,
            complaining("Import: Cannot open directory \""@ + spec + "\"."@),
            Reply::Got(Value::Unit),
        ),
    ensures
        ({
            let done = start(Task::Poke(Poke::Start { spec: Some(spec) }), caches, host, steps);
            let known = performed(performed(host, remembering(spec)), suffix_of(spec));
            let opened = performed(known, looking_into(spec));
            if suffix is Some {
                done == (Run {
                    end: End::Return(Value::Flag(true)),
                    caches,
                    host: performed(known, summary(spec, 0)),
                })
            } else {
                match reply_to(known, looking_into(spec)) {
                    Reply::Failed(_) => done == (Run {
                        end: End::Return(Value::Flag(false)),
                        caches,
                        host: performed(
                            opened,
                            complaining("Import: Cannot open directory \""@ + spec + "\"."@),
                        ),
                    }),
                    reply => done == run(
                        Task::Poke(Poke::Dir { spec }),
                        reply,
                        caches,
                        opened,
                        (steps - 3) as nat,
                    ),
                }
            }
        }),
{
    broadcast use lemma_poke;

    let h1 = performed(host, remembering(spec));
    let known = performed(h1, suffix_of(spec));
    let n2 = (steps - 2) as nat;
    let done = start(Task::Poke(Poke::Start { spec: Some(spec) }), caches, host, steps);
    let told = Reply::Got(Value::MaybeText(suffix));
    lemma_import_begins(spec, caches, host, steps);
    let ending = Task::Poke(Poke::Suffix { spec });
    assert(done == run(ending, told, caches, known, n2));
    if suffix is Some {
        lemma_ask(
            ending,
            told,
            caches,
            known,
            n2,
            summary(spec, 0),
            Task::Poke(Poke::Reported { count: 0 }),
        );
    } else {
        let directory = Task::Poke(Poke::Dir { spec });
        let opened = performed(known, looking_into(spec));
        let reply = reply_to(known, looking_into(spec));
        let n3 = (steps - 3) as nat;
        lemma_ask(ending, told, caches, known, n2, looking_into(spec), directory);
        if reply is Failed {
            lemma_ask(
                directory,
                reply,
                caches,
                opened,
                n3,
                complaining("Import: Cannot open directory \""@ + spec + "\"."@),
                Task::Poke(Poke::Refused),
            );
        }
    }
}

}
