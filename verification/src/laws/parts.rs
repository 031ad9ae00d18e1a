//! What of a message comes over into a room, and in which order.
use vstd::prelude::*;

use crate::appservice::Caches;
use crate::laws::bridging::{about_to_send, identifying, run_on};
use crate::laws::rooms::is_in;
use crate::laws::settings::logging;
use crate::matrix_intents::{falling_back, send_text, Bridge};
use crate::protocol::{
    Actor, DeltaRequest, LogLevel, MatrixRequest, MessageInfo, Reply, ReplyModel, Request,
    RequestModel, Value, ViewType,
};
use crate::run::{answers, lemma_ask, performed, reply_to, run, start, End, Host, Run};
use crate::task::{lemma_bridge, Task, TaskModel};
use crate::text::opt_text;
use crate::types::{
    DeltaMessageFields, DeltaRoomMessageEventContent, FileInfo, ImageInfo, RoomMessage,
};

verus! {

broadcast use lemma_bridge;

/// Something of a message, with where it comes from.
pub open spec fn carrying(
    message: MessageInfo,
    msg: RoomMessage<Seq<char>>,
) -> DeltaRoomMessageEventContent<Seq<char>> {
    DeltaRoomMessageEventContent {
        delta_fields: Some(
            DeltaMessageFields {
                external_url: Some("mid:"@ + message.rfc724_mid@),
                msg_id: message.id,
                chat_id: message.chat_id,
            },
        ),
        msg,
    }
}

/// The request that sends something of a message into a room: into one that the user is known to be
/// in, or into one that it is not.
pub open spec fn posting(
    who: Actor<Seq<char>>,
    room: Seq<char>,
    message: MessageInfo,
    msg: RoomMessage<Seq<char>>,
    joined: bool,
) -> RequestModel {
    let content = carrying(message, msg);
    if joined {
        Request::Matrix(MatrixRequest::SendMessage { who, room, content })
    } else {
        Request::Matrix(MatrixRequest::SendRawMessage { who, room, content })
    }
}

/// The text of a message.
pub open spec fn words(text: Seq<char>) -> RoomMessage<Seq<char>> {
    RoomMessage::Text { body: text }
}

/// How something of a message is sent that gets through.
proof fn lemma_posted(
    who: Actor<Seq<char>>,
    room_id: Seq<char>,
    message: MessageInfo,
    msg: RoomMessage<Seq<char>>,
    joined: bool,
    user: Seq<char>,
    event_id: Seq<char>,
    caches: Caches,
    host: Host,
    steps: nat,
)
    requires
        steps >= 7,
        answers(host, is_in(who, room_id), Reply::Got(Value::Flag(joined))),
        !joined ==> answers(host, identifying(who), Reply::Got(Value::MaybeText(Some(user)))),
        answers(
            host,
            posting(who, room_id, message, msg, joined),
            Reply::Got(Value::Text(event_id)),
        ),
    ensures
        start(
            Task::Bridge(
                Bridge::Content {
                    who,
                    room_id,
                    msg_id: message.id,
                    content: carrying(message, msg),
                },
            ),
            caches,
            host,
            steps,
        ) == (Run {
            end: End::Return(Value::Unit),
            caches: Caches { events: caches.events.insert(message.id, event_id), ..caches },
            host: performed(
                about_to_send(host, who, user, room_id, joined),
                posting(who, room_id, message, msg, joined),
            ),
        }),
{
    let content = carrying(message, msg);
    let msg_id = message.id;
    let request = posting(who, room_id, message, msg, joined);
    let h1 = performed(host, is_in(who, room_id));
    let part = Task::Bridge(Bridge::Content { who, room_id, msg_id, content });
    let tried = Task::Bridge(Bridge::Tried { who, room_id, msg_id, content });
    let sent = Task::Bridge(Bridge::ContentSent { msg_id });
    lemma_ask(part, Reply::Start, caches, host, steps, is_in(who, room_id), tried);
    let left1 = (steps - 1) as nat;
    let h = about_to_send(host, who, user, room_id, joined);
    let reply = Reply::Got(Value::Text(event_id));
    if joined {
        lemma_ask(tried, Reply::Got(Value::Flag(true)), caches, h1, left1, request, sent);
    } else {
        let outside = Task::Bridge(Bridge::Outside { who, room_id, msg_id, content });
        let noted = Task::Bridge(Bridge::Noted { who, room_id, msg_id, content });
        let raw = Task::Bridge(Bridge::Raw { who, room_id, content });
        let line = logging(LogLevel::Warning, falling_back(user, room_id));
        let h2 = performed(h1, identifying(who));
        lemma_ask(
            tried,
            Reply::Got(Value::Flag(false)),
            caches,
            h1,
            left1,
            identifying(who),
            outside,
        );
        let left2 = (left1 - 1) as nat;
        lemma_ask(
            outside,
            Reply::Got(Value::MaybeText(Some(user))),
            caches,
            h2,
            left2,
            line,
            noted,
        );
        let left3 = (left2 - 1) as nat;
        let left4 = (left3 - 1) as nat;
        lemma_ask(
            raw,
            Reply::Start,
            caches,
            h,
            left4,
            request,
            Task::Bridge(Bridge::RawSent),
        );
        assert(start(raw, caches, h, left4) == (Run {
            end: End::Return(Value::Text(event_id)),
            caches,
            host: performed(h, request),
        }));
        assert(run(noted, Reply::Got(Value::Unit), caches, h, left3) == run(
            sent,
            reply,
            caches,
            performed(h, request),
            left4,
        ));
    }
}

/// What the surroundings are like once the text of a message has been sent, if it has one.
pub open spec fn after_text(
    host: Host,
    who: Actor<Seq<char>>,
    user: Seq<char>,
    room_id: Seq<char>,
    message: MessageInfo,
    joined: bool,
) -> Host {
    match opt_text(message.text) {
        Some(text) => performed(
            about_to_send(host, who, user, room_id, joined),
            posting(who, room_id, message, words(text), joined),
        ),
        None => host,
    }
}

/// What is remembered once the text of a message has been sent, if it has one.
pub open spec fn knowing_text(message: MessageInfo, event_id: Seq<char>, caches: Caches) -> Caches {
    if message.text is Some {
        Caches { events: caches.events.insert(message.id, event_id), ..caches }
    } else {
        caches
    }
}

/// Whether the text of a message, if it has one, gets through.
pub open spec fn text_gets_through(
    host: Host,
    who: Actor<Seq<char>>,
    user: Seq<char>,
    room_id: Seq<char>,
    message: MessageInfo,
    joined: bool,
    event_id: Seq<char>,
) -> bool {
    &&& answers(host, is_in(who, room_id), Reply::Got(Value::Flag(joined)))
    &&& !joined ==> answers(host, identifying(who), Reply::Got(Value::MaybeText(Some(user))))
    &&& opt_text(message.text) matches Some(text) ==> answers(
        host,
        posting(who, room_id, message, words(text), joined),
        Reply::Got(Value::Text(event_id)),
    )
}

proof fn lemma_text_posted(
    who: Actor<Seq<char>>,
    room_id: Seq<char>,
    message: MessageInfo,
    joined: bool,
    user: Seq<char>,
    event_id: Seq<char>,
    caches: Caches,
    host: Host,
    steps: nat,
)
    requires
        steps >= 7,
        text_gets_through(host, who, user, room_id, message, joined, event_id),
    ensures
        run_on(send_text(who, room_id, message), caches, host, steps) == (Run {
            end: End::Return(Value::Unit),
            caches: knowing_text(message, event_id, caches),
            host: after_text(host, who, user, room_id, message, joined),
        }),
{
    if let Some(text) = opt_text(message.text) {
        lemma_posted(
            who,
            room_id,
            message,
            words(text),
            joined,
            user,
            event_id,
            caches,
            host,
            steps,
        );
    }
}

/// The request to upload a file.
pub open spec fn uploading(
    who: Actor<Seq<char>>,
    mime: Seq<char>,
    file: Seq<char>,
) -> RequestModel {
    Request::Matrix(MatrixRequest::Upload { who, mime, file })
}

/// The question how large the file of a message is.
pub open spec fn measuring(id: u32) -> RequestModel {
    Request::Delta(DeltaRequest::FileBytes { id })
}

/// The file of a message, as it is sent: an image or a moving one as an image with its size, any
/// other file as a file. Its name is empty where it has none.
pub open spec fn attachment(
    message: MessageInfo,
    mime: Seq<char>,
    url: Seq<char>,
    size: u64,
) -> RoomMessage<Seq<char>> {
    let body = match message.filename {
        Some(name) => name@,
        None => ""@,
    };
    if message.view_type == ViewType::File {
        RoomMessage::File { body, url, file_info: Some(FileInfo { mimetype: mime, size }) }
    } else {
        RoomMessage::Image {
            body,
            url,
            image_info: Some(
                ImageInfo {
                    mimetype: mime,
                    width: message.width as u64,
                    height: message.height as u64,
                    size,
                },
            ),
        }
    }
}

/// A file comes over before the text that is with it, whatever sort of file it is: it is uploaded,
/// measured, and sent with what is known of it; then the text is sent, if there is one. The last
/// event that came of it is remembered for the message. Nothing else is asked for.
pub proof fn law_file_comes_over_and_then_the_text(
    who: Actor<Seq<char>>,
    room_id: Seq<char>,
    message: MessageInfo,
    mime: Seq<char>,
    file: Seq<char>,
    url: Seq<char>,
    size: u64,
    joined: bool,
    user: Seq<char>,
    file_event: Seq<char>,
    text_event: Seq<char>,
    caches: Caches,
    host: Host,
    steps: nat,
)
    requires
        steps >= 12,
        !message.system,
        message.view_type == ViewType::File || message.view_type == ViewType::Image
            || message.view_type == ViewType::Gif,
        opt_text(message.mime) == Some(mime),
        opt_text(message.file) == Some(file),
        message.view_type != ViewType::File ==> message.width >= 0 && message.height >= 0,
        size < 0x20_0000_0000_0000,
        answers(host, uploading(who, mime, file), Reply::Got(Value::Text(url))),
        answers(host, measuring(message.id), Reply::Got(Value::Count(size))),
        answers(
            host,
            posting(who, room_id, message, attachment(message, mime, url, size), joined),
            Reply::Got(Value::Text(file_event)),
        ),
        text_gets_through(host, who, user, room_id, message, joined, text_event),
    ensures
        ({
            let ready = performed(
                performed(host, uploading(who, mime, file)),
                measuring(message.id),
            );
            let sent = performed(
                about_to_send(ready, who, user, room_id, joined),
                posting(who, room_id, message, attachment(message, mime, url, size), joined),
            );
            let known = Caches { events: caches.events.insert(message.id, file_event), ..caches };
            start(Task::Bridge(Bridge::Start { who, room_id, message }), caches, host, steps)
                == (Run {
                end: End::Return(Value::Unit),
                caches: knowing_text(message, text_event, known),
                host: after_text(sent, who, user, room_id, message, joined),
            })
        }),
{
    let msg = attachment(message, mime, url, size);
    let h1 = performed(host, uploading(who, mime, file));
    let h2 = performed(h1, measuring(message.id));
    let h3 = performed(
        about_to_send(h2, who, user, room_id, joined),
        posting(who, room_id, message, msg, joined),
    );
    let known = Caches { events: caches.events.insert(message.id, file_event), ..caches };
    let done = start(Task::Bridge(Bridge::Start { who, room_id, message }), caches, host, steps);
    let n1 = (steps - 1) as nat;
    let n2 = (steps - 2) as nat;
    let n3 = (steps - 3) as nat;
    let n4 = (steps - 4) as nat;
    let upload = Task::Bridge(Bridge::Upload { who, mime: Some(mime), file: Some(file) });
    lemma_ask(
        upload,
        Reply::Start,
        caches,
        host,
        n1,
        uploading(who, mime, file),
        Task::Bridge(Bridge::UploadDone),
    );
    assert(start(upload, caches, host, n1) == (Run {
        end: End::Return(Value::MaybeText(Some(url))),
        caches,
        host: h1,
    }));
    let uploaded = Task::Bridge(Bridge::Uploaded { who, room_id, message });
    assert(done == run(
        uploaded,
        Reply::Got(Value::MaybeText(Some(url))),
        caches,
        h1,
        n1,
    ));
    let described = Task::Bridge(Bridge::Described { who, room_id, message, url });
    let file_sent = Task::Bridge(Bridge::FileSent { who, room_id, message });
    if message.view_type == ViewType::File {
        let info = Task::Bridge(Bridge::FileInfo { mime: Some(mime), msg_id: message.id });
        lemma_ask(
            info,
            Reply::Start,
            caches,
            h1,
            n2,
            measuring(message.id),
            Task::Bridge(Bridge::FileSized { mime }),
        );
        let value = Value::FileInfo(Some(FileInfo { mimetype: mime, size }));
        assert(start(info, caches, h1, n2) == (Run { end: End::Return(value), caches, host: h2 }));
        assert(done == run(described, Reply::Got(value), caches, h2, n2));
    } else {
        let width = message.width as u64;
        let height = message.height as u64;
        let info = Task::Bridge(
            Bridge::ImageInfo {
                mime: Some(mime),
                msg_id: message.id,
                width: message.width,
                height: message.height,
            },
        );
        lemma_ask(
            info,
            Reply::Start,
            caches,
            h1,
            n2,
            measuring(message.id),
            Task::Bridge(Bridge::ImageSized { mime, width, height }),
        );
        let value = Value::ImageInfo(Some(ImageInfo { mimetype: mime, width, height, size }));
        assert(start(info, caches, h1, n2) == (Run { end: End::Return(value), caches, host: h2 }));
        assert(done == run(described, Reply::Got(value), caches, h2, n2));
    }
    lemma_posted(who, room_id, message, msg, joined, user, file_event, caches, h2, n3);
    assert(done == run(file_sent, Reply::Got(Value::Unit), known, h3, n3));
    assert(done == run_on(send_text(who, room_id, message), known, h3, n4));
    lemma_text_posted(who, room_id, message, joined, user, text_event, known, h3, n4);
}

/// A message that has no file to bring over, because it is none or because the file or its sort is
/// not known, comes over by its text alone; without a text, nothing of it does.
pub proof fn law_message_without_a_file_is_its_text(
    who: Actor<Seq<char>>,
    room_id: Seq<char>,
    message: MessageInfo,
    joined: bool,
    user: Seq<char>,
    event_id: Seq<char>,
    caches: Caches,
    host: Host,
    steps: nat,
)
    requires
        steps >= 9,
        !message.system,
        message.view_type == ViewType::Other || message.mime is None || message.file is None,
        text_gets_through(host, who, user, room_id, message, joined, event_id),
    ensures
        start(Task::Bridge(Bridge::Start { who, room_id, message }), caches, host, steps) == (Run {
            end: End::Return(Value::Unit),
            caches: knowing_text(message, event_id, caches),
            host: after_text(host, who, user, room_id, message, joined),
        }),
{
    let done = start(Task::Bridge(Bridge::Start { who, room_id, message }), caches, host, steps);
    let n1 = (steps - 1) as nat;
    let n2 = (steps - 2) as nat;
    if message.view_type == ViewType::Other {
        assert(done == run_on(send_text(who, room_id, message), caches, host, n1));
        lemma_text_posted(who, room_id, message, joined, user, event_id, caches, host, n1);
    } else {
        let upload = Task::Bridge(
            Bridge::Upload { who, mime: opt_text(message.mime), file: opt_text(message.file) },
        );
        assert(start(upload, caches, host, n1) == (Run {
            end: End::Return(Value::MaybeText(None)),
            caches,
            host,
        }));
        assert(done == run(
            Task::Bridge(Bridge::Uploaded { who, room_id, message }),
            Reply::Got(Value::MaybeText(None)),
            caches,
            host,
            n1,
        ));
        assert(done == run_on(send_text(who, room_id, message), caches, host, n2));
        lemma_text_posted(who, room_id, message, joined, user, event_id, caches, host, n2);
    }
}

/// Whether something of a message was the last thing that was sent into a room.
pub open spec fn was_posted_last(
    host: Host,
    who: Actor<Seq<char>>,
    room_id: Seq<char>,
    message: MessageInfo,
    msg: RoomMessage<Seq<char>>,
) -> bool {
    host.asked.len() > 0 && (host.asked.last() == posting(who, room_id, message, msg, true)
        || host.asked.last() == posting(who, room_id, message, msg, false))
}

proof fn lemma_posted_last(
    who: Actor<Seq<char>>,
    room_id: Seq<char>,
    message: MessageInfo,
    msg: RoomMessage<Seq<char>>,
    caches: Caches,
    host: Host,
    steps: nat,
)
    requires
        start(
            Task::Bridge(
                Bridge::Content {
                    who,
                    room_id,
                    msg_id: message.id,
                    content: carrying(message, msg),
                },
            ),
            caches,
            host,
            steps,
        ).end is Return,
    ensures
        was_posted_last(
            start(
                Task::Bridge(
                    Bridge::Content {
                        who,
                        room_id,
                        msg_id: message.id,
                        content: carrying(message, msg),
                    },
                ),
                caches,
                host,
                steps,
            ).host,
            who,
            room_id,
            message,
            msg,
        ),
{
    let content = carrying(message, msg);
    let msg_id = message.id;
    let h1 = performed(host, is_in(who, room_id));
    let part = Task::Bridge(Bridge::Content { who, room_id, msg_id, content });
    let tried = Task::Bridge(Bridge::Tried { who, room_id, msg_id, content });
    let sent = Task::Bridge(Bridge::ContentSent { msg_id });
    let done = start(part, caches, host, steps);
    assert(steps > 0);
    lemma_ask(part, Reply::Start, caches, host, steps, is_in(who, room_id), tried);
    let reply1 = reply_to(host, is_in(who, room_id));
    let n1 = (steps - 1) as nat;
    assert(n1 > 0);
    assert(reply1 is Got && reply1->Got_0 is Flag);
    if reply1->Got_0->Flag_0 {
        let request = posting(who, room_id, message, msg, true);
        lemma_ask(tried, reply1, caches, h1, n1, request, sent);
        assert(done == run(
            sent,
            reply_to(h1, request),
            caches,
            performed(h1, request),
            (n1 - 1) as nat,
        ));
        assert(done.host == performed(h1, request));
    } else {
        let outside = Task::Bridge(Bridge::Outside { who, room_id, msg_id, content });
        let noted = Task::Bridge(Bridge::Noted { who, room_id, msg_id, content });
        let raw = Task::Bridge(Bridge::Raw { who, room_id, content });
        let request = posting(who, room_id, message, msg, false);
        lemma_ask(tried, reply1, caches, h1, n1, identifying(who), outside);
        let h2 = performed(h1, identifying(who));
        let reply2 = reply_to(h1, identifying(who));
        let n2 = (n1 - 1) as nat;
        assert(n2 > 0);
        assert(reply2 is Got && reply2->Got_0 is MaybeText && reply2->Got_0->MaybeText_0 is Some);
        let user = reply2->Got_0->MaybeText_0->Some_0;
        let line = logging(LogLevel::Warning, falling_back(user, room_id));
        lemma_ask(outside, reply2, caches, h2, n2, line, noted);
        let h3 = performed(h2, line);
        let n3 = (n2 - 1) as nat;
        assert(n3 > 0);
        let n4 = (n3 - 1) as nat;
        let called = start(raw, caches, h3, n4);
        let unit: ReplyModel = Reply::Got(Value::Unit);
        assert(done == run(noted, unit, caches, h3, n3));
        assert(n4 > 0);
        lemma_ask(
            raw,
            Reply::Start,
            caches,
            h3,
            n4,
            request,
            Task::Bridge(Bridge::RawSent),
        );
        assert(called.end is Return) by {
            if let End::Raise(error) = called.end {
                assert(done == run(sent, Reply::Failed(error), called.caches, called.host, n4));
            }
        }
        assert(called.host == performed(h3, request));
        let value = called.end->Return_0;
        assert(done == run(sent, Reply::Got(value), called.caches, called.host, n4));
        assert(done.host == called.host);
    }
}

/// Whatever else it takes to bring a message over, it comes down to its text in the end.
proof fn lemma_text_is_next(
    who: Actor<Seq<char>>,
    room_id: Seq<char>,
    message: MessageInfo,
    caches: Caches,
    host: Host,
    steps: nat,
) -> (r: (Caches, Host, nat))
    requires
        !message.system,
        start(
            Task::Bridge(Bridge::Start { who, room_id, message }),
            caches,
            host,
            steps,
        ).end is Return,
    ensures
        start(Task::Bridge(Bridge::Start { who, room_id, message }), caches, host, steps) == run_on(
            send_text(who, room_id, message),
            r.0,
            r.1,
            r.2,
        ),
{
    let done = start(Task::Bridge(Bridge::Start { who, room_id, message }), caches, host, steps);
    assert(steps > 0);
    let n1 = (steps - 1) as nat;
    if message.view_type == ViewType::Other {
        (caches, host, n1)
    } else {
        let upload = Task::Bridge(
            Bridge::Upload { who, mime: opt_text(message.mime), file: opt_text(message.file) },
        );
        let uploaded = Task::Bridge(Bridge::Uploaded { who, room_id, message });
        let up = start(upload, caches, host, n1);
        assert(up.end is Return) by {
            if let End::Raise(error) = up.end {
                assert(done == run(uploaded, Reply::Failed(error), up.caches, up.host, n1));
            }
        }
        let value = up.end->Return_0;
        assert(done == run(uploaded, Reply::Got(value), up.caches, up.host, n1));
        assert(n1 > 0);
        assert(value is MaybeText);
        let n2 = (n1 - 1) as nat;
        if value->MaybeText_0 is None {
            (up.caches, up.host, n2)
        } else {
            let url = value->MaybeText_0->Some_0;
            let described = Task::Bridge(Bridge::Described { who, room_id, message, url });
            let info: TaskModel = Task::Bridge(
                match message.view_type {
                    ViewType::File => Bridge::FileInfo {
                        mime: opt_text(message.mime),
                        msg_id: message.id,
                    },
                    _ => Bridge::ImageInfo {
                        mime: opt_text(message.mime),
                        msg_id: message.id,
                        width: message.width,
                        height: message.height,
                    },
                },
            );
            let told = start(info, up.caches, up.host, n2);
            assert(told.end is Return) by {
                if let End::Raise(error) = told.end {
                    assert(done == run(described, Reply::Failed(error), told.caches, told.host, n2));
                }
            }
            let known = told.end->Return_0;
            assert(done == run(described, Reply::Got(known), told.caches, told.host, n2));
            assert(n2 > 0);
            assert(known is FileInfo || known is ImageInfo);
            let body = match message.filename {
                Some(name) => name@,
                None => ""@,
            };
            let msg = if known is FileInfo {
                RoomMessage::File { body, url, file_info: known->FileInfo_0 }
            } else {
                    RoomMessage::Image { body, url, image_info: known->ImageInfo_0 }
                };
                let n3 = (n2 - 1) as nat;
                let part: TaskModel = Task::Bridge(
                    Bridge::Content { who, room_id, msg_id: message.id, content: carrying(message, msg) },
                );
                let over = start(part, told.caches, told.host, n3);
                let file_sent = Task::Bridge(Bridge::FileSent { who, room_id, message });
                assert(over.end is Return) by {
                    if let End::Raise(error) = over.end {
                        assert(done == run(file_sent, Reply::Failed(error), over.caches, over.host, n3));
                    }
                }
                let last = over.end->Return_0;
                assert(done == run(file_sent, Reply::Got(last), over.caches, over.host, n3));
                assert(n3 > 0);
                (over.caches, over.host, (n3 - 1) as nat)
        }
    }
}

/// Whatever a message is, a file, an image or neither, and whatever the surroundings answer: where
/// it has a text and could be brought over, the last thing that was sent is exactly that text, into
/// the room, by the one who brought it over.
pub proof fn law_text_of_every_message_is_sent_last(
    who: Actor<Seq<char>>,
    room_id: Seq<char>,
    message: MessageInfo,
    text: Seq<char>,
    caches: Caches,
    host: Host,
    steps: nat,
)
    requires
        !message.system,
        opt_text(message.text) == Some(text),
        start(
            Task::Bridge(Bridge::Start { who, room_id, message }),
            caches,
            host,
            steps,
        ).end is Return,
    ensures
        was_posted_last(
            start(
                Task::Bridge(Bridge::Start { who, room_id, message }),
                caches,
                host,
                steps,
            ).host,
            who,
            room_id,
            message,
            RoomMessage::Text { body: text },
        ),
{
    let done = start(Task::Bridge(Bridge::Start { who, room_id, message }), caches, host, steps);
    let (c, h, n) = lemma_text_is_next(who, room_id, message, caches, host, steps);
    let part: TaskModel = Task::Bridge(
        Bridge::Content {
            who,
            room_id,
            msg_id: message.id,
            content: carrying(message, words(text)),
        },
    );
    let over = start(part, c, h, n);
    let last: TaskModel = Task::Bridge(Bridge::TextSent);
    assert(over.end is Return) by {
        if let End::Raise(error) = over.end {
            assert(done == run(last, Reply::Failed(error), over.caches, over.host, n));
        }
    }
    let value = over.end->Return_0;
    assert(done == run(last, Reply::Got(value), over.caches, over.host, n));
    lemma_posted_last(who, room_id, message, words(text), c, h, n);
    assert(done.host == over.host);
}

}
