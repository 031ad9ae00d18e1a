//! What an import reads.
use vstd::prelude::*;

use crate::appservice::Caches;
use crate::cmdline::{command_next, Cmdline};
use crate::cmdline::commands::{command, import_argument};
use crate::cmdline::poke::{
    address_and_key, inspect, is_address, next_eml, poke_next, poke_on, Poke, PokeModel,
};
use crate::laws::arguments::law_import_is_named_by_the_arguments;
use crate::laws::bridging::run_on;
use crate::laws::commands::{line_task, loading};
use crate::laws::effects::law_commands_touch_no_room_and_no_setting;
use crate::numbers::digits;
use crate::protocol::{
    DeltaRequest, HostRequest, Reply, ReplyModel, Request, RequestModel, Step, Value,
};
use crate::run::{
    answers, is_steady, kept, law_history_does_not_matter, lemma_ask, lemma_others_stay, performed,
    reply_to, run, start, End, Host, Run,
};
use crate::task::{lemma_cmdline, lemma_poke, Task};
use crate::text::{after_first_word, ends_in, first_word};

verus! {

broadcast use {lemma_cmdline, lemma_poke};

/// Which files can be read, and what they hold.
pub struct Files {
    pub readable: spec_fn(Seq<char>) -> bool,
    pub data: spec_fn(Seq<char>) -> Vec<u8>,
    pub accepted: spec_fn(Vec<u8>) -> bool,
}

/// Something that is printed.
pub open spec fn printing(text: Seq<char>) -> RequestModel {
    Request::Host(HostRequest::Print { text })
}

/// The reading of a file.
pub open spec fn opening(path: Seq<char>) -> RequestModel {
    Request::Delta(DeltaRequest::ReadFile { path })
}

/// What is handed to the e-mail core as a mail.
pub open spec fn receiving(data: Vec<u8>) -> RequestModel {
    Request::Delta(DeltaRequest::ReceiveImf { data })
}

/// The report that messages have changed.
pub open spec fn announcing() -> RequestModel {
    Request::Delta(DeltaRequest::EmitMsgsChanged)
}

/// The surroundings read files and print.
pub open spec fn serves(host: Host, files: Files) -> bool {
    &&& forall|text: Seq<char>|
        #![trigger printing(text)]
        answers(host, printing(text), Reply::Got(Value::Unit))
    &&& forall|path: Seq<char>|
        #![trigger opening(path)]
        answers(
            host,
            opening(path),
            if (files.readable)(path) {
                Reply::Bytes((files.data)(path))
            } else {
                Reply::Failed(path)
            },
        )
    &&& forall|data: Vec<u8>|
        #![trigger receiving(data)]
        answers(
            host,
            receiving(data),
            if (files.accepted)(data) {
                Reply::Got(Value::Unit)
            } else {
                Reply::Failed(seq![])
            },
        )
    &&& answers(host, announcing(), Reply::Got(Value::Unit))
}

/// The path of an entry of a directory.
pub open spec fn path_of(spec: Seq<char>, name: Seq<char>) -> Seq<char> {
    spec + "/"@ + name
}

/// How many e-mails a directory holds that can be read, from an entry on. An entry that cannot be
/// read ends the search.
pub open spec fn readable_mails(
    files: Files,
    spec: Seq<char>,
    entries: Seq<Option<String>>,
    at: int,
) -> nat
    decreases entries.len() - at,
{
    if at < 0 || at >= entries.len() {
        0
    } else {
        match entries[at] {
            Some(name) => {
                let rest = readable_mails(files, spec, entries, at + 1);
                if ends_in(name@, ".eml"@) && (files.readable)(path_of(spec, name@)) {
                    rest + 1
                } else {
                    rest
                }
            },
            None => 0,
        }
    }
}

/// What the import of an e-mail asks for: its file is read, and what is in it goes to the core.
/// That the core makes nothing of it is said.
pub open spec fn taking_in(files: Files, path: Seq<char>) -> Seq<RequestModel> {
    let data = (files.data)(path);
    if !(files.readable)(path) {
        seq![opening(path)]
    } else if (files.accepted)(data) {
        seq![opening(path), receiving(data)]
    } else {
        seq![opening(path), receiving(data), printing("dc_receive_imf errored: "@ + seq![] + "\n"@)]
    }
}

/// What the import of the e-mails of a directory asks for, from an entry on: each is named, and
/// then taken in. What is no e-mail is passed over, and an entry that cannot be read is the last.
pub open spec fn taking_in_all(
    files: Files,
    spec: Seq<char>,
    entries: Seq<Option<String>>,
    at: int,
) -> Seq<RequestModel>
    decreases entries.len() - at,
{
    if at < 0 || at >= entries.len() {
        seq![]
    } else {
        match entries[at] {
            Some(name) => {
                let rest = taking_in_all(files, spec, entries, at + 1);
                if ends_in(name@, ".eml"@) {
                    let path = path_of(spec, name@);
                    seq![printing("Import: "@ + path + "\n"@)] + taking_in(files, path) + rest
                } else {
                    rest
                }
            },
            None => seq![],
        }
    }
}

/// The end of an import: how much was read is said, and if it was anything, the core is told.
pub open spec fn summing_up(spec: Seq<char>, count: nat) -> Seq<RequestModel> {
    if count > 0 {
        seq![summary(spec, count), announcing()]
    } else {
        seq![summary(spec, count)]
    }
}

proof fn lemma_next_eml(
    files: Files,
    spec: Seq<char>,
    entries: Seq<Option<String>>,
    at: int,
)
    requires
        0 <= at <= entries.len(),
    ensures
        match next_eml(entries, at) {
            Some((place, name)) => {
                &&& at <= place < entries.len()
                &&& readable_mails(files, spec, entries, at) == readable_mails(
                    files,
                    spec,
                    entries,
                    place + 1,
                ) + (if (files.readable)(path_of(spec, name)) {
                    1nat
                } else {
                    0nat
                })
                &&& taking_in_all(files, spec, entries, at) == seq![
                    printing("Import: "@ + path_of(spec, name) + "\n"@),
                ] + taking_in(files, path_of(spec, name)) + taking_in_all(
                    files,
                    spec,
                    entries,
                    place + 1,
                )
            },
            None => {
                &&& readable_mails(files, spec, entries, at) == 0
                &&& taking_in_all(files, spec, entries, at) == Seq::<RequestModel>::empty()
            },
        },
    decreases entries.len() - at,
{
    if at < entries.len() {
        if let Some(name) = entries[at] {
            if !ends_in(name@, ".eml"@) {
                lemma_next_eml(files, spec, entries, at + 1);
            }
        }
    }
}

proof fn lemma_eml(files: Files, path: Seq<char>, caches: Caches, host: Host, steps: nat)
    requires
        serves(host, files),
        steps >= 4,
    ensures
        ({
            let done = start(Task::Poke(Poke::Eml { path }), caches, host, steps);
            &&& done.caches == caches
            &&& done.host.others == host.others
            &&& done.host.asked == host.asked + taking_in(files, path)
            &&& done.end == if (files.readable)(path) {
                End::Return(Value::Unit)
            } else {
                End::Raise(path)
            }
        }),
{
    let data = (files.data)(path);
    let h1 = performed(host, opening(path));
    let h2 = performed(h1, receiving(data));
    let error: Seq<char> = seq![];
    let text = "dc_receive_imf errored: "@ + error + "\n"@;
    assert(reply_to(h2, printing(text)) == Reply::<Seq<char>>::Got(Value::Unit));
    lemma_ask(
        Task::Poke(Poke::Eml { path }),
        Reply::Start,
        caches,
        host,
        steps,
        opening(path),
        Task::Poke(Poke::EmlLoaded),
    );
    if (files.readable)(path) {
        lemma_ask(
            Task::Poke(Poke::EmlLoaded),
            Reply::Bytes(data),
            caches,
            h1,
            (steps - 1) as nat,
            receiving(data),
            Task::Poke(Poke::EmlReceived),
        );
        if !(files.accepted)(data) {
            lemma_ask(
                Task::Poke(Poke::EmlReceived),
                Reply::Failed(error),
                caches,
                h2,
                (steps - 2) as nat,
                printing(text),
                Task::Poke(Poke::EmlFailed),
            );
        }
    }
    let done = start(Task::Poke(Poke::Eml { path }), caches, host, steps);
    assert(done.host.asked =~= host.asked + taking_in(files, path));
}

/// The report on an import.
pub open spec fn summary(spec: Seq<char>, count: nat) -> RequestModel {
    printing("Import: "@ + digits(count) + " items read from \""@ + spec + "\".\n"@)
}

/// Whether an import ends as it has to after so many mails.
pub open spec fn ends_well(done: Run, spec: Seq<char>, count: nat) -> bool {
    let asked = done.host.asked;
    &&& done.end == End::Return(Value::Flag(true))
    &&& if count > 0 {
        &&& asked.len() >= 2
        &&& asked.last() == announcing()
        &&& asked[asked.len() - 2] == summary(spec, count)
    } else {
        &&& asked.len() >= 1
        &&& asked.last() == summary(spec, count)
    }
}

#[verifier::rlimit(60)]
proof fn lemma_poke_on(
    files: Files,
    spec: Seq<char>,
    entries: Vec<Option<String>>,
    at: usize,
    count: usize,
    caches: Caches,
    host: Host,
    steps: nat,
)
    requires
        serves(host, files),
        count <= at <= entries@.len(),
        steps >= 2 * (entries@.len() - at) + 6,
    ensures
        ends_well(
            run_on(poke_on(spec, entries, at, count), caches, host, steps),
            spec,
            (count as nat) + readable_mails(files, spec, entries@, at as int),
        ),
        run_on(poke_on(spec, entries, at, count), caches, host, steps).host.asked == host.asked + (
        taking_in_all(files, spec, entries@, at as int) + summing_up(
            spec,
            (count as nat) + readable_mails(files, spec, entries@, at as int),
        )),
    decreases entries@.len() - at,
{
    assert(entries.len() == entries@.len());
    lemma_next_eml(files, spec, entries@, at as int);
    match next_eml(entries@, at as int) {
        Some((place, name)) => {
            let path = path_of(spec, name);
            let then = (place + 1) as usize;
            let named = printing("Import: "@ + path + "\n"@);
            let h1 = performed(host, named);
            assert(reply_to(host, named) == Reply::<Seq<char>>::Got(Value::Unit));
            let task1 = Task::Poke(Poke::Named { spec, entries, at: then, count, path });
            let task2 = Task::Poke(Poke::Entry { spec, entries, at: then, count });
            let left = (steps - 1) as nat;
            lemma_eml(files, path, caches, h1, left);
            crate::run::lemma_asked_grows(
                Task::Poke(Poke::Eml { path }),
                Reply::Start,
                caches,
                h1,
                left,
            );
            let h2 = start(Task::Poke(Poke::Eml { path }), caches, h1, left).host;
            let left1 = (steps - 2) as nat;
            if (files.readable)(path) {
                assert(run(task1, Reply::Got(Value::Unit), caches, h1, steps) == run(
                    task2,
                    Reply::Got(Value::Unit),
                    caches,
                    h2,
                    left,
                ));
                lemma_poke_on(
                    files,
                    spec,
                    entries,
                    then,
                    (count + 1) as usize,
                    caches,
                    h2,
                    left1,
                );
                assert(run(task2, Reply::Got(Value::Unit), caches, h2, left) == run_on(
                    poke_on(spec, entries, then, (count + 1) as usize),
                    caches,
                    h2,
                    left1,
                ));
            } else {
                assert(run(task1, Reply::Got(Value::Unit), caches, h1, steps) == run(
                    task2,
                    Reply::Failed(path),
                    caches,
                    h2,
                    left,
                ));
                lemma_poke_on(files, spec, entries, then, count, caches, h2, left1);
                assert(run(task2, Reply::Failed(path), caches, h2, left) == run_on(
                    poke_on(spec, entries, then, count),
                    caches,
                    h2,
                    left1,
                ));
            }
            let total = (count as nat) + readable_mails(files, spec, entries@, at as int);
            let rest = taking_in_all(files, spec, entries@, place + 1) + summing_up(spec, total);
            assert(h2.asked + rest =~= host.asked + (taking_in_all(
                files,
                spec,
                entries@,
                at as int,
            ) + summing_up(spec, total)));
        },
        None => {
            let report = summary(spec, count as nat);
            let h1 = performed(host, report);
            assert(reply_to(host, report) == Reply::<Seq<char>>::Got(Value::Unit));
            if count > 0 {
                lemma_ask(
                    Task::Poke(Poke::Reported { count }),
                    Reply::Got(Value::Unit),
                    caches,
                    h1,
                    steps,
                    announcing(),
                    Task::Poke(Poke::Announced),
                );
            }
            assert(run_on(poke_on(spec, entries, at, count), caches, host, steps).host.asked
                =~= host.asked + (Seq::empty() + summing_up(spec, count as nat)));
        },
    }
}

/// An import from a directory counts exactly the e-mails that could be read, and the core is told
/// that messages have changed exactly if there is one.
pub proof fn law_import_counts_what_it_read(
    files: Files,
    spec: Seq<char>,
    entries: Vec<Option<String>>,
    caches: Caches,
    host: Host,
    steps: nat,
)
    requires
        serves(host, files),
        steps >= 2 * entries@.len() + 7,
    ensures
        ends_well(
            run(
                Task::Poke(Poke::Dir { spec }),
                Reply::Entries(entries),
                caches,
                host,
                steps,
            ),
            spec,
            readable_mails(files, spec, entries@, 0),
        ),
{
    lemma_poke_on(files, spec, entries, 0, 0, caches, host, (steps - 1) as nat);
}

/// An import from a directory takes in all its e-mails, one after the other, in the order of the
/// entries, up to one that cannot be read. It asks for nothing else.
pub proof fn law_every_mail_of_a_directory_is_taken_in(
    files: Files,
    spec: Seq<char>,
    entries: Vec<Option<String>>,
    caches: Caches,
    host: Host,
    steps: nat,
)
    requires
        serves(host, files),
        steps >= 2 * entries@.len() + 7,
    ensures
        run(
            Task::Poke(Poke::Dir { spec }),
            Reply::Entries(entries),
            caches,
            host,
            steps,
        ).host.asked == host.asked + (taking_in_all(files, spec, entries@, 0) + summing_up(
            spec,
            readable_mails(files, spec, entries@, 0),
        )),
{
    lemma_poke_on(files, spec, entries, 0, 0, caches, host, (steps - 1) as nat);
}

/// The question what the name of a file ends in.
pub open spec fn suffix_of(spec: Seq<char>) -> RequestModel {
    Request::Delta(DeltaRequest::FileSuffix { path: spec })
}

/// A file that is named as an e-mail is remembered, and taken in. It counts if it could be read.
pub proof fn law_mail_is_imported_from_its_file(
    files: Files,
    spec: Seq<char>,
    caches: Caches,
    host: Host,
    steps: nat,
)
    requires
        steps >= 10,
        serves(host, files),
        answers(host, suffix_of(spec), Reply::Got(Value::MaybeText(Some("eml"@)))),
    ensures
        ({
            let done = start(Task::Poke(Poke::Start { spec: Some(spec) }), caches, host, steps);
            &&& done.end == End::Return(Value::Flag(true))
            &&& done.host.asked == host.asked + (seq![remembering(spec), suffix_of(spec)]
                + taking_in(files, spec) + summing_up(
                spec,
                if (files.readable)(spec) {
                    1
                } else {
                    0
                },
            ))
        }),
{
    let h1 = performed(host, remembering(spec));
    let h2 = performed(h1, suffix_of(spec));
    let left = (steps - 2) as nat;
    let read = (left - 1) as nat;
    lemma_import_begins(spec, caches, host, steps);
    let reading = Task::Poke(Poke::Eml { path: spec });
    lemma_eml(files, spec, caches, h2, read);
    let h3 = start(reading, caches, h2, read).host;
    let count: usize = if (files.readable)(spec) {
        1
    } else {
        0
    };
    let reply: ReplyModel = if (files.readable)(spec) {
        Reply::Got(Value::Unit)
    } else {
        Reply::Failed(spec)
    };
    let done = start(Task::Poke(Poke::Start { spec: Some(spec) }), caches, host, steps);
    assert(done == run(
        Task::Poke(Poke::Suffix { spec }),
        Reply::Got(Value::MaybeText(Some("eml"@))),
        caches,
        h2,
        left,
    ));
    assert(done == run(Task::Poke(Poke::FileDone { spec }), reply, caches, h3, read));
    lemma_summed_up(spec, count, reply, files, caches, h3, read);
    assert(done.host.asked =~= host.asked + (seq![remembering(spec), suffix_of(spec)] + taking_in(
        files,
        spec,
    ) + summing_up(spec, count as nat)));
}

proof fn lemma_summed_up(
    spec: Seq<char>,
    count: usize,
    reply: ReplyModel,
    files: Files,
    caches: Caches,
    host: Host,
    steps: nat,
)
    requires
        steps >= 4,
        serves(host, files),
        (count == 1 && reply is Got) || (count == 0 && reply is Failed),
    ensures
        ({
            let done = run(Task::Poke(Poke::FileDone { spec }), reply, caches, host, steps);
            &&& done.end == End::Return(Value::Flag(true))
            &&& done.host.asked == host.asked + summing_up(spec, count as nat)
        }),
{
    let report = summary(spec, count as nat);
    let h1 = performed(host, report);
    let done = run(Task::Poke(Poke::FileDone { spec }), reply, caches, host, steps);
    assert(reply_to(host, report) == Reply::<Seq<char>>::Got(Value::Unit));
    lemma_ask(
        Task::Poke(Poke::FileDone { spec }),
        reply,
        caches,
        host,
        steps,
        report,
        Task::Poke(Poke::Reported { count }),
    );
    if count > 0 {
        lemma_ask(
            Task::Poke(Poke::Reported { count }),
            Reply::Got(Value::Unit),
            caches,
            h1,
            (steps - 1) as nat,
            announcing(),
            Task::Poke(Poke::Announced),
        );
    }
    assert(done.host.asked =~= host.asked + summing_up(spec, count as nat));
}

/// The request that keeps what is imported.
pub open spec fn remembering(spec: Seq<char>) -> RequestModel {
    Request::Delta(DeltaRequest::RawSet { key: "import_spec"@, value: spec })
}

/// The request for what was imported last.
pub open spec fn recalling() -> RequestModel {
    Request::Delta(DeltaRequest::RawGet { key: "import_spec"@ })
}

/// What was imported last, as it is remembered.
pub open spec fn last_import(host: Host) -> Option<Seq<char>> {
    kept(host.remembered, "import_spec"@)
}

/// Whether an import is past its beginning, or begins with nothing that is named.
pub open spec fn names_nothing(s: PokeModel) -> bool {
    s matches Poke::Start { spec } ==> spec is None
}

proof fn lemma_import_step(s: PokeModel, reply: ReplyModel)
    requires
        names_nothing(s),
    ensures
        match poke_next(s, reply) {
            Step::Perform(request, Task::Poke(then)) => names_nothing(then) && !(
            request matches Request::Delta(DeltaRequest::RawSet { .. })),
            Step::Call(Task::Poke(callee), Task::Poke(then)) => names_nothing(callee)
                && names_nothing(then),
            Step::Perform(_, _) => false,
            Step::Call(_, _) => false,
            _ => true,
        },
{
}

/// An import that names nothing leaves what is remembered, and the caches, as they are.
pub proof fn lemma_import_remembers(
    s: PokeModel,
    reply: ReplyModel,
    caches: Caches,
    host: Host,
    steps: nat,
)
    requires
        names_nothing(s),
    ensures
        ({
            let done = run(Task::Poke(s), reply, caches, host, steps);
            done.caches == caches && done.host.remembered == host.remembered
        }),
    decreases steps,
{
    if steps > 0 {
        lemma_import_step(s, reply);
        let left = (steps - 1) as nat;
        match poke_next(s, reply) {
            Step::Perform(request, Task::Poke(then)) => {
                lemma_import_remembers(
                    then,
                    reply_to(host, request),
                    caches,
                    performed(host, request),
                    left,
                );
            },
            Step::Call(Task::Poke(callee), Task::Poke(then)) => {
                lemma_import_remembers(callee, Reply::Start, caches, host, left);
                let called = start(Task::Poke(callee), caches, host, left);
                match called.end {
                    End::Return(value) => {
                        lemma_import_remembers(
                            then,
                            Reply::Got(value),
                            caches,
                            called.host,
                            left,
                        );
                    },
                    End::Raise(error) => {
                        lemma_import_remembers(
                            then,
                            Reply::Failed(error),
                            caches,
                            called.host,
                            left,
                        );
                    },
                    _ => {},
                }
            },
            _ => {},
        }
    }
}

/// How an import begins: what is named is remembered, or what was is recalled, and then looked at.
pub proof fn lemma_import_begins(spec: Seq<char>, caches: Caches, host: Host, steps: nat)
    requires
        steps >= 2,
    ensures
        start(Task::Poke(Poke::Start { spec: Some(spec) }), caches, host, steps) == run_on(
            inspect(spec),
            caches,
            performed(host, remembering(spec)),
            (steps - 2) as nat,
        ),
        last_import(host) == Some(spec) ==> start(
            Task::Poke(Poke::Start { spec: None }),
            caches,
            host,
            steps,
        ) == run_on(
            inspect(spec),
            caches,
            performed(host, recalling()),
            (steps - 2) as nat,
        ),
{
    let left = (steps - 1) as nat;
    lemma_ask(
        Task::Poke(Poke::Start { spec: Some(spec) }),
        Reply::Start,
        caches,
        host,
        steps,
        remembering(spec),
        Task::Poke(Poke::Remembered { spec }),
    );
    lemma_ask(
        Task::Poke(Poke::Start { spec: None }),
        Reply::Start,
        caches,
        host,
        steps,
        recalling(),
        Task::Poke(Poke::Recalled),
    );
}

/// Where nothing is named, what was imported last is imported again: the second import asks for the
/// same as the first one did once it had remembered what it was to import, and ends the same way.
/// What is remembered stays. This is said of surroundings that answer the same both times.
pub proof fn law_last_import_is_repeated(
    spec: Seq<char>,
    caches: Caches,
    host: Host,
    steps: nat,
)
    requires
        steps >= 2,
        is_steady(host),
    ensures
        ({
            let first = start(
                Task::Poke(Poke::Start { spec: Some(spec) }),
                caches,
                host,
                steps,
            );
            let again = start(
                Task::Poke(Poke::Start { spec: None }),
                first.caches,
                first.host,
                steps,
            );
            &&& last_import(first.host) == Some(spec)
            &&& last_import(again.host) == Some(spec)
            &&& again.end == first.end
            &&& exists|asked: Seq<RequestModel>|
                first.host.asked == #[trigger] (host.asked.push(remembering(spec)) + asked)
                    && again.host.asked == first.host.asked.push(recalling()) + asked
        }),
{
    let h1 = performed(host, remembering(spec));
    let first = start(Task::Poke(Poke::Start { spec: Some(spec) }), caches, host, steps);
    lemma_import_begins(spec, caches, host, steps);
    let left = (steps - 2) as nat;
    let suffix: RequestModel = Request::Delta(DeltaRequest::FileSuffix { path: spec });
    let then = Poke::Suffix { spec };
    let g1 = performed(h1, suffix);
    lemma_import_remembers(then, reply_to(h1, suffix), caches, g1, left);
    lemma_others_stay(Task::Poke(then), reply_to(h1, suffix), caches, g1, left);
    law_commands_touch_no_room_and_no_setting(
        Task::Poke(then),
        reply_to(h1, suffix),
        caches,
        g1,
        left,
    );
    assert(last_import(first.host) == Some(spec));
    lemma_import_begins(spec, caches, first.host, steps);
    let again = start(Task::Poke(Poke::Start { spec: None }), caches, first.host, steps);
    let h2 = performed(first.host, recalling());
    let g2 = performed(h2, suffix);
    assert((host.others)(h1.asked, suffix) == (host.others)(h2.asked, suffix));
    let tail = law_history_does_not_matter(
        Task::Poke(then),
        reply_to(h1, suffix),
        caches,
        g1,
        g2,
        left,
    );
    lemma_import_remembers(then, reply_to(h2, suffix), caches, g2, left);
    let asked = seq![suffix] + tail;
    assert(g1.asked + tail =~= h1.asked + asked);
    assert(g2.asked + tail =~= h2.asked + asked);
    assert(first.host.asked == host.asked.push(remembering(spec)) + asked);
}

proof fn lemma_poked(chat_id: u32, reply: ReplyModel, caches: Caches, host: Host, steps: nat)
    requires
        steps >= 1,
    ensures
        ({
            let done = run(
                Task::Cmdline { chat_id, stage: Cmdline::Poked },
                reply,
                caches,
                host,
                steps,
            );
            &&& done.host == host
            &&& reply == ReplyModel::Got(Value::Flag(true)) ==> done.end == End::Return(
                Value::Said { chat_id, said: Ok(""@) },
            )
            &&& reply == ReplyModel::Got(Value::Flag(false)) ==> done.end == End::Return(
                Value::Said { chat_id, said: Err("Poke failed"@) },
            )
        }),
{
    reveal(command_next);
}

/// The command that imports, without an argument, imports again what was imported last, and leaves
/// it remembered. Nothing else is remembered in its place.
pub proof fn law_poke_alone_repeats_the_last_import(
    line: Seq<char>,
    chat_id: u32,
    spec: Seq<char>,
    caches: Caches,
    host: Host,
    steps: nat,
)
    requires
        steps >= 5,
        first_word(line) == "poke"@,
        first_word(after_first_word(line)).len() == 0,
        chat_id == 0 || reply_to(host, loading(chat_id)) is Chat,
        last_import(host) == Some(spec),
    ensures
        ({
            let done = start(line_task(line, chat_id), caches, host, steps);
            let h = begun(host, chat_id);
            exists|left: nat|
                {
                    let imported = #[trigger] run_on(
                        inspect(spec),
                        caches,
                        performed(h, recalling()),
                        left,
                    );
                    &&& done.host == imported.host
                    &&& imported.end == End::Return(Value::Flag(true)) ==> done.end == End::Return(
                        Value::Said { chat_id, said: Ok(""@) },
                    )
                    &&& imported.end == End::Return(Value::Flag(false)) ==> done.end == End::Return(
                        Value::Said { chat_id, said: Err("Poke failed"@) },
                    )
                    &&& last_import(done.host) == Some(spec)
                }
        }),
{
    let left = lemma_poke_line(line, chat_id, caches, host, steps);
    first_word(after_first_word(line)).index_of_first_ensures('@');
    let h = begun(host, chat_id);
    lemma_import_begins(spec, caches, h, left);
    lemma_import_remembers(Poke::Start { spec: None }, Reply::Start, caches, h, left);
    let imported = start(Task::Poke(Poke::Start { spec: None }), caches, h, left);
    let done = start(line_task(line, chat_id), caches, host, steps);
    match imported.end {
        End::Return(value) => {
            lemma_poked(chat_id, Reply::Got(value), caches, imported.host, left);
        },
        End::Raise(error) => {
            lemma_poked(chat_id, Reply::Failed(error), caches, imported.host, left);
        },
        _ => {},
    }
    assert(done.host == imported.host);
    assert(imported == run_on(
        inspect(spec),
        caches,
        performed(h, recalling()),
        (left - 2) as nat,
    ));
}

/// The import of what is named.
pub open spec fn importing(spec: Seq<char>, caches: Caches, host: Host, steps: nat) -> Run {
    start(Task::Poke(Poke::Start { spec: Some(spec) }), caches, host, steps)
}

/// Whether a command does nothing but an import, and says how that went: nothing if it went well.
pub open spec fn says_how_it_went(done: Run, chat_id: u32, imported: Run) -> bool {
    &&& done.host == imported.host
    &&& imported.end == End::Return(Value::Flag(true)) ==> done.end == End::Return(
        Value::Said { chat_id, said: Ok(""@) },
    )
    &&& imported.end == End::Return(Value::Flag(false)) ==> done.end == End::Return(
        Value::Said { chat_id, said: Err("Poke failed"@) },
    )
}

/// The command that imports, with an argument, imports what the argument names, or what it names
/// together with all that follows, where it is an address and something follows. It fails where the
/// import does, and says nothing where it does not.
pub proof fn law_poke_imports_what_is_named(
    line: Seq<char>,
    chat_id: u32,
    caches: Caches,
    host: Host,
    steps: nat,
)
    requires
        steps >= 5,
        first_word(line) == "poke"@,
        first_word(after_first_word(line)).len() > 0,
        chat_id == 0 || reply_to(host, loading(chat_id)) is Chat,
    ensures
        ({
            let done = start(line_task(line, chat_id), caches, host, steps);
            let arg1 = first_word(after_first_word(line));
            let arg2 = after_first_word(after_first_word(line));
            let h = begun(host, chat_id);
            let with_key = arg1.contains('@') && !arg1.contains('/') && arg2.len() > 0;
            &&& with_key ==> exists|left: nat|
                left >= steps - 2 && says_how_it_went(
                    done,
                    chat_id,
                    #[trigger] importing(arg1 + " "@ + arg2, caches, h, left),
                )
            &&& !with_key ==> exists|left: nat|
                left >= steps - 2 && says_how_it_went(
                    done,
                    chat_id,
                    #[trigger] importing(arg1, caches, h, left),
                )
        }),
{
    let arg1 = first_word(after_first_word(line));
    let arg2 = after_first_word(after_first_word(line));
    let left = lemma_poke_line(line, chat_id, caches, host, steps);
    law_import_is_named_by_the_arguments(arg1, arg2);
    let spec = if arg1.contains('@') && !arg1.contains('/') && arg2.len() > 0 {
        arg1 + " "@ + arg2
    } else {
        arg1
    };
    assert(import_argument(arg1, arg2) == Some(spec));
    let imported = importing(spec, caches, begun(host, chat_id), left);
    match imported.end {
        End::Return(value) => {
            lemma_poked(chat_id, Reply::Got(value), imported.caches, imported.host, left);
        },
        End::Raise(error) => {
            lemma_poked(chat_id, Reply::Failed(error), imported.caches, imported.host, left);
        },
        _ => {},
    }
    let done = start(line_task(line, chat_id), caches, host, steps);
    assert(says_how_it_went(done, chat_id, imported));
}

/// The surroundings once the chat that is selected was loaded.
pub open spec fn begun(host: Host, chat_id: u32) -> Host {
    if chat_id == 0 {
        host
    } else {
        performed(host, loading(chat_id))
    }
}

proof fn lemma_poke_line(
    line: Seq<char>,
    chat_id: u32,
    caches: Caches,
    host: Host,
    steps: nat,
) -> (left: nat)
    requires
        steps >= 3,
        first_word(line) == "poke"@,
        chat_id == 0 || reply_to(host, loading(chat_id)) is Chat,
    ensures
        steps - 2 <= left,
        ({
            let arg1 = first_word(after_first_word(line));
            let arg2 = after_first_word(after_first_word(line));
            start(line_task(line, chat_id), caches, host, steps) == run_on(
                Step::Call(
                    Task::Poke(Poke::Start { spec: import_argument(arg1, arg2) }),
                    Task::Cmdline { chat_id, stage: Cmdline::Poked },
                ),
                caches,
                begun(host, chat_id),
                left,
            )
        }),
{
    reveal(command);
    reveal_strlit("poke");
    reveal_strlit("chat");
    reveal_strlit("help");
    reveal_strlit("?");
    reveal_strlit("initiate-key-transfer");
    reveal_strlit("get-setupcodebegin");
    reveal_strlit("continue-key-transfer");
    reveal_strlit("has-backup");
    reveal_strlit("import-backup");
    reveal_strlit("import-keys");
    reveal_strlit("export-setup");
    assert("poke"@[0] == 'p');
    assert("poke"@.len() == 4);
    assert("chat"@[0] == 'c');
    assert("help"@[0] == 'h');
    assert("?"@.len() == 1);
    assert("initiate-key-transfer"@.len() == 21);
    assert("get-setupcodebegin"@.len() == 18);
    assert("continue-key-transfer"@.len() == 21);
    assert("has-backup"@.len() == 10);
    assert("import-backup"@.len() == 13);
    assert("import-keys"@.len() == 11);
    assert("export-setup"@.len() == 12);
    let left = (steps - 1) as nat;
    if chat_id == 0 {
        left
    } else {
        lemma_ask(
            line_task(line, chat_id),
            Reply::Start,
            caches,
            host,
            steps,
            loading(chat_id),
            Task::Cmdline { chat_id, stage: Cmdline::Selected { line } },
        );
        (left - 1) as nat
    }
}

/// The request to take a public key from a file.
pub open spec fn taking_key(addr: Seq<char>, file: Seq<char>) -> RequestModel {
    Request::Delta(DeltaRequest::ImportPublicKey { addr, file })
}

/// Where an address and a key file are named, the core is asked to import the key for the address.
/// If it does, that counts as one item, and the core is told that messages have changed.
pub proof fn law_key_of_an_address_is_imported(
    spec: Seq<char>,
    addr: Seq<char>,
    file: Seq<char>,
    suffix: Option<Seq<char>>,
    caches: Caches,
    host: Host,
    steps: nat,
)
    requires
        steps >= 6,
        address_and_key(spec) == Some((addr, file)),
        suffix != Some("eml"@),
        answers(
            host,
            Request::Delta(DeltaRequest::FileSuffix { path: spec }),
            Reply::Got(Value::MaybeText(suffix)),
        ),
        answers(host, taking_key(addr, file), Reply::Got(Value::Unit)),
        answers(host, summary(spec, 1), Reply::Got(Value::Unit)),
        answers(host, announcing(), Reply::Got(Value::Unit)),
    ensures
        ({
            let done = start(
                Task::Poke(Poke::Start { spec: Some(spec) }),
                caches,
                host,
                steps,
            );
            &&& done.end == End::Return(Value::Flag(true))
            &&& last_import(done.host) == Some(spec)
            &&& done.host.asked == host.asked.push(remembering(spec)).push(
                Request::Delta(DeltaRequest::FileSuffix { path: spec }),
            ).push(taking_key(addr, file)).push(summary(spec, 1)).push(announcing())
        }),
{
    let ask_suffix: RequestModel = Request::Delta(DeltaRequest::FileSuffix { path: spec });
    let h1 = performed(host, remembering(spec));
    let h2 = performed(h1, ask_suffix);
    let h3 = performed(h2, taking_key(addr, file));
    let h4 = performed(h3, summary(spec, 1));
    lemma_import_begins(spec, caches, host, steps);
    lemma_ask(
        Task::Poke(Poke::Suffix { spec }),
        Reply::Got(Value::MaybeText(suffix)),
        caches,
        h2,
        (steps - 2) as nat,
        taking_key(addr, file),
        Task::Poke(Poke::FileDone { spec }),
    );
    lemma_ask(
        Task::Poke(Poke::FileDone { spec }),
        Reply::Got(Value::Unit),
        caches,
        h3,
        (steps - 3) as nat,
        summary(spec, 1),
        Task::Poke(Poke::Reported { count: 1 }),
    );
    lemma_ask(
        Task::Poke(Poke::Reported { count: 1 }),
        Reply::Got(Value::Unit),
        caches,
        h4,
        (steps - 4) as nat,
        announcing(),
        Task::Poke(Poke::Announced),
    );
}

/// The command that imports hands on an address together with its key file.
pub proof fn law_poke_hands_on_address_and_key(
    line: Seq<char>,
    chat_id: u32,
    caches: Caches,
    host: Host,
    steps: nat,
)
    requires
        steps >= 3,
        first_word(line) == "poke"@,
        is_address(first_word(after_first_word(line))),
        after_first_word(after_first_word(line)).len() > 0,
        chat_id == 0 || reply_to(host, loading(chat_id)) is Chat,
    ensures
        ({
            let addr = first_word(after_first_word(line));
            let file = after_first_word(after_first_word(line));
            &&& address_and_key(addr + " "@ + file) == Some((addr, file))
            &&& exists|left: nat|
                start(line_task(line, chat_id), caches, host, steps) == #[trigger] run_on(
                    Step::Call(
                        Task::Poke(Poke::Start { spec: Some(addr + " "@ + file) }),
                        Task::Cmdline { chat_id, stage: Cmdline::Poked },
                    ),
                    caches,
                    begun(host, chat_id),
                    left,
                )
        }),
{
    let rest = after_first_word(line);
    let addr = first_word(rest);
    let file = after_first_word(rest);
    let _ = lemma_poke_line(line, chat_id, caches, host, steps);
    let spec = addr + " "@ + file;
    reveal_strlit(" ");
    rest.index_of_first_ensures(' ');
    spec.index_of_first_ensures(' ');
    assert(spec[addr.len() as int] == ' ');
    assert forall|i: int| 0 <= i < addr.len() implies addr[i] != ' ' by {
        assert(addr[i] == rest[i]);
    }
    let k = spec.index_of_first(' ')->Some_0;
    assert(spec.contains(' '));
    assert(k == addr.len()) by {
        if k < addr.len() {
            assert(spec[k] == addr[k]);
        }
    }
    assert(spec.take(k) =~= addr);
    assert(spec.skip(k + 1) =~= file);
}

}
