//! The import of e-mails and keys from files.
use vstd::prelude::*;

use crate::numbers::{decimal, digits};
use crate::protocol::{
    ask_delta, ask_host, delta, done, host, DeltaRequest, HostRequest, Reply, ReplyModel, Step,
    StepModel, Value,
};
use crate::task::{Task, TaskModel};
use crate::text::{cut, ends_in, ends_with, join3, opt_text, same, split_once};

verus! {

/// The key that the last import is kept under.
pub const IMPORT_KEY: &'static str = "import_spec";

/// What the names of e-mail files end in.
pub const EML_ENDING: &'static str = ".eml";

/// How e-mails and keys are imported.
#[derive(Debug, PartialEq, Eq)]
pub enum Poke<T = String> {
    Start { spec: Option<T> },
    Remembered { spec: T },
    Recalled,
    Refused,
    Suffix { spec: T },
    FileDone { spec: T },
    Dir { spec: T },
    Named { spec: T, entries: Vec<Option<String>>, at: usize, count: usize, path: T },
    Entry { spec: T, entries: Vec<Option<String>>, at: usize, count: usize },
    Reported { count: usize },
    Announced,
    Eml { path: T },
    EmlLoaded,
    EmlReceived,
    EmlFailed,
}

/// The same over mathematical text.
pub type PokeModel = Poke<Seq<char>>;

impl View for Poke {
    type V = PokeModel;

    open spec fn view(&self) -> PokeModel {
        match self {
            Poke::Start { spec } => Poke::Start { spec: opt_text(*spec) },
            Poke::Remembered { spec } => Poke::Remembered { spec: spec@ },
            Poke::Recalled => Poke::Recalled,
            Poke::Refused => Poke::Refused,
            Poke::Suffix { spec } => Poke::Suffix { spec: spec@ },
            Poke::FileDone { spec } => Poke::FileDone { spec: spec@ },
            Poke::Dir { spec } => Poke::Dir { spec: spec@ },
            Poke::Named { spec, entries, at, count, path } => Poke::Named { spec: spec@, entries: *entries, at: *at, count: *count, path: path@ },
            Poke::Entry { spec, entries, at, count } => Poke::Entry { spec: spec@, entries: *entries, at: *at, count: *count },
            Poke::Reported { count } => Poke::Reported { count: *count },
            Poke::Announced => Poke::Announced,
            Poke::Eml { path } => Poke::Eml { path: path@ },
            Poke::EmlLoaded => Poke::EmlLoaded,
            Poke::EmlReceived => Poke::EmlReceived,
            Poke::EmlFailed => Poke::EmlFailed,
        }
    }
}

/// Refuses to import, with the reason.
pub open spec fn refuse(reason: Seq<char>) -> StepModel {
    delta(DeltaRequest::EmitError { text: reason }, Task::Poke(Poke::Refused))
}

fn refuse_with(reason: String) -> (s: Step)
    ensures
        s@ == refuse(reason@),
{
    ask_delta(DeltaRequest::EmitError { text: reason }, Task::Poke(Poke::Refused))
}

/// Whether a text can be the address of somebody, and not the path of a file.
pub open spec fn is_address(text: Seq<char>) -> bool {
    split_once(text, '@') is Some && split_once(text, '/') is None
}

/// Finds out whether a text can be the address of somebody.
pub fn looks_like_address(text: &str) -> (r: bool)
    ensures
        r == is_address(text@),
{
    cut(text, '@').is_some() && cut(text, '/').is_none()
}

/// An address and the file with its public key, where both are named with a blank between them.
pub open spec fn address_and_key(spec: Seq<char>) -> Option<(Seq<char>, Seq<char>)> {
    match split_once(spec, ' ') {
        Some((addr, file)) => if is_address(addr) && file.len() > 0 {
            Some((addr, file))
        } else {
            None
        },
        None => None,
    }
}

fn find_address_and_key(spec: &str) -> (r: Option<(String, String)>)
    ensures
        match r {
            Some((addr, file)) => address_and_key(spec@) == Some((addr@, file@)),
            None => address_and_key(spec@) is None,
        },
{
    match cut(spec, ' ') {
        Some((addr, file)) => {
            if looks_like_address(addr) && file.unicode_len() > 0 {
                Some((addr.to_owned(), file.to_owned()))
            } else {
                None
            }
        },
        None => None,
    }
}

/// Asks what the name of a file ends in.
pub open spec fn inspect(spec: Seq<char>) -> StepModel {
    delta(DeltaRequest::FileSuffix { path: spec }, Task::Poke(Poke::Suffix { spec }))
}

fn inspect_file(spec: String) -> (s: Step)
    ensures
        s@ == inspect(spec@),
{
    ask_delta(DeltaRequest::FileSuffix { path: spec.clone() }, Task::Poke(Poke::Suffix { spec }))
}

/// Says how many files were read.
pub open spec fn sum_up(spec: Seq<char>, count: usize) -> StepModel {
    host(
        HostRequest::Print {
            text: "Import: "@ + digits(count as nat) + " items read from \""@ + spec + "\".\n"@,
        },
        Task::Poke(Poke::Reported { count }),
    )
}

fn sum_up_all(spec: String, count: usize) -> (s: Step)
    ensures
        s@ == sum_up(spec@, count),
{
    let mut text: String = "Import: ".to_owned();
    text.append(decimal(count as u64).as_str());
    text.append(" items read from \"");
    text.append(spec.as_str());
    text.append("\".\n");
    ask_host(HostRequest::Print { text }, Task::Poke(Poke::Reported { count }))
}

/// The next place at which a directory holds an e-mail. An entry that cannot be read ends the
/// search.
pub open spec fn next_eml(entries: Seq<Option<String>>, at: int) -> Option<(int, Seq<char>)>
    decreases entries.len() - at,
{
    if at < 0 || at >= entries.len() {
        None
    } else {
        match entries[at] {
            Some(name) => if ends_in(name@, EML_ENDING@) {
                Some((at, name@))
            } else {
                next_eml(entries, at + 1)
            },
            None => None,
        }
    }
}

/// Goes on to the next e-mail of a directory.
pub open spec fn poke_on(
    spec: Seq<char>,
    entries: Vec<Option<String>>,
    at: usize,
    count: usize,
) -> StepModel {
    match next_eml(entries@, at as int) {
        Some((place, name)) => host(
            HostRequest::Print { text: "Import: "@ + (spec + "/"@ + name) + "\n"@ },
            Task::Poke(
                Poke::Named {
                    spec,
                    entries,
                    at: (place + 1) as usize,
                    count,
                    path: spec + "/"@ + name,
                },
            ),
        ),
        None => sum_up(spec, count),
    }
}

fn poke_from(spec: String, entries: Vec<Option<String>>, at: usize, count: usize) -> (s: Step)
    ensures
        s@ == poke_on(spec@, entries, at, count),
{
    let mut k: usize = at;
    while k < entries.len()
        invariant
            at <= k,
            next_eml(entries@, k as int) == next_eml(entries@, at as int),
        decreases entries.len() - k,
    {
        match &entries[k] {
            Some(name) => {
                if ends_with(name.as_str(), EML_ENDING) {
                    let path: String = join3(spec.as_str(), "/", name.as_str());
                    return ask_host(
                        HostRequest::Print { text: join3("Import: ", path.as_str(), "\n") },
                        Task::Poke(Poke::Named { spec, entries, at: k + 1, count, path }),
                    );
                }
            },
            None => {
                return sum_up_all(spec, count);
            },
        }
        k = k + 1;
    }
    sum_up_all(spec, count)
}

/// Goes on with what is no e-mail: a key for an address, or, where nothing can be told from its
/// name, a directory. Anything else is passed over.
pub open spec fn take_other(spec: Seq<char>, has_suffix: bool) -> StepModel {
    match address_and_key(spec) {
        Some((addr, file)) => delta(
            DeltaRequest::ImportPublicKey { addr, file },
            Task::Poke(Poke::FileDone { spec }),
        ),
        None => if has_suffix {
            sum_up(spec, 0)
        } else {
            host(HostRequest::ReadDir { path: spec }, Task::Poke(Poke::Dir { spec }))
        },
    }
}

fn take_other_file(spec: String, has_suffix: bool) -> (s: Step)
    ensures
        s@ == take_other(spec@, has_suffix),
{
    match find_address_and_key(spec.as_str()) {
        Some((addr, file)) => ask_delta(
            DeltaRequest::ImportPublicKey { addr, file },
            Task::Poke(Poke::FileDone { spec }),
        ),
        None => {
            if has_suffix {
                sum_up_all(spec, 0)
            } else {
                ask_host(
                    HostRequest::ReadDir { path: spec.clone() },
                    Task::Poke(Poke::Dir { spec }),
                )
            }
        },
    }
}

/// How e-mails are imported: from a file, or from the files of a directory; or, where an address
/// stands before a file, the public key of that address. What was imported last is imported again
/// where nothing else is named. The number of files that could be read decides whether the core is
/// told that messages have changed. An e-mail counts as read even where the core makes nothing of
/// it, a key only where the core takes it.
pub open spec fn poke_next(s: PokeModel, reply: ReplyModel) -> StepModel {
    match (s, reply) {
        (Poke::Start { spec }, Reply::Start) => match spec {
            Some(spec) => delta(
                DeltaRequest::RawSet { key: IMPORT_KEY@, value: spec },
                Task::Poke(Poke::Remembered { spec }),
            ),
            None => delta(DeltaRequest::RawGet { key: IMPORT_KEY@ }, Task::Poke(Poke::Recalled)),
        },
        (Poke::Remembered { spec }, Reply::Got(_)) => inspect(spec),
        (Poke::Recalled, Reply::Got(Value::MaybeText(spec))) => match spec {
            Some(spec) => inspect(spec),
            None => refuse("Import: No file or folder given."@),
        },
        (Poke::Remembered { .. } | Poke::Recalled, Reply::Failed(error)) => Step::Panic(error),
        (Poke::Refused, Reply::Got(_)) => Step::Return(Value::Flag(false)),
        (Poke::Suffix { spec }, Reply::Got(Value::MaybeText(suffix))) => match suffix {
            Some(suffix) => if suffix == "eml"@ {
                Step::Call(
                    Task::Poke(Poke::Eml { path: spec }),
                    Task::Poke(Poke::FileDone { spec }),
                )
            } else {
                take_other(spec, true)
            },
            None => take_other(spec, false),
        },
        (Poke::FileDone { spec }, Reply::Got(_)) => sum_up(spec, 1),
        (Poke::FileDone { spec }, Reply::Failed(_)) => sum_up(spec, 0),
        (Poke::Dir { spec }, Reply::Entries(entries)) => poke_on(spec, entries, 0, 0),
        (Poke::Dir { spec }, Reply::Failed(_)) => refuse(
            "Import: Cannot open directory \""@ + spec + "\"."@,
        ),
        (Poke::Named { spec, entries, at, count, path }, Reply::Got(_)) => Step::Call(
            Task::Poke(Poke::Eml { path }),
            Task::Poke(Poke::Entry { spec, entries, at, count }),
        ),
        (Poke::Entry { spec, entries, at, count }, Reply::Got(_)) => if count < at {
            poke_on(spec, entries, at, (count + 1) as usize)
        } else {
            Step::Mismatch
        },
        (Poke::Entry { spec, entries, at, count }, Reply::Failed(_)) => poke_on(
            spec,
            entries,
            at,
            count,
        ),
        (Poke::Reported { count }, Reply::Got(_)) => if count > 0 {
            delta(DeltaRequest::EmitMsgsChanged, Task::Poke(Poke::Announced))
        } else {
            Step::Return(Value::Flag(true))
        },
        (Poke::Announced, Reply::Got(_)) => Step::Return(Value::Flag(true)),
        (Poke::Eml { path }, Reply::Start) => delta(
            DeltaRequest::ReadFile { path },
            Task::Poke(Poke::EmlLoaded),
        ),
        (Poke::EmlLoaded, Reply::Bytes(data)) => delta(
            DeltaRequest::ReceiveImf { data },
            Task::Poke(Poke::EmlReceived),
        ),
        (Poke::EmlLoaded, Reply::Failed(error)) => Step::Raise(error),
        (Poke::EmlReceived, Reply::Got(_)) => Step::Return(Value::Unit),
        (Poke::EmlReceived, Reply::Failed(error)) => host(
            HostRequest::Print { text: "dc_receive_imf errored: "@ + error + "\n"@ },
            Task::Poke(Poke::EmlFailed),
        ),
        (Poke::EmlFailed, Reply::Got(_)) => Step::Return(Value::Unit),
        _ => Step::Mismatch,
    }
}

/// Goes on with importing e-mails.
pub(crate) fn poke_resume(s: Poke, reply: Reply) -> (step: Step)
    ensures
        step@ == poke_next(s@, reply@),
{
    match (s, reply) {
        (Poke::Start { spec }, Reply::Start) => match spec {
            Some(spec) => ask_delta(
                DeltaRequest::RawSet { key: IMPORT_KEY.to_owned(), value: spec.clone() },
                Task::Poke(Poke::Remembered { spec }),
            ),
            None => ask_delta(
                DeltaRequest::RawGet { key: IMPORT_KEY.to_owned() },
                Task::Poke(Poke::Recalled),
            ),
        },
        (Poke::Remembered { spec }, Reply::Got(_)) => inspect_file(spec),
        (Poke::Recalled, Reply::Got(Value::MaybeText(spec))) => match spec {
            Some(spec) => inspect_file(spec),
            None => refuse_with("Import: No file or folder given.".to_owned()),
        },
        (Poke::Remembered { .. } | Poke::Recalled, Reply::Failed(error)) => Step::Panic(error),
        (Poke::Refused, Reply::Got(_)) => Step::Return(Value::Flag(false)),
        (Poke::Suffix { spec }, Reply::Got(Value::MaybeText(suffix))) => match suffix {
            Some(suffix) => {
                if same(suffix.as_str(), "eml") {
                    Step::Call(
                        Task::Poke(Poke::Eml { path: spec.clone() }),
                        Task::Poke(Poke::FileDone { spec }),
                    )
                } else {
                    take_other_file(spec, true)
                }
            },
            None => take_other_file(spec, false),
        },
        (Poke::FileDone { spec }, Reply::Got(_)) => sum_up_all(spec, 1),
        (Poke::FileDone { spec }, Reply::Failed(_)) => sum_up_all(spec, 0),
        (Poke::Dir { spec }, Reply::Entries(entries)) => poke_from(spec, entries, 0, 0),
        (Poke::Dir { spec }, Reply::Failed(_)) => refuse_with(
            join3("Import: Cannot open directory \"", spec.as_str(), "\"."),
        ),
        (Poke::Named { spec, entries, at, count, path }, Reply::Got(_)) => Step::Call(
            Task::Poke(Poke::Eml { path }),
            Task::Poke(Poke::Entry { spec, entries, at, count }),
        ),
        (Poke::Entry { spec, entries, at, count }, Reply::Got(_)) => {
            if count < at {
                poke_from(spec, entries, at, count + 1)
            } else {
                Step::Mismatch
            }
        },
        (Poke::Entry { spec, entries, at, count }, Reply::Failed(_)) => poke_from(
            spec,
            entries,
            at,
            count,
        ),
        (Poke::Reported { count }, Reply::Got(_)) => {
            if count > 0 {
                ask_delta(DeltaRequest::EmitMsgsChanged, Task::Poke(Poke::Announced))
            } else {
                Step::Return(Value::Flag(true))
            }
        },
        (Poke::Announced, Reply::Got(_)) => Step::Return(Value::Flag(true)),
        (Poke::Eml { path }, Reply::Start) => ask_delta(
            DeltaRequest::ReadFile { path },
            Task::Poke(Poke::EmlLoaded),
        ),
        (Poke::EmlLoaded, Reply::Bytes(data)) => ask_delta(
            DeltaRequest::ReceiveImf { data },
            Task::Poke(Poke::EmlReceived),
        ),
        (Poke::EmlLoaded, Reply::Failed(error)) => Step::Raise(error),
        (Poke::EmlReceived, Reply::Got(_)) => done(),
        (Poke::EmlReceived, Reply::Failed(error)) => ask_host(
            HostRequest::Print { text: join3("dc_receive_imf errored: ", error.as_str(), "\n") },
            Task::Poke(Poke::EmlFailed),
        ),
        (Poke::EmlFailed, Reply::Got(_)) => done(),
        _ => Step::Mismatch,
    }
}

/// Imports e-mails from a file or a directory, or the public key of an address; or again what was
/// imported last.
pub fn poke_spec(spec: Option<String>) -> (t: Task)
    ensures
        t@ == TaskModel::Poke(Poke::Start { spec: opt_text(spec) }),
{
    Task::Poke(Poke::Start { spec })
}

/// Imports one e-mail.
pub fn poke_eml_file(path: &str) -> (t: Task)
    ensures
        t@ == TaskModel::Poke(Poke::Eml { path: path@ }),
{
    Task::Poke(Poke::Eml { path: path.to_owned() })
}

}
