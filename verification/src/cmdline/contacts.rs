//! Contacts as the command line shows them.
use vstd::prelude::*;

use crate::appservice::CONTACT_SELF;
use crate::numbers::{decimal, digits};
use crate::protocol::{
    ask_delta, delta, ContactInfo, DeltaRequest, Reply, ReplyModel, Step, StepModel, Value,
    VerifiedStatus,
};
use crate::task::{Task, TaskModel};

verus! {

/// How a list of contacts is shown.
#[derive(Debug, PartialEq, Eq)]
pub enum Roll<T = String> {
    Start { contacts: Vec<u32> },
    Known { contacts: Vec<u32>, at: usize, id: u32, text: T },
    Verified { contacts: Vec<u32>, at: usize, id: u32, text: T, contact: ContactInfo },
    Preferred { contacts: Vec<u32>, at: usize, id: u32, text: T, contact: ContactInfo, verified: VerifiedStatus },
}

/// The same over mathematical text.
pub type RollModel = Roll<Seq<char>>;

impl View for Roll {
    type V = RollModel;

    open spec fn view(&self) -> RollModel {
        match self {
            Roll::Start { contacts } => Roll::Start { contacts: *contacts },
            Roll::Known { contacts, at, id, text } => Roll::Known { contacts: *contacts, at: *at, id: *id, text: text@ },
            Roll::Verified { contacts, at, id, text, contact } => Roll::Verified { contacts: *contacts, at: *at, id: *id, text: text@, contact: *contact },
            Roll::Preferred { contacts, at, id, text, contact, verified } => Roll::Preferred { contacts: *contacts, at: *at, id: *id, text: text@, contact: *contact, verified: *verified },
        }
    }
}

/// Whether the key of a contact is verified, as it is shown.
pub open spec fn verified_mark(verified: VerifiedStatus) -> Seq<char> {
    match verified {
        VerifiedStatus::Unverified => ""@,
        VerifiedStatus::Verified => " √"@,
        VerifiedStatus::BidirectVerified => " √√"@,
    }
}

fn show_verified(verified: VerifiedStatus) -> (r: &'static str)
    ensures
        r@ == verified_mark(verified),
{
    match verified {
        VerifiedStatus::Unverified => "",
        VerifiedStatus::Verified => " √",
        VerifiedStatus::BidirectVerified => " √√",
    }
}

/// A text, or what stands for it where it is empty.
pub open spec fn or_unset(text: Seq<char>, unset: Seq<char>) -> Seq<char> {
    if text.len() == 0 {
        unset
    } else {
        text
    }
}

fn text_or<'a>(text: &'a String, unset: &'static str) -> (r: &'a str)
    ensures
        r@ == or_unset(text@, unset@),
{
    if text.as_str().unicode_len() == 0 {
        unset
    } else {
        text.as_str()
    }
}

/// What a contact prefers of encryption, as it is shown; nothing for oneself.
pub open spec fn preference(id: u32, prefers: Option<Seq<char>>) -> Seq<char> {
    match prefers {
        Some(p) => if id != CONTACT_SELF {
            ", prefer-encrypt="@ + p
        } else {
            ""@
        },
        None => ""@,
    }
}

/// The line that shows a contact.
pub open spec fn contact_line(
    id: u32,
    contact: ContactInfo,
    verified: VerifiedStatus,
    prefers: Option<Seq<char>>,
) -> Seq<char> {
    "Contact#"@ + digits(id as nat) + ": "@ + or_unset(contact.display_name@, "<name unset>"@)
        + verified_mark(verified) + " <"@ + or_unset(contact.addr@, "addr unset"@) + ">"@
        + preference(id, prefers) + "\n"@
}

fn show_preference(id: u32, prefers: Option<String>) -> (r: String)
    ensures
        r@ == preference(id, crate::text::opt_text(prefers)),
{
    match prefers {
        Some(p) => {
            if id != CONTACT_SELF {
                let mut r: String = ", prefer-encrypt=".to_owned();
                r.append(p.as_str());
                r
            } else {
                "".to_owned()
            }
        },
        None => "".to_owned(),
    }
}

/// Writes the line that shows a contact.
pub fn show_contact(
    id: u32,
    contact: &ContactInfo,
    verified: VerifiedStatus,
    prefers: Option<String>,
) -> (r: String)
    ensures
        r@ == contact_line(id, *contact, verified, crate::text::opt_text(prefers)),
{
    let mut r: String = "Contact#".to_owned();
    r.append(decimal(id as u64).as_str());
    r.append(": ");
    r.append(text_or(&contact.display_name, "<name unset>"));
    r.append(show_verified(verified));
    r.append(" <");
    r.append(text_or(&contact.addr, "addr unset"));
    r.append(">");
    r.append(show_preference(id, prefers).as_str());
    r.append("\n");
    r
}

/// Goes on to the contact at a place in the list.
pub open spec fn roll_on(contacts: Vec<u32>, at: usize, text: Seq<char>) -> StepModel {
    if at < contacts@.len() {
        delta(
            DeltaRequest::GetContact { id: contacts@[at as int] },
            Task::Roll(
                Roll::Known { contacts, at: (at + 1) as usize, id: contacts@[at as int], text },
            ),
        )
    } else {
        Step::Return(Value::Text(text))
    }
}

/// How a list of contacts is shown.
pub open spec fn roll_next(s: RollModel, reply: ReplyModel) -> StepModel {
    match (s, reply) {
        (Roll::Start { contacts }, Reply::Start) => roll_on(contacts, 0, ""@),
        (Roll::Known { contacts, at, id, text }, Reply::Contact(contact)) => delta(
            DeltaRequest::VerifiedStatus { id },
            Task::Roll(Roll::Verified { contacts, at, id, text, contact }),
        ),
        (Roll::Verified { contacts, at, id, text, contact }, Reply::Verified(verified)) => delta(
            DeltaRequest::PreferEncrypt { addr: contact.addr@ },
            Task::Roll(Roll::Preferred { contacts, at, id, text, contact, verified }),
        ),
        (Roll::Known { .. } | Roll::Verified { .. }, Reply::Failed(error)) => Step::Raise(error),
        (
            Roll::Preferred { contacts, at, id, text, contact, verified },
            Reply::Got(Value::MaybeText(prefers)),
        ) => roll_on(contacts, at, text + contact_line(id, contact, verified, prefers)),
        (Roll::Preferred { .. }, Reply::Failed(error)) => Step::Panic(error),
        _ => Step::Mismatch,
    }
}

fn roll_from(contacts: Vec<u32>, at: usize, text: String) -> (s: Step)
    ensures
        s@ == roll_on(contacts, at, text@),
{
    if at < contacts.len() {
        let id: u32 = contacts[at];
        ask_delta(
            DeltaRequest::GetContact { id },
            Task::Roll(Roll::Known { contacts, at: at + 1, id, text }),
        )
    } else {
        Step::Return(Value::Text(text))
    }
}

/// Goes on with showing a list of contacts.
pub(crate) fn roll_resume(s: Roll, reply: Reply) -> (step: Step)
    ensures
        step@ == roll_next(s@, reply@),
{
    match (s, reply) {
        (Roll::Start { contacts }, Reply::Start) => roll_from(contacts, 0, "".to_owned()),
        (Roll::Known { contacts, at, id, text }, Reply::Contact(contact)) => ask_delta(
            DeltaRequest::VerifiedStatus { id },
            Task::Roll(Roll::Verified { contacts, at, id, text, contact }),
        ),
        (Roll::Verified { contacts, at, id, text, contact }, Reply::Verified(verified)) => {
            ask_delta(
                DeltaRequest::PreferEncrypt { addr: contact.addr.clone() },
                Task::Roll(Roll::Preferred { contacts, at, id, text, contact, verified }),
            )
        },
        (Roll::Known { .. } | Roll::Verified { .. }, Reply::Failed(error)) => Step::Raise(error),
        (
            Roll::Preferred { contacts, at, id, text, contact, verified },
            Reply::Got(Value::MaybeText(prefers)),
        ) => {
            let mut r: String = text;
            r.append(show_contact(id, &contact, verified, prefers).as_str());
            roll_from(contacts, at, r)
        },
        (Roll::Preferred { .. }, Reply::Failed(error)) => Step::Panic(error),
        _ => Step::Mismatch,
    }
}

/// Shows a list of contacts.
pub fn log_contactlist(contacts: Vec<u32>) -> (t: Task)
    ensures
        t@ == TaskModel::Roll(Roll::Start { contacts }),
{
    Task::Roll(Roll::Start { contacts })
}

}
