//! How the users behave that stand for contacts.
use vstd::prelude::*;

use crate::appservice::{Caches, EmailUser, EmailUserModel, SettingsModel};
use crate::protocol::{
    Actor, ContactInfo, DeltaRequest, MatrixRequest, Reply, ReplyModel, Request, RequestModel, Step,
    Value,
};
use crate::run::{
    answers, lemma_ask, lemma_asked_grows, performed, reply_to, run, start, End, Host, Run,
};
use crate::task::{lemma_email_user, lemma_settings, next, Task};
use crate::util::localpart_of;

verus! {

broadcast use {lemma_email_user, lemma_settings};

/// A user that is ready is used as it is: nothing is asked, and nothing changes.
pub proof fn law_ready_user_is_not_touched(
    contact: ContactInfo,
    caches: Caches,
    host: Host,
    steps: nat,
)
    requires
        steps >= 1,
        caches.clients.contains_key(contact.id),
    ensures
        start(Task::EmailUser(EmailUser::Start { contact, refresh: false }), caches, host, steps)
            == (Run {
            end: End::Return(Value::Text(caches.clients[contact.id])),
            caches,
            host,
        }),
{
}

/// A user that is to be refreshed is registered first, whether it is ready or not. Its name on the
/// homeserver is made out of the address of the contact.
pub proof fn law_refreshed_user_is_registered_first(
    contact: ContactInfo,
    caches: Caches,
    host: Host,
    steps: nat,
)
    requires
        steps >= 1,
    ensures
        ({
            let asked = start(
                Task::EmailUser(EmailUser::Start { contact, refresh: true }),
                caches,
                host,
                steps,
            ).host.asked;
            &&& host.asked.is_prefix_of(asked)
            &&& asked.len() > host.asked.len()
            &&& asked[host.asked.len() as int] == RequestModel::Matrix(
                MatrixRequest::RegisterUser { localpart: localpart_of(contact.addr@) },
            )
        }),
{
    let request = RequestModel::Matrix(
        MatrixRequest::RegisterUser { localpart: localpart_of(contact.addr@) },
    );
    let task = Task::EmailUser(
        EmailUser::Registered { contact, localpart: localpart_of(contact.addr@) },
    );
    let then = performed(host, request);
    lemma_asked_grows(task, reply_to(host, request), caches, then, (steps - 1) as nat);
    assert(then.asked[host.asked.len() as int] == request);
}

/// The contact whose user a task is making ready.
pub open spec fn contact_of(s: EmailUserModel) -> Option<u32> {
    match s {
        EmailUser::Start { contact, .. } => Some(contact.id),
        EmailUser::Registered { contact, .. } => Some(contact.id),
        EmailUser::Ready { contact, .. } => Some(contact.id),
        EmailUser::SelfNamed { contact_id, .. } => Some(contact_id),
        EmailUser::Named { contact_id, .. } => Some(contact_id),
        EmailUser::Renamed { contact_id, .. } => Some(contact_id),
        EmailUser::RoomKnown { contact_id, .. } => Some(contact_id),
        EmailUser::InviteTried { contact_id, .. } => Some(contact_id),
        EmailUser::Invitable { contact_id, .. } => Some(contact_id),
        EmailUser::Invited { contact_id, .. } => Some(contact_id),
        EmailUser::JoinTried { contact_id, .. } => Some(contact_id),
        EmailUser::Joined { contact_id, .. } => Some(contact_id),
        _ => None,
    }
}

proof fn lemma_readied(
    s: EmailUserModel,
    contact_id: u32,
    reply: ReplyModel,
    caches: Caches,
    host: Host,
    steps: nat,
)
    requires
        contact_of(s) == Some(contact_id),
        run(Task::EmailUser(s), reply, caches, host, steps).end is Return,
    ensures
        ({
            let done = run(Task::EmailUser(s), reply, caches, host, steps);
            &&& done.caches.clients.contains_key(contact_id)
            &&& done.end == End::Return(Value::Text(done.caches.clients[contact_id]))
        }),
    decreases steps,
{
    if steps > 0 {
        let (c, step) = next(Task::EmailUser(s), reply, caches);
        let left = (steps - 1) as nat;
        match step {
            Step::Perform(request, task) => {
                if let Task::EmailUser(then) = task {
                    lemma_readied(
                        then,
                        contact_id,
                        reply_to(host, request),
                        c,
                        performed(host, request),
                        left,
                    );
                }
            },
            Step::Call(callee, task) => {
                let called = run(callee, Reply::Start, c, host, left);
                if let Task::EmailUser(then) = task {
                    if let End::Return(value) = called.end {
                        lemma_readied(
                            then,
                            contact_id,
                            Reply::Got(value),
                            called.caches,
                            called.host,
                            left,
                        );
                    } else if let End::Raise(error) = called.end {
                        lemma_readied(
                            then,
                            contact_id,
                            Reply::Failed(error),
                            called.caches,
                            called.host,
                            left,
                        );
                    }
                }
            },
            _ => {},
        }
    }
}

/// Whatever it takes to make a user ready: once that has succeeded, the user is found at once
/// the next time.
pub proof fn law_user_stays_ready(
    contact: ContactInfo,
    refresh: bool,
    caches: Caches,
    host: Host,
    steps: nat,
)
    requires
        start(Task::EmailUser(EmailUser::Start { contact, refresh }), caches, host, steps).end
            is Return,
    ensures
        ({
            let done = start(
                Task::EmailUser(EmailUser::Start { contact, refresh }),
                caches,
                host,
                steps,
            );
            start(
                Task::EmailUser(EmailUser::Start { contact, refresh: false }),
                done.caches,
                done.host,
                1,
            ) == done
        }),
{
    lemma_readied(
        EmailUser::Start { contact, refresh },
        contact.id,
        Reply::Start,
        caches,
        host,
        steps,
    );
    let done = start(
        Task::EmailUser(EmailUser::Start { contact, refresh }),
        caches,
        host,
        steps,
    );
    law_ready_user_is_not_touched(contact, done.caches, done.host, 1);
}

/// The reading and the writing of settings leave the caches alone.
pub proof fn lemma_settings_leave_caches(
    s: SettingsModel,
    reply: ReplyModel,
    caches: Caches,
    host: Host,
    steps: nat,
)
    ensures
        run(Task::Settings(s), reply, caches, host, steps).caches == caches,
    decreases steps,
{
    if steps > 0 {
        let left = (steps - 1) as nat;
        match next(Task::Settings(s), reply, caches).1 {
            Step::Perform(request, task) => {
                if let Task::Settings(then) = task {
                    lemma_settings_leave_caches(
                        then,
                        reply_to(host, request),
                        caches,
                        performed(host, request),
                        left,
                    );
                }
            },
            Step::Call(callee, task) => {
                let called = run(callee, Reply::Start, caches, host, left);
                if let Task::Settings(first) = callee {
                    lemma_settings_leave_caches(first, Reply::Start, caches, host, left);
                }
                if let Task::Settings(then) = task {
                    if let End::Return(value) = called.end {
                        lemma_settings_leave_caches(
                            then,
                            Reply::Got(value),
                            caches,
                            called.host,
                            left,
                        );
                    } else if let End::Raise(error) = called.end {
                        lemma_settings_leave_caches(
                            then,
                            Reply::Failed(error),
                            caches,
                            called.host,
                            left,
                        );
                    }
                }
            },
            _ => {},
        }
    }
}

/// Whether two states of the caches differ in the user of one contact at most.
pub open spec fn differ_in_one_user(a: Caches, b: Caches, contact_id: u32) -> bool {
    &&& a.events == b.events
    &&& forall|other: u32|
        other != contact_id ==> {
            &&& a.clients.contains_key(other) == #[trigger] b.clients.contains_key(other)
            &&& b.clients.contains_key(other) ==> a.clients[other] == b.clients[other]
        }
}

proof fn lemma_others_keep_their_users(
    s: EmailUserModel,
    contact_id: u32,
    reply: ReplyModel,
    caches: Caches,
    host: Host,
    steps: nat,
)
    requires
        contact_of(s) == Some(contact_id),
    ensures
        differ_in_one_user(
            run(Task::EmailUser(s), reply, caches, host, steps).caches,
            caches,
            contact_id,
        ),
    decreases steps,
{
    if steps > 0 {
        let (c, step) = next(Task::EmailUser(s), reply, caches);
        let left = (steps - 1) as nat;
        assert(differ_in_one_user(c, caches, contact_id));
        match step {
            Step::Perform(request, task) => {
                if let Task::EmailUser(then) = task {
                    lemma_others_keep_their_users(
                        then,
                        contact_id,
                        reply_to(host, request),
                        c,
                        performed(host, request),
                        left,
                    );
                }
            },
            Step::Call(callee, task) => {
                let called = run(callee, Reply::Start, c, host, left);
                if let Task::Settings(first) = callee {
                    lemma_settings_leave_caches(first, Reply::Start, c, host, left);
                }
                if let Task::EmailUser(then) = task {
                    if let End::Return(value) = called.end {
                        lemma_others_keep_their_users(
                            then,
                            contact_id,
                            Reply::Got(value),
                            c,
                            called.host,
                            left,
                        );
                    } else if let End::Raise(error) = called.end {
                        lemma_others_keep_their_users(
                            then,
                            contact_id,
                            Reply::Failed(error),
                            c,
                            called.host,
                            left,
                        );
                    }
                }
            },
            _ => {},
        }
    }
}

/// Whatever it takes to make the user of a contact ready, and however that ends: the users of all
/// other contacts stay as they were in the caches, and so do the events of the messages.
pub proof fn law_other_users_stay_as_they_were(
    contact: ContactInfo,
    refresh: bool,
    caches: Caches,
    host: Host,
    steps: nat,
)
    ensures
        differ_in_one_user(
            start(Task::EmailUser(EmailUser::Start { contact, refresh }), caches, host, steps).caches,
            caches,
            contact.id,
        ),
{
    lemma_others_keep_their_users(
        EmailUser::Start { contact, refresh },
        contact.id,
        Reply::Start,
        caches,
        host,
        steps,
    );
}

/// The request to load a contact.
pub open spec fn loading_contact(contact_id: u32) -> RequestModel {
    Request::Delta(DeltaRequest::LoadContact { id: contact_id })
}

/// A user that is asked for by the number of its contact is made ready as it is where the contact
/// itself is given, once the contact is loaded. The contact comes back with the user.
pub proof fn law_user_by_number_comes_with_its_contact(
    contact_id: u32,
    contact: ContactInfo,
    refresh: bool,
    caches: Caches,
    host: Host,
    steps: nat,
)
    requires
        steps >= 3,
        reply_to(host, loading_contact(contact_id)) == Reply::<Seq<char>>::Contact(contact),
    ensures
        ({
            let done = start(
                Task::EmailUser(EmailUser::ById { contact_id, refresh }),
                caches,
                host,
                steps,
            );
            let made = start(
                Task::EmailUser(EmailUser::Start { contact, refresh }),
                caches,
                performed(host, loading_contact(contact_id)),
                (steps - 2) as nat,
            );
            match made.end {
                End::Return(value) => {
                    &&& value is Text
                    &&& done == (Run {
                        end: End::Return(Value::EmailUser { contact, localpart: value->Text_0 }),
                        ..made
                    })
                },
                End::Raise(error) => done == (Run { end: End::Panic(error), ..made }),
                _ => done == made,
            }
        }),
{
    let asking = Task::EmailUser(EmailUser::ById { contact_id, refresh });
    let loaded = Task::EmailUser(EmailUser::Loaded { refresh });
    let then = performed(host, loading_contact(contact_id));
    let left = (steps - 2) as nat;
    lemma_ask(asking, Reply::Start, caches, host, steps, loading_contact(contact_id), loaded);
    let made = start(
        Task::EmailUser(EmailUser::Start { contact, refresh }),
        caches,
        then,
        left,
    );
    if made.end is Return {
        lemma_readied(
            EmailUser::Start { contact, refresh },
            contact.id,
            Reply::Start,
            caches,
            then,
            left,
        );
    }
    let known = Task::EmailUser(EmailUser::Known { contact });
    let done = start(asking, caches, host, steps);
    match made.end {
        End::Return(value) => {
            assert(done == run(known, Reply::Got(value), made.caches, made.host, left));
        },
        End::Raise(error) => {
            assert(done == run(known, Reply::Failed(error), made.caches, made.host, left));
        },
        _ => {},
    }
}

/// A user that is not called as its contact is gets the name of the contact.
pub proof fn law_user_is_named_as_its_contact(
    contact: ContactInfo,
    name: Option<Seq<char>>,
    caches: Caches,
    host: Host,
    steps: nat,
)
    requires
        steps >= 4,
        contact.id != 1,
        name != Some(contact.display_name@),
        answers(host, registering(contact), Reply::Got(Value::Unit)),
        answers(host, acting(contact), Reply::Got(Value::Unit)),
        answers(host, asking_name(contact), Reply::Got(Value::MaybeText(name))),
    ensures
        ({
            let asked = start(
                Task::EmailUser(EmailUser::Start { contact, refresh: true }),
                caches,
                host,
                steps,
            ).host.asked;
            host.asked.push(registering(contact)).push(acting(contact)).push(
                asking_name(contact),
            ).push(renaming(contact)).is_prefix_of(asked)
        }),
{
    let localpart = localpart_of(contact.addr@);
    let h1 = performed(host, registering(contact));
    let h2 = performed(h1, acting(contact));
    let h3 = performed(h2, asking_name(contact));
    let h4 = performed(h3, renaming(contact));
    let task1 = Task::EmailUser(EmailUser::Start { contact, refresh: true });
    let task2 = Task::EmailUser(EmailUser::Registered { contact, localpart });
    let task3 = Task::EmailUser(EmailUser::Ready { contact, localpart });
    let task4 = Task::EmailUser(
        EmailUser::Named { contact_id: contact.id, localpart, wanted: contact.display_name@ },
    );
    let task5 = Task::EmailUser(EmailUser::Renamed { contact_id: contact.id, localpart });
    let unit = Reply::Got(Value::Unit);
    lemma_ask(task1, Reply::Start, caches, host, steps, registering(contact), task2);
    lemma_ask(task2, unit, caches, h1, (steps - 1) as nat, acting(contact), task3);
    lemma_ask(task3, unit, caches, h2, (steps - 2) as nat, asking_name(contact), task4);
    lemma_ask(
        task4,
        Reply::Got(Value::MaybeText(name)),
        caches,
        h3,
        (steps - 3) as nat,
        renaming(contact),
        task5,
    );
    lemma_asked_grows(task5, reply_to(h3, renaming(contact)), caches, h4, (steps - 4) as nat);
}

/// The request to register the user of a contact.
pub open spec fn registering(contact: ContactInfo) -> RequestModel {
    Request::Matrix(MatrixRequest::RegisterUser { localpart: localpart_of(contact.addr@) })
}

/// The request to get ready to act as the user of a contact.
pub open spec fn acting(contact: ContactInfo) -> RequestModel {
    Request::Matrix(MatrixRequest::UserClient { localpart: localpart_of(contact.addr@) })
}

/// The question how the user of a contact is called.
pub open spec fn asking_name(contact: ContactInfo) -> RequestModel {
    Request::Matrix(MatrixRequest::DisplayName { who: Actor::User(localpart_of(contact.addr@)) })
}

/// The request to call the user of a contact as the contact is.
pub open spec fn renaming(contact: ContactInfo) -> RequestModel {
    Request::Matrix(
        MatrixRequest::SetDisplayName {
            who: Actor::User(localpart_of(contact.addr@)),
            name: contact.display_name@,
        },
    )
}

}
