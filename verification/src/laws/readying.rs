//! What it takes to make the user of a contact ready.
use vstd::prelude::*;

use crate::appservice::{seek_room, Caches, EmailUser};
use crate::laws::rooms::{is_in, reading};
use crate::laws::settings::{lemma_control_room, logging, seeking_control};
use crate::laws::users::{acting, asking_name, registering};
use crate::outside::is_room_id;
use crate::protocol::{
    Actor, ContactInfo, DeltaRequest, LogLevel, MatrixRequest, Reply, ReplyModel, Request,
    RequestModel, Value,
};
use crate::run::{answers, kept, lemma_ask, performed, run, start, End, Host, Run};
use crate::task::{lemma_email_user, next, Task, TaskModel};
use crate::util::localpart_of;

verus! {

broadcast use lemma_email_user;

/// What a bridge meets that makes the user of a contact ready: whether the user can be registered,
/// how the owner of the account and the user are called, whether the bridge is in the control room,
/// and whether the user is invited there and in it, or can be.
pub struct Meeting {
    pub registration: Result<(), Seq<char>>,
    pub owner: Option<Seq<char>>,
    pub name: Option<Seq<char>>,
    pub controls: bool,
    pub invited: bool,
    pub user: Seq<char>,
    pub invitation: Result<(), Seq<char>>,
    pub joined: bool,
    pub entrance: Result<(), Seq<char>>,
}

/// The reply of something that works, or fails for a reason.
pub open spec fn outcome(r: Result<(), Seq<char>>) -> ReplyModel {
    match r {
        Ok(_) => Reply::Got(Value::Unit),
        Err(error) => Reply::Failed(error),
    }
}

/// The line that is logged of what failed.
pub open spec fn mishap(r: Result<(), Seq<char>>) -> Seq<RequestModel> {
    match r {
        Ok(_) => seq![],
        Err(error) => seq![logging(LogLevel::Debug, error)],
    }
}

/// Some requests, or none.
pub open spec fn where_so(condition: bool, requests: Seq<RequestModel>) -> Seq<RequestModel> {
    if condition {
        requests
    } else {
        seq![]
    }
}

/// The surroundings once requests were made that leave the settings alone.
pub open spec fn having_asked(host: Host, requests: Seq<RequestModel>) -> Host {
    Host { asked: host.asked + requests, ..host }
}

impl Meeting {
    /// The name that the user of a contact is to have: that of the contact, and for the owner of
    /// the account the name that is set, or else another.
    pub open spec fn right_name(self, contact: ContactInfo) -> Seq<char> {
        if contact.id == 1 {
            match self.owner {
                Some(name) => name,
                None => "Me"@,
            }
        } else {
            contact.display_name@
        }
    }

    /// The control room that the bridge is in.
    pub open spec fn room(self, host: Host) -> Option<Seq<char>> {
        if self.controls {
            kept(host.settings, "ui.appservice.control_room_id"@)
        } else {
            None
        }
    }

    /// Whether the surroundings are as described.
    pub open spec fn takes_place(self, contact: ContactInfo, host: Host) -> bool {
        let localpart = localpart_of(contact.addr@);
        let who = Actor::User(localpart);
        let unit = Reply::Got(Value::Unit);
        &&& answers(host, registering(contact), outcome(self.registration))
        &&& answers(host, acting(contact), unit)
        &&& answers(
            host,
            Request::Delta(DeltaRequest::GetDisplayname),
            Reply::Got(Value::MaybeText(self.owner)),
        )
        &&& answers(host, asking_name(contact), Reply::Got(Value::MaybeText(self.name)))
        &&& answers(host, naming(who, self.right_name(contact)), unit)
        &&& kept(host.settings, "ui.appservice.control_room_id"@) matches Some(room) ==> {
            &&& is_room_id(room)
            &&& answers(host, is_in(Actor::Main, room), Reply::Got(Value::Flag(self.controls)))
            &&& answers(host, is_invited(who, room), Reply::Got(Value::Flag(self.invited)))
            &&& answers(host, identity(who), Reply::Got(Value::MaybeText(Some(self.user))))
            &&& answers(host, inviting(room, self.user), outcome(self.invitation))
            &&& answers(host, is_in(who, room), Reply::Got(Value::Flag(self.joined)))
            &&& answers(host, entering(who, room), outcome(self.entrance))
        }
    }

    /// How the user is registered. That it was before is logged, and no more.
    pub open spec fn introduction(self, contact: ContactInfo) -> Seq<RequestModel> {
        seq![registering(contact)] + where_so(
            self.registration is Err,
            seq![
                logging(
                    LogLevel::Debug,
                    localpart_of(contact.addr@) + ": user already registered, ignoring error"@,
                ),
            ],
        ) + seq![acting(contact)]
    }

    /// How the user gets the name of the contact. One that is called so already is not renamed.
    pub open spec fn christening(self, contact: ContactInfo) -> Seq<RequestModel> {
        let right = self.right_name(contact);
        where_so(contact.id == 1, seq![Request::Delta(DeltaRequest::GetDisplayname)]) + seq![
            asking_name(contact),
        ] + where_so(
            self.name != Some(right),
            seq![naming(Actor::User(localpart_of(contact.addr@)), right)],
        )
    }

    /// How the control room is looked for.
    pub open spec fn search(self, host: Host) -> Seq<RequestModel> {
        match kept(host.settings, "ui.appservice.control_room_id"@) {
            Some(room) => seq![
                reading("ui.appservice.control_room_id"@),
                logging(LogLevel::Info, "control room: "@ + room),
                is_in(Actor::Main, room),
            ],
            None => seq![
                reading("ui.appservice.control_room_id"@),
                logging(LogLevel::Warning, "no control room configured!"@),
            ],
        }
    }

    /// How the user gets into the control room: it is invited if it is not yet, and joins the room
    /// if it is not in it. What fails is logged, and no more.
    pub open spec fn entry(self, contact: ContactInfo, host: Host) -> Seq<RequestModel> {
        let who = Actor::User(localpart_of(contact.addr@));
        match self.room(host) {
            Some(room) => seq![is_invited(who, room)] + where_so(
                !self.invited,
                seq![identity(who), inviting(room, self.user)] + mishap(self.invitation),
            ) + seq![is_in(who, room)] + where_so(
                !self.joined,
                seq![entering(who, room)] + mishap(self.entrance),
            ),
            None => seq![],
        }
    }
}

/// The request to call a user by a name.
pub open spec fn naming(who: Actor<Seq<char>>, name: Seq<char>) -> RequestModel {
    Request::Matrix(MatrixRequest::SetDisplayName { who, name })
}

/// The question whether a user is invited to a room.
pub open spec fn is_invited(who: Actor<Seq<char>>, room: Seq<char>) -> RequestModel {
    Request::Matrix(MatrixRequest::IsInvited { who, room })
}

/// The question which user this is.
pub open spec fn identity(who: Actor<Seq<char>>) -> RequestModel {
    Request::Matrix(MatrixRequest::UserId { who })
}

/// The request to invite a user to a room.
pub open spec fn inviting(room: Seq<char>, user: Seq<char>) -> RequestModel {
    Request::Matrix(MatrixRequest::InviteUser { room, user })
}

/// The request that a user joins a room.
pub open spec fn entering(who: Actor<Seq<char>>, room: Seq<char>) -> RequestModel {
    Request::Matrix(MatrixRequest::JoinRoom { who, room })
}

/// What is left behind once the user is ready.
pub open spec fn made_ready(contact: ContactInfo, caches: Caches, host: Host) -> Run {
    let localpart = localpart_of(contact.addr@);
    Run {
        end: End::Return(Value::Text(localpart)),
        caches: Caches { clients: caches.clients.insert(contact.id, localpart), ..caches },
        host,
    }
}

/// How a user gets into the control room.
proof fn lemma_entry(m: Meeting, contact: ContactInfo, caches: Caches, host: Host, steps: nat)
    requires
        steps >= 9,
        m.takes_place(contact, host),
    ensures
        run(
            Task::EmailUser(
                EmailUser::RoomKnown {
                    contact_id: contact.id,
                    localpart: localpart_of(contact.addr@),
                },
            ),
            Reply::Got(Value::MaybeText(m.room(host))),
            caches,
            host,
            steps,
        ) == made_ready(contact, caches, having_asked(host, m.entry(contact, host))),
{
    let contact_id = contact.id;
    let localpart = localpart_of(contact.addr@);
    let who = Actor::User(localpart);
    let known = Task::EmailUser(EmailUser::RoomKnown { contact_id, localpart });
    match m.room(host) {
        Some(room_id) => {
            let room = room_id;
            let tried = Task::EmailUser(EmailUser::InviteTried { contact_id, localpart, room_id });
            let invitable = Task::EmailUser(EmailUser::Invitable { contact_id, localpart, room_id });
            let invited = Task::EmailUser(EmailUser::Invited { contact_id, localpart, room_id });
            let joining = Task::EmailUser(EmailUser::JoinTried { contact_id, localpart, room_id });
            let joined = Task::EmailUser(EmailUser::Joined { contact_id, localpart });
            let n1 = (steps - 1) as nat;
            let h1 = performed(host, is_invited(who, room));
            lemma_ask(
                known,
                Reply::Got(Value::MaybeText(Some(room))),
                caches,
                host,
                steps,
                is_invited(who, room),
                tried,
            );
            let flag = Reply::Got(Value::Flag(m.invited));
            let (h2, n2): (Host, nat) = if m.invited {
                lemma_ask(tried, flag, caches, h1, n1, is_in(who, room), joining);
                (performed(h1, is_in(who, room)), (n1 - 1) as nat)
            } else {
                let a = performed(h1, identity(who));
                let b = performed(a, inviting(room, m.user));
                lemma_ask(tried, flag, caches, h1, n1, identity(who), invitable);
                lemma_ask(
                    invitable,
                    Reply::Got(Value::MaybeText(Some(m.user))),
                    caches,
                    a,
                    (n1 - 1) as nat,
                    inviting(room, m.user),
                    invited,
                );
                match m.invitation {
                    Ok(_) => {
                        lemma_ask(
                            invited,
                            Reply::Got(Value::Unit),
                            caches,
                            b,
                            (n1 - 2) as nat,
                            is_in(who, room),
                            joining,
                        );
                        (performed(b, is_in(who, room)), (n1 - 3) as nat)
                    },
                    Err(error) => {
                        let line = logging(LogLevel::Debug, error);
                        let c = performed(b, line);
                        lemma_ask(
                            invited,
                            Reply::Failed(error),
                            caches,
                            b,
                            (n1 - 2) as nat,
                            line,
                            invited,
                        );
                        lemma_ask(
                            invited,
                            Reply::Got(Value::Unit),
                            caches,
                            c,
                            (n1 - 3) as nat,
                            is_in(who, room),
                            joining,
                        );
                        (performed(c, is_in(who, room)), (n1 - 4) as nat)
                    },
                }
            };
            let flag = Reply::Got(Value::Flag(m.joined));
            if !m.joined {
                let d = performed(h2, entering(who, room));
                lemma_ask(joining, flag, caches, h2, n2, entering(who, room), joined);
                if let Err(error) = m.entrance {
                    let line = logging(LogLevel::Debug, error);
                    lemma_ask(
                        joined,
                        Reply::Failed(error),
                        caches,
                        d,
                        (n2 - 1) as nat,
                        line,
                        joined,
                    );
                    assert(performed(d, line).asked =~= host.asked + m.entry(contact, host));
                } else {
                    assert(d.asked =~= host.asked + m.entry(contact, host));
                }
            } else {
                assert(h2.asked =~= host.asked + m.entry(contact, host));
            }
        },
        None => {
            assert(host.asked + m.entry(contact, host) =~= host.asked);
        },
    }
}

/// How a user that has its name gets into the control room.
proof fn lemma_searched(
    m: Meeting,
    contact: ContactInfo,
    task: TaskModel,
    reply: ReplyModel,
    caches: Caches,
    host: Host,
    steps: nat,
)
    requires
        steps >= 10,
        m.takes_place(contact, host),
        next(task, reply, caches) == (
            caches,
            seek_room(contact.id, localpart_of(contact.addr@)),
        ),
    ensures
        run(task, reply, caches, host, steps) == made_ready(
            contact,
            caches,
            having_asked(host, m.search(host) + m.entry(contact, host)),
        ),
{
    let left = (steps - 1) as nat;
    lemma_control_room(m.controls, caches, host, left);
    let found = having_asked(host, m.search(host));
    assert(seeking_control(host).asked =~= found.asked);
    let known = Task::EmailUser(
        EmailUser::RoomKnown { contact_id: contact.id, localpart: localpart_of(contact.addr@) },
    );
    assert(run(task, reply, caches, host, steps) == run(
        known,
        Reply::Got(Value::MaybeText(m.room(host))),
        caches,
        found,
        left,
    ));
    lemma_entry(m, contact, caches, found, left);
    assert(found.asked + m.entry(contact, host) =~= host.asked + (m.search(host) + m.entry(
        contact,
        host,
    )));
}

/// How a user gets its name, and then into the control room.
proof fn lemma_christened(m: Meeting, contact: ContactInfo, caches: Caches, host: Host, steps: nat)
    requires
        steps >= 13,
        m.takes_place(contact, host),
    ensures
        run(
            Task::EmailUser(EmailUser::Ready { contact, localpart: localpart_of(contact.addr@) }),
            Reply::Got(Value::Unit),
            caches,
            host,
            steps,
        ) == made_ready(
            contact,
            caches,
            having_asked(
                host,
                m.christening(contact) + m.search(host) + m.entry(contact, host),
            ),
        ),
{
    let contact_id = contact.id;
    let localpart = localpart_of(contact.addr@);
    let who = Actor::User(localpart);
    let wanted = m.right_name(contact);
    let ready = Task::EmailUser(EmailUser::Ready { contact, localpart });
    let named = Task::EmailUser(EmailUser::Named { contact_id, localpart, wanted });
    let renamed = Task::EmailUser(EmailUser::Renamed { contact_id, localpart });
    let unit = Reply::Got(Value::Unit);
    let (h1, n1): (Host, nat) = if contact_id == 1 {
        let own: RequestModel = Request::Delta(DeltaRequest::GetDisplayname);
        let own_named = Task::EmailUser(EmailUser::SelfNamed { contact_id, localpart });
        lemma_ask(ready, unit, caches, host, steps, own, own_named);
        lemma_ask(
            own_named,
            Reply::Got(Value::MaybeText(m.owner)),
            caches,
            performed(host, own),
            (steps - 1) as nat,
            asking_name(contact),
            named,
        );
        (performed(performed(host, own), asking_name(contact)), (steps - 2) as nat)
    } else {
        lemma_ask(ready, unit, caches, host, steps, asking_name(contact), named);
        (performed(host, asking_name(contact)), (steps - 1) as nat)
    };
    let name = Reply::Got(Value::MaybeText(m.name));
    let (h2, n2, task, reply) = if m.name == Some(wanted) {
        (h1, n1, named, name)
    } else {
        lemma_ask(named, name, caches, h1, n1, naming(who, wanted), renamed);
        (performed(h1, naming(who, wanted)), (n1 - 1) as nat, renamed, unit)
    };
    let done = run(ready, unit, caches, host, steps);
    assert(done == run(task, reply, caches, h2, n2));
    assert(h2.asked =~= host.asked + m.christening(contact));
    lemma_searched(m, contact, task, reply, caches, h2, n2);
    assert(m.search(h2) == m.search(host));
    assert(m.entry(contact, h2) == m.entry(contact, host));
    assert(h2.asked + (m.search(host) + m.entry(contact, host)) =~= host.asked + (m.christening(
        contact,
    ) + m.search(host) + m.entry(contact, host)));
}

/// To make the user of a contact ready is to register it, to call it as the contact is called, to
/// invite it to the control room, and to let it join. That it is registered already, and that it
/// cannot be invited or cannot join, does not matter. From then on the contact has this user.
pub proof fn law_user_is_made_ready(
    m: Meeting,
    contact: ContactInfo,
    refresh: bool,
    caches: Caches,
    host: Host,
    steps: nat,
)
    requires
        steps >= 16,
        refresh || !caches.clients.contains_key(contact.id),
        m.takes_place(contact, host),
    ensures
        start(Task::EmailUser(EmailUser::Start { contact, refresh }), caches, host, steps)
            == made_ready(
            contact,
            caches,
            having_asked(
                host,
                m.introduction(contact) + m.christening(contact) + m.search(host) + m.entry(
                    contact,
                    host,
                ),
            ),
        ),
{
    let localpart = localpart_of(contact.addr@);
    let begun = Task::EmailUser(EmailUser::Start { contact, refresh });
    let registered = Task::EmailUser(EmailUser::Registered { contact, localpart });
    let ready = Task::EmailUser(EmailUser::Ready { contact, localpart });
    let unit = Reply::Got(Value::Unit);
    lemma_ask(begun, Reply::Start, caches, host, steps, registering(contact), registered);
    let h1 = performed(host, registering(contact));
    let (h2, n2): (Host, nat) = match m.registration {
        Ok(_) => (h1, (steps - 1) as nat),
        Err(error) => {
            let line = logging(
                LogLevel::Debug,
                localpart + ": user already registered, ignoring error"@,
            );
            lemma_ask(
                registered,
                Reply::Failed(error),
                caches,
                h1,
                (steps - 1) as nat,
                line,
                registered,
            );
            (performed(h1, line), (steps - 2) as nat)
        },
    };
    lemma_ask(registered, unit, caches, h2, n2, acting(contact), ready);
    let h3 = performed(h2, acting(contact));
    assert(h3.asked =~= host.asked + m.introduction(contact));
    lemma_christened(m, contact, caches, h3, (n2 - 1) as nat);
    assert(m.search(h3) == m.search(host));
    assert(m.entry(contact, h3) == m.entry(contact, host));
    assert(h3.asked + (m.christening(contact) + m.search(host) + m.entry(contact, host))
        =~= host.asked + (m.introduction(contact) + m.christening(contact) + m.search(host)
        + m.entry(contact, host)));
}

}
