//! What becomes of a task that is run to its end.
use vstd::prelude::*;

use crate::appservice::Caches;
use crate::protocol::{
    DeltaRequest, HostRequest, Reply, ReplyModel, Request, RequestModel, Step, Value, ValueModel,
};
use crate::task::{next, TaskModel};

verus! {

/// What surrounds the bridge: the configuration that is kept for it, what the core remembers for
/// it, a log that takes every line, and whatever answers its other requests. An answer may depend
/// on all that was asked before.
pub struct Host {
    pub settings: Map<Seq<char>, Seq<char>>,
    pub remembered: Map<Seq<char>, Seq<char>>,
    pub asked: Seq<RequestModel>,
    pub others: spec_fn(Seq<RequestModel>, RequestModel) -> ReplyModel,
}

/// What is kept under a key.
pub open spec fn kept(settings: Map<Seq<char>, Seq<char>>, key: Seq<char>) -> Option<Seq<char>> {
    if settings.contains_key(key) {
        Some(settings[key])
    } else {
        None
    }
}

/// What is kept once something was written or removed.
pub open spec fn written(
    settings: Map<Seq<char>, Seq<char>>,
    key: Seq<char>,
    value: Option<Seq<char>>,
) -> Map<Seq<char>, Seq<char>> {
    match value {
        Some(text) => settings.insert(key, text),
        None => settings.remove(key),
    }
}

/// The reply to a request.
pub open spec fn reply_to(host: Host, request: RequestModel) -> ReplyModel {
    match request {
        Request::Delta(DeltaRequest::UiGet { key }) => Reply::Got(
            Value::MaybeText(kept(host.settings, key)),
        ),
        Request::Delta(DeltaRequest::UiSet { .. }) => Reply::Got(Value::Unit),
        Request::Delta(DeltaRequest::RawGet { key }) => Reply::Got(
            Value::MaybeText(kept(host.remembered, key)),
        ),
        Request::Delta(DeltaRequest::RawSet { .. }) => Reply::Got(Value::Unit),
        Request::Host(HostRequest::Log { .. }) => Reply::Got(Value::Unit),
        _ => (host.others)(host.asked, request),
    }
}

/// The surroundings once a request was performed.
pub open spec fn performed(host: Host, request: RequestModel) -> Host {
    Host {
        settings: match request {
            Request::Delta(DeltaRequest::UiSet { key, value }) => written(
                host.settings,
                key,
                value,
            ),
            _ => host.settings,
        },
        remembered: match request {
            Request::Delta(DeltaRequest::RawSet { key, value }) => host.remembered.insert(
                key,
                value,
            ),
            _ => host.remembered,
        },
        asked: host.asked.push(request),
        ..host
    }
}

/// A request always gets the same reply.
pub open spec fn answers(host: Host, request: RequestModel, reply: ReplyModel) -> bool {
    forall|asked: Seq<RequestModel>| #[trigger] (host.others)(asked, request) == reply
}

/// How a task ends.
pub enum End {
    Return(ValueModel),
    Raise(Seq<char>),
    Panic(Seq<char>),
    Mismatch,
    /// It has not ended yet.
    Unfinished,
}

/// What a task leaves behind.
pub struct Run {
    pub end: End,
    pub caches: Caches,
    pub host: Host,
}

/// Runs a task from where it waits for a reply, for at most so many steps in a row.
pub open spec fn run(
    task: TaskModel,
    reply: ReplyModel,
    caches: Caches,
    host: Host,
    steps: nat,
) -> Run
    decreases steps,
{
    if steps == 0 {
        Run { end: End::Unfinished, caches, host }
    } else {
        let (caches, step) = next(task, reply, caches);
        let left = (steps - 1) as nat;
        match step {
            Step::Perform(request, task) => run(
                task,
                reply_to(host, request),
                caches,
                performed(host, request),
                left,
            ),
            Step::Call(callee, task) => {
                let called = run(callee, Reply::Start, caches, host, left);
                match called.end {
                    End::Return(value) => run(
                        task,
                        Reply::Got(value),
                        called.caches,
                        called.host,
                        left,
                    ),
                    End::Raise(error) => run(
                        task,
                        Reply::Failed(error),
                        called.caches,
                        called.host,
                        left,
                    ),
                    _ => called,
                }
            },
            Step::Return(value) => Run { end: End::Return(value), caches, host },
            Step::Raise(error) => Run { end: End::Raise(error), caches, host },
            Step::Panic(error) => Run { end: End::Panic(error), caches, host },
            Step::Mismatch => Run { end: End::Mismatch, caches, host },
        }
    }
}

/// Runs a task from its start.
pub open spec fn start(task: TaskModel, caches: Caches, host: Host, steps: nat) -> Run {
    run(task, Reply::Start, caches, host, steps)
}

/// A task that has ended within some steps ends the same way within more.
pub proof fn law_more_steps_change_nothing(
    task: TaskModel,
    reply: ReplyModel,
    caches: Caches,
    host: Host,
    few: nat,
    many: nat,
)
    requires
        few <= many,
        run(task, reply, caches, host, few).end !is Unfinished,
    ensures
        run(task, reply, caches, host, many) == run(task, reply, caches, host, few),
    decreases few,
{
    if few > 0 {
        let (c, step) = next(task, reply, caches);
        let few1 = (few - 1) as nat;
        let many1 = (many - 1) as nat;
        match step {
            Step::Perform(request, task) => {
                law_more_steps_change_nothing(
                    task,
                    reply_to(host, request),
                    c,
                    performed(host, request),
                    few1,
                    many1,
                );
            },
            Step::Call(callee, task) => {
                let called = run(callee, Reply::Start, c, host, few1);
                law_more_steps_change_nothing(callee, Reply::Start, c, host, few1, many1);
                match called.end {
                    End::Return(value) => {
                        law_more_steps_change_nothing(
                            task,
                            Reply::Got(value),
                            called.caches,
                            called.host,
                            few1,
                            many1,
                        );
                    },
                    End::Raise(error) => {
                        law_more_steps_change_nothing(
                            task,
                            Reply::Failed(error),
                            called.caches,
                            called.host,
                            few1,
                            many1,
                        );
                    },
                    _ => {},
                }
            },
            _ => {},
        }
    }
}

/// A task that asks for something goes on with the reply.
pub proof fn lemma_ask(
    task: TaskModel,
    reply: ReplyModel,
    caches: Caches,
    host: Host,
    steps: nat,
    request: RequestModel,
    then: TaskModel,
)
    requires
        steps > 0,
        next(task, reply, caches) == (caches, Step::Perform(request, then)),
    ensures
        run(task, reply, caches, host, steps) == run(
            then,
            reply_to(host, request),
            caches,
            performed(host, request),
            (steps - 1) as nat,
        ),
{
}

/// The bridge forgets no user and no event: what is in its caches stays there, though it may be
/// replaced.
pub proof fn law_step_forgets_nothing(task: TaskModel, reply: ReplyModel, caches: Caches)
    ensures
        caches.clients.dom().subset_of(next(task, reply, caches).0.clients.dom()),
        caches.events.dom().subset_of(next(task, reply, caches).0.events.dom()),
{
    reveal(next);
}

/// However long a task runs, what is in the caches stays there, though it may be replaced.
pub proof fn law_run_forgets_nothing(
    task: TaskModel,
    reply: ReplyModel,
    caches: Caches,
    host: Host,
    steps: nat,
)
    ensures
        caches.clients.dom().subset_of(run(task, reply, caches, host, steps).caches.clients.dom()),
        caches.events.dom().subset_of(run(task, reply, caches, host, steps).caches.events.dom()),
    decreases steps,
{
    if steps > 0 {
        law_step_forgets_nothing(task, reply, caches);
        let (c, step) = next(task, reply, caches);
        let left = (steps - 1) as nat;
        match step {
            Step::Perform(request, task) => {
                law_run_forgets_nothing(
                    task,
                    reply_to(host, request),
                    c,
                    performed(host, request),
                    left,
                );
            },
            Step::Call(callee, task) => {
                let called = run(callee, Reply::Start, c, host, left);
                law_run_forgets_nothing(callee, Reply::Start, c, host, left);
                match called.end {
                    End::Return(value) => {
                        law_run_forgets_nothing(
                            task,
                            Reply::Got(value),
                            called.caches,
                            called.host,
                            left,
                        );
                    },
                    End::Raise(error) => {
                        law_run_forgets_nothing(
                            task,
                            Reply::Failed(error),
                            called.caches,
                            called.host,
                            left,
                        );
                    },
                    _ => {},
                }
            },
            _ => {},
        }
    }
}

/// What was asked before a run is the beginning of what was asked after it.
pub proof fn lemma_asked_grows(
    task: TaskModel,
    reply: ReplyModel,
    caches: Caches,
    host: Host,
    steps: nat,
)
    ensures
        host.asked.is_prefix_of(run(task, reply, caches, host, steps).host.asked),
    decreases steps,
{
    if steps > 0 {
        let (c, step) = next(task, reply, caches);
        let left = (steps - 1) as nat;
        match step {
            Step::Perform(request, task) => {
                let then = performed(host, request);
                lemma_asked_grows(task, reply_to(host, request), c, then, left);
                assert(host.asked.is_prefix_of(then.asked));
            },
            Step::Call(callee, task) => {
                let called = run(callee, Reply::Start, c, host, left);
                lemma_asked_grows(callee, Reply::Start, c, host, left);
                match called.end {
                    End::Return(value) => {
                        lemma_asked_grows(
                            task,
                            Reply::Got(value),
                            called.caches,
                            called.host,
                            left,
                        );
                    },
                    End::Raise(error) => {
                        lemma_asked_grows(
                            task,
                            Reply::Failed(error),
                            called.caches,
                            called.host,
                            left,
                        );
                    },
                    _ => {},
                }
            },
            _ => {},
        }
    }
}

/// Whatever answers the requests stays the same in a run.
pub proof fn lemma_others_stay(
    task: TaskModel,
    reply: ReplyModel,
    caches: Caches,
    host: Host,
    steps: nat,
)
    ensures
        run(task, reply, caches, host, steps).host.others == host.others,
    decreases steps,
{
    if steps > 0 {
        let (c, step) = next(task, reply, caches);
        let left = (steps - 1) as nat;
        match step {
            Step::Perform(request, task) => {
                lemma_others_stay(
                    task,
                    reply_to(host, request),
                    c,
                    performed(host, request),
                    left,
                );
            },
            Step::Call(callee, task) => {
                let called = run(callee, Reply::Start, c, host, left);
                lemma_others_stay(callee, Reply::Start, c, host, left);
                match called.end {
                    End::Return(value) => {
                        lemma_others_stay(
                            task,
                            Reply::Got(value),
                            called.caches,
                            called.host,
                            left,
                        );
                    },
                    End::Raise(error) => {
                        lemma_others_stay(
                            task,
                            Reply::Failed(error),
                            called.caches,
                            called.host,
                            left,
                        );
                    },
                    _ => {},
                }
            },
            _ => {},
        }
    }
}

/// No answer depends on what was asked before, but for what is kept and remembered.
pub open spec fn is_steady(host: Host) -> bool {
    forall|a: Seq<RequestModel>, b: Seq<RequestModel>, request: RequestModel|
        #![trigger (host.others)(a, request), (host.others)(b, request)]
        (host.others)(a, request) == (host.others)(b, request)
}

/// Two surroundings that differ only in what was asked before.
pub open spec fn are_alike(a: Host, b: Host) -> bool {
    a.settings == b.settings && a.remembered == b.remembered && a.others == b.others
}

/// In surroundings whose answers do not depend on what was asked before, a task does the same
/// whatever was asked before. What it asks for is handed back.
pub proof fn law_history_does_not_matter(
    task: TaskModel,
    reply: ReplyModel,
    caches: Caches,
    host: Host,
    other: Host,
    steps: nat,
) -> (asked: Seq<RequestModel>)
    requires
        is_steady(host),
        are_alike(host, other),
    ensures
        ({
            let a = run(task, reply, caches, host, steps);
            let b = run(task, reply, caches, other, steps);
            &&& a.end == b.end
            &&& a.caches == b.caches
            &&& are_alike(a.host, b.host)
            &&& a.host.asked == host.asked + asked
            &&& b.host.asked == other.asked + asked
        }),
    decreases steps,
{
    if steps == 0 {
        seq![]
    } else {
        let (c, step) = next(task, reply, caches);
        let left = (steps - 1) as nat;
        match step {
            Step::Perform(request, task) => {
                let h = performed(host, request);
                let o = performed(other, request);
                assert((host.others)(host.asked, request) == (host.others)(
                    other.asked,
                    request,
                ));
                let asked = law_history_does_not_matter(
                    task,
                    reply_to(host, request),
                    c,
                    h,
                    o,
                    left,
                );
                assert(h.asked + asked =~= host.asked + (seq![request] + asked));
                assert(o.asked + asked =~= other.asked + (seq![request] + asked));
                seq![request] + asked
            },
            Step::Call(callee, task) => {
                let first = law_history_does_not_matter(
                    callee,
                    Reply::Start,
                    c,
                    host,
                    other,
                    left,
                );
                let h = run(callee, Reply::Start, c, host, left);
                let o = run(callee, Reply::Start, c, other, left);
                lemma_others_stay(callee, Reply::Start, c, host, left);
                match h.end {
                    End::Return(value) => {
                        let asked = law_history_does_not_matter(
                            task,
                            Reply::Got(value),
                            h.caches,
                            h.host,
                            o.host,
                            left,
                        );
                        assert(h.host.asked + asked =~= host.asked + (first + asked));
                        assert(o.host.asked + asked =~= other.asked + (first + asked));
                        first + asked
                    },
                    End::Raise(error) => {
                        let asked = law_history_does_not_matter(
                            task,
                            Reply::Failed(error),
                            h.caches,
                            h.host,
                            o.host,
                            left,
                        );
                        assert(h.host.asked + asked =~= host.asked + (first + asked));
                        assert(o.host.asked + asked =~= other.asked + (first + asked));
                        first + asked
                    },
                    _ => first,
                }
            },
            _ => {
                assert(host.asked + Seq::<RequestModel>::empty() =~= host.asked);
                assert(other.asked + Seq::<RequestModel>::empty() =~= other.asked);
                seq![]
            },
        }
    }
}

}
