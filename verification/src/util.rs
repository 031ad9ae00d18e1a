//! How an e-mail address becomes a Matrix name, and how a bridged event is looked up.
use vstd::prelude::*;
use vstd::utf8::is_ascii_chars;

use crate::outside::{ascii_lower, lowercase_of};
use crate::protocol::{
    ask_matrix, matrix, Actor, MatrixRequest, Reply, ReplyModel, Step, StepModel, Value,
};
use crate::task::{Task, TaskModel};
use crate::text::{cut, split_once};

verus! {

/// A text in which each at sign is spelled out.
pub open spec fn at_spelled(s: Seq<char>) -> Seq<char>
    decreases s.len(),
    when true
    via at_spelled_decreases
{
    match split_once(s, '@') {
        Some((before, after)) => before + "_at_"@ + at_spelled(after),
        None => s,
    }
}

#[via_fn]
proof fn at_spelled_decreases(s: Seq<char>) {
    s.index_of_first_ensures('@');
}

/// The localpart of the Matrix user that stands for an e-mail address: the address in lower
/// case, with each at sign spelled out.
pub open spec fn localpart_of(addr: Seq<char>) -> Seq<char> {
    lowercase_of(at_spelled(addr))
}

/// The localpart for an address in ASCII: each at sign is spelled out, and each capital letter
/// becomes a small one.
pub open spec fn ascii_localpart(addr: Seq<char>) -> Seq<char> {
    at_spelled(addr).map_values(|c: char| ascii_lower(c))
}

/// Whether a text holds neither an at sign nor a capital letter of ASCII.
pub open spec fn is_plain(s: Seq<char>) -> bool {
    forall|i: int| 0 <= i < s.len() ==> #[trigger] s[i] != '@' && !('A' <= s[i] <= 'Z')
}

/// Finds the localpart of the Matrix user that stands for an e-mail address. It holds neither an
/// at sign nor a capital letter of ASCII, and it is its own localpart.
pub fn addr_to_localpart(addr: &str) -> (r: String)
    ensures
        r@ == localpart_of(addr@),
        is_ascii_chars(addr@) ==> r@ == ascii_localpart(addr@),
        is_plain(r@),
        localpart_of(r@) == r@,
{
    let mut spelled: String = "".to_owned();
    let mut rest: &str = addr;
    let mut more: bool = true;
    proof {
        reveal_strlit("");
        assert(spelled@ + at_spelled(rest@) =~= at_spelled(addr@));
        if is_ascii_chars(addr@) {
            lemma_at_spelled_ascii(addr@);
        }
    }
    while more
        invariant
            more ==> spelled@ + at_spelled(rest@) == at_spelled(addr@),
            !more ==> spelled@ == at_spelled(addr@),
        decreases (if more { 1int } else { 0int }), rest@.len(),
    {
        match cut(rest, '@') {
            Some(p) => {
                let ghost front = spelled@;
                spelled.append(p.0);
                spelled.append("_at_");
                proof {
                    rest@.index_of_first_ensures('@');
                    assert(spelled@ + at_spelled(p.1@) =~= front + (p.0@ + "_at_"@ + at_spelled(
                        p.1@,
                    )));
                }
                rest = p.1;
            },
            None => {
                spelled.append(rest);
                more = false;
            },
        }
    }
    let r: String = spelled.as_str().to_lowercase();
    proof {
        lemma_at_spelled_has_no_at(addr@);
        assert(!r@.contains('@'));
        assert forall|i: int| 0 <= i < r@.len() implies #[trigger] r@[i] != '@' && !('A' <= r@[i]
            <= 'Z') by {
            if r@[i] == '@' {
                assert(r@.contains('@'));
            }
        }
        lemma_without_at_is_spelled(r@);
    }
    r
}

proof fn lemma_at_spelled_ascii(s: Seq<char>)
    requires
        is_ascii_chars(s),
    ensures
        is_ascii_chars(at_spelled(s)),
    decreases s.len(),
{
    s.index_of_first_ensures('@');
    match split_once(s, '@') {
        Some((before, after)) => {
            lemma_at_spelled_ascii(after);
            reveal_strlit("_at_");
        },
        None => {},
    }
}

proof fn lemma_at_spelled_has_no_at(s: Seq<char>)
    ensures
        forall|i: int| 0 <= i < at_spelled(s).len() ==> at_spelled(s)[i] != '@',
    decreases s.len(),
{
    s.index_of_first_ensures('@');
    match split_once(s, '@') {
        Some((before, after)) => {
            lemma_at_spelled_has_no_at(after);
            reveal_strlit("_at_");
            assert forall|i: int| 0 <= i < at_spelled(s).len() implies at_spelled(s)[i] != '@' by {
                if i < before.len() {
                    assert(at_spelled(s)[i] == s[i]);
                } else if i < before.len() + 4 {
                    assert(at_spelled(s)[i] == "_at_"@[i - before.len()]);
                } else {
                    assert(at_spelled(s)[i] == at_spelled(after)[i - before.len() - 4]);
                }
            }
        },
        None => {
            assert forall|i: int| 0 <= i < s.len() implies s[i] != '@' by {
                if s[i] == '@' {
                    assert(s.contains('@'));
                }
            }
        },
    }
}

proof fn lemma_without_at_is_spelled(s: Seq<char>)
    requires
        forall|i: int| 0 <= i < s.len() ==> s[i] != '@',
    ensures
        at_spelled(s) == s,
{
    s.index_of_first_ensures('@');
}

proof fn lemma_at_spelled_joins(a: Seq<char>, b: Seq<char>)
    ensures
        at_spelled(a + b) == at_spelled(a) + at_spelled(b),
    decreases a.len(),
{
    let joined = a + b;
    a.index_of_first_ensures('@');
    joined.index_of_first_ensures('@');
    b.index_of_first_ensures('@');
    match split_once(a, '@') {
        Some((before, after)) => {
            let k = a.index_of_first('@').unwrap();
            assert(joined[k] == '@');
            assert(joined.contains('@'));
            assert(joined.index_of_first('@') == Some(k));
            assert(split_once(joined, '@') == Some((before, after + b))) by {
                let cut = split_once(joined, '@').unwrap();
                assert(cut.0 =~= before);
                assert(cut.1 =~= after + b);
            }
            lemma_at_spelled_joins(after, b);
            assert(at_spelled(joined) =~= at_spelled(a) + at_spelled(b));
        },
        None => {
            assert forall|i: int| 0 <= i < a.len() implies a[i] != '@' by {
                if a[i] == '@' {
                    assert(a.contains('@'));
                }
            }
            match split_once(b, '@') {
                Some((before, after)) => {
                    let k = b.index_of_first('@').unwrap();
                    assert(joined[a.len() + k] == '@');
                    assert(joined.contains('@'));
                    assert forall|i: int| 0 <= i < a.len() + k implies joined[i] != '@' by {
                        if i >= a.len() {
                            assert(joined[i] == b[i - a.len()]);
                        }
                    }
                    assert(joined.index_of_first('@') == Some(a.len() + k));
                    assert(split_once(joined, '@') == Some((a + before, after))) by {
                        let cut = split_once(joined, '@').unwrap();
                        assert(cut.0 =~= a + before);
                        assert(cut.1 =~= after);
                    }
                    assert(at_spelled(joined) =~= a + at_spelled(b));
                },
                None => {
                    assert forall|i: int| 0 <= i < joined.len() implies joined[i] != '@' by {
                        if i >= a.len() && joined[i] == '@' {
                            assert(b[i - a.len()] == '@');
                            assert(b.contains('@'));
                        }
                    }
                    lemma_without_at_is_spelled(joined);
                },
            }
        },
    }
}

/// The localpart of two ASCII texts that are joined is their two localparts joined.
pub proof fn law_localparts_join(a: Seq<char>, b: Seq<char>)
    requires
        is_ascii_chars(a),
        is_ascii_chars(b),
    ensures
        ascii_localpart(a + b) == ascii_localpart(a) + ascii_localpart(b),
{
    lemma_at_spelled_joins(a, b);
    assert(ascii_localpart(a + b) =~= ascii_localpart(a) + ascii_localpart(b));
}

/// The localpart of a single ASCII character: an at sign is spelled out, a capital letter becomes the
/// small one, and any other character stays.
pub proof fn law_localpart_of_a_character(c: char)
    requires
        is_ascii_chars(seq![c]),
    ensures
        ascii_localpart(seq![c]) == if c == '@' {
            "_at_"@
        } else if 'A' <= c <= 'Z' {
            seq![(c as u32 + 32) as char]
        } else {
            seq![c]
        },
{
    let s = seq![c];
    s.index_of_first_ensures('@');
    reveal_strlit("_at_");
    if c == '@' {
        assert(s[0] == '@');
        assert(s.contains('@'));
        assert(s.index_of_first('@') == Some(0int));
        assert(s.take(0) =~= Seq::<char>::empty());
        assert(s.skip(1) =~= Seq::<char>::empty());
        let none = Seq::<char>::empty();
        none.index_of_first_ensures('@');
        assert(at_spelled(none) == none);
        assert(at_spelled(s) =~= "_at_"@);
        assert(ascii_localpart(s) =~= "_at_"@);
    } else {
        lemma_without_at_is_spelled(s);
        if 'A' <= c <= 'Z' {
            assert(ascii_localpart(s) =~= seq![(c as u32 + 32) as char]);
        } else {
            assert(ascii_localpart(s) =~= s);
        }
    }
}

/// The localpart of an ASCII address holds neither an at sign nor a capital letter.
pub proof fn law_localpart_is_plain(addr: Seq<char>)
    requires
        is_ascii_chars(addr),
    ensures
        is_plain(ascii_localpart(addr)),
{
    lemma_at_spelled_ascii(addr);
    lemma_at_spelled_has_no_at(addr);
}

/// The localpart of an ASCII address is ASCII again, and it is its own localpart.
pub proof fn law_localpart_of_a_localpart_is_itself(addr: Seq<char>)
    requires
        is_ascii_chars(addr),
    ensures
        is_ascii_chars(ascii_localpart(addr)),
        ascii_localpart(ascii_localpart(addr)) == ascii_localpart(addr),
{
    let localpart = ascii_localpart(addr);
    lemma_at_spelled_ascii(addr);
    law_localpart_is_plain(addr);
    lemma_without_at_is_spelled(localpart);
    assert(ascii_localpart(localpart) =~= localpart);
}

/// How a bridged event is looked up.
#[derive(Debug, PartialEq, Eq)]
pub enum Lookup<T = String> {
    Fetch { who: Actor<T>, room_id: T, event_id: T },
    Fetched,
}

/// The same over mathematical text.
pub type LookupModel = Lookup<Seq<char>>;

impl View for Lookup {
    type V = LookupModel;

    open spec fn view(&self) -> LookupModel {
        match self {
            Lookup::Fetch { who, room_id, event_id } => Lookup::Fetch { who: who@, room_id: room_id@, event_id: event_id@ },
            Lookup::Fetched => Lookup::Fetched,
        }
    }
}

/// How a bridged event is looked up.
pub open spec fn lookup_next(s: LookupModel, reply: ReplyModel) -> StepModel {
    match (s, reply) {
        (Lookup::Fetch { who, room_id, event_id }, Reply::Start) => matrix(
            MatrixRequest::RoomEvent { who, room: room_id, event: event_id },
            Task::Lookup(Lookup::Fetched),
        ),
        (Lookup::Fetched, Reply::Got(Value::Event(event))) => Step::Return(Value::Event(event)),
        (Lookup::Fetched, Reply::Failed(error)) => Step::Raise(error),
        _ => Step::Mismatch,
    }
}

/// Goes on with looking up an event.
pub(crate) fn lookup_resume(s: Lookup, reply: Reply) -> (step: Step)
    ensures
        step@ == lookup_next(s@, reply@),
{
    match (s, reply) {
        (Lookup::Fetch { who, room_id, event_id }, Reply::Start) => ask_matrix(
            MatrixRequest::RoomEvent { who, room: room_id, event: event_id },
            Task::Lookup(Lookup::Fetched),
        ),
        (Lookup::Fetched, Reply::Got(Value::Event(event))) => Step::Return(Value::Event(event)),
        (Lookup::Fetched, Reply::Failed(error)) => Step::Raise(error),
        _ => Step::Mismatch,
    }
}

/// Looks up an event of a room; gives nothing where it is no bridged message.
pub fn get_delta_event(who: Actor, room_id: &str, event_id: &str) -> (t: Task)
    ensures
        t@ == TaskModel::Lookup(
            Lookup::Fetch { who: who@, room_id: room_id@, event_id: event_id@ },
        ),
{
    Task::Lookup(
        Lookup::Fetch { who, room_id: room_id.to_owned(), event_id: event_id.to_owned() },
    )
}

}
