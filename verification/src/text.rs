//! Text as a sequence of characters: comparing, splitting, trimming and joining.
use vstd::prelude::*;

verus! {

/// The text inside an optional string.
pub open spec fn opt_text(o: Option<String>) -> Option<Seq<char>> {
    match o {
        Some(s) => Some(s@),
        None => None,
    }
}

/// The texts of a list of strings, in order.
pub open spec fn texts(v: Seq<String>) -> Seq<Seq<char>> {
    v.map_values(|s: String| s@)
}

/// The text inside, or the empty text.
pub open spec fn or_empty(o: Option<String>) -> Seq<char> {
    match o {
        Some(s) => s@,
        None => ""@,
    }
}

/// Whether two texts hold the same characters.
pub fn same(a: &str, b: &str) -> (r: bool)
    ensures
        r == (a@ == b@),
{
    a.to_owned() == b.to_owned()
}

/// A copy of an optional string.
pub fn dup(o: &Option<String>) -> (r: Option<String>)
    ensures
        r == *o,
{
    match o {
        Some(s) => Some(s.clone()),
        None => None,
    }
}

/// Whether an optional string holds exactly this text.
pub fn holds(o: &Option<String>, text: &str) -> (r: bool)
    ensures
        r == (opt_text(*o) == Some(text@)),
{
    match o {
        Some(s) => same(s.as_str(), text),
        None => false,
    }
}

/// A list with one more string at its end.
pub fn pushed(v: Vec<String>, s: String) -> (r: Vec<String>)
    ensures
        texts(r@) == texts(v@).push(s@),
{
    let mut r: Vec<String> = v;
    let ghost before = r@;
    r.push(s);
    proof {
        assert(texts(r@) =~= texts(before).push(s@));
    }
    r
}

/// Two texts, one after the other.
pub fn join2(a: &str, b: &str) -> (r: String)
    ensures
        r@ == a@ + b@,
{
    let mut r: String = a.to_owned();
    r.append(b);
    r
}

/// Three texts, one after the other.
pub fn join3(a: &str, b: &str, c: &str) -> (r: String)
    ensures
        r@ == a@ + b@ + c@,
{
    let mut r: String = a.to_owned();
    r.append(b);
    r.append(c);
    r
}

/// The characters of a text, one by one.
pub fn chars_of(s: &str) -> (r: Vec<char>)
    ensures
        r@ == s@,
{
    let mut r: Vec<char> = Vec::new();
    for c in it: s.chars()
        invariant
            it.seq() == s@,
            r@ == s@.take(it.index() as int),
    {
        r.push(c);
        proof {
            assert(s@.take(it.index() as int).push(c) =~= s@.take(it.index() + 1));
        }
    }
    proof {
        assert(s@.take(s@.len() as int) =~= s@);
    }
    r
}

/// What stands before and after the first `c` of a text, if there is one.
pub open spec fn split_once(s: Seq<char>, c: char) -> Option<(Seq<char>, Seq<char>)> {
    match s.index_of_first(c) {
        Some(k) => Some((s.take(k), s.skip(k + 1))),
        None => None,
    }
}

proof fn lemma_split_at(s: Seq<char>, c: char, k: int)
    requires
        0 <= k < s.len(),
        s[k] == c,
        forall|j: int| 0 <= j < k ==> s[j] != c,
    ensures
        s.index_of_first(c) == Some(k),
{
    s.index_of_first_ensures(c);
    assert(s.contains(s[k]));
}

/// Splits a text at the first `c`: the text before it and the text after it.
pub fn cut<'a>(s: &'a str, c: char) -> (r: Option<(&'a str, &'a str)>)
    ensures
        match r {
            Some(p) => split_once(s@, c) == Some((p.0@, p.1@)),
            None => split_once(s@, c) is None,
        },
{
    let chars: Vec<char> = chars_of(s);
    let n: usize = chars.len();
    let mut k: usize = 0;
    while k < n
        invariant
            chars@ == s@,
            n == s@.len(),
            k <= n,
            forall|j: int| 0 <= j < k ==> s@[j] != c,
        decreases n - k,
    {
        if chars[k] == c {
            let before = s.substring_char(0, k);
            let after = s.substring_char(k + 1, n);
            proof {
                lemma_split_at(s@, c, k as int);
                assert(s@.take(k as int) =~= s@.subrange(0, k as int));
                assert(s@.skip(k + 1) =~= s@.subrange(k + 1, n as int));
            }
            return Some((before, after));
        }
        k = k + 1;
    }
    proof {
        s@.index_of_first_ensures(c);
    }
    None
}

/// The first word of a line.
pub open spec fn first_word(line: Seq<char>) -> Seq<char> {
    match split_once(line, ' ') {
        Some((word, _)) => word,
        None => line,
    }
}

/// What follows the first word and the space behind it; empty where there is no space.
pub open spec fn after_first_word(line: Seq<char>) -> Seq<char> {
    match split_once(line, ' ') {
        Some((_, rest)) => rest,
        None => ""@,
    }
}

/// Splits a line into its first word and the rest.
pub fn split_word<'a>(line: &'a str) -> (r: (&'a str, &'a str))
    ensures
        r.0@ == first_word(line@),
        r.1@ == after_first_word(line@),
{
    match cut(line, ' ') {
        Some(p) => p,
        None => (line, ""),
    }
}

/// Splitting off the first word loses nothing but the one space between the two parts, and
/// the first word holds no space.
pub proof fn law_split_word_loses_nothing(line: Seq<char>)
    ensures
        line.contains(' ') ==> line == first_word(line) + seq![' '] + after_first_word(line),
        !line.contains(' ') ==> first_word(line) == line && after_first_word(line).len() == 0,
        !first_word(line).contains(' '),
{
    line.index_of_first_ensures(' ');
    reveal_strlit("");
    if line.contains(' ') {
        let k = line.index_of_first(' ').unwrap();
        assert(line =~= line.take(k) + seq![' '] + line.skip(k + 1));
    }
}

/// Whether a text ends in a given text.
pub open spec fn ends_in(s: Seq<char>, tail: Seq<char>) -> bool {
    tail.len() <= s.len() && s.skip(s.len() - tail.len()) == tail
}

/// Tests how a text ends.
pub fn ends_with(s: &str, tail: &str) -> (r: bool)
    ensures
        r == ends_in(s@, tail@),
{
    let n: usize = s.unicode_len();
    let m: usize = tail.unicode_len();
    if m > n {
        return false;
    }
    let end = s.substring_char(n - m, n);
    proof {
        assert(s@.skip(s@.len() - tail@.len()) =~= s@.subrange(n - m, n as int));
    }
    same(end, tail)
}

/// The characters of Unicode's White_Space property.
pub open spec fn is_space(c: char) -> bool {
    ||| '\u{9}' <= c <= '\u{d}'
    ||| c == ' '
    ||| c == '\u{85}'
    ||| c == '\u{a0}'
    ||| c == '\u{1680}'
    ||| '\u{2000}' <= c <= '\u{200a}'
    ||| c == '\u{2028}'
    ||| c == '\u{2029}'
    ||| c == '\u{202f}'
    ||| c == '\u{205f}'
    ||| c == '\u{3000}'
}

/// Tests a character for Unicode's White_Space property.
pub fn is_white(c: char) -> (r: bool)
    ensures
        r == is_space(c),
{
    ('\u{9}' <= c && c <= '\u{d}') || c == ' ' || c == '\u{85}' || c == '\u{a0}' || c == '\u{1680}'
        || ('\u{2000}' <= c && c <= '\u{200a}') || c == '\u{2028}' || c == '\u{2029}' || c
        == '\u{202f}' || c == '\u{205f}' || c == '\u{3000}'
}

/// A text without the white space that it starts with.
pub open spec fn without_leading_space(s: Seq<char>) -> Seq<char>
    decreases s.len(),
{
    if s.len() > 0 && is_space(s[0]) {
        without_leading_space(s.skip(1))
    } else {
        s
    }
}

/// Removes the white space at the start of a text.
pub fn trim_start<'a>(s: &'a str) -> (r: &'a str)
    ensures
        r@ == without_leading_space(s@),
{
    let chars: Vec<char> = chars_of(s);
    let n: usize = chars.len();
    let mut k: usize = 0;
    proof {
        assert(s@.skip(0) =~= s@);
    }
    while k < n
        invariant
            chars@ == s@,
            n == s@.len(),
            k <= n,
            without_leading_space(s@) == without_leading_space(s@.skip(k as int)),
        decreases n - k,
    {
        if !is_white(chars[k]) {
            proof {
                assert(s@.skip(k as int) =~= s@.subrange(k as int, n as int));
            }
            return s.substring_char(k, n);
        }
        proof {
            assert(s@.skip(k as int).skip(1) =~= s@.skip(k + 1));
        }
        k = k + 1;
    }
    proof {
        assert(s@.skip(n as int) =~= s@.subrange(n as int, n as int));
    }
    s.substring_char(n, n)
}

/// A line without the carriage return that stood before its line feed.
pub open spec fn without_return(line: Seq<char>) -> Seq<char> {
    if line.len() > 0 && line.last() == '\r' {
        line.drop_last()
    } else {
        line
    }
}

/// The lines of a text. A line ends at a line feed, which a carriage return may precede;
/// the line feed of the last line may be missing.
pub open spec fn lines(s: Seq<char>) -> Seq<Seq<char>>
    decreases s.len(),
    when true
    via lines_decreases
{
    if s.len() == 0 {
        seq![]
    } else {
        match split_once(s, '\n') {
            Some((line, rest)) => seq![without_return(line)] + lines(rest),
            None => seq![s],
        }
    }
}

#[via_fn]
proof fn lines_decreases(s: Seq<char>) {
    s.index_of_first_ensures('\n');
}

/// Splits a text into its lines.
pub fn lines_of(s: &str) -> (r: Vec<String>)
    ensures
        texts(r@) == lines(s@),
{
    let mut r: Vec<String> = Vec::new();
    let mut rest: &str = s;
    proof {
        assert(texts(r@) + lines(rest@) =~= lines(s@));
    }
    while !rest.is_empty()
        invariant
            texts(r@) + lines(rest@) == lines(s@),
        decreases rest@.len(),
    {
        let ghost done = texts(r@);
        match cut(rest, '\n') {
            Some(p) => {
                let line = p.0;
                let n: usize = line.unicode_len();
                let kept: &str = if n > 0 && line.get_char(n - 1) == '\r' {
                    line.substring_char(0, n - 1)
                } else {
                    line
                };
                r.push(kept.to_owned());
                proof {
                    rest@.index_of_first_ensures('\n');
                    assert(kept@ =~= without_return(line@));
                    assert(texts(r@) =~= done.push(kept@));
                    assert(texts(r@) + lines(p.1@) =~= done + (seq![kept@] + lines(p.1@)));
                }
                rest = p.1;
            },
            None => {
                r.push(rest.to_owned());
                proof {
                    assert(texts(r@) =~= done + seq![rest@]);
                    assert(lines(""@) =~= seq![]) by {
                        reveal_strlit("");
                    }
                    assert(texts(r@) + lines(""@) =~= lines(s@));
                    reveal_strlit("");
                }
                rest = "";
            },
        }
    }
    proof {
        assert(texts(r@) =~= texts(r@) + lines(rest@));
    }
    r
}

/// Lines joined by a separator that stands between each two of them.
pub open spec fn joined(ls: Seq<Seq<char>>, separator: Seq<char>) -> Seq<char>
    decreases ls.len(),
{
    if ls.len() == 0 {
        ""@
    } else if ls.len() == 1 {
        ls[0]
    } else {
        joined(ls.drop_last(), separator) + separator + ls.last()
    }
}

/// Of no texts comes no text, of one comes that one, and one more stands behind the others, with the
/// separator before it.
pub proof fn law_separator_stands_between(ls: Seq<Seq<char>>, one: Seq<char>, separator: Seq<char>)
    ensures
        joined(seq![], separator) == ""@,
        joined(seq![one], separator) == one,
        ls.len() > 0 ==> joined(ls.push(one), separator) == joined(ls, separator) + separator + one,
{
    assert(ls.push(one).drop_last() =~= ls);
}

/// Joins texts with a separator between each two of them.
pub fn join(parts: &Vec<String>, separator: &str) -> (r: String)
    ensures
        r@ == joined(texts(parts@), separator@),
{
    let mut r: String = "".to_owned();
    let ghost all = texts(parts@);
    let mut i: usize = 0;
    while i < parts.len()
        invariant
            all == texts(parts@),
            i <= parts.len(),
            r@ == joined(all.take(i as int), separator@),
        decreases parts.len() - i,
    {
        proof {
            assert(all.take(i + 1).drop_last() =~= all.take(i as int));
            assert(all.take(i + 1).last() == parts[i as int]@);
        }
        if i == 0 {
            r = parts[i].clone();
        } else {
            r.append(separator);
            r.append(parts[i].as_str());
        }
        i = i + 1;
    }
    proof {
        assert(all.take(i as int) =~= all);
    }
    r
}

/// Whether a line is a quotation of an earlier message.
pub open spec fn is_quoted(line: Seq<char>) -> bool {
    line.len() > 0 && line[0] == '>'
}

/// The lines of a text that are no quotations, in order.
pub open spec fn unquoted_lines(s: Seq<char>) -> Seq<Seq<char>> {
    lines(s).filter(|line: Seq<char>| !is_quoted(line))
}

/// What a reply says by itself: its lines without the quoted ones, and without the white
/// space that is then left at the start.
pub open spec fn own_words(s: Seq<char>) -> Seq<char> {
    without_leading_space(joined(unquoted_lines(s), "\n"@))
}

/// Strips the quotation off a reply.
pub fn strip_quotation(s: &str) -> (r: String)
    ensures
        r@ == own_words(s@),
{
    let all: Vec<String> = lines_of(s);
    let mut kept: Vec<String> = Vec::new();
    let ghost own = |line: Seq<char>| !is_quoted(line);
    let mut i: usize = 0;
    proof {
        reveal(Seq::filter);
        assert(texts(kept@) =~= texts(all@).take(0).filter(own));
    }
    while i < all.len()
        invariant
            own == (|line: Seq<char>| !is_quoted(line)),
            i <= all.len(),
            texts(kept@) == texts(all@).take(i as int).filter(own),
        decreases all.len() - i,
    {
        let line: &str = all[i].as_str();
        let ghost before = texts(kept@);
        proof {
            reveal(Seq::filter);
            assert(texts(all@).take(i + 1).drop_last() =~= texts(all@).take(i as int));
            assert(texts(all@).take(i + 1).last() == line@);
        }
        if line.unicode_len() == 0 || line.get_char(0) != '>' {
            kept.push(all[i].clone());
            proof {
                assert(texts(kept@) =~= before.push(line@));
            }
        }
        i = i + 1;
    }
    proof {
        assert(texts(all@).take(i as int) =~= texts(all@));
    }
    let whole: String = join(&kept, "\n");
    trim_start(whole.as_str()).to_owned()
}

/// The first word of a line is what stands before its first space, and what follows is all that
/// stands behind it.
pub proof fn law_words_end_at_the_first_space(word: Seq<char>, rest: Seq<char>)
    requires
        !word.contains(' '),
    ensures
        first_word(word + seq![' '] + rest) == word,
        after_first_word(word + seq![' '] + rest) == rest,
        first_word(word) == word,
        after_first_word(word).len() == 0,
{
    let line = word + seq![' '] + rest;
    let k = word.len() as int;
    assert(line[k] == ' ');
    assert forall|j: int| 0 <= j < k implies line[j] != ' ' by {
        if line[j] == ' ' {
            assert(word[j] == ' ');
        }
    }
    lemma_split_at(line, ' ', k);
    assert(line.take(k) =~= word);
    assert(line.skip(k + 1) =~= rest);
    word.index_of_first_ensures(' ');
    reveal_strlit("");
}

/// Lines put one behind the other, with a line feed between each two.
pub open spec fn stacked(ls: Seq<Seq<char>>) -> Seq<char>
    decreases ls.len(),
{
    if ls.len() == 0 {
        seq![]
    } else if ls.len() == 1 {
        ls[0]
    } else {
        ls[0] + seq!['\n'] + stacked(ls.skip(1))
    }
}

/// Whether the last character of a line is a carriage return.
pub open spec fn ends_in_return(line: Seq<char>) -> bool {
    line.len() > 0 && line.last() == '\r'
}

/// Whether texts can be the lines of a text: none holds a line feed or ends in a carriage return, and
/// the last one is not empty.
pub open spec fn are_lines(ls: Seq<Seq<char>>) -> bool {
    &&& forall|i: int|
        0 <= i < ls.len() ==> !(#[trigger] ls[i]).contains('\n') && !ends_in_return(ls[i])
    &&& ls.len() > 0 ==> ls.last().len() > 0
}

proof fn lemma_lines_of_stack(ls: Seq<Seq<char>>)
    requires
        are_lines(ls),
    ensures
        lines(stacked(ls)) == ls,
        ls.len() > 0 ==> stacked(ls).len() > 0,
    decreases ls.len(),
{
    if ls.len() == 1 {
        let line = ls[0];
        line.index_of_first_ensures('\n');
        assert(lines(line) =~= ls);
    } else if ls.len() > 1 {
        let line = ls[0];
        let rest = ls.skip(1);
        let s = stacked(ls);
        let k = line.len() as int;
        assert forall|i: int| 0 <= i < rest.len() implies !(#[trigger] rest[i]).contains('\n')
            && !ends_in_return(rest[i]) by {
            assert(rest[i] == ls[i + 1]);
        }
        lemma_lines_of_stack(rest);
        assert(s[k] == '\n');
        assert forall|j: int| 0 <= j < k implies s[j] != '\n' by {
            if s[j] == '\n' {
                assert(line[j] == '\n');
            }
        }
        lemma_split_at(s, '\n', k);
        assert(s.take(k) =~= line);
        assert(s.skip(k + 1) =~= stacked(rest));
        assert(lines(s) =~= seq![line] + rest);
        assert(seq![line] + rest =~= ls);
    }
}

/// Lines put one behind the other, each with an end.
pub open spec fn ended(ls: Seq<Seq<char>>, end: Seq<char>) -> Seq<char>
    decreases ls.len(),
{
    if ls.len() == 0 {
        seq![]
    } else {
        ls[0] + end + ended(ls.skip(1), end)
    }
}

/// A line ends at a line feed, with a carriage return before it or without, and neither is part of
/// the line; it does not matter that the last line ends so too.
pub proof fn law_ends_of_lines_are_left_out(ls: Seq<Seq<char>>)
    requires
        forall|i: int|
            0 <= i < ls.len() ==> !(#[trigger] ls[i]).contains('\n') && !ends_in_return(ls[i]),
    ensures
        lines(ended(ls, seq!['\n'])) == ls,
        lines(ended(ls, seq!['\r', '\n'])) == ls,
    decreases ls.len(),
{
    if ls.len() > 0 {
        let line = ls[0];
        let rest = ls.skip(1);
        let k = line.len() as int;
        assert forall|i: int| 0 <= i < rest.len() implies !(#[trigger] rest[i]).contains('\n')
            && !ends_in_return(rest[i]) by {
            assert(rest[i] == ls[i + 1]);
        }
        law_ends_of_lines_are_left_out(rest);
        assert forall|j: int| 0 <= j < k implies line[j] != '\n' by {
            if line[j] == '\n' {
                assert(line.contains('\n'));
            }
        }
        let fed = ended(ls, seq!['\n']);
        assert(fed[k] == '\n');
        lemma_split_at(fed, '\n', k);
        assert(fed.take(k) =~= line);
        assert(fed.skip(k + 1) =~= ended(rest, seq!['\n']));
        assert(lines(fed) =~= seq![line] + rest);
        let returned = ended(ls, seq!['\r', '\n']);
        assert(returned[k] == '\r');
        assert(returned[k + 1] == '\n');
        assert forall|j: int| 0 <= j < k + 1 implies returned[j] != '\n' by {
            if j < k {
                assert(returned[j] == line[j]);
            }
        }
        lemma_split_at(returned, '\n', k + 1);
        assert(returned.take(k + 1) =~= line.push('\r'));
        assert(line.push('\r').drop_last() =~= line);
        assert(returned.skip(k + 2) =~= ended(rest, seq!['\r', '\n']));
        assert(lines(returned) =~= seq![line] + rest);
        assert(seq![line] + rest =~= ls);
    }
}

/// The characters that count as white space: the blank, those that tabulate and end lines, and all
/// blanks of other widths.
pub proof fn law_white_space_is_blanks_and_line_ends(c: char)
    ensures
        is_space(c) <==> seq![
            ' ', '\t', '\n', '\u{b}', '\u{c}', '\r', '\u{85}', '\u{a0}', '\u{1680}', '\u{2000}',
            '\u{2001}', '\u{2002}', '\u{2003}', '\u{2004}', '\u{2005}', '\u{2006}', '\u{2007}',
            '\u{2008}', '\u{2009}', '\u{200a}', '\u{2028}', '\u{2029}', '\u{202f}', '\u{205f}',
            '\u{3000}',
        ].contains(c),
{
    let all = seq![
        ' ', '\t', '\n', '\u{b}', '\u{c}', '\r', '\u{85}', '\u{a0}', '\u{1680}', '\u{2000}',
        '\u{2001}', '\u{2002}', '\u{2003}', '\u{2004}', '\u{2005}', '\u{2006}', '\u{2007}',
        '\u{2008}', '\u{2009}', '\u{200a}', '\u{2028}', '\u{2029}', '\u{202f}', '\u{205f}',
        '\u{3000}',
    ];
    if is_space(c) {
        let n: int = c as int;
        let k: int = if n == 0x20 {
            0
        } else if n <= 0xd {
            n - 8
        } else if n == 0x85 {
            6
        } else if n == 0xa0 {
            7
        } else if n == 0x1680 {
            8
        } else if n <= 0x200a {
            n - 0x2000 + 9
        } else if n == 0x2028 {
            20
        } else if n == 0x2029 {
            21
        } else if n == 0x202f {
            22
        } else if n == 0x205f {
            23
        } else {
            24
        };
        assert(all[k] == c);
    }
}

proof fn lemma_joined_from_the_front(ls: Seq<Seq<char>>, separator: Seq<char>)
    requires
        ls.len() >= 2,
    ensures
        joined(ls, separator) == ls[0] + separator + joined(ls.skip(1), separator),
    decreases ls.len(),
{
    if ls.len() == 2 {
        reveal_with_fuel(joined, 2);
        assert(ls.drop_last() =~= seq![ls[0]]);
        assert(ls.skip(1) =~= seq![ls[1]]);
    } else {
        let front = ls.drop_last();
        lemma_joined_from_the_front(front, separator);
        assert(front.skip(1) =~= ls.skip(1).drop_last());
        assert(ls.skip(1).last() == ls.last());
        assert(front[0] == ls[0]);
        assert(joined(ls, separator) =~= ls[0] + separator + joined(ls.skip(1), separator));
    }
}

proof fn lemma_joined_is_stacked(ls: Seq<Seq<char>>)
    ensures
        joined(ls, "\n"@) == stacked(ls),
    decreases ls.len(),
{
    reveal_strlit("\n");
    reveal_strlit("");
    assert("\n"@ =~= seq!['\n']);
    if ls.len() == 0 {
        assert(joined(ls, "\n"@) =~= seq![]);
    } else if ls.len() >= 2 {
        lemma_joined_from_the_front(ls, "\n"@);
        lemma_joined_is_stacked(ls.skip(1));
    }
}

/// Whether a text is another one without the white space that it starts with: it is all that follows
/// that white space, and starts with none.
pub open spec fn is_trimmed(text: Seq<char>, whole: Seq<char>) -> bool {
    exists|k: int|
        {
            &&& 0 <= k <= whole.len()
            &&& text == #[trigger] whole.skip(k)
            &&& forall|i: int| 0 <= i < k ==> is_space(#[trigger] whole[i])
            &&& k < whole.len() ==> !is_space(whole[k])
        }
}

proof fn lemma_trimmed(s: Seq<char>)
    ensures
        is_trimmed(without_leading_space(s), s),
    decreases s.len(),
{
    if s.len() > 0 && is_space(s[0]) {
        let rest = s.skip(1);
        lemma_trimmed(rest);
        let k = choose|k: int|
            {
                &&& 0 <= k <= rest.len()
                &&& without_leading_space(rest) == #[trigger] rest.skip(k)
                &&& forall|i: int| 0 <= i < k ==> is_space(#[trigger] rest[i])
                &&& k < rest.len() ==> !is_space(rest[k])
            };
        assert(s.skip(k + 1) =~= rest.skip(k));
        assert forall|i: int| 0 <= i < k + 1 implies is_space(#[trigger] s[i]) by {
            if i > 0 {
                assert(s[i] == rest[i - 1]);
            }
        }
        if k < rest.len() {
            assert(s[k + 1] == rest[k]);
        }
        assert(without_leading_space(s) == s.skip(k + 1));
    } else {
        assert(s.skip(0) =~= s);
    }
}

/// What a reply says by itself: of all its lines those that do not start with the mark of a
/// quotation, in order and unchanged, without the white space that is then left at the start.
pub proof fn law_own_words_are_the_unquoted_lines(ls: Seq<Seq<char>>)
    requires
        are_lines(ls),
    ensures
        is_trimmed(
            own_words(stacked(ls)),
            stacked(ls.filter(|line: Seq<char>| line.len() == 0 || line[0] != '>')),
        ),
{
    lemma_lines_of_stack(ls);
    let own = |line: Seq<char>| line.len() == 0 || line[0] != '>';
    let unquoted = |line: Seq<char>| !is_quoted(line);
    assert(own =~= unquoted);
    let left = ls.filter(own);
    assert(unquoted_lines(stacked(ls)) == left);
    lemma_joined_is_stacked(left);
    lemma_trimmed(stacked(left));
}

}
