//! Whole numbers as decimal text, written and read.
use vstd::prelude::*;

use crate::text::chars_of;

verus! {

/// The character of a decimal digit.
pub open spec fn digit_char(d: nat) -> char {
    (48 + d) as char
}

/// The decimal digits of a number, without leading zeros.
pub open spec fn digits(n: nat) -> Seq<char>
    decreases n,
{
    if n < 10 {
        seq![digit_char(n)]
    } else {
        digits(n / 10).push(digit_char(n % 10))
    }
}

/// A whole number in decimal, with a minus sign in front where it is negative.
pub open spec fn signed_digits(i: int) -> Seq<char> {
    if i < 0 {
        "-"@ + digits((-i) as nat)
    } else {
        digits(i as nat)
    }
}

fn digit_text(d: u64) -> (r: &'static str)
    requires
        d < 10,
    ensures
        r@ == seq![digit_char(d as nat)],
{
    proof {
        reveal_strlit("0");
        reveal_strlit("1");
        reveal_strlit("2");
        reveal_strlit("3");
        reveal_strlit("4");
        reveal_strlit("5");
        reveal_strlit("6");
        reveal_strlit("7");
        reveal_strlit("8");
        reveal_strlit("9");
    }
    if d == 0 {
        "0"
    } else if d == 1 {
        "1"
    } else if d == 2 {
        "2"
    } else if d == 3 {
        "3"
    } else if d == 4 {
        "4"
    } else if d == 5 {
        "5"
    } else if d == 6 {
        "6"
    } else if d == 7 {
        "7"
    } else if d == 8 {
        "8"
    } else {
        "9"
    }
}

/// Writes a number in decimal.
pub fn decimal(n: u64) -> (r: String)
    ensures
        r@ == digits(n as nat),
    decreases n,
{
    if n < 10 {
        digit_text(n).to_owned()
    } else {
        let mut r: String = decimal(n / 10);
        let ghost front = r@;
        r.append(digit_text(n % 10));
        proof {
            assert(r@ =~= front.push(digit_char((n % 10) as nat)));
        }
        r
    }
}

/// Writes a whole number in decimal, with its sign where it is negative.
pub fn signed_decimal(i: i64) -> (r: String)
    ensures
        r@ == signed_digits(i as int),
{
    if i < 0 {
        let mut r: String = "-".to_owned();
        let magnitude: u64 = (-(i as i128)) as u64;
        r.append(decimal(magnitude).as_str());
        r
    } else {
        decimal(i as u64)
    }
}

/// Why a text is no number of the wanted type.
#[derive(Clone, Copy, Debug, PartialEq, Eq, Structural)]
pub enum NumberError {
    /// There is no text.
    Empty,
    /// A character that is no digit.
    InvalidDigit,
    /// More than the type can hold.
    TooLarge,
    /// Less than the type can hold.
    TooSmall,
}

impl NumberError {
    /// The message that a user sees.
    pub open spec fn message(self) -> Seq<char> {
        match self {
            NumberError::Empty => "cannot parse integer from empty string"@,
            NumberError::InvalidDigit => "invalid digit found in string"@,
            NumberError::TooLarge => "number too large to fit in target type"@,
            NumberError::TooSmall => "number too small to fit in target type"@,
        }
    }

    /// The message that a user sees, as a string.
    pub fn text(self) -> (r: String)
        ensures
            r@ == self.message(),
    {
        match self {
            NumberError::Empty => "cannot parse integer from empty string".to_owned(),
            NumberError::InvalidDigit => "invalid digit found in string".to_owned(),
            NumberError::TooLarge => "number too large to fit in target type".to_owned(),
            NumberError::TooSmall => "number too small to fit in target type".to_owned(),
        }
    }
}

/// The value of a decimal digit.
pub open spec fn digit_value(c: char) -> Option<nat> {
    if '0' <= c <= '9' {
        Some((c as u32 - 48) as nat)
    } else {
        None
    }
}

/// Reads digits from left to right onto a number that is already read. The first character
/// that is no digit, or that takes the number over the limit, ends the reading.
pub open spec fn read_digits(s: Seq<char>, so_far: nat, limit: nat) -> Result<nat, NumberError>
    decreases s.len(),
{
    if s.len() == 0 {
        Ok(so_far)
    } else {
        match digit_value(s[0]) {
            None => Err(NumberError::InvalidDigit),
            Some(d) => if so_far * 10 + d > limit {
                Err(NumberError::TooLarge)
            } else {
                read_digits(s.skip(1), so_far * 10 + d, limit)
            },
        }
    }
}

/// Whether a text is a sign and nothing else.
pub open spec fn is_bare_sign(s: Seq<char>) -> bool {
    s.len() == 1 && (s[0] == '+' || s[0] == '-')
}

/// An unsigned number up to a limit, read from text: digits, with a plus sign allowed in front.
pub open spec fn read_unsigned(s: Seq<char>, limit: nat) -> Result<nat, NumberError> {
    if s.len() == 0 {
        Err(NumberError::Empty)
    } else if is_bare_sign(s) {
        Err(NumberError::InvalidDigit)
    } else if s[0] == '+' {
        read_digits(s.skip(1), 0, limit)
    } else {
        read_digits(s, 0, limit)
    }
}

/// A signed number of 64 bits, read from text.
pub open spec fn read_signed(s: Seq<char>) -> Result<int, NumberError> {
    if s.len() > 1 && s[0] == '-' {
        match read_digits(s.skip(1), 0, 0x8000_0000_0000_0000) {
            Ok(n) => Ok(-n),
            Err(NumberError::TooLarge) => Err(NumberError::TooSmall),
            Err(e) => Err(e),
        }
    } else {
        match read_unsigned(s, 0x7fff_ffff_ffff_ffff) {
            Ok(n) => Ok(n as int),
            Err(e) => Err(e),
        }
    }
}

fn read_from(chars: &Vec<char>, from: usize, limit: u64) -> (r: Result<u64, NumberError>)
    requires
        from <= chars.len(),
    ensures
        match r {
            Ok(n) => read_digits(chars@.skip(from as int), 0, limit as nat) == Ok::<nat, NumberError>(
                n as nat,
            ),
            Err(e) => read_digits(chars@.skip(from as int), 0, limit as nat) == Err::<
                nat,
                NumberError,
            >(e),
        },
{
    let mut n: u64 = 0;
    let mut i: usize = from;
    while i < chars.len()
        invariant
            from <= i <= chars.len(),
            n <= limit,
            read_digits(chars@.skip(from as int), 0, limit as nat) == read_digits(
                chars@.skip(i as int),
                n as nat,
                limit as nat,
            ),
        decreases chars.len() - i,
    {
        let c: char = chars[i];
        proof {
            assert(chars@.skip(i as int).skip(1) =~= chars@.skip(i + 1));
        }
        if !('0' <= c && c <= '9') {
            return Err(NumberError::InvalidDigit);
        }
        let d: u64 = (c as u32 - 48) as u64;
        let next: u128 = (n as u128) * 10 + d as u128;
        if next > limit as u128 {
            return Err(NumberError::TooLarge);
        }
        n = next as u64;
        i = i + 1;
    }
    Ok(n)
}

/// Reads an unsigned number up to a limit.
pub fn parse_unsigned(s: &str, limit: u64) -> (r: Result<u64, NumberError>)
    ensures
        match r {
            Ok(n) => read_unsigned(s@, limit as nat) == Ok::<nat, NumberError>(n as nat) && n
                <= limit,
            Err(e) => read_unsigned(s@, limit as nat) == Err::<nat, NumberError>(e),
        },
{
    let chars: Vec<char> = chars_of(s);
    if chars.len() == 0 {
        return Err(NumberError::Empty);
    }
    if chars.len() == 1 && (chars[0] == '+' || chars[0] == '-') {
        return Err(NumberError::InvalidDigit);
    }
    proof {
        assert(chars@.skip(0) =~= chars@);
        lemma_read_within(chars@, 0, limit as nat);
        lemma_read_within(chars@.skip(1), 0, limit as nat);
    }
    if chars[0] == '+' {
        read_from(&chars, 1, limit)
    } else {
        read_from(&chars, 0, limit)
    }
}

proof fn lemma_read_within(s: Seq<char>, so_far: nat, limit: nat)
    requires
        so_far <= limit,
    ensures
        read_digits(s, so_far, limit) matches Ok(n) ==> n <= limit,
    decreases s.len(),
{
    if s.len() > 0 {
        match digit_value(s[0]) {
            Some(d) => if so_far * 10 + d <= limit {
                lemma_read_within(s.skip(1), so_far * 10 + d, limit);
            },
            None => {},
        }
    }
}

/// Reads an unsigned number of 32 bits.
pub fn parse_u32(s: &str) -> (r: Result<u32, NumberError>)
    ensures
        match r {
            Ok(n) => read_unsigned(s@, 0xffff_ffff) == Ok::<nat, NumberError>(n as nat),
            Err(e) => read_unsigned(s@, 0xffff_ffff) == Err::<nat, NumberError>(e),
        },
{
    match parse_unsigned(s, 0xffff_ffff) {
        Ok(n) => Ok(n as u32),
        Err(e) => Err(e),
    }
}

/// Reads a signed number of 64 bits.
pub fn parse_i64(s: &str) -> (r: Result<i64, NumberError>)
    ensures
        match r {
            Ok(n) => read_signed(s@) == Ok::<int, NumberError>(n as int),
            Err(e) => read_signed(s@) == Err::<int, NumberError>(e),
        },
{
    let chars: Vec<char> = chars_of(s);
    if chars.len() > 1 && chars[0] == '-' {
        proof {
            lemma_read_within(chars@.skip(1), 0, 0x8000_0000_0000_0000);
        }
        match read_from(&chars, 1, 0x8000_0000_0000_0000) {
            Ok(n) => {
                let i: i128 = -(n as i128);
                Ok(i as i64)
            },
            Err(NumberError::TooLarge) => Err(NumberError::TooSmall),
            Err(e) => Err(e),
        }
    } else {
        match parse_unsigned(s, 0x7fff_ffff_ffff_ffff) {
            Ok(n) => Ok(n as i64),
            Err(e) => Err(e),
        }
    }
}

proof fn lemma_read_push(s: Seq<char>, c: char, so_far: nat, limit: nat)
    ensures
        read_digits(s.push(c), so_far, limit) == match read_digits(s, so_far, limit) {
            Ok(n) => read_digits(seq![c], n, limit),
            Err(e) => Err(e),
        },
    decreases s.len(),
{
    if s.len() == 0 {
        assert(s.push(c) =~= seq![c]);
    } else {
        assert(s.push(c).skip(1) =~= s.skip(1).push(c));
        match digit_value(s[0]) {
            Some(d) => if so_far * 10 + d <= limit {
                lemma_read_push(s.skip(1), c, so_far * 10 + d, limit);
            },
            None => {},
        }
    }
}

proof fn lemma_digit_char(d: nat)
    requires
        d < 10,
    ensures
        digit_value(digit_char(d)) == Some(d),
{
}

proof fn lemma_read_digits_back(n: nat, limit: nat)
    requires
        n <= limit,
    ensures
        read_digits(digits(n), 0, limit) == Ok::<nat, NumberError>(n),
        digits(n).len() > 0,
        digit_value(digits(n)[0]) is Some,
    decreases n,
{
    reveal_with_fuel(read_digits, 2);
    lemma_digit_char(n % 10);
    if n < 10 {
        lemma_digit_char(n);
        assert(seq![digit_char(n)].skip(1) =~= Seq::<char>::empty());
    } else {
        lemma_read_digits_back(n / 10, limit);
        lemma_read_push(digits(n / 10), digit_char(n % 10), 0, limit);
        let c = digit_char(n % 10);
        assert(seq![c].skip(1) =~= Seq::<char>::empty());
    }
}

/// Reading the decimal text of a number gives the number back.
pub proof fn law_unsigned_reads_back(n: nat, limit: nat)
    requires
        n <= limit,
    ensures
        read_unsigned(digits(n), limit) == Ok::<nat, NumberError>(n),
{
    lemma_read_digits_back(n, limit);
}

/// Reading the decimal text of a signed number gives the number back.
pub proof fn law_signed_reads_back(i: i64)
    ensures
        read_signed(signed_digits(i as int)) == Ok::<int, NumberError>(i as int),
{
    reveal_strlit("-");
    if i < 0 {
        let n = (-(i as int)) as nat;
        lemma_read_digits_back(n, 0x8000_0000_0000_0000);
        assert(("-"@ + digits(n)).skip(1) =~= digits(n));
    } else {
        lemma_read_digits_back(i as nat, 0x7fff_ffff_ffff_ffff);
    }
}

/// No two numbers have the same decimal text.
pub proof fn law_digits_tell_numbers_apart(m: nat, n: nat)
    ensures
        digits(m) == digits(n) ==> m == n,
{
    lemma_read_digits_back(m, m + n);
    lemma_read_digits_back(n, m + n);
}

/// Whether a text is made of decimal digits, and of at least one.
pub open spec fn is_numeral(s: Seq<char>) -> bool {
    &&& s.len() > 0
    &&& forall|i: int| 0 <= i < s.len() ==> '0' <= #[trigger] s[i] <= '9'
}

/// What decimal digits are worth, each ten times as much as the one behind it.
pub open spec fn worth(s: Seq<char>) -> nat
    decreases s.len(),
{
    if s.len() == 0 {
        0
    } else {
        worth(s.drop_last()) * 10 + (s.last() as int - '0' as int) as nat
    }
}

proof fn lemma_read_worth(s: Seq<char>, limit: nat)
    requires
        forall|i: int| 0 <= i < s.len() ==> '0' <= #[trigger] s[i] <= '9',
    ensures
        read_digits(s, 0, limit) == if worth(s) <= limit {
            Ok::<nat, NumberError>(worth(s))
        } else {
            Err(NumberError::TooLarge)
        },
    decreases s.len(),
{
    if s.len() > 0 {
        let front = s.drop_last();
        let c = s.last();
        assert forall|i: int| 0 <= i < front.len() implies '0' <= #[trigger] front[i] <= '9' by {
            assert(front[i] == s[i]);
        }
        lemma_read_worth(front, limit);
        lemma_read_push(front, c, 0, limit);
        assert(s =~= front.push(c));
        reveal_with_fuel(read_digits, 2);
        assert(seq![c].skip(1) =~= Seq::<char>::empty());
    }
}

/// Decimal digits are read as the number that they are worth, with or without a plus sign in front,
/// as long as that is within the limit; beyond it they are too large.
pub proof fn law_numerals_are_read(s: Seq<char>, limit: nat)
    requires
        is_numeral(s),
    ensures
        read_unsigned(s, limit) == if worth(s) <= limit {
            Ok::<nat, NumberError>(worth(s))
        } else {
            Err(NumberError::TooLarge)
        },
        read_unsigned(seq!['+'] + s, limit) == read_unsigned(s, limit),
{
    lemma_read_worth(s, limit);
    assert((seq!['+'] + s).skip(1) =~= s);
    assert(s[0] != '+');
}

proof fn lemma_only_digits_are_read(s: Seq<char>, so_far: nat, limit: nat)
    requires
        read_digits(s, so_far, limit) is Ok,
    ensures
        forall|i: int| 0 <= i < s.len() ==> '0' <= #[trigger] s[i] <= '9',
    decreases s.len(),
{
    if s.len() > 0 {
        let d = digit_value(s[0])->Some_0;
        lemma_only_digits_are_read(s.skip(1), so_far * 10 + d, limit);
        assert forall|i: int| 0 <= i < s.len() implies '0' <= #[trigger] s[i] <= '9' by {
            if i > 0 {
                assert(s[i] == s.skip(1)[i - 1]);
            }
        }
    }
}

/// Nothing else is read as a number: what is read is decimal digits, with a plus sign in front or
/// without.
pub proof fn law_only_numerals_are_read(s: Seq<char>, limit: nat)
    requires
        read_unsigned(s, limit) is Ok,
    ensures
        is_numeral(s) || (s.len() > 1 && s[0] == '+' && is_numeral(s.skip(1))),
{
    if s[0] == '+' {
        lemma_only_digits_are_read(s.skip(1), 0, limit);
    } else {
        lemma_only_digits_are_read(s, 0, limit);
    }
}

/// Why a text is no number: there is nothing in it, or it does not begin as a number does.
pub proof fn law_other_texts_are_no_numbers(s: Seq<char>, limit: nat)
    ensures
        s.len() == 0 ==> read_unsigned(s, limit) == Err::<nat, NumberError>(NumberError::Empty),
        s.len() > 0 && !('0' <= s[0] <= '9') && s[0] != '+' ==> read_unsigned(s, limit) == Err::<
            nat,
            NumberError,
        >(NumberError::InvalidDigit),
        s == seq!['+'] ==> read_unsigned(s, limit) == Err::<nat, NumberError>(
            NumberError::InvalidDigit,
        ),
{
}

/// Decimal digits are read as a signed number too, and as a negative one with a minus sign in front;
/// what does not fit is too large, or too small.
pub proof fn law_signed_numerals_are_read(s: Seq<char>)
    requires
        is_numeral(s),
    ensures
        read_signed(s) == if worth(s) <= 0x7fff_ffff_ffff_ffff {
            Ok::<int, NumberError>(worth(s) as int)
        } else {
            Err(NumberError::TooLarge)
        },
        read_signed(seq!['+'] + s) == read_signed(s),
        read_signed(seq!['-'] + s) == if worth(s) <= 0x8000_0000_0000_0000 {
            Ok::<int, NumberError>(-(worth(s) as int))
        } else {
            Err(NumberError::TooSmall)
        },
{
    law_numerals_are_read(s, 0x7fff_ffff_ffff_ffff);
    lemma_read_worth(s, 0x8000_0000_0000_0000);
    assert((seq!['-'] + s).skip(1) =~= s);
    assert(s[0] != '-');
}

/// Nothing else is read as a signed number: what is read is decimal digits, with a sign in front or
/// without. Nothing at all is no number, and neither is what does not begin as one does.
pub proof fn law_only_signed_numerals_are_read(s: Seq<char>)
    ensures
        read_signed(s) is Ok ==> is_numeral(s) || (s.len() > 1 && (s[0] == '+' || s[0] == '-')
            && is_numeral(s.skip(1))),
        s.len() == 0 ==> read_signed(s) == Err::<int, NumberError>(NumberError::Empty),
        s.len() > 0 && !('0' <= s[0] <= '9') && s[0] != '+' && s[0] != '-' ==> read_signed(s)
            == Err::<int, NumberError>(NumberError::InvalidDigit),
{
    if read_signed(s) is Ok {
        if s.len() > 1 && s[0] == '-' {
            lemma_only_digits_are_read(s.skip(1), 0, 0x8000_0000_0000_0000);
        } else {
            law_only_numerals_are_read(s, 0x7fff_ffff_ffff_ffff);
        }
    }
}

/// The decimal text of a number is digits that are worth the number, without a zero in front unless
/// the number is zero.
pub proof fn law_digits_are_worth_the_number(n: nat)
    ensures
        is_numeral(digits(n)),
        worth(digits(n)) == n,
        digits(n)[0] == '0' ==> n == 0,
    decreases n,
{
    reveal_with_fuel(worth, 2);
    if n < 10 {
        assert(digits(n) =~= seq![digit_char(n)]);
        assert(digits(n).drop_last() =~= Seq::<char>::empty());
    } else {
        law_digits_are_worth_the_number(n / 10);
        let front = digits(n / 10);
        let c = digit_char(n % 10);
        assert(digits(n) == front.push(c));
        assert(digits(n).drop_last() =~= front);
        assert forall|i: int| 0 <= i < digits(n).len() implies '0' <= #[trigger] digits(n)[i]
            <= '9' by {
            if i < front.len() {
                assert(digits(n)[i] == front[i]);
            }
        }
    }
}

}
