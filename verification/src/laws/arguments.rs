//! How the arguments of a command are understood.
use vstd::prelude::*;

use crate::cmdline::commands::{import_argument, long_number, number, number_if_any, signed_number};
use crate::numbers::{
    is_numeral, law_numerals_are_read, law_only_numerals_are_read, law_only_signed_numerals_are_read,
    law_other_texts_are_no_numbers, law_signed_numerals_are_read, worth,
};

verus! {

/// Whether a text does not begin as a number does.
pub open spec fn begins_otherwise(text: Seq<char>) -> bool {
    text.len() > 0 && !('0' <= text[0] <= '9') && text[0] != '+' && text[0] != '-'
}

/// Where a command takes the number of a chat, a message or a contact, it takes decimal digits,
/// with a plus sign in front or without, as long as the number has no more than 32 bits. Else it
/// says why it does not.
pub proof fn law_numbers_are_understood(text: Seq<char>)
    ensures
        is_numeral(text) ==> number(text) == if worth(text) <= 0xffff_ffff {
            Ok::<u32, Seq<char>>(worth(text) as u32)
        } else {
            Err("number too large to fit in target type"@)
        },
        is_numeral(text) ==> number(seq!['+'] + text) == number(text),
        number(text) is Ok ==> is_numeral(text) || (text.len() > 1 && text[0] == '+' && is_numeral(
            text.skip(1),
        )),
        text.len() == 0 ==> number(text) == Err::<u32, Seq<char>>(
            "cannot parse integer from empty string"@,
        ),
        begins_otherwise(text) || text == seq!['+'] ==> number(text) == Err::<u32, Seq<char>>(
            "invalid digit found in string"@,
        ),
        number_if_any(text) == if number(text) is Ok {
            Some(number(text)->Ok_0)
        } else {
            None
        },
{
    law_other_texts_are_no_numbers(text, 0xffff_ffff);
    if is_numeral(text) {
        law_numerals_are_read(text, 0xffff_ffff);
    }
    if number(text) is Ok {
        law_only_numerals_are_read(text, 0xffff_ffff);
    }
}

/// Where a command takes a number of seconds that cannot be negative, the number may have 64 bits.
pub proof fn law_long_numbers_are_understood(text: Seq<char>)
    ensures
        is_numeral(text) ==> long_number(text) == if worth(text) <= 0xffff_ffff_ffff_ffff {
            Ok::<u64, Seq<char>>(worth(text) as u64)
        } else {
            Err("number too large to fit in target type"@)
        },
        is_numeral(text) ==> long_number(seq!['+'] + text) == long_number(text),
        long_number(text) is Ok ==> is_numeral(text) || (text.len() > 1 && text[0] == '+'
            && is_numeral(text.skip(1))),
        text.len() == 0 ==> long_number(text) == Err::<u64, Seq<char>>(
            "cannot parse integer from empty string"@,
        ),
        begins_otherwise(text) ==> long_number(text) == Err::<u64, Seq<char>>(
            "invalid digit found in string"@,
        ),
{
    law_other_texts_are_no_numbers(text, 0xffff_ffff_ffff_ffff);
    if is_numeral(text) {
        law_numerals_are_read(text, 0xffff_ffff_ffff_ffff);
    }
    if long_number(text) is Ok {
        law_only_numerals_are_read(text, 0xffff_ffff_ffff_ffff);
    }
}

/// Where a command takes a number of seconds that may be negative, it takes decimal digits with a
/// sign in front or without, as long as the number has no more than 64 bits.
pub proof fn law_signed_numbers_are_understood(text: Seq<char>)
    ensures
        is_numeral(text) ==> signed_number(text) == if worth(text) <= 0x7fff_ffff_ffff_ffff {
            Ok::<i64, Seq<char>>(worth(text) as i64)
        } else {
            Err("number too large to fit in target type"@)
        },
        is_numeral(text) ==> signed_number(seq!['+'] + text) == signed_number(text),
        is_numeral(text) ==> signed_number(seq!['-'] + text) == if worth(text)
            <= 0x8000_0000_0000_0000 {
            Ok::<i64, Seq<char>>(-(worth(text) as int) as i64)
        } else {
            Err("number too small to fit in target type"@)
        },
        signed_number(text) is Ok ==> is_numeral(text) || (text.len() > 1 && (text[0] == '+'
            || text[0] == '-') && is_numeral(text.skip(1))),
        text.len() == 0 ==> signed_number(text) == Err::<i64, Seq<char>>(
            "cannot parse integer from empty string"@,
        ),
        begins_otherwise(text) ==> signed_number(text) == Err::<i64, Seq<char>>(
            "invalid digit found in string"@,
        ),
{
    law_only_signed_numerals_are_read(text);
    if is_numeral(text) {
        law_signed_numerals_are_read(text);
    }
}

/// What the command that imports is to import: what its first argument names; together with the
/// second one, where the first is an address; and nothing, where there is none.
pub proof fn law_import_is_named_by_the_arguments(arg1: Seq<char>, arg2: Seq<char>)
    ensures
        import_argument(arg1, arg2) == if arg1.len() == 0 {
            None
        } else if arg1.contains('@') && !arg1.contains('/') && arg2.len() > 0 {
            Some(arg1 + " "@ + arg2)
        } else {
            Some(arg1)
        },
{
    arg1.index_of_first_ensures('@');
    arg1.index_of_first_ensures('/');
}

}
