//! Checks on command-line values before they reach the tunnel: the port and
//! the paths of credential files.

use vstd::prelude::*;
use vstd::string::StringExecFns;
use vstd::string::StrSliceExecFns;

verus! {

/// The lowest port a tunnel may use.
pub const PORT_MIN: usize = 1;

/// The highest port a tunnel may use.
pub const PORT_MAX: usize = 65535;

/// True of the ten ASCII digits.
pub open spec fn is_digit(c: char) -> bool {
    '0' <= c && c <= '9'
}

/// The number that a string of ASCII digits writes in base ten; leading
/// zeros change nothing, and the empty string writes zero.
pub open spec fn digits_value(digits: Seq<char>) -> int
    decreases digits.len(),
{
    if digits.len() == 0 {
        0
    } else {
        digits_value(digits.drop_last()) * 10 + (digits.last() as int - '0' as int)
    }
}

/// The text without the one `+` that may stand in front of a number.
pub open spec fn unsigned_part(text: Seq<char>) -> Seq<char> {
    if text.len() > 0 && text[0] == '+' {
        text.drop_first()
    } else {
        text
    }
}

/// True when the text is a number as `usize` is written: an optional `+`,
/// then at least one ASCII digit and nothing else.
pub open spec fn is_number(text: Seq<char>) -> bool {
    let digits = unsigned_part(text);
    digits.len() > 0 && forall|i: int| 0 <= i < digits.len() ==> is_digit(#[trigger] digits[i])
}

/// The value of a text that is a number.
pub open spec fn number_value(text: Seq<char>) -> int {
    digits_value(unsigned_part(text))
}

/// What checking a port text gives: the port where the text is a number
/// that fits in a `usize` and lies between `PORT_MIN` and `PORT_MAX`, and
/// else the message that says which of the two failed.
pub open spec fn port_outcome(text: Seq<char>) -> Result<u16, Seq<char>> {
    if !is_number(text) || number_value(text) > usize::MAX {
        Err("`"@ + text + "` is not a valid port number"@)
    } else if PORT_MIN <= number_value(text) <= PORT_MAX {
        Ok(number_value(text) as u16)
    } else {
        Err("Port not in range 1-65535"@)
    }
}

/// What checking a path gives: the path itself where it exists, and else
/// the message that says it does not.
pub open spec fn path_outcome(text: Seq<char>, exists: bool) -> Result<Seq<char>, Seq<char>> {
    if exists {
        Ok(text)
    } else {
        Err("Path does not exist "@ + text)
    }
}

/// The characters of a checked port.
pub open spec fn port_view(checked: Result<u16, String>) -> Result<u16, Seq<char>> {
    match checked {
        Ok(port) => Ok(port),
        Err(message) => Err(message@),
    }
}

/// The characters of a checked path.
pub open spec fn path_view(checked: Result<String, String>) -> Result<Seq<char>, Seq<char>> {
    match checked {
        Ok(path) => Ok(path@),
        Err(message) => Err(message@),
    }
}

/// A string of digits writes no negative number.
pub proof fn lemma_digits_value_nonnegative(digits: Seq<char>)
    requires
        forall|i: int| 0 <= i < digits.len() ==> is_digit(#[trigger] digits[i]),
    ensures
        digits_value(digits) >= 0,
    decreases digits.len(),
{
    if digits.len() > 0 {
        lemma_digits_value_nonnegative(digits.drop_last());
    }
}

/// Digits appended to a number never make it smaller.
pub proof fn lemma_digits_value_grows(digits: Seq<char>, taken: int)
    requires
        0 <= taken <= digits.len(),
        forall|i: int| 0 <= i < digits.len() ==> is_digit(#[trigger] digits[i]),
    ensures
        digits_value(digits.subrange(0, taken)) <= digits_value(digits),
    decreases digits.len() - taken,
{
    if taken == digits.len() {
        assert(digits.subrange(0, taken) == digits);
    } else {
        let shorter = digits.drop_last();
        lemma_digits_value_grows(shorter, taken);
        lemma_digits_value_nonnegative(shorter);
        assert(shorter.subrange(0, taken) == digits.subrange(0, taken));
    }
}

/// Reads the text as `usize` is written. `None` where the text is no
/// number, or is one that no `usize` holds.
fn parse_number(text: &str) -> (parsed: Option<usize>)
    ensures
        parsed is Some <==> is_number(text@) && number_value(text@) <= usize::MAX,
        parsed matches Some(value) ==> value == number_value(text@),
{
    let len = text.unicode_len();
    let start: usize = if len > 0 && text.get_char(0) == '+' {
        1
    } else {
        0
    };
    if start == len {
        return None;
    }
    let ghost digits = unsigned_part(text@);
    assert(digits == text@.subrange(start as int, len as int));
    let mut value: usize = 0;
    let mut index: usize = start;
    while index < len
        invariant
            start <= index <= len,
            len == text@.len(),
            digits == text@.subrange(start as int, len as int),
            digits == unsigned_part(text@),
            forall|i: int| 0 <= i < index - start ==> is_digit(#[trigger] digits[i]),
            value == digits_value(digits.subrange(0, index - start)),
        decreases len - index,
    {
        let c = text.get_char(index);
        if !('0' <= c && c <= '9') {
            assert(!is_digit(digits[index - start]));
            return None;
        }
        let digit: usize = (c as u32 - '0' as u32) as usize;
        proof {
            let longer = digits.subrange(0, index - start + 1);
            assert(longer.drop_last() == digits.subrange(0, index - start));
            assert(longer.last() == c);
            assert(digits_value(longer) == value * 10 + digit);
        }
        if value > (usize::MAX - digit) / 10 {
            proof {
                if is_number(text@) {
                    lemma_digits_value_grows(digits, index - start + 1);
                }
            }
            return None;
        }
        value = value * 10 + digit;
        index += 1;
    }
    proof {
        assert(digits.subrange(0, index - start) == digits);
    }
    Some(value)
}

/// Checks the text of a port: a number between `PORT_MIN` and `PORT_MAX`.
/// The error is the message for the user.
pub fn port_in_range(s: &str) -> (checked: Result<u16, String>)
    ensures
        port_view(checked) == port_outcome(s@),
{
    match parse_number(s) {
        Some(port) => {
            if PORT_MIN <= port && port <= PORT_MAX {
                Ok(port as u16)
            } else {
                Err(String::from_str("Port not in range 1-65535"))
            }
        },
        None => Err(String::from_str("`").concat(s).concat("` is not a valid port number")),
    }
}

/// Checks the path of a credential file, given whether a file exists
/// there. The error is the message for the user.
pub fn valid_path(s: &str, exists: bool) -> (checked: Result<String, String>)
    ensures
        path_view(checked) == path_outcome(s@, exists),
{
    if exists {
        Ok(String::from_str(s))
    } else {
        Err(String::from_str("Path does not exist ").concat(s))
    }
}

} // verus!
