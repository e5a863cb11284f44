//! The characters of a string: the checks made over them, and the decimal
//! text of numbers.
use crate::bytes_io::{alphanumeric, is_alphanumeric};
use vstd::prelude::*;
use vstd::std_specs::iter::IteratorSpec;
use vstd::string::StringExecFns;

verus! {

broadcast use vstd::string::group_string_axioms;

/// The decimal digit for a number below ten.
pub open spec fn decimal_digit(d: nat) -> char {
    (48 + d % 10) as char
}

/// The decimal text of a natural number, without leading zeros.
pub open spec fn decimal_text(n: nat) -> Seq<char>
    decreases n,
{
    if n < 10 {
        seq![decimal_digit(n)]
    } else {
        decimal_text(n / 10).push(decimal_digit(n % 10))
    }
}

/// Whether an MQTT UTF-8 string must not hold the character: the null
/// character and the other control characters U+0001 to U+001F and U+007F
/// to U+009F, and the non-characters (U+FDD0 to U+FDEF, and every code
/// point whose low sixteen bits are FFFE or FFFF). Surrogates (U+D800 to
/// U+DFFF) are never characters of a Rust string.
pub open spec fn forbidden_char(c: char) -> bool {
    let v = c as u32;
    v <= 0x1F || (0x7F <= v && v <= 0x9F) || (0xFDD0 <= v && v <= 0xFDEF) || v % 0x1_0000
        >= 0xFFFE
}

/// Whether the text holds a character that `forbidden_char` forbids.
pub open spec fn has_forbidden_char(t: Seq<char>) -> bool {
    exists|i: int| 0 <= i < t.len() && forbidden_char(#[trigger] t[i])
}

/// Whether every character of the text is alphanumeric (`true` for the
/// empty text).
pub open spec fn all_alphanumeric(t: Seq<char>) -> bool {
    forall|i: int| 0 <= i < t.len() ==> alphanumeric(#[trigger] t[i])
}

/// Whether `s` holds a character that an MQTT UTF-8 string must not hold,
/// as `forbidden_char` says.
pub fn chars_any_forbidden(s: &str) -> (res: bool)
    ensures
        res == has_forbidden_char(s@),
{
    let mut it = s.chars();
    let ghost mut k: int = 0;
    loop
        invariant
            0 <= k <= s@.len(),
            IteratorSpec::remaining(&it) == s@.skip(k),
            !has_forbidden_char(s@.take(k)),
        decreases s@.len() - k,
    {
        let next = it.next();
        match next {
            None => {
                assert(s@.take(k) =~= s@);
                return false;
            },
            Some(c) => {
                assert(c == s@[k]);
                let v = c as u32;
                if v <= 0x1F || (0x7F <= v && v <= 0x9F) || (0xFDD0 <= v && v <= 0xFDEF) || v
                    % 0x1_0000 >= 0xFFFE {
                    assert(forbidden_char(s@[k]));
                    return true;
                }
                proof {
                    assert(s@.take(k + 1) =~= s@.take(k).push(c));
                    k = k + 1;
                }
            },
        }
    }
}

/// Whether every character of `s` is alphanumeric, as
/// `s.chars().all(char::is_alphanumeric)`.
pub fn chars_all_alphanumeric(s: &str) -> (res: bool)
    ensures
        res == all_alphanumeric(s@),
{
    let mut it = s.chars();
    let ghost mut k: int = 0;
    loop
        invariant
            0 <= k <= s@.len(),
            IteratorSpec::remaining(&it) == s@.skip(k),
            all_alphanumeric(s@.take(k)),
        decreases s@.len() - k,
    {
        let next = it.next();
        match next {
            None => {
                assert(s@.take(k) =~= s@);
                return true;
            },
            Some(c) => {
                assert(c == s@[k]);
                if !is_alphanumeric(c) {
                    return false;
                }
                proof {
                    assert(s@.take(k + 1) =~= s@.take(k).push(c));
                    k = k + 1;
                }
            },
        }
    }
}

/// The decimal digit of a number below ten, as a string.
fn digit_str(d: usize) -> (s: &'static str)
    requires
        d < 10,
    ensures
        s@ == seq![decimal_digit(d as nat)],
{
    if d == 0 {
        proof {
            reveal_strlit("0");
        }
        "0"
    } else if d == 1 {
        proof {
            reveal_strlit("1");
        }
        "1"
    } else if d == 2 {
        proof {
            reveal_strlit("2");
        }
        "2"
    } else if d == 3 {
        proof {
            reveal_strlit("3");
        }
        "3"
    } else if d == 4 {
        proof {
            reveal_strlit("4");
        }
        "4"
    } else if d == 5 {
        proof {
            reveal_strlit("5");
        }
        "5"
    } else if d == 6 {
        proof {
            reveal_strlit("6");
        }
        "6"
    } else if d == 7 {
        proof {
            reveal_strlit("7");
        }
        "7"
    } else if d == 8 {
        proof {
            reveal_strlit("8");
        }
        "8"
    } else {
        proof {
            reveal_strlit("9");
        }
        "9"
    }
}

/// The decimal text of `n`, without leading zeros, as `ToString` writes it.
pub fn usize_to_string(n: usize) -> (s: String)
    ensures
        s@ == decimal_text(n as nat),
    decreases n,
{
    if n < 10 {
        String::from_str(digit_str(n))
    } else {
        let head = usize_to_string(n / 10);
        head.concat(digit_str(n % 10))
    }
}

/// The decimal text of `n`, as `ToString` writes it.
pub fn u8_to_string(n: u8) -> (s: String)
    ensures
        s@ == decimal_text(n as nat),
{
    usize_to_string(n as usize)
}

/// The decimal text of `n`, as `ToString` writes it.
pub fn u16_to_string(n: u16) -> (s: String)
    ensures
        s@ == decimal_text(n as nat),
{
    usize_to_string(n as usize)
}

} // verus!
