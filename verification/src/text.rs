//! Text that arrives from a plugin as bytes.

use vstd::prelude::*;
use vstd::utf8::{decode_utf8, encode_utf8, valid_utf8};

verus! {

/// `core::str::Utf8Error`: why bytes are no text. Nothing is read from it.
#[verifier::external_type_specification]
#[verifier::external_body]
pub struct ExUtf8Error(core::str::Utf8Error);

/// `core::str::from_utf8`: reads `bytes` as text. It succeeds exactly on
/// valid UTF-8, and the text it returns is made of the very bytes it was
/// given.
#[verifier::external_body]
pub(crate) fn str_from_utf8(bytes: &[u8]) -> (text: Result<&str, core::str::Utf8Error>)
    ensures
        text is Ok <==> valid_utf8(bytes@),
        text matches Ok(s) ==> encode_utf8(s@) == bytes@,
{
    core::str::from_utf8(bytes)
}

/// Reads `bytes` as text: the characters that the bytes encode, or `None`
/// where the bytes are not valid UTF-8.
pub fn decode_text(bytes: &[u8]) -> (text: Option<&str>)
    ensures
        match text {
            Some(s) => valid_utf8(bytes@) && s@ == decode_utf8(bytes@),
            None => !valid_utf8(bytes@),
        },
{
    match str_from_utf8(bytes) {
        Ok(s) => {
            proof {
                vstd::utf8::encode_utf8_decode_utf8(s@);
            }
            Some(s)
        },
        Err(_) => None,
    }
}

/// The character of a decimal digit.
pub open spec fn digit_of(d: nat) -> char {
    if d == 0 {
        '0'
    } else if d == 1 {
        '1'
    } else if d == 2 {
        '2'
    } else if d == 3 {
        '3'
    } else if d == 4 {
        '4'
    } else if d == 5 {
        '5'
    } else if d == 6 {
        '6'
    } else if d == 7 {
        '7'
    } else if d == 8 {
        '8'
    } else {
        '9'
    }
}

/// A number in decimal: its digits, the most significant first, with no
/// leading zero but for zero itself.
pub open spec fn decimal_of(n: nat) -> Seq<char>
    decreases n,
{
    if n < 10 {
        seq![digit_of(n)]
    } else {
        decimal_of(n / 10).push(digit_of(n % 10))
    }
}

/// One decimal digit as text.
fn digit_text(d: u32) -> (text: &'static str)
    requires
        d < 10,
    ensures
        text@ == seq![digit_of(d as nat)],
{
    proof {
        reveal_strlit("0");
        reveal_strlit("1");
        reveal_strlit("2");
        reveal_strlit("3");
        reveal_strlit("4");
        reveal_strlit("5");
        reveal_strlit("6");
        reveal_strlit("7");
        reveal_strlit("8");
        reveal_strlit("9");
    }
    let text = if d == 0 {
        "0"
    } else if d == 1 {
        "1"
    } else if d == 2 {
        "2"
    } else if d == 3 {
        "3"
    } else if d == 4 {
        "4"
    } else if d == 5 {
        "5"
    } else if d == 6 {
        "6"
    } else if d == 7 {
        "7"
    } else if d == 8 {
        "8"
    } else {
        "9"
    };
    assert(text@ =~= seq![digit_of(d as nat)]);
    text
}

/// Writes `n` in decimal.
pub fn decimal(n: u32) -> (text: String)
    ensures
        text@ == decimal_of(n as nat),
{
    let mut text = String::from_str(digit_text(n % 10));
    let mut rest: u32 = n / 10;
    while rest > 0
        invariant
            decimal_of(n as nat) == if rest > 0 {
                decimal_of(rest as nat) + text@
            } else {
                text@
            },
        decreases rest,
    {
        let mut longer = String::from_str(digit_text(rest % 10));
        longer.append(text.as_str());
        proof {
            if rest >= 10 {
                assert(decimal_of(rest as nat) + text@ =~= decimal_of((rest / 10) as nat)
                    + longer@);
            } else {
                assert(decimal_of(rest as nat) + text@ =~= longer@);
            }
        }
        text = longer;
        rest = rest / 10;
    }
    text
}

} // verus!
