//! Names for the temporary file that a rewritten script is written to
//! before it takes the script's place.

use vstd::prelude::*;
use vstd::string::*;

verus! {

/// What every temporary file's name begins with.
pub const TEMP_PREFIX: &'static str = "patchall-";

/// The lower-case hexadecimal digit for `d`.
pub open spec fn hex_digit(d: int) -> char {
    if d == 0 {
        '0'
    } else if d == 1 {
        '1'
    } else if d == 2 {
        '2'
    } else if d == 3 {
        '3'
    } else if d == 4 {
        '4'
    } else if d == 5 {
        '5'
    } else if d == 6 {
        '6'
    } else if d == 7 {
        '7'
    } else if d == 8 {
        '8'
    } else if d == 9 {
        '9'
    } else if d == 10 {
        'a'
    } else if d == 11 {
        'b'
    } else if d == 12 {
        'c'
    } else if d == 13 {
        'd'
    } else if d == 14 {
        'e'
    } else {
        'f'
    }
}

/// The last `width` hexadecimal digits of `n`, padded with zeros.
pub open spec fn hex(n: nat, width: nat) -> Seq<char>
    decreases width,
{
    if width == 0 {
        Seq::empty()
    } else {
        hex(n / 16, (width - 1) as nat).push(hex_digit((n % 16) as int))
    }
}

/// The temporary file's name for the number `n`: the prefix and `n` as
/// eight hexadecimal digits.
pub open spec fn temp_name(n: u32) -> Seq<char> {
    TEMP_PREFIX@ + hex(n as nat, 8)
}

fn hex_digit_text(d: u32) -> (r: &'static str)
    requires
        d < 16,
    ensures
        r@ == seq![hex_digit(d as int)],
{
    proof {
        reveal_strlit("0");
        reveal_strlit("1");
        reveal_strlit("2");
        reveal_strlit("3");
        reveal_strlit("4");
        reveal_strlit("5");
        reveal_strlit("6");
        reveal_strlit("7");
        reveal_strlit("8");
        reveal_strlit("9");
        reveal_strlit("a");
        reveal_strlit("b");
        reveal_strlit("c");
        reveal_strlit("d");
        reveal_strlit("e");
        reveal_strlit("f");
    }
    match d {
        0 => "0",
        1 => "1",
        2 => "2",
        3 => "3",
        4 => "4",
        5 => "5",
        6 => "6",
        7 => "7",
        8 => "8",
        9 => "9",
        10 => "a",
        11 => "b",
        12 => "c",
        13 => "d",
        14 => "e",
        _ => "f",
    }
}

/// The last `width` hexadecimal digits of `n`, padded with zeros.
pub fn hex_text(n: u32, width: u8) -> (r: String)
    ensures
        r@ == hex(n as nat, width as nat),
    decreases width,
{
    if width == 0 {
        String::new()
    } else {
        let mut text = hex_text(n / 16, width - 1);
        text.append(hex_digit_text(n % 16));
        text
    }
}

/// The temporary file's name for the number `n`.
pub fn temp_name_for(n: u32) -> (r: String)
    ensures
        r@ == temp_name(n),
{
    let mut name = String::from_str(TEMP_PREFIX);
    let digits = hex_text(n, 8);
    name.append(digits.as_str());
    name
}

/// Calls `rand::random::<u32>()`, which draws a number from the thread's
/// random generator. Nothing is claimed of the number drawn.
#[verifier::external_body]
fn random_number() -> u32 {
    rand::random::<u32>()
}

/// A temporary file's name for a number drawn at random.
pub fn fresh_temp_name() -> (r: String)
    ensures
        exists|n: u32| r@ == temp_name(n),
{
    let n = random_number();
    temp_name_for(n)
}

} // verus!
