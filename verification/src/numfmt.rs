//! Decimal rendering of unsigned integers, as used inside URLs.

use vstd::prelude::*;

verus! {

/// Decimal digit character for a value below 10.
pub open spec fn dec_digit(n: int) -> char
    recommends
        0 <= n < 10,
{
    if n == 0 { '0' } else if n == 1 { '1' } else if n == 2 { '2' } else if n == 3 { '3' }
    else if n == 4 { '4' } else if n == 5 { '5' } else if n == 6 { '6' } else if n == 7 { '7' }
    else if n == 8 { '8' } else { '9' }
}

/// The usual decimal notation of `n`: most significant digit first, no
/// leading zeros except for `0` itself.
pub open spec fn dec_of(n: nat) -> Seq<char>
    decreases n,
{
    if n < 10 {
        seq![dec_digit(n as int)]
    } else {
        dec_of(n / 10) + seq![dec_digit((n % 10) as int)]
    }
}

/// Renders `n` in decimal.
pub fn dec_chars(n: u64) -> (r: Vec<char>)
    ensures
        r@ == dec_of(n as nat),
    decreases n,
{
    if n < 10 {
        let mut out: Vec<char> = Vec::new();
        out.push(dec_char(n % 10));
        proof {
            assert(out@ =~= dec_of(n as nat));
        }
        out
    } else {
        let mut out = dec_chars(n / 10);
        out.push(dec_char(n % 10));
        proof {
            assert(out@ =~= dec_of(n as nat));
        }
        out
    }
}

/// Executable form of `dec_digit`.
fn dec_char(n: u64) -> (c: char)
    requires
        n < 10,
    ensures
        c == dec_digit(n as int),
{
    match n {
        0 => '0',
        1 => '1',
        2 => '2',
        3 => '3',
        4 => '4',
        5 => '5',
        6 => '6',
        7 => '7',
        8 => '8',
        _ => '9',
    }
}

} // verus!
