//! The messages of the handlers for out-of-range immediates and invalid
//! registers, with integers written in decimal.

use vstd::prelude::*;
use vstd::string::StringExecFns;

verus! {

/// The decimal digit character for `d < 10`.
pub open spec fn digit_char(d: nat) -> char {
    (48 + d) as char
}

/// The decimal digits of `n`, most significant first, without leading zeros.
pub open spec fn decimal(n: nat) -> Seq<char>
    decreases n,
{
    if n < 10 {
        seq![digit_char(n)]
    } else {
        decimal(n / 10).push(digit_char(n % 10))
    }
}

/// `n` written in decimal, with a leading `-` when negative.
pub open spec fn signed_decimal(n: int) -> Seq<char> {
    if n < 0 {
        seq!['-'] + decimal((-n) as nat)
    } else {
        decimal(n as nat)
    }
}

/// The one-character string of the decimal digit `d`.
fn digit_str(d: u64) -> (r: &'static str)
    requires
        d < 10,
    ensures
        r@ == seq![digit_char(d as nat)],
{
    proof {
        reveal_strlit("0");
        reveal_strlit("1");
        reveal_strlit("2");
        reveal_strlit("3");
        reveal_strlit("4");
        reveal_strlit("5");
        reveal_strlit("6");
        reveal_strlit("7");
        reveal_strlit("8");
        reveal_strlit("9");
    }
    match d {
        0 => "0",
        1 => "1",
        2 => "2",
        3 => "3",
        4 => "4",
        5 => "5",
        6 => "6",
        7 => "7",
        8 => "8",
        _ => "9",
    }
}

/// Appends `n` in decimal to `s`.
pub fn push_decimal(s: &mut String, n: u64)
    ensures
        final(s)@ == old(s)@ + decimal(n as nat),
    decreases n,
{
    if n >= 10 {
        push_decimal(s, n / 10);
    }
    s.append(digit_str(n % 10));
    proof {
        if n >= 10 {
            assert(decimal(n as nat) == decimal((n / 10) as nat).push(digit_char((n % 10) as nat)));
        }
    }
    assert(s@ =~= old(s)@ + decimal(n as nat));
}

/// Appends `n` in decimal to `s`, with a leading `-` when negative.
pub fn push_signed_decimal(s: &mut String, n: i64)
    ensures
        final(s)@ == old(s)@ + signed_decimal(n as int),
{
    if n < 0 {
        proof {
            reveal_strlit("-");
        }
        s.append("-");
        let magnitude: u64 = (0u64).wrapping_sub(n as u64);
        assert(magnitude == -n) by (bit_vector)
            requires
                n < 0,
                magnitude == (0u64).wrapping_sub(n as u64),
        ;
        push_decimal(s, magnitude);
        assert(s@ =~= old(s)@ + signed_decimal(n as int));
    } else {
        push_decimal(s, n as u64);
    }
}

/// The message `"Cannot assemble this <arch> instruction. Immediate <n> is out of range."`.
pub open spec fn immediate_message(arch: Seq<char>, n: int) -> Seq<char> {
    "Cannot assemble this "@ + arch + " instruction. Immediate "@ + signed_decimal(n)
        + " is out of range."@
}

/// Builds `immediate_message(arch, n)` for an unsigned immediate.
pub(crate) fn unsigned_immediate_message(arch: &str, n: u64) -> (r: String)
    ensures
        r@ == immediate_message(arch@, n as int),
{
    let mut s = String::from_str("Cannot assemble this ");
    s.append(arch);
    s.append(" instruction. Immediate ");
    push_decimal(&mut s, n);
    s.append(" is out of range.");
    assert(s@ =~= immediate_message(arch@, n as int));
    s
}

/// Builds `immediate_message(arch, n)` for a signed immediate.
pub(crate) fn signed_immediate_message(arch: &str, n: i64) -> (r: String)
    ensures
        r@ == immediate_message(arch@, n as int),
{
    let mut s = String::from_str("Cannot assemble this ");
    s.append(arch);
    s.append(" instruction. Immediate ");
    push_signed_decimal(&mut s, n);
    s.append(" is out of range.");
    assert(s@ =~= immediate_message(arch@, n as int));
    s
}

/// The message `"Cannot assemble this <arch> instruction. Register x<n> cannot be encoded."`.
pub open spec fn register_message(arch: Seq<char>, n: int) -> Seq<char> {
    "Cannot assemble this "@ + arch + " instruction. Register x"@ + signed_decimal(n)
        + " cannot be encoded."@
}

/// Builds `register_message(arch, n)`.
pub(crate) fn invalid_register_message(arch: &str, n: u8) -> (r: String)
    ensures
        r@ == register_message(arch@, n as int),
{
    let mut s = String::from_str("Cannot assemble this ");
    s.append(arch);
    s.append(" instruction. Register x");
    push_decimal(&mut s, n as u64);
    s.append(" cannot be encoded.");
    assert(s@ =~= register_message(arch@, n as int));
    s
}

} // verus!
