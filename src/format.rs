//! Decimal rendering of integer amounts, including amounts in MIST shown
//! as whole coins with six decimal places.

use vstd::prelude::*;

verus! {

/// The decimal digit for `d` in `0..10`.
pub open spec fn digit(d: int) -> char {
    seq!['0', '1', '2', '3', '4', '5', '6', '7', '8', '9'][d]
}

/// Decimal notation of `n`, without leading zeros.
pub open spec fn decimal(n: nat) -> Seq<char>
    decreases n,
{
    if n < 10 {
        seq![digit(n as int)]
    } else {
        decimal(n / 10).push(digit((n % 10) as int))
    }
}

/// The last `w` decimal digits of `n`, padded with leading zeros.
pub open spec fn padded(n: nat, w: nat) -> Seq<char>
    decreases w,
{
    if w == 0 {
        Seq::empty()
    } else {
        padded(n / 10, (w - 1) as nat).push(digit((n % 10) as int))
    }
}

/// A count of millionths written as a number with six decimal places.
pub open spec fn fixed6(m: nat) -> Seq<char> {
    decimal(m / 1_000_000) + seq!['.'] + padded(m % 1_000_000, 6)
}

/// A MIST amount in millionths of a coin, rounded to nearest, halves up.
pub open spec fn millionths(mist: nat) -> nat {
    (mist + 500) / 1000
}

/// The unit suffix of coin amounts.
pub open spec fn sui_suffix() -> Seq<char> {
    " SUI"@
}

/// An unsigned MIST amount as coins: `0.000001 SUI`.
pub open spec fn sui_text(mist: nat) -> Seq<char> {
    fixed6(millionths(mist)) + sui_suffix()
}

/// Explicit sign of a signed amount: `-` below zero, `+` otherwise.
pub open spec fn sign_char(a: int) -> char {
    if a < 0 {
        '-'
    } else {
        '+'
    }
}

/// Magnitude of a signed amount.
pub open spec fn magnitude(a: int) -> nat {
    if a < 0 {
        (-a) as nat
    } else {
        a as nat
    }
}

/// A signed MIST amount as coins with explicit sign: `-2.500000 SUI`.
pub open spec fn signed_sui_text(a: int) -> Seq<char> {
    seq![sign_char(a)] + sui_text(magnitude(a))
}

/// A signed integer with explicit sign: `+42`.
pub open spec fn signed_text(a: int) -> Seq<char> {
    seq![sign_char(a)] + decimal(magnitude(a))
}

/// The decimal digit character for `d`.
pub fn digit_char(d: u128) -> (c: char)
    requires
        d < 10,
    ensures
        c == digit(d as int),
{
    match d {
        0 => '0',
        1 => '1',
        2 => '2',
        3 => '3',
        4 => '4',
        5 => '5',
        6 => '6',
        7 => '7',
        8 => '8',
        _ => '9',
    }
}

/// Appends the decimal notation of `n`.
pub fn push_decimal(s: &mut String, n: u128)
    ensures
        final(s)@ == old(s)@ + decimal(n as nat),
    decreases n,
{
    if n >= 10 {
        push_decimal(s, n / 10);
    }
    s.push(digit_char(n % 10));
    assert(final(s)@ =~= old(s)@ + decimal(n as nat));
}

/// Appends the last `w` digits of `n`, zero-padded.
pub fn push_padded(s: &mut String, n: u128, w: u32)
    ensures
        final(s)@ == old(s)@ + padded(n as nat, w as nat),
    decreases w,
{
    if w > 0 {
        push_padded(s, n / 10, w - 1);
        s.push(digit_char(n % 10));
        assert(final(s)@ =~= old(s)@ + padded(n as nat, w as nat));
    } else {
        assert(final(s)@ =~= old(s)@ + padded(n as nat, w as nat));
    }
}

/// Appends a MIST amount as coins with six decimals and the unit suffix.
pub fn push_sui(s: &mut String, mist: u128)
    requires
        mist <= u128::MAX - 500,
    ensures
        final(s)@ == old(s)@ + sui_text(mist as nat),
{
    let m = (mist + 500) / 1000;
    push_decimal(s, m / 1_000_000);
    s.push('.');
    push_padded(s, m % 1_000_000, 6);
    s.append(" SUI");
    assert(final(s)@ =~= old(s)@ + sui_text(mist as nat));
}

/// Renders a gas amount in MIST as coins: `0.000001 SUI`.
pub fn format_sui(mist: u64) -> (r: String)
    ensures
        r@ == sui_text(mist as nat),
{
    let mut r = String::new();
    push_sui(&mut r, mist as u128);
    assert(r@ =~= sui_text(mist as nat));
    r
}

/// Magnitude of an `i128`, which always fits in a `u128`.
pub fn magnitude_exec(a: i128) -> (r: u128)
    ensures
        r == magnitude(a as int),
{
    if a < 0 {
        ((-(a + 1)) as u128) + 1
    } else {
        a as u128
    }
}

/// Renders a signed MIST amount as coins with explicit sign:
/// `-2.500000 SUI`.
pub fn format_signed_sui(amount: i128) -> (r: String)
    ensures
        r@ == signed_sui_text(amount as int),
{
    let mut r = String::new();
    r.push(if amount < 0 { '-' } else { '+' });
    push_sui(&mut r, magnitude_exec(amount));
    assert(r@ =~= signed_sui_text(amount as int));
    r
}

/// Renders a signed integer with explicit sign: `+42`.
pub fn format_signed(amount: i128) -> (r: String)
    ensures
        r@ == signed_text(amount as int),
{
    let mut r = String::new();
    r.push(if amount < 0 { '-' } else { '+' });
    push_decimal(&mut r, magnitude_exec(amount));
    assert(r@ =~= signed_text(amount as int));
    r
}

} // verus!
