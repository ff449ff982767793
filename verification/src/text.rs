//! Building message text: hexadecimal and decimal numbers appended to a
//! `String`.
use vstd::prelude::*;

verus! {

/// Appends `c` to `s` with std's `String::push`, which appends the char at
/// the end: the contract states exactly that.
#[verifier::external_body]
pub(crate) fn push_char(s: &mut String, c: char)
    ensures
        final(s)@ == old(s)@.push(c),
{
    s.push(c);
}

/// Lower-case hexadecimal digit of `d` (`0 <= d < 16`).
pub open spec fn spec_hex_digit(d: int) -> char {
    if d < 10 { (48 + d) as char } else { (87 + d) as char }
}

/// The `n` low hexadecimal digits of `v`, most significant first.
pub open spec fn spec_hex(v: nat, n: nat) -> Seq<char>
    decreases n,
{
    if n == 0 { Seq::empty() } else { spec_hex(v / 16, (n - 1) as nat).push(spec_hex_digit((v % 16) as int)) }
}

/// Appends the `n` low hexadecimal digits of `v` to `s`.
pub fn push_hex(s: &mut String, v: u32, n: u32)
    ensures
        final(s)@ == old(s)@ + spec_hex(v as nat, n as nat),
    decreases n,
{
    if n > 0 {
        push_hex(s, v / 16, n - 1);
        let d = (v % 16) as u8;
        let c = if d < 10 { (0x30u8 + d) as char } else { (0x57u8 + d) as char };
        push_char(s, c);
        assert(spec_hex(v as nat, n as nat) == spec_hex((v / 16) as nat, (n - 1) as nat).push(c));
        assert(final(s)@ =~= old(s)@ + spec_hex(v as nat, n as nat));
    }
}

/// The decimal digits of `v`, most significant first, without leading
/// zeros.
pub open spec fn spec_decimal(v: nat) -> Seq<char>
    decreases v,
{
    if v < 10 { seq![spec_hex_digit(v as int)] } else { spec_decimal(v / 10).push(spec_hex_digit((v % 10) as int)) }
}

/// Appends the decimal digits of `v` to `s`.
pub fn push_decimal(s: &mut String, v: u32)
    ensures
        final(s)@ == old(s)@ + spec_decimal(v as nat),
    decreases v,
{
    let ghost s0 = s@;
    if v >= 10 {
        push_decimal(s, v / 10);
    }
    let d = (v % 10) as u8;
    push_char(s, (0x30u8 + d) as char);
    proof {
        if v >= 10 {
            assert(s@ =~= s0 + spec_decimal(v as nat));
        } else {
            assert(s@ =~= s0 + spec_decimal(v as nat));
        }
    }
}

} // verus!
