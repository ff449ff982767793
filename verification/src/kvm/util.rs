use vstd::prelude::*;

verus! {

/// `value` rounded up to the next multiple of `align`.
pub open spec fn spec_align_up(value: int, align: int) -> int {
    ((value + align - 1) / align) * align
}

/// Rounds `value` up to the next multiple of `align`.
pub fn align_up(value: usize, align: usize) -> (r: usize)
    requires
        align > 0,
        spec_align_up(value as int, align as int) <= usize::MAX,
    ensures
        r == spec_align_up(value as int, align as int),
        r >= value,
        r % align == 0,
        r < value + align,
{
    let q = value / align;
    let rem = value % align;
    proof {
        vstd::arithmetic::div_mod::lemma_fundamental_div_mod(value as int, align as int);
    }
    if rem == 0 {
        proof {
            assert((value + align - 1) / (align as int) == q) by {
                vstd::arithmetic::div_mod::lemma_fundamental_div_mod_converse(
                    value + align - 1, align as int, q as int, align - 1);
            }
            vstd::arithmetic::div_mod::lemma_mod_multiples_basic(q as int, align as int);
            assert(q * align == value) by (nonlinear_arith)
                requires value == align * q + rem, rem == 0;
        }
        value
    } else {
        proof {
            assert((q + 1) * align == q * align + align) by (nonlinear_arith);
            assert((value + align - 1) / (align as int) == q + 1) by {
                vstd::arithmetic::div_mod::lemma_fundamental_div_mod_converse(
                    value + align - 1, align as int, q + 1, rem - 1);
            }
            vstd::arithmetic::div_mod::lemma_mod_multiples_basic(q + 1, align as int);
            assert((q + 1) * align == value - rem + align) by (nonlinear_arith)
                requires value == align * q + rem;
        }
        (q + 1) * align
    }
}

/// The text of the calling thread's last OS error, as std's
/// `io::Error::last_os_error` formats it. It depends on what the last
/// system call did, so nothing is stated of it.
#[verifier::external_body]
fn os_error_text() -> (r: String)
{
    format!("{}", std::io::Error::last_os_error())
}

/// `context`, a colon and a space, then the text of the last OS error.
pub fn last_os_error(context: &str) -> (r: String)
    ensures
        exists|t: Seq<char>| r@ == context@ + ": "@ + t,
{
    let mut s = String::new();
    s.append(context);
    s.append(": ");
    let t = os_error_text();
    s.append(t.as_str());
    proof {
        assert(s@ == context@ + ": "@ + t@);
    }
    s
}

} // verus!
