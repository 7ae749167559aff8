//! Rendering an unsigned integer in decimal, verified against a
//! recursive specification; the in-memory store stamps records with it.

use vstd::prelude::*;
use vstd::string::StringExecFns;

verus! {

/// The character for one decimal digit.
pub open spec fn digit_char(d: nat) -> char {
    if d == 0 {
        '0'
    } else if d == 1 {
        '1'
    } else if d == 2 {
        '2'
    } else if d == 3 {
        '3'
    } else if d == 4 {
        '4'
    } else if d == 5 {
        '5'
    } else if d == 6 {
        '6'
    } else if d == 7 {
        '7'
    } else if d == 8 {
        '8'
    } else {
        '9'
    }
}

/// The decimal digits of `n`, with no digit at all for zero.
pub open spec fn decimal_rest(n: nat) -> Seq<char>
    decreases n,
{
    if n == 0 {
        Seq::empty()
    } else {
        decimal_rest(n / 10) + seq![digit_char(n % 10)]
    }
}

/// The decimal rendering of `n`: `"0"` for zero, else its digits with
/// no leading zero.
pub open spec fn decimal_seq(n: nat) -> Seq<char> {
    if n == 0 {
        seq!['0']
    } else {
        decimal_rest(n)
    }
}

/// The characters of the digits `ds`, least-significant first, read in
/// reverse: the digits in their written order.
pub open spec fn digits_reversed(ds: Seq<u64>) -> Seq<char> {
    Seq::new(ds.len(), |k: int| digit_char(ds[ds.len() - 1 - k] as nat))
}

/// One decimal digit as a borrowed string.
fn digit_str(d: u64) -> (r: &'static str)
    requires
        d < 10,
    ensures
        r@ == seq![digit_char(d as nat)],
{
    let r: &'static str = if d == 0 {
        "0"
    } else if d == 1 {
        "1"
    } else if d == 2 {
        "2"
    } else if d == 3 {
        "3"
    } else if d == 4 {
        "4"
    } else if d == 5 {
        "5"
    } else if d == 6 {
        "6"
    } else if d == 7 {
        "7"
    } else if d == 8 {
        "8"
    } else {
        "9"
    };
    proof {
        reveal_strlit("0");
        reveal_strlit("1");
        reveal_strlit("2");
        reveal_strlit("3");
        reveal_strlit("4");
        reveal_strlit("5");
        reveal_strlit("6");
        reveal_strlit("7");
        reveal_strlit("8");
        reveal_strlit("9");
        assert(r@ =~= seq![digit_char(d as nat)]);
    }
    r
}

/// Renders `n` in decimal.
pub fn decimal_string(n: u64) -> (r: String)
    ensures
        r@ == decimal_seq(n as nat),
{
    if n == 0 {
        let r = "0".to_owned();
        proof {
            reveal_strlit("0");
            assert(r@ =~= decimal_seq(0));
        }
        return r;
    }
    let mut digits: Vec<u64> = Vec::new();
    let mut m: u64 = n;
    while m != 0
        invariant
            forall|k: int| 0 <= k < digits@.len() ==> digits@[k] < 10,
            decimal_rest(n as nat) == decimal_rest(m as nat) + digits_reversed(digits@),
        decreases m,
    {
        let ghost before = digits@;
        let ghost m0 = m as nat;
        let d = m % 10;
        digits.push(d);
        m = m / 10;
        proof {
            assert(decimal_rest(m0) == decimal_rest(m0 / 10) + seq![digit_char(m0 % 10)]);
            assert(digits_reversed(digits@) =~= seq![digit_char(d as nat)] + digits_reversed(
                before,
            ));
            assert(decimal_rest(m as nat) + digits_reversed(digits@) =~= decimal_rest(m0)
                + digits_reversed(before));
        }
    }
    proof {
        assert(decimal_rest(n as nat) =~= digits_reversed(digits@));
    }
    let mut r = String::new();
    let mut i: usize = digits.len();
    while i > 0
        invariant
            i <= digits@.len(),
            forall|k: int| 0 <= k < digits@.len() ==> digits@[k] < 10,
            r@ == digits_reversed(digits@).subrange(0, digits@.len() - i),
        decreases i,
    {
        let ghost r0 = r@;
        let ghost len = digits@.len() as int;
        i = i - 1;
        r.append(digit_str(digits[i]));
        proof {
            assert(r@ =~= digits_reversed(digits@).subrange(0, len - i));
        }
    }
    proof {
        assert(r@ =~= digits_reversed(digits@));
    }
    r
}

} // verus!
