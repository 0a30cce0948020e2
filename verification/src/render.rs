//! Verified decimal rendering of integers, used by the diagnostic and
//! profiling output encodings.

use vstd::prelude::*;

verus! {

/// The decimal digit character for `d` (which callers keep below 10).
pub open spec fn digit_char(d: nat) -> char {
    if d == 0 { '0' }
    else if d == 1 { '1' }
    else if d == 2 { '2' }
    else if d == 3 { '3' }
    else if d == 4 { '4' }
    else if d == 5 { '5' }
    else if d == 6 { '6' }
    else if d == 7 { '7' }
    else if d == 8 { '8' }
    else { '9' }
}

/// The decimal digits of `n`, most significant first.
pub open spec fn dec_u64(n: nat) -> Seq<char>
    decreases n,
{
    if n < 10 {
        seq![digit_char(n)]
    } else {
        dec_u64(n / 10) + seq![digit_char(n % 10)]
    }
}

/// The decimal digits of `x`, with a leading minus sign when negative.
pub open spec fn dec_i64(x: int) -> Seq<char> {
    if x < 0 {
        seq!['-'] + dec_u64((-x) as nat)
    } else {
        dec_u64(x as nat)
    }
}

/// The digit characters of `ds`, last digit first.
spec fn rev_digit_chars(ds: Seq<u64>) -> Seq<char>
    decreases ds.len(),
{
    if ds.len() == 0 {
        Seq::<char>::empty()
    } else {
        seq![digit_char(ds.last() as nat)] + rev_digit_chars(ds.drop_last())
    }
}

/// One-character string for the digit `d`.
fn digit_str(d: u64) -> (r: &'static str)
    requires
        d < 10,
    ensures
        r@ =~= seq![digit_char(d as nat)],
{
    proof {
        reveal_strlit("0");
        reveal_strlit("1");
        reveal_strlit("2");
        reveal_strlit("3");
        reveal_strlit("4");
        reveal_strlit("5");
        reveal_strlit("6");
        reveal_strlit("7");
        reveal_strlit("8");
        reveal_strlit("9");
    }
    match d {
        0 => "0",
        1 => "1",
        2 => "2",
        3 => "3",
        4 => "4",
        5 => "5",
        6 => "6",
        7 => "7",
        8 => "8",
        _ => "9",
    }
}

/// Append the decimal rendering of `n` to `out`.
pub fn append_u64(out: &mut String, n: u64)
    ensures
        final(out)@ =~= old(out)@ + dec_u64(n as nat),
{
    if n == 0 {
        proof {
            reveal_strlit("0");
        }
        out.append("0");
        return;
    }
    let mut digits: Vec<u64> = Vec::new();
    let mut m: u64 = n;
    while m > 0
        invariant
            forall|i: int| 0 <= i < digits@.len() ==> digits@[i] < 10,
            m > 0 ==> dec_u64(n as nat) =~= dec_u64(m as nat) + rev_digit_chars(digits@),
            m == 0 ==> dec_u64(n as nat) =~= rev_digit_chars(digits@),
        decreases m,
    {
        let d: u64 = m % 10;
        let ghost pre = digits@;
        let ghost m0 = m;
        digits.push(d);
        m = m / 10;
        proof {
            assert(digits@.drop_last() =~= pre);
            assert(rev_digit_chars(digits@) =~= seq![digit_char(d as nat)]
                + rev_digit_chars(pre));
            if m0 >= 10 {
                assert(dec_u64(m0 as nat) =~= dec_u64((m0 / 10) as nat) + seq![
                    digit_char((m0 % 10) as nat),
                ]);
                assert(dec_u64(n as nat) =~= dec_u64(m as nat) + rev_digit_chars(digits@));
            } else {
                assert(dec_u64(m0 as nat) =~= seq![digit_char(m0 as nat)]);
                assert(dec_u64(n as nat) =~= rev_digit_chars(digits@));
            }
        }
    }
    while digits.len() > 0
        invariant
            forall|i: int| 0 <= i < digits@.len() ==> digits@[i] < 10,
            old(out)@ + dec_u64(n as nat) =~= out@ + rev_digit_chars(digits@),
        decreases digits@.len(),
    {
        let ghost pre = digits@;
        let d = match digits.pop() {
            Option::Some(d) => d,
            Option::None => 0,
        };
        proof {
            assert(digits@ =~= pre.drop_last());
            assert(rev_digit_chars(pre) =~= seq![digit_char(d as nat)]
                + rev_digit_chars(digits@));
        }
        out.append(digit_str(d));
    }
    proof {
        assert(rev_digit_chars(Seq::<u64>::empty()) =~= Seq::<char>::empty());
        assert(final(out)@ =~= old(out)@ + dec_u64(n as nat));
    }
}

/// Append the decimal rendering of `x`, signed, to `out`.
pub fn append_i64(out: &mut String, x: i64)
    ensures
        final(out)@ =~= old(out)@ + dec_i64(x as int),
{
    if x < 0 {
        proof {
            reveal_strlit("-");
        }
        out.append("-");
        let ghost mid = out@;
        let mag: u64 = ((-(x + 1)) as u64) + 1;
        append_u64(out, mag);
        proof {
            assert(mag as nat == (-(x as int)) as nat);
        }
    } else {
        append_u64(out, x as u64);
    }
}

/// The decimal rendering of `n` as a fresh string.
pub fn u64_to_string(n: u64) -> (s: String)
    ensures
        s@ =~= dec_u64(n as nat),
{
    let mut s = String::new();
    append_u64(&mut s, n);
    s
}

} // verus!
