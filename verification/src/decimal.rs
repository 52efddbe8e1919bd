//! Decimal rendering of unsigned numbers, verified against a recursive
//! description of the digit sequence.

use vstd::prelude::*;
use vstd::string::*;

verus! {

/// The character of one decimal digit.
pub open spec fn dec_digit_char(d: int) -> char
    recommends
        0 <= d < 10,
{
    if d == 0 {
        '0'
    } else if d == 1 {
        '1'
    } else if d == 2 {
        '2'
    } else if d == 3 {
        '3'
    } else if d == 4 {
        '4'
    } else if d == 5 {
        '5'
    } else if d == 6 {
        '6'
    } else if d == 7 {
        '7'
    } else if d == 8 {
        '8'
    } else {
        '9'
    }
}

/// The decimal rendering of a number, most significant digit first.
pub open spec fn spec_decimal(n: int) -> Seq<char>
    recommends
        n >= 0,
    decreases n,
{
    if n < 10 {
        seq![dec_digit_char(n)]
    } else {
        spec_decimal(n / 10).push(dec_digit_char(n % 10))
    }
}

/// Appends one digit's character.
fn push_digit(s: &mut String, d: u64)
    requires
        d < 10,
    ensures
        final(s)@ == old(s)@ + seq![dec_digit_char(d as int)],
{
    match d {
        0 => {
            proof {
                reveal_strlit("0");
                assert("0"@ =~= seq![dec_digit_char(0)]);
            }
            s.append("0");
        },
        1 => {
            proof {
                reveal_strlit("1");
                assert("1"@ =~= seq![dec_digit_char(1)]);
            }
            s.append("1");
        },
        2 => {
            proof {
                reveal_strlit("2");
                assert("2"@ =~= seq![dec_digit_char(2)]);
            }
            s.append("2");
        },
        3 => {
            proof {
                reveal_strlit("3");
                assert("3"@ =~= seq![dec_digit_char(3)]);
            }
            s.append("3");
        },
        4 => {
            proof {
                reveal_strlit("4");
                assert("4"@ =~= seq![dec_digit_char(4)]);
            }
            s.append("4");
        },
        5 => {
            proof {
                reveal_strlit("5");
                assert("5"@ =~= seq![dec_digit_char(5)]);
            }
            s.append("5");
        },
        6 => {
            proof {
                reveal_strlit("6");
                assert("6"@ =~= seq![dec_digit_char(6)]);
            }
            s.append("6");
        },
        7 => {
            proof {
                reveal_strlit("7");
                assert("7"@ =~= seq![dec_digit_char(7)]);
            }
            s.append("7");
        },
        8 => {
            proof {
                reveal_strlit("8");
                assert("8"@ =~= seq![dec_digit_char(8)]);
            }
            s.append("8");
        },
        _ => {
            proof {
                reveal_strlit("9");
                assert("9"@ =~= seq![dec_digit_char(9)]);
            }
            s.append("9");
        },
    }
}

/// The digit characters of collected remainders, most significant first.
pub open spec fn rev_digit_chars(digits: Seq<u64>) -> Seq<char> {
    Seq::new(digits.len(), |i: int| dec_digit_char(digits[digits.len() - 1 - i] as int))
}

/// Renders a number in decimal.
pub fn u64_to_decimal(n: u64) -> (r: String)
    ensures
        r@ == spec_decimal(n as int),
{
    let mut digits: Vec<u64> = Vec::new();
    let mut m = n;
    loop
        invariant_except_break
            forall|k: int| 0 <= k < digits@.len() ==> digits@[k] < 10,
            (digits@.len() == 0 && m == n) || (digits@.len() >= 1 && m >= 1 && spec_decimal(
                n as int,
            ) == spec_decimal(m as int) + rev_digit_chars(digits@)),
        ensures
            forall|k: int| 0 <= k < digits@.len() ==> digits@[k] < 10,
            spec_decimal(n as int) == rev_digit_chars(digits@),
        decreases m,
    {
        let ghost old_digits = digits@;
        let ghost old_m = m;
        let d = m % 10;
        digits.push(d);
        m = m / 10;
        proof {
            let nd = digits@;
            assert(rev_digit_chars(nd) =~= seq![dec_digit_char(d as int)] + rev_digit_chars(
                old_digits,
            ));
            if old_m < 10 {
                assert(spec_decimal(old_m as int) =~= seq![dec_digit_char(d as int)]);
                if old_digits.len() == 0 {
                    assert(spec_decimal(n as int) =~= rev_digit_chars(nd));
                } else {
                    assert(spec_decimal(n as int) =~= rev_digit_chars(nd));
                }
            } else {
                assert(spec_decimal(old_m as int) =~= spec_decimal(m as int) + seq![
                    dec_digit_char(d as int),
                ]);
                if old_digits.len() == 0 {
                    assert(spec_decimal(n as int) =~= spec_decimal(m as int) + rev_digit_chars(
                        nd,
                    ));
                } else {
                    assert(spec_decimal(n as int) =~= spec_decimal(m as int) + rev_digit_chars(
                        nd,
                    ));
                }
            }
        }
        if m == 0 {
            break;
        }
    }
    let mut out = String::new();
    let mut j = digits.len();
    while j > 0
        invariant
            j <= digits@.len(),
            forall|k: int| 0 <= k < digits@.len() ==> digits@[k] < 10,
            out@ =~= rev_digit_chars(digits@).subrange(0, digits@.len() - j),
        decreases j,
    {
        let d = digits[j - 1];
        push_digit(&mut out, d);
        proof {
            assert(out@ =~= rev_digit_chars(digits@).subrange(0, digits@.len() - (j - 1)));
        }
        j = j - 1;
    }
    proof {
        assert(rev_digit_chars(digits@).subrange(0, digits@.len() as int) =~= rev_digit_chars(
            digits@,
        ));
    }
    out
}

} // verus!
