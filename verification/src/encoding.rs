//! Text rendering of bytes and numbers: lower-case hex and decimal.

use vstd::prelude::*;
use vstd::string::StringExecFns;

verus! {

/// The lower-case hex digit for a value below 16.
pub open spec fn hex_digit(n: int) -> char {
    if n == 0 {
        '0'
    } else if n == 1 {
        '1'
    } else if n == 2 {
        '2'
    } else if n == 3 {
        '3'
    } else if n == 4 {
        '4'
    } else if n == 5 {
        '5'
    } else if n == 6 {
        '6'
    } else if n == 7 {
        '7'
    } else if n == 8 {
        '8'
    } else if n == 9 {
        '9'
    } else if n == 10 {
        'a'
    } else if n == 11 {
        'b'
    } else if n == 12 {
        'c'
    } else if n == 13 {
        'd'
    } else if n == 14 {
        'e'
    } else {
        'f'
    }
}

/// Lower-case hex rendering of a byte sequence, two digits per byte.
pub open spec fn hex_of(bytes: Seq<u8>) -> Seq<char>
    decreases bytes.len(),
{
    if bytes.len() == 0 {
        Seq::empty()
    } else {
        hex_of(bytes.drop_last()) + seq![
            hex_digit(bytes.last() as int / 16),
            hex_digit(bytes.last() as int % 16),
        ]
    }
}

/// Decimal rendering of a natural number, most significant digit first.
pub open spec fn dec_of(n: nat) -> Seq<char>
    decreases n,
{
    if n < 10 {
        seq![hex_digit(n as int)]
    } else {
        dec_of(n / 10) + seq![hex_digit((n % 10) as int)]
    }
}

/// The one-character string of a digit value below 16.
fn digit_str(n: u8) -> (r: &'static str)
    requires
        n < 16,
    ensures
        r@ == seq![hex_digit(n as int)],
{
    proof {
        reveal_strlit("0");
        reveal_strlit("1");
        reveal_strlit("2");
        reveal_strlit("3");
        reveal_strlit("4");
        reveal_strlit("5");
        reveal_strlit("6");
        reveal_strlit("7");
        reveal_strlit("8");
        reveal_strlit("9");
        reveal_strlit("a");
        reveal_strlit("b");
        reveal_strlit("c");
        reveal_strlit("d");
        reveal_strlit("e");
        reveal_strlit("f");
    }
    let r: &'static str = if n == 0 {
        "0"
    } else if n == 1 {
        "1"
    } else if n == 2 {
        "2"
    } else if n == 3 {
        "3"
    } else if n == 4 {
        "4"
    } else if n == 5 {
        "5"
    } else if n == 6 {
        "6"
    } else if n == 7 {
        "7"
    } else if n == 8 {
        "8"
    } else if n == 9 {
        "9"
    } else if n == 10 {
        "a"
    } else if n == 11 {
        "b"
    } else if n == 12 {
        "c"
    } else if n == 13 {
        "d"
    } else if n == 14 {
        "e"
    } else {
        "f"
    };
    proof {
        assert(r@ =~= seq![hex_digit(n as int)]);
    }
    r
}

/// Render bytes as lower-case hex, two digits per byte.
#[verifier::loop_isolation(false)]
pub fn hex_encode(bytes: &[u8]) -> (r: String)
    ensures
        r@ == hex_of(bytes@),
{
    let mut out = String::new();
    let n = bytes.len();
    let mut i: usize = 0;
    while i < n
        invariant
            i <= n,
            out@ == hex_of(bytes@.take(i as int)),
        decreases n - i,
    {
        let b = bytes[i];
        out.append(digit_str(b / 16));
        out.append(digit_str(b % 16));
        proof {
            assert(bytes@.take(i as int + 1).drop_last() =~= bytes@.take(i as int));
            assert(bytes@.take(i as int + 1).last() == bytes@[i as int]);
            assert(out@ =~= hex_of(bytes@.take(i as int + 1)));
        }
        i += 1;
    }
    proof {
        assert(bytes@.take(n as int) =~= bytes@);
    }
    out
}

/// The digit characters of the collected remainders, least significant
/// digit last.
spec fn digits_reversed(ds: Seq<u8>) -> Seq<char>
    decreases ds.len(),
{
    if ds.len() == 0 {
        Seq::empty()
    } else {
        seq![hex_digit(ds.last() as int)] + digits_reversed(ds.drop_last())
    }
}

/// Render a number in decimal.
#[verifier::loop_isolation(false)]
pub fn u64_to_dec(n: u64) -> (r: String)
    ensures
        r@ == dec_of(n as nat),
{
    if n == 0 {
        proof {
            reveal_strlit("0");
            assert("0"@ =~= dec_of(0));
        }
        return String::from_str("0");
    }
    let mut digits: Vec<u8> = Vec::new();
    let mut m = n;
    proof {
        assert(dec_of(n as nat) + digits_reversed(digits@) =~= dec_of(n as nat));
    }
    while m > 0
        invariant
            forall|a: int| 0 <= a < digits@.len() ==> digits@[a] < 16,
            dec_of(n as nat) == if m == 0 {
                digits_reversed(digits@)
            } else {
                dec_of(m as nat) + digits_reversed(digits@)
            },
        decreases m,
    {
        let d = (m % 10) as u8;
        let ghost digits0 = digits@;
        let ghost m0 = m as nat;
        digits.push(d);
        m = m / 10;
        proof {
            assert(digits@.drop_last() =~= digits0);
            assert(digits_reversed(digits@) == seq![hex_digit(d as int)] + digits_reversed(
                digits0,
            ));
            if m0 >= 10 {
                assert(dec_of(m0) == dec_of(m0 / 10) + seq![hex_digit((m0 % 10) as int)]);
                assert(dec_of(m0 / 10) + (seq![hex_digit(d as int)] + digits_reversed(digits0))
                    =~= (dec_of(m0 / 10) + seq![hex_digit(d as int)]) + digits_reversed(
                    digits0,
                ));
            } else {
                assert(dec_of(m0) == seq![hex_digit(d as int)]);
            }
        }
    }
    let mut out = String::new();
    let k = digits.len();
    let mut i: usize = k;
    proof {
        assert(digits@.take(k as int) =~= digits@);
    }
    while i > 0
        invariant
            i <= k,
            out@ + digits_reversed(digits@.take(i as int)) == digits_reversed(digits@),
        decreases i,
    {
        i -= 1;
        out.append(digit_str(digits[i]));
        proof {
            assert(digits@.take(i as int + 1).drop_last() =~= digits@.take(i as int));
            assert(digits@.take(i as int + 1).last() == digits@[i as int]);
            assert(out@ + digits_reversed(digits@.take(i as int)) =~= digits_reversed(
                digits@,
            ));
        }
    }
    proof {
        assert(digits@.take(0) =~= Seq::<u8>::empty());
        assert(out@ + Seq::<char>::empty() =~= out@);
    }
    out
}

} // verus!
