//! Character-level encodings: decimal renderings of integers and the
//! hexadecimal alphabet, shared by the signature builder and the frame
//! writer.

use vstd::prelude::*;

verus! {

/// The lowercase hexadecimal digit of the value `d`.
pub open spec fn hex_digit(d: int) -> char {
    if d == 0 {
        '0'
    } else if d == 1 {
        '1'
    } else if d == 2 {
        '2'
    } else if d == 3 {
        '3'
    } else if d == 4 {
        '4'
    } else if d == 5 {
        '5'
    } else if d == 6 {
        '6'
    } else if d == 7 {
        '7'
    } else if d == 8 {
        '8'
    } else if d == 9 {
        '9'
    } else if d == 10 {
        'a'
    } else if d == 11 {
        'b'
    } else if d == 12 {
        'c'
    } else if d == 13 {
        'd'
    } else if d == 14 {
        'e'
    } else {
        'f'
    }
}

/// The lowercase hexadecimal rendering of `bytes`: two digits per byte, high
/// nibble first, bytes in order.
pub open spec fn hex_of(bytes: Seq<u8>) -> Seq<char> {
    Seq::new(
        bytes.len() * 2,
        |i: int|
            if i % 2 == 0 {
                hex_digit(bytes[i / 2] as int / 16)
            } else {
                hex_digit(bytes[i / 2] as int % 16)
            },
    )
}

/// The ASCII byte of the decimal digit `d`.
pub open spec fn digit_byte(d: int) -> u8 {
    (48 + d) as u8
}

/// The ASCII decimal digits of the nonnegative number `n`, most significant
/// first.
pub open spec fn decimal_mag(n: int) -> Seq<u8>
    recommends
        0 <= n,
    decreases n,
{
    if n < 10 {
        seq![digit_byte(n)]
    } else {
        decimal_mag(n / 10).push(digit_byte(n % 10))
    }
}

/// The ASCII decimal rendering of `n`, a minus sign first when `n` is
/// negative: the bytes of `n.to_string()`.
pub open spec fn decimal_bytes(n: int) -> Seq<u8> {
    if n < 0 {
        seq![45u8] + decimal_mag(-n)
    } else {
        decimal_mag(n)
    }
}

/// Ten to the power `k`.
pub open spec fn pow10(k: nat) -> int
    decreases k,
{
    if k == 0 {
        1
    } else {
        10 * pow10((k - 1) as nat)
    }
}

/// A number below ten to the `k` has at most `k` decimal digits.
proof fn lemma_decimal_mag_len(n: int, k: nat)
    requires
        0 <= n < pow10(k),
        1 <= k,
    ensures
        decimal_mag(n).len() <= k,
    decreases k,
{
    if n < 10 {
    } else {
        assert(pow10(k) == 10 * pow10((k - 1) as nat));
        assert(n / 10 < pow10((k - 1) as nat)) by (nonlinear_arith)
            requires
                n < 10 * pow10((k - 1) as nat),
                10 <= n,
        ;
        assert(2 <= k);
        lemma_decimal_mag_len(n / 10, (k - 1) as nat);
    }
}

/// Any `i64` renders to at most 20 bytes.
pub proof fn lemma_decimal_bytes_len(n: int)
    requires
        i64::MIN <= n <= i64::MAX,
    ensures
        decimal_bytes(n).len() <= 20,
{
    assert(pow10(19) == 10_000_000_000_000_000_000) by {
        reveal_with_fuel(pow10, 21);
    }
    if n < 0 {
        lemma_decimal_mag_len(-n, 19);
    } else {
        lemma_decimal_mag_len(n, 19);
    }
}

/// Appends the decimal digits of `n`, most significant first.
fn push_mag(n: u64, out: &mut Vec<u8>)
    ensures
        final(out)@ == old(out)@ + decimal_mag(n as int),
    decreases n,
{
    if n < 10 {
        out.push(48 + n as u8);
        proof {
            assert(out@ =~= old(out)@ + decimal_mag(n as int));
        }
    } else {
        push_mag(n / 10, out);
        out.push(48 + (n % 10) as u8);
        proof {
            assert(out@ =~= old(out)@ + decimal_mag(n as int));
        }
    }
}

/// The ASCII decimal rendering of `n`: the same bytes the standard decimal
/// formatting of an `i64` produces.
pub fn encode_decimal(n: i64) -> (r: Vec<u8>)
    ensures
        r@ == decimal_bytes(n as int),
        r@.len() <= 20,
{
    let mut out: Vec<u8> = Vec::new();
    if n < 0 {
        out.push(45);
        let mag: u64 = if n == i64::MIN {
            9223372036854775808u64
        } else {
            (-n) as u64
        };
        proof {
            assert(mag as int == -(n as int));
        }
        push_mag(mag, &mut out);
        proof {
            assert(out@ =~= seq![45u8] + decimal_mag(-(n as int)));
            lemma_decimal_bytes_len(n as int);
        }
    } else {
        push_mag(n as u64, &mut out);
        proof {
            assert(out@ =~= decimal_mag(n as int));
            lemma_decimal_bytes_len(n as int);
        }
    }
    out
}

} // verus!
