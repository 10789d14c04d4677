//! Decimal rendering of the numbers that appear in reports: exit codes and
//! HTTP status codes.

use vstd::prelude::*;

verus! {

/// The decimal digits of `n`, most significant first, as ASCII bytes.
pub open spec fn dec_digits(n: nat) -> Seq<u8>
    decreases n,
{
    if n < 10 {
        seq![(48 + n) as u8]
    } else {
        dec_digits(n / 10).push((48 + n % 10) as u8)
    }
}

/// The decimal rendering of a signed number: a minus sign when negative,
/// then the digits of its magnitude.
pub open spec fn dec_signed(c: int) -> Seq<u8> {
    if c < 0 {
        seq![45u8] + dec_digits((-c) as nat)
    } else {
        dec_digits(c as nat)
    }
}

/// Renders `n` in decimal, as ASCII bytes.
pub fn u64_to_dec(n: u64) -> (r: Vec<u8>)
    ensures
        r@ == dec_digits(n as nat),
{
    let mut rev: Vec<u8> = Vec::new();
    let mut m: u64 = n;
    proof {
        assert(rev@.reverse() =~= Seq::<u8>::empty());
        assert(dec_digits(n as nat) =~= dec_digits(m as nat) + rev@.reverse());
    }
    while m >= 10
        invariant
            dec_digits(n as nat) == dec_digits(m as nat) + rev@.reverse(),
        decreases m,
    {
        let ghost rev0 = rev@;
        let d: u8 = 48 + (m % 10) as u8;
        rev.push(d);
        proof {
            assert(rev@.reverse() =~= seq![d] + rev0.reverse());
            assert(dec_digits(m as nat) + rev0.reverse() =~= dec_digits((m / 10) as nat)
                + rev@.reverse());
        }
        m = m / 10;
    }
    let mut out: Vec<u8> = Vec::new();
    out.push(48 + m as u8);
    proof {
        assert(dec_digits(m as nat) =~= seq![(48 + m) as u8]);
        assert(out@ =~= dec_digits(n as nat).take(1));
    }
    let total = rev.len();
    let mut k: usize = 0;
    while k < total
        invariant
            total == rev@.len(),
            k <= total,
            dec_digits(n as nat).len() == 1 + total,
            forall|j: int| 0 <= j < total ==> dec_digits(n as nat)[1 + j] == rev@.reverse()[j],
            out@ == dec_digits(n as nat).take(1 + k),
        decreases total - k,
    {
        out.push(rev[total - 1 - k]);
        proof {
            assert(rev@.reverse()[k as int] == rev@[total - 1 - k]);
            assert(out@ =~= dec_digits(n as nat).take(1 + k + 1));
        }
        k = k + 1;
    }
    proof {
        assert(dec_digits(n as nat).take(1 + total as int) =~= dec_digits(n as nat));
    }
    out
}

/// Renders a signed code in decimal, as ASCII bytes.
pub fn i32_to_dec(c: i32) -> (r: Vec<u8>)
    ensures
        r@ == dec_signed(c as int),
{
    if c < 0 {
        let m: u64 = (-(c as i64)) as u64;
        let mut out: Vec<u8> = Vec::new();
        out.push(45);
        let mut digits = u64_to_dec(m);
        out.append(&mut digits);
        proof {
            assert(out@ =~= seq![45u8] + dec_digits(m as nat));
        }
        out
    } else {
        u64_to_dec(c as u64)
    }
}

} // verus!
