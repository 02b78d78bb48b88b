use vstd::prelude::*;

verus! {

/// Decimal digits of a non-negative number, most significant first; `0`
/// becomes `"0"`.
pub open spec fn dec_digits(n: int) -> Seq<u8>
    decreases n,
{
    if n < 10 {
        seq![(48 + (if n >= 0 {
            n
        } else {
            0
        })) as u8]
    } else {
        dec_digits(n / 10) + seq![(48 + n % 10) as u8]
    }
}

/// Decimal rendering of a signed number: a leading minus sign for a negative
/// one, then the digits of its magnitude.
pub open spec fn dec_of(v: int) -> Seq<u8> {
    if v < 0 {
        seq![45u8] + dec_digits(-v)
    } else {
        dec_digits(v)
    }
}

/// The outbound move command for velocity `v`: the bytes of
/// `"XM,<RAMP_T>,<RAMP_T>,<v>"` with the fixed ramp parameter 4.
pub open spec fn command_line(v: int) -> Seq<u8> {
    seq![88u8, 77u8, 44u8, 52u8, 44u8, 52u8, 44u8] + dec_of(v)
}

/// Render a number's decimal digits, magnitude only.
fn push_digits(out: &mut Vec<u8>, m: u64)
    ensures
        final(out)@ == old(out)@ + dec_digits(m as int),
{
    let mut digits: Vec<u8> = Vec::new();
    let mut cur: u64 = m;
    digits.push(48 + ((cur % 10) as u8));
    cur = cur / 10;
    proof {
        assert(digits@ =~= seq![(48 + (m as int) % 10) as u8]);
    }
    while cur > 0
        invariant
            digits@.len() >= 1,
            cur == 0 ==> dec_digits(m as int) == digits@,
            cur > 0 ==> dec_digits(m as int) == dec_digits(cur as int) + digits@,
        decreases cur,
    {
        let d: u8 = 48 + ((cur % 10) as u8);
        let ghost dpre = digits@;
        let ghost curg = cur as int;
        digits.insert(0, d);
        proof {
            assert(digits@ =~= seq![d] + dpre);
            if curg >= 10 {
                assert(dec_digits(curg) == dec_digits(curg / 10) + seq![d]);
                assert(dec_digits(curg / 10) + (seq![d] + dpre) =~= (dec_digits(curg / 10)
                    + seq![d]) + dpre);
            } else {
                assert(curg % 10 == curg);
                assert(dec_digits(curg) == seq![d]);
            }
        }
        cur = cur / 10;
    }
    let mut k: usize = 0;
    let dn = digits.len();
    while k < dn
        invariant
            dn == digits@.len(),
            k <= dn,
            out@ == old(out)@ + digits@.take(k as int),
        decreases dn - k,
    {
        out.push(digits[k]);
        proof {
            assert((old(out)@ + digits@.take(k as int)).push(digits@[k as int]) =~= old(out)@
                + digits@.take(k + 1));
        }
        k = k + 1;
    }
    proof {
        assert(digits@.take(dn as int) =~= digits@);
    }
}

/// Render the decimal of a signed number at the end of `out`.
pub fn push_decimal(out: &mut Vec<u8>, v: i32)
    ensures
        final(out)@ == old(out)@ + dec_of(v as int),
{
    if v < 0 {
        out.push(45);
        let m: u64 = (-(v as i64)) as u64;
        let ghost mid = out@;
        proof {
            assert(mid =~= old(out)@ + seq![45u8]);
        }
        push_digits(out, m);
        proof {
            assert((old(out)@ + seq![45u8]) + dec_digits(-(v as int)) =~= old(out)@ + (seq![45u8]
                + dec_digits(-(v as int))));
        }
    } else {
        push_digits(out, v as u64);
    }
}

/// Build the outbound move command line for velocity `v`.
pub fn format_command(v: i32) -> (r: Vec<u8>)
    ensures
        r@ == command_line(v as int),
{
    let mut out: Vec<u8> = Vec::new();
    out.push(88);
    out.push(77);
    out.push(44);
    out.push(52);
    out.push(44);
    out.push(52);
    out.push(44);
    proof {
        assert(out@ =~= seq![88u8, 77u8, 44u8, 52u8, 44u8, 52u8, 44u8]);
    }
    push_decimal(&mut out, v);
    out
}

} // verus!
