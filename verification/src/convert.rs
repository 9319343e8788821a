use vstd::prelude::*;
use vstd::std_specs::bits::u64_leading_zeros;

use crate::error::Error;
use crate::random::RandomEngine;

verus! {

/// The IEEE-754 bit pattern of the double 1.0: a biased exponent of 1023
/// and an all-zero 52-bit mantissa.
pub const ONE_F64_BITS: u64 = 0x3FF0000000000000;

/// The low 52 bits of a 64-bit word: the mantissa field of a double.
pub const MANTISSA_MASK: u64 = 0xFFFFFFFFFFFFF;

/// The fast uniform conversion, up to the final float step: the top 52 bits
/// of the draw become the mantissa of a double in `[1, 2)`. The caller
/// reinterprets the result as a double and subtracts 1.0 (an exact
/// operation there), landing on `mantissa * 2^-52`, uniform in `[0, 1)`
/// with resolution `2^-52`.
pub open spec fn uniform_fast_bits_spec(bits: u64) -> u64 {
    ((bits >> 12) + ONE_F64_BITS) as u64
}

/// Maps one raw unsigned 64-bit draw to the bit pattern of a double in
/// `[1, 2)` whose fractional part is uniform with resolution `2^-52`.
pub fn uniform_fast_bits(bits: u64) -> (r: u64)
    ensures
        r == uniform_fast_bits_spec(bits),
        ONE_F64_BITS <= r <= 0x3FFFFFFFFFFFFFFF,
{
    proof {
        assert((bits >> 12) <= 0xFFFFFFFFFFFFF) by (bit_vector);
    }
    (bits >> 12) + ONE_F64_BITS
}

/// The two stated endpoints of the fast conversion: a zero draw gives the
/// pattern of exactly 1.0 (so 0.0 after the subtraction), and the largest
/// 64-bit draw gives the pattern of `2 - 2^-52` (so `1 - 2^-52` after the
/// subtraction).
pub proof fn lemma_uniform_fast_bits_endpoints()
    ensures
        uniform_fast_bits_spec(0) == ONE_F64_BITS,
        uniform_fast_bits_spec(0xFFFFFFFFFFFFFFFF) == 0x3FFFFFFFFFFFFFFF,
{
    assert((0u64 >> 12) == 0) by (bit_vector);
    assert((0xFFFFFFFFFFFFFFFFu64 >> 12) == 0xFFFFFFFFFFFFFu64) by (bit_vector);
}

/// The fast conversion is monotonic non-decreasing in the raw draw; since
/// reinterpreting bit patterns in `[1, 2)` as doubles is order-preserving,
/// so is the converted double.
pub proof fn lemma_uniform_fast_bits_monotone(a: u64, b: u64)
    requires
        a <= b,
    ensures
        uniform_fast_bits_spec(a) <= uniform_fast_bits_spec(b),
{
    assert(a <= b ==> (a >> 12) <= (b >> 12)) by (bit_vector);
    assert((a >> 12) <= 0xFFFFFFFFFFFFF && (b >> 12) <= 0xFFFFFFFFFFFFF) by (bit_vector);
}

/// The extended leading-zero count of the precise conversion, together
/// with the engine state after its extra draws. Starting from a count
/// `acc`, one more word is drawn; if it is not all zero its leading zeros
/// are added and the count settles, otherwise 64 is added and drawing
/// continues. The combined count is capped at 1022.
pub open spec fn precise_lz_spec<E: RandomEngine>(e: E, acc: int) -> (int, E)
    decreases 1022 - acc,
{
    if acc >= 1022 {
        (1022, e)
    } else {
        let d = e.out64();
        let lz = u64_leading_zeros(d);
        let e2 = e.step();
        if lz != 64 {
            (if acc + lz >= 1022 { 1022int } else { acc + lz }, e2)
        } else if acc + 64 >= 1022 {
            (1022, e2)
        } else {
            precise_lz_spec(e2, acc + 64)
        }
    }
}

/// The precise uniform conversion, up to the final float step: one draw
/// supplies the mantissa (its low 52 bits); its leading-zero count, pushed
/// further by extra draws when it saturates at 12 and capped at 1022,
/// determines an extended exponent `1022 - count`. The result pairs the
/// composed bit pattern with the engine state left behind.
pub open spec fn precise_result<E: RandomEngine>(e: E) -> (u64, E) {
    let d = e.out64();
    let e1 = e.step();
    let lz0 = u64_leading_zeros(d);
    let r = if lz0 < 12 {
        (lz0, e1)
    } else {
        precise_lz_spec(e1, 12)
    };
    ((((1022 - r.0) as u64) << 52) | (d & MANTISSA_MASK), r.1)
}

proof fn lemma_precise_lz_spec_range<E: RandomEngine>(e: E, acc: int)
    requires
        0 <= acc <= 1022,
    ensures
        0 <= acc <= precise_lz_spec(e, acc).0 <= 1022,
    decreases 1022 - acc,
{
    vstd::std_specs::bits::axiom_u64_leading_zeros(e.out64());
    if acc < 1022 && u64_leading_zeros(e.out64()) == 64 && acc + 64 < 1022 {
        lemma_precise_lz_spec_range(e.step(), acc + 64);
    }
}

fn precise_lz_from<E: RandomEngine>(e: &mut E, acc: u64) -> (r: u64)
    requires
        old(e).wide(),
        12 <= acc < 1022,
    ensures
        r as int == precise_lz_spec(*old(e), acc as int).0,
        *final(e) == precise_lz_spec(*old(e), acc as int).1,
        final(e).wide(),
        acc <= r <= 1022,
    decreases 1022 - acc,
{
    let ghost e0 = *e;
    let d = e.next_u64().unwrap();
    let lz = d.leading_zeros() as u64;
    proof {
        vstd::std_specs::bits::axiom_u64_leading_zeros(d);
    }
    if lz != 64 {
        let total = acc + lz;
        if total >= 1022 {
            1022
        } else {
            total
        }
    } else if acc + 64 >= 1022 {
        1022
    } else {
        let r = precise_lz_from(e, acc + 64);
        proof {
            lemma_precise_lz_spec_range(e0.step(), acc as int + 64);
        }
        r
    }
}

/// Produces the bit pattern of a double in `[0, 1)` with full
/// subnormal-extended precision near zero, drawing one word for the
/// mantissa and, rarely, further words to extend the exponent; the 32-bit
/// engine variant cannot supply 64-bit draws and reports
/// `UnsupportedOperation` with its state untouched. The caller
/// reinterprets an `Ok` pattern as a double; no subtraction is needed.
pub fn uniform_precise_bits<E: RandomEngine>(e: &mut E) -> (r: Result<u64, Error>)
    ensures
        old(e).wide() ==> r == Ok::<u64, Error>(precise_result(*old(e)).0) && *final(e)
            == precise_result(*old(e)).1,
        !old(e).wide() ==> r == Err::<u64, Error>(Error::UnsupportedOperation) && *final(e)
            == *old(e),
        final(e).wide() == old(e).wide(),
{
    let ghost e0 = *e;
    let d = match e.next_u64() {
        Ok(v) => v,
        Err(err) => {
            return Err(err);
        },
    };
    let lz32 = d.leading_zeros();
    let lz: u64 = if lz32 < 12 {
        lz32 as u64
    } else {
        precise_lz_from(e, 12)
    };
    proof {
        vstd::std_specs::bits::axiom_u64_leading_zeros(d);
        if lz32 >= 12 {
            lemma_precise_lz_spec_range(e0.step(), 12);
        }
    }
    let exponent = (1022 - lz) << 52u64;
    let mantissa = d & MANTISSA_MASK;
    Ok(exponent | mantissa)
}

} // verus!
