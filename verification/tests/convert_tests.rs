use pso::{
    uniform_fast_bits, uniform_precise_bits, Error, RandomEngine, RomuDuoJr, RomuTrio32,
    MANTISSA_MASK, ONE_F64_BITS,
};

/// The float the fast conversion stands for: reinterpret the bit pattern
/// and subtract 1.0.
fn uniform_fast(bits: u64) -> f64 {
    f64::from_bits(uniform_fast_bits(bits)) - 1.0
}

#[test]
fn uniform_fast_endpoints() {
    assert_eq!(uniform_fast(0), 0.0);
    assert_eq!(uniform_fast(u64::MAX), 1.0 - 2f64.powi(-52));
    assert_eq!(uniform_fast_bits(0), ONE_F64_BITS);
}

#[test]
fn uniform_fast_resolution_and_range() {
    // the smallest draw that moves the output at all
    assert_eq!(uniform_fast(1u64 << 12), 2f64.powi(-52));
    assert_eq!(uniform_fast((1u64 << 12) - 1), 0.0);
    for bits in [0u64, 1, 4095, 4096, 1 << 32, u64::MAX / 2, u64::MAX] {
        let v = uniform_fast(bits);
        assert!((0.0..1.0).contains(&v));
    }
}

#[test]
fn uniform_fast_keeps_the_top_52_bits() {
    for k in [1u64, 2, 3, 1000, (1 << 52) - 1] {
        assert_eq!(uniform_fast(k << 12), k as f64 * 2f64.powi(-52));
        // the low 12 bits of the draw are discarded
        assert_eq!(uniform_fast((k << 12) | 0xFFF), uniform_fast(k << 12));
    }
}

#[test]
fn uniform_fast_is_monotonic() {
    let samples = [
        0u64,
        1,
        4096,
        1 << 20,
        1 << 40,
        u64::MAX / 3,
        u64::MAX / 2,
        u64::MAX - 4096,
        u64::MAX,
    ];
    for pair in samples.windows(2) {
        assert!(uniform_fast(pair[0]) <= uniform_fast(pair[1]));
    }
}

fn duo_from_words(x: u64, y: u64) -> RomuDuoJr {
    let mut seed = x.to_le_bytes().to_vec();
    seed.extend_from_slice(&y.to_le_bytes());
    RomuDuoJr::from_seed(&seed).unwrap()
}

/// The precise conversion restated over a reference engine: mantissa from
/// the first draw, exponent from the leading-zero count extended by extra
/// draws when it saturates at 12 and capped at 1022.
fn reference_precise(engine: &mut RomuDuoJr) -> u64 {
    let d = engine.next_u64().unwrap();
    let mut lz = u64::from(d.leading_zeros());
    if lz >= 12 {
        lz = 12;
        loop {
            let extra = u64::from(engine.next_u64().unwrap().leading_zeros());
            lz += extra;
            if extra != 64 || lz >= 1022 {
                break;
            }
        }
        if lz > 1022 {
            lz = 1022;
        }
    }
    ((1022 - lz) << 52) | (d & MANTISSA_MASK)
}

#[test]
fn uniform_precise_matches_the_stated_construction() {
    // a large first draw: no extra word is needed
    let mut engine = duo_from_words(u64::MAX - 5, 77);
    let mut reference = duo_from_words(u64::MAX - 5, 77);
    let bits = uniform_precise_bits(&mut engine).unwrap();
    assert_eq!(bits, reference_precise(&mut reference));
    assert_eq!(engine.x_state, reference.x_state);
    assert_eq!(engine.y_state, reference.y_state);

    // a tiny first draw: the leading-zero count saturates and one extra
    // word is drawn
    let mut engine = duo_from_words(1, 123456789);
    let mut reference = duo_from_words(1, 123456789);
    let bits = uniform_precise_bits(&mut engine).unwrap();
    assert_eq!(bits, reference_precise(&mut reference));
    assert_eq!(engine.x_state, reference.x_state);
    assert_eq!(engine.y_state, reference.y_state);
}

#[test]
fn uniform_precise_lands_in_the_unit_interval() {
    let mut engine = duo_from_words(0x0123456789ABCDEF, 0xFEDCBA9876543210);
    for _ in 0..200 {
        let bits = uniform_precise_bits(&mut engine).unwrap();
        let v = f64::from_bits(bits);
        assert!((0.0..1.0).contains(&v));
    }
}

#[test]
fn uniform_precise_is_finer_than_uniform_fast_near_zero() {
    // with a first draw of 1, the fast conversion collapses to 0.0 while
    // the precise one keeps a nonzero value
    assert_eq!(uniform_fast(1), 0.0);
    let mut engine = duo_from_words(1, 2);
    let v = f64::from_bits(uniform_precise_bits(&mut engine).unwrap());
    assert!(v > 0.0);
}

#[test]
fn uniform_precise_is_unsupported_on_the_32_bit_engine() {
    let mut engine = RomuTrio32::from_seed(&[5u8; 12]).unwrap();
    assert_eq!(uniform_precise_bits(&mut engine), Err(Error::UnsupportedOperation));
    // state untouched: the next narrow draw still returns the seeded x
    assert_eq!(engine.next_u32(), u32::from_le_bytes([5, 5, 5, 5]));
}
