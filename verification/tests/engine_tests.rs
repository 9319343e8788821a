use pso::{fill_bytes, Error, RandomEngine, RomuDuoJr, RomuTrio, RomuTrio32};

const MULT_64: u64 = 15241094284759029579;
const MULT_32: u32 = 3323815723;

fn duo_reference_step(x: u64, y: u64) -> (u64, (u64, u64)) {
    (x, (y.wrapping_mul(MULT_64), y.wrapping_sub(x).rotate_left(27)))
}

fn trio_reference_step(x: u64, y: u64, z: u64) -> (u64, (u64, u64, u64)) {
    (
        x,
        (
            z.wrapping_mul(MULT_64),
            y.wrapping_sub(x).rotate_left(12),
            z.wrapping_sub(y).rotate_left(44),
        ),
    )
}

fn trio32_reference_step(x: u32, y: u32, z: u32) -> (u32, (u32, u32, u32)) {
    (
        x,
        (
            z.wrapping_mul(MULT_32),
            y.wrapping_sub(x).rotate_left(6),
            z.wrapping_sub(y).rotate_left(22),
        ),
    )
}

fn duo_seed(x: u64, y: u64) -> Vec<u8> {
    let mut seed = x.to_le_bytes().to_vec();
    seed.extend_from_slice(&y.to_le_bytes());
    seed
}

#[test]
fn duo_seeded_with_ones_starts_at_one() {
    let seed = duo_seed(1, 1);
    let mut engine = RomuDuoJr::from_seed(&seed).unwrap();
    // first draw returns the pre-update x
    assert_eq!(engine.next_u64(), Ok(1));
    // x' = y * MULT_64, y' = rotate_left(y - x, 27) = 0
    assert_eq!(engine.next_u64(), Ok(MULT_64));
    assert_eq!(engine.next_u64(), Ok(0));
}

#[test]
fn duo_follows_the_stated_recurrence() {
    let seed = duo_seed(0x0123456789ABCDEF, 0xFEDCBA9876543210);
    let mut engine = RomuDuoJr::from_seed(&seed).unwrap();
    let mut state = (0x0123456789ABCDEFu64, 0xFEDCBA9876543210u64);
    for _ in 0..64 {
        let (expected, next_state) = duo_reference_step(state.0, state.1);
        assert_eq!(engine.next_u64(), Ok(expected));
        state = next_state;
    }
}

#[test]
fn trio_follows_the_stated_recurrence() {
    let mut seed = duo_seed(3, 5);
    seed.extend_from_slice(&7u64.to_le_bytes());
    let mut engine = RomuTrio::from_seed(&seed).unwrap();
    let mut state = (3u64, 5u64, 7u64);
    for _ in 0..64 {
        let (expected, next_state) = trio_reference_step(state.0, state.1, state.2);
        assert_eq!(engine.next_u64(), Ok(expected));
        state = next_state;
    }
}

#[test]
fn trio32_follows_the_stated_recurrence() {
    let mut seed = 11u32.to_le_bytes().to_vec();
    seed.extend_from_slice(&13u32.to_le_bytes());
    seed.extend_from_slice(&17u32.to_le_bytes());
    let mut engine = RomuTrio32::from_seed(&seed).unwrap();
    let mut state = (11u32, 13u32, 17u32);
    for _ in 0..64 {
        let (expected, next_state) = trio32_reference_step(state.0, state.1, state.2);
        assert_eq!(engine.next_u32(), expected);
        state = next_state;
    }
}

#[test]
fn trio32_cannot_draw_64_bits() {
    let seed = [9u8; 12];
    let mut engine = RomuTrio32::from_seed(&seed).unwrap();
    assert_eq!(engine.next_u64(), Err(Error::UnsupportedOperation));
    // the failed draw leaves the state untouched
    assert_eq!(engine.x_state, u32::from_le_bytes([9, 9, 9, 9]));
    assert_eq!(engine.next_u32(), u32::from_le_bytes([9, 9, 9, 9]));
}

#[test]
fn identical_seeds_give_identical_sequences() {
    let seed = duo_seed(0xDEADBEEFCAFEF00D, 0x0123456789ABCDEF);
    let mut a = RomuDuoJr::from_seed(&seed).unwrap();
    let mut b = RomuDuoJr::from_seed(&seed).unwrap();
    for _ in 0..256 {
        assert_eq!(a.next_u64(), b.next_u64());
    }
    let mut seed3 = seed.clone();
    seed3.extend_from_slice(&42u64.to_le_bytes());
    let mut a = RomuTrio::from_seed(&seed3).unwrap();
    let mut b = RomuTrio::from_seed(&seed3).unwrap();
    for _ in 0..256 {
        assert_eq!(a.next_u64(), b.next_u64());
    }
}

#[test]
fn narrow_draw_is_the_top_half_of_a_wide_draw() {
    let seed = duo_seed(0xAABBCCDD11223344, 99);
    let mut wide = RomuDuoJr::from_seed(&seed).unwrap();
    let mut narrow = RomuDuoJr::from_seed(&seed).unwrap();
    for _ in 0..16 {
        let w = wide.next_u64().unwrap();
        assert_eq!(narrow.next_u32(), (w >> 32) as u32);
    }
}

#[test]
fn seed_decoding_is_little_endian() {
    let mut seed = Vec::new();
    for b in 1..=16u8 {
        seed.push(b);
    }
    let engine = RomuDuoJr::from_seed(&seed).unwrap();
    assert_eq!(engine.x_state, 0x0807060504030201);
    assert_eq!(engine.y_state, 0x100F0E0D0C0B0A09);

    // the same decoding that rand_core's little-endian helper performs
    let mut words = [0u64; 2];
    rand_core::le::read_u64_into(&seed, &mut words);
    assert_eq!(engine.x_state, words[0]);
    assert_eq!(engine.y_state, words[1]);
}

#[test]
fn wrong_seed_lengths_are_invalid() {
    assert_eq!(RomuDuoJr::from_seed(&[0u8; 15]).unwrap_err(), Error::InvalidSeed);
    assert_eq!(RomuDuoJr::from_seed(&[0u8; 17]).unwrap_err(), Error::InvalidSeed);
    assert_eq!(RomuDuoJr::from_seed(&[]).unwrap_err(), Error::InvalidSeed);
    assert_eq!(RomuTrio::from_seed(&[0u8; 16]).unwrap_err(), Error::InvalidSeed);
    assert!(RomuTrio::from_seed(&[0u8; 24]).is_ok());
    assert_eq!(RomuTrio32::from_seed(&[0u8; 11]).unwrap_err(), Error::InvalidSeed);
    assert!(RomuTrio32::from_seed(&[0u8; 12]).is_ok());
}

#[test]
fn fill_bytes_packs_draw_bytes_in_order() {
    let seed = duo_seed(0x1111222233334444, 0x5555666677778888);
    let mut engine = RomuDuoJr::from_seed(&seed).unwrap();
    let mut reference = RomuDuoJr::from_seed(&seed).unwrap();

    let mut buf = vec![0u8; 20];
    fill_bytes(&mut engine, &mut buf);
    assert_eq!(buf.len(), 20);

    let mut expected = Vec::new();
    while expected.len() < 20 {
        expected.extend_from_slice(&reference.next_u64().unwrap().to_le_bytes());
    }
    expected.truncate(20);
    assert_eq!(buf, expected);

    // afterwards both engines have consumed the same number of draws
    assert_eq!(engine.next_u64(), reference.next_u64());
}

#[test]
fn fill_bytes_on_the_32_bit_engine_packs_words() {
    let seed = [3u8; 12];
    let mut engine = RomuTrio32::from_seed(&seed).unwrap();
    let mut reference = RomuTrio32::from_seed(&seed).unwrap();
    let mut buf = vec![0u8; 10];
    fill_bytes(&mut engine, &mut buf);
    let mut expected = Vec::new();
    while expected.len() < 10 {
        expected.extend_from_slice(&reference.next_u32().to_le_bytes());
    }
    expected.truncate(10);
    assert_eq!(buf, expected);
}
