use vstd::prelude::*;

use crate::error::Error;

verus! {

/// Multiplier of the 64-bit Romu recurrences.
pub const ROMU_MULT_64: u64 = 15241094284759029579;

/// Multiplier of the 32-bit Romu recurrence.
pub const ROMU_MULT_32: u32 = 3323815723;

/// The little-endian 64-bit word formed by the eight bytes of `b` starting
/// at `off`.
pub open spec fn le_word_64(b: Seq<u8>, off: int) -> u64 {
    (b[off] as u64) | ((b[off + 1] as u64) << 8) | ((b[off + 2] as u64) << 16) | ((b[off + 3]
        as u64) << 24) | ((b[off + 4] as u64) << 32) | ((b[off + 5] as u64) << 40) | ((b[off + 6]
        as u64) << 48) | ((b[off + 7] as u64) << 56)
}

/// The little-endian 32-bit word formed by the four bytes of `b` starting
/// at `off`.
pub open spec fn le_word_32(b: Seq<u8>, off: int) -> u32 {
    (b[off] as u32) | ((b[off + 1] as u32) << 8) | ((b[off + 2] as u32) << 16) | ((b[off + 3]
        as u32) << 24)
}

/// The eight bytes of `w`, least significant first.
pub open spec fn le_bytes_64(w: u64) -> Seq<u8> {
    seq![
        (w & 0xFF) as u8,
        ((w >> 8) & 0xFF) as u8,
        ((w >> 16) & 0xFF) as u8,
        ((w >> 24) & 0xFF) as u8,
        ((w >> 32) & 0xFF) as u8,
        ((w >> 40) & 0xFF) as u8,
        ((w >> 48) & 0xFF) as u8,
        ((w >> 56) & 0xFF) as u8,
    ]
}

/// The four bytes of `w`, least significant first.
pub open spec fn le_bytes_32(w: u32) -> Seq<u8> {
    seq![(w & 0xFF) as u8, ((w >> 8) & 0xFF) as u8, ((w >> 16) & 0xFF) as u8, ((w >> 24) & 0xFF) as u8]
}

fn read_word_64(seed: &[u8], off: usize) -> (w: u64)
    requires
        off + 8 <= seed@.len(),
    ensures
        w == le_word_64(seed@, off as int),
{
    (seed[off] as u64) | ((seed[off + 1] as u64) << 8) | ((seed[off + 2] as u64) << 16) | ((
    seed[off + 3] as u64) << 24) | ((seed[off + 4] as u64) << 32) | ((seed[off + 5] as u64) << 40)
        | ((seed[off + 6] as u64) << 48) | ((seed[off + 7] as u64) << 56)
}

fn read_word_32(seed: &[u8], off: usize) -> (w: u32)
    requires
        off + 4 <= seed@.len(),
    ensures
        w == le_word_32(seed@, off as int),
{
    (seed[off] as u32) | ((seed[off + 1] as u32) << 8) | ((seed[off + 2] as u32) << 16) | ((
    seed[off + 3] as u32) << 24)
}

fn word_to_bytes_64(w: u64) -> (r: Vec<u8>)
    ensures
        r@ == le_bytes_64(w),
        r@.len() == 8,
{
    let mut r: Vec<u8> = Vec::new();
    r.push((w & 0xFF) as u8);
    r.push(((w >> 8) & 0xFF) as u8);
    r.push(((w >> 16) & 0xFF) as u8);
    r.push(((w >> 24) & 0xFF) as u8);
    r.push(((w >> 32) & 0xFF) as u8);
    r.push(((w >> 40) & 0xFF) as u8);
    r.push(((w >> 48) & 0xFF) as u8);
    r.push(((w >> 56) & 0xFF) as u8);
    proof {
        assert(r@ =~= le_bytes_64(w));
    }
    r
}

fn word_to_bytes_32(w: u32) -> (r: Vec<u8>)
    ensures
        r@ == le_bytes_32(w),
        r@.len() == 4,
{
    let mut r: Vec<u8> = Vec::new();
    r.push((w & 0xFF) as u8);
    r.push(((w >> 8) & 0xFF) as u8);
    r.push(((w >> 16) & 0xFF) as u8);
    r.push(((w >> 24) & 0xFF) as u8);
    proof {
        assert(r@ =~= le_bytes_32(w));
    }
    r
}

/// The one capability the engine family shares: produce the next unsigned
/// integer of engine width, deterministically derived from the internal
/// state, and advance the state.
pub trait RandomEngine: Sized {
    /// Whether this variant natively produces 64-bit draws.
    spec fn wide(&self) -> bool;

    /// The pre-update value the next 64-bit draw returns, when supported.
    spec fn out64(&self) -> u64;

    /// The 32-bit value the next 32-bit draw returns.
    spec fn out32(&self) -> u32;

    /// The state after one native draw.
    spec fn step(&self) -> Self;

    /// The bytes one native draw contributes to bulk extraction, least
    /// significant first.
    spec fn chunk(&self) -> Seq<u8>;

    /// Draws the next native 64-bit value; the 32-bit variant reports
    /// `UnsupportedOperation` and leaves its state untouched.
    fn next_u64(&mut self) -> (r: Result<u64, Error>)
        ensures
            old(self).wide() ==> r == Ok::<u64, Error>(old(self).out64()) && *final(self)
                == old(self).step(),
            !old(self).wide() ==> r == Err::<u64, Error>(Error::UnsupportedOperation)
                && *final(self) == *old(self),
            final(self).wide() == old(self).wide(),
    ;

    /// Draws the next 32-bit value: one native draw, narrowed if the native
    /// width is wider.
    fn next_u32(&mut self) -> (r: u32)
        ensures
            r == old(self).out32(),
            *final(self) == old(self).step(),
            final(self).wide() == old(self).wide(),
    ;

    /// One native draw rendered as its little-endian bytes.
    fn next_chunk(&mut self) -> (r: Vec<u8>)
        ensures
            r@ == old(self).chunk(),
            r@.len() > 0,
            *final(self) == old(self).step(),
            final(self).wide() == old(self).wide(),
    ;

}

/// Overwrites `dest` in place with the bytes of successive native draws of
/// `e`, packed least significant first, until it is full; its length does
/// not change. This is the generic bulk extraction all variants share, not
/// engine-specific behaviour.
pub fn fill_bytes<E: RandomEngine>(e: &mut E, dest: &mut Vec<u8>)
    ensures
        final(dest)@ == chunk_stream(*old(e), old(dest)@.len() as nat),
        final(dest)@.len() == old(dest)@.len(),
        *final(e) == stream_state(*old(e), old(dest)@.len() as nat),
        final(e).wide() == old(e).wide(),
{
    let n = dest.len();
    let filled = fill_tail(e, n);
    *dest = filled;
}

/// The first `n` bytes of the byte stream that successive native draws of
/// `e` produce, each draw contributing its chunk in order.
pub open spec fn chunk_stream<E: RandomEngine>(e: E, n: nat) -> Seq<u8>
    decreases n,
{
    if n == 0 {
        Seq::empty()
    } else if e.chunk().len() == 0 {
        Seq::empty()
    } else if n <= e.chunk().len() {
        e.chunk().take(n as int)
    } else {
        e.chunk() + chunk_stream(e.step(), (n - e.chunk().len()) as nat)
    }
}

/// The engine state after producing `n` bytes of its byte stream.
pub open spec fn stream_state<E: RandomEngine>(e: E, n: nat) -> E
    decreases n,
{
    if n == 0 {
        e
    } else if e.chunk().len() == 0 {
        e
    } else if n <= e.chunk().len() {
        e.step()
    } else {
        stream_state(e.step(), (n - e.chunk().len()) as nat)
    }
}

fn fill_tail<E: RandomEngine>(e: &mut E, n: usize) -> (r: Vec<u8>)
    ensures
        r@ == chunk_stream(*old(e), n as nat),
        r@.len() == n,
        *final(e) == stream_state(*old(e), n as nat),
        final(e).wide() == old(e).wide(),
    decreases n,
{
    if n == 0 {
        Vec::new()
    } else {
        let mut c = e.next_chunk();
        if n <= c.len() {
            c.truncate(n);
            c
        } else {
            let m = n - c.len();
            let mut rest = fill_tail(e, m);
            c.append(&mut rest);
            c
        }
    }
}

/// Determinism of the whole family: engines in identical states produce
/// identical byte streams, and land in identical states, for any number of
/// draws. Since every draw is a pure function of the state, two
/// independently constructed engines of one variant given the same seed can
/// never diverge.
pub proof fn lemma_engine_determinism<E: RandomEngine>(a: E, b: E, n: nat)
    requires
        a == b,
    ensures
        chunk_stream(a, n) == chunk_stream(b, n),
        stream_state(a, n) == stream_state(b, n),
{
}

/// The 2-word 64-bit engine: state `(x, y)`; each draw returns the
/// pre-update `x`, then sets `x' = y * ROMU_MULT_64` (wrapping) and
/// `y' = rotate_left(y - x, 27)` (wrapping subtract).
#[derive(Debug)]
pub struct RomuDuoJr {
    pub x_state: u64,
    pub y_state: u64,
}

impl RomuDuoJr {
    /// The state decoded from 16 little-endian seed bytes: two 64-bit
    /// words, assigned to `x` then `y`.
    pub open spec fn decoded(seed: Seq<u8>) -> RomuDuoJr {
        RomuDuoJr { x_state: le_word_64(seed, 0), y_state: le_word_64(seed, 8) }
    }

    /// Builds the engine from exactly 16 seed bytes, decoded as two
    /// little-endian 64-bit words assigned to `x` then `y`; any other
    /// length is an `InvalidSeed` error.
    pub fn from_seed(seed: &[u8]) -> (r: Result<RomuDuoJr, Error>)
        ensures
            seed@.len() == 16 <==> r is Ok,
            seed@.len() == 16 ==> r == Ok::<RomuDuoJr, Error>(RomuDuoJr::decoded(seed@)),
            seed@.len() != 16 ==> r == Err::<RomuDuoJr, Error>(Error::InvalidSeed),
    {
        if seed.len() != 16 {
            return Err(Error::InvalidSeed);
        }
        let x_state = read_word_64(seed, 0);
        let y_state = read_word_64(seed, 8);
        Ok(RomuDuoJr { x_state, y_state })
    }
}

impl RandomEngine for RomuDuoJr {
    open spec fn wide(&self) -> bool {
        true
    }

    open spec fn out64(&self) -> u64 {
        self.x_state
    }

    open spec fn out32(&self) -> u32 {
        (self.x_state >> 32) as u32
    }

    open spec fn step(&self) -> RomuDuoJr {
        RomuDuoJr {
            x_state: self.y_state.wrapping_mul(ROMU_MULT_64),
            y_state: {
                let d = self.y_state.wrapping_sub(self.x_state);
                (d << 27) | (d >> 37)
            },
        }
    }

    open spec fn chunk(&self) -> Seq<u8> {
        le_bytes_64(self.x_state)
    }

    fn next_u64(&mut self) -> (r: Result<u64, Error>) {
        let xp = self.x_state;
        let d = self.y_state.wrapping_sub(xp);
        self.x_state = self.y_state.wrapping_mul(ROMU_MULT_64);
        self.y_state = (d << 27u64) | (d >> 37u64);
        Ok(xp)
    }

    fn next_u32(&mut self) -> (r: u32) {
        let w = self.next_u64().unwrap();
        (w >> 32u64) as u32
    }

    fn next_chunk(&mut self) -> (r: Vec<u8>) {
        let w = self.next_u64().unwrap();
        word_to_bytes_64(w)
    }
}

/// The 3-word 64-bit engine: state `(x, y, z)`; each draw returns the
/// pre-update `x`, then sets `x' = z * ROMU_MULT_64` (wrapping),
/// `y' = rotate_left(y - x, 12)` and `z' = rotate_left(z - y, 44)`
/// (wrapping subtracts, both using the pre-update words).
#[derive(Debug)]
pub struct RomuTrio {
    pub x_state: u64,
    pub y_state: u64,
    pub z_state: u64,
}

impl RomuTrio {
    /// The state decoded from 24 little-endian seed bytes: three 64-bit
    /// words, assigned to `x`, `y`, then `z`.
    pub open spec fn decoded(seed: Seq<u8>) -> RomuTrio {
        RomuTrio {
            x_state: le_word_64(seed, 0),
            y_state: le_word_64(seed, 8),
            z_state: le_word_64(seed, 16),
        }
    }

    /// Builds the engine from exactly 24 seed bytes, decoded as three
    /// little-endian 64-bit words assigned to `x`, `y`, then `z`; any other
    /// length is an `InvalidSeed` error.
    pub fn from_seed(seed: &[u8]) -> (r: Result<RomuTrio, Error>)
        ensures
            seed@.len() == 24 <==> r is Ok,
            seed@.len() == 24 ==> r == Ok::<RomuTrio, Error>(RomuTrio::decoded(seed@)),
            seed@.len() != 24 ==> r == Err::<RomuTrio, Error>(Error::InvalidSeed),
    {
        if seed.len() != 24 {
            return Err(Error::InvalidSeed);
        }
        let x_state = read_word_64(seed, 0);
        let y_state = read_word_64(seed, 8);
        let z_state = read_word_64(seed, 16);
        Ok(RomuTrio { x_state, y_state, z_state })
    }
}

impl RandomEngine for RomuTrio {
    open spec fn wide(&self) -> bool {
        true
    }

    open spec fn out64(&self) -> u64 {
        self.x_state
    }

    open spec fn out32(&self) -> u32 {
        (self.x_state >> 32) as u32
    }

    open spec fn step(&self) -> RomuTrio {
        RomuTrio {
            x_state: self.z_state.wrapping_mul(ROMU_MULT_64),
            y_state: {
                let d = self.y_state.wrapping_sub(self.x_state);
                (d << 12) | (d >> 52)
            },
            z_state: {
                let d = self.z_state.wrapping_sub(self.y_state);
                (d << 44) | (d >> 20)
            },
        }
    }

    open spec fn chunk(&self) -> Seq<u8> {
        le_bytes_64(self.x_state)
    }

    fn next_u64(&mut self) -> (r: Result<u64, Error>) {
        let xp = self.x_state;
        let yp = self.y_state;
        let zp = self.z_state;
        self.x_state = zp.wrapping_mul(ROMU_MULT_64);
        let dy = yp.wrapping_sub(xp);
        self.y_state = (dy << 12u64) | (dy >> 52u64);
        let dz = zp.wrapping_sub(yp);
        self.z_state = (dz << 44u64) | (dz >> 20u64);
        Ok(xp)
    }

    fn next_u32(&mut self) -> (r: u32) {
        let w = self.next_u64().unwrap();
        (w >> 32u64) as u32
    }

    fn next_chunk(&mut self) -> (r: Vec<u8>) {
        let w = self.next_u64().unwrap();
        word_to_bytes_64(w)
    }
}

/// The 3-word 32-bit engine: the same structural recurrence as `RomuTrio`
/// with 32-bit words, multiplier `ROMU_MULT_32`, and rotation amounts 6 and
/// 22. It only draws 32-bit outputs natively; a 64-bit draw is not a
/// supported operation.
#[derive(Debug)]
pub struct RomuTrio32 {
    pub x_state: u32,
    pub y_state: u32,
    pub z_state: u32,
}

impl RomuTrio32 {
    /// The state decoded from 12 little-endian seed bytes: three 32-bit
    /// words, assigned to `x`, `y`, then `z`.
    pub open spec fn decoded(seed: Seq<u8>) -> RomuTrio32 {
        RomuTrio32 {
            x_state: le_word_32(seed, 0),
            y_state: le_word_32(seed, 4),
            z_state: le_word_32(seed, 8),
        }
    }

    /// Builds the engine from exactly 12 seed bytes, decoded as three
    /// little-endian 32-bit words assigned to `x`, `y`, then `z`; any other
    /// length is an `InvalidSeed` error.
    pub fn from_seed(seed: &[u8]) -> (r: Result<RomuTrio32, Error>)
        ensures
            seed@.len() == 12 <==> r is Ok,
            seed@.len() == 12 ==> r == Ok::<RomuTrio32, Error>(RomuTrio32::decoded(seed@)),
            seed@.len() != 12 ==> r == Err::<RomuTrio32, Error>(Error::InvalidSeed),
    {
        if seed.len() != 12 {
            return Err(Error::InvalidSeed);
        }
        let x_state = read_word_32(seed, 0);
        let y_state = read_word_32(seed, 4);
        let z_state = read_word_32(seed, 8);
        Ok(RomuTrio32 { x_state, y_state, z_state })
    }
}

impl RandomEngine for RomuTrio32 {
    open spec fn wide(&self) -> bool {
        false
    }

    open spec fn out64(&self) -> u64 {
        0
    }

    open spec fn out32(&self) -> u32 {
        self.x_state
    }

    open spec fn step(&self) -> RomuTrio32 {
        RomuTrio32 {
            x_state: self.z_state.wrapping_mul(ROMU_MULT_32),
            y_state: {
                let d = self.y_state.wrapping_sub(self.x_state);
                (d << 6) | (d >> 26)
            },
            z_state: {
                let d = self.z_state.wrapping_sub(self.y_state);
                (d << 22) | (d >> 10)
            },
        }
    }

    open spec fn chunk(&self) -> Seq<u8> {
        le_bytes_32(self.x_state)
    }

    fn next_u64(&mut self) -> (r: Result<u64, Error>) {
        Err(Error::UnsupportedOperation)
    }

    fn next_u32(&mut self) -> (r: u32) {
        let xp = self.x_state;
        let yp = self.y_state;
        let zp = self.z_state;
        self.x_state = zp.wrapping_mul(ROMU_MULT_32);
        let dy = yp.wrapping_sub(xp);
        self.y_state = (dy << 6u32) | (dy >> 26u32);
        let dz = zp.wrapping_sub(yp);
        self.z_state = (dz << 22u32) | (dz >> 10u32);
        xp
    }

    fn next_chunk(&mut self) -> (r: Vec<u8>) {
        let w = self.next_u32();
        word_to_bytes_32(w)
    }
}

} // verus!
