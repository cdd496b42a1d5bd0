//! The explicit, reseedable generator: a 128-bit xorshift algorithm exposed
//! through a value-semantics interface. Advancing never mutates a
//! caller-visible value; each draw returns the drawn integer together with
//! the successor generator state.

use vstd::prelude::*;
use vstd::string::StringExecFns;

verus! {

/// A deterministic pseudorandom generator holding 128 bits of internal
/// state as four 32-bit words. Copying a value yields an independent
/// generator; advancing one copy never affects another.
#[derive(Clone, Copy, Debug, PartialEq, Eq, Structural)]
pub struct SeededGenerator {
    pub x: u32,
    pub y: u32,
    pub z: u32,
    pub w: u32,
}

/// A drawn integer paired with the successor generator state. The
/// generator the value was drawn from is left untouched; callers thread
/// `gen` forward to obtain subsequent draws.
#[derive(Clone, Copy, Debug, PartialEq, Eq, Structural)]
pub struct DrawResult {
    pub value: i64,
    pub gen: SeededGenerator,
}

/// The xorshift feedback word: the new `w` computed from the old `x` and
/// the old `w` by shifts and exclusive ors.
pub open spec fn spec_feedback(x: u32, w: u32) -> u32 {
    (w ^ (w >> 19u32)) ^ ((x ^ (x << 11u32)) ^ ((x ^ (x << 11u32)) >> 8u32))
}

/// One step of the deterministic transition function: the words rotate and
/// the feedback word enters at `w`. The step's 32-bit output is the new `w`.
pub open spec fn spec_step(g: SeededGenerator) -> SeededGenerator {
    SeededGenerator { x: g.y, y: g.z, z: g.w, w: spec_feedback(g.x, g.w) }
}

/// A 32-bit word read from four bytes in little-endian order.
pub open spec fn spec_word(b0: u8, b1: u8, b2: u8, b3: u8) -> u32 {
    (b0 + b1 * 0x100 + b2 * 0x10000 + b3 * 0x1000000) as u32
}

/// The generator state seeded from a 16-byte buffer: the four state words
/// are read in little-endian order, and an all-zero buffer (the one state
/// the xorshift algorithm cannot leave) is replaced by a fixed non-zero
/// preset.
pub open spec fn spec_from_seed(seed: Seq<u8>) -> SeededGenerator
    recommends
        seed.len() == 16,
{
    let x = spec_word(seed[0], seed[1], seed[2], seed[3]);
    let y = spec_word(seed[4], seed[5], seed[6], seed[7]);
    let z = spec_word(seed[8], seed[9], seed[10], seed[11]);
    let w = spec_word(seed[12], seed[13], seed[14], seed[15]);
    if x == 0 && y == 0 && z == 0 && w == 0 {
        SeededGenerator { x: 0x0BAD5EED, y: 0x0BAD5EED, z: 0x0BAD5EED, w: 0x0BAD5EED }
    } else {
        SeededGenerator { x, y, z, w }
    }
}

/// The unsigned 64-bit value of one draw: two successive step outputs,
/// the first as the low half and the second as the high half.
pub open spec fn spec_next_u64(g: SeededGenerator) -> u64 {
    (spec_step(spec_step(g)).w * 0x1_0000_0000 + spec_step(g).w) as u64
}

/// The successor generator state after one draw: two steps of the
/// transition function.
pub open spec fn spec_next_gen(g: SeededGenerator) -> SeededGenerator {
    spec_step(spec_step(g))
}

/// A 64-bit value reinterpreted as a signed integer in two's complement.
pub open spec fn spec_to_signed(v: u64) -> i64 {
    if v < 0x8000_0000_0000_0000 {
        v as i64
    } else {
        (v as int - 0x1_0000_0000_0000_0000) as i64
    }
}

/// The signed integer drawn by one advance of generator state `g`.
pub open spec fn spec_next_value(g: SeededGenerator) -> i64 {
    spec_to_signed(spec_next_u64(g))
}

fn step(g: &SeededGenerator) -> (r: SeededGenerator)
    ensures
        r == spec_step(*g),
{
    let t: u32 = g.x ^ (g.x << 11u32);
    let w: u32 = (g.w ^ (g.w >> 19u32)) ^ (t ^ (t >> 8u32));
    SeededGenerator { x: g.y, y: g.z, z: g.w, w }
}

fn read_word(seed: &[u8], i: usize) -> (w: u32)
    requires
        i + 4 <= seed@.len(),
    ensures
        w == spec_word(seed@[i as int], seed@[i as int + 1], seed@[i as int + 2], seed@[i as int + 3]),
{
    let b0: u32 = seed[i] as u32;
    let b1: u32 = seed[i + 1] as u32;
    let b2: u32 = seed[i + 2] as u32;
    let b3: u32 = seed[i + 3] as u32;
    b0 + b1 * 0x100 + b2 * 0x10000 + b3 * 0x1000000
}

/// Constructs a generator deterministically seeded from `seed`.
///
/// Succeeds exactly when the buffer holds 16 bytes; any other length is a
/// recoverable failure carrying a descriptive message, and no generator
/// value is produced.
pub fn xor_shift_new(seed: &[u8]) -> (r: Result<SeededGenerator, String>)
    ensures
        r is Ok <==> seed@.len() == 16,
        r is Ok ==> r->Ok_0 == spec_from_seed(seed@),
        r is Err ==> r->Err_0@ == "expected seed of 16 bytes"@,
{
    if seed.len() == 16 {
        let x: u32 = read_word(seed, 0);
        let y: u32 = read_word(seed, 4);
        let z: u32 = read_word(seed, 8);
        let w: u32 = read_word(seed, 12);
        if x == 0 && y == 0 && z == 0 && w == 0 {
            Ok(SeededGenerator { x: 0x0BAD5EED, y: 0x0BAD5EED, z: 0x0BAD5EED, w: 0x0BAD5EED })
        } else {
            Ok(SeededGenerator { x, y, z, w })
        }
    } else {
        Err(String::from_str("expected seed of 16 bytes"))
    }
}

/// Draws one integer from `gen` without mutating it, returning the drawn
/// value together with the successor generator state.
///
/// The operation is total and pure: the result is a function of the input
/// state alone, so threading the returned generator forward replays the
/// same infinite sequence from equal starting values.
pub fn xor_shift_next(gen: &SeededGenerator) -> (r: DrawResult)
    ensures
        r.value == spec_next_value(*gen),
        r.gen == spec_next_gen(*gen),
{
    let g1 = step(gen);
    let g2 = step(&g1);
    let lo: u64 = g1.w as u64;
    let hi: u64 = g2.w as u64;
    let raw: u64 = hi * 0x1_0000_0000 + lo;
    let value: i64 = if raw < 0x8000_0000_0000_0000 {
        raw as i64
    } else {
        ((raw - 0x8000_0000_0000_0000) as i64) + i64::MIN
    };
    DrawResult { value, gen: g2 }
}

/// The sequence of the next `n` values drawn by advancing repeatedly from
/// generator state `g`, threading each successor state forward.
pub open spec fn spec_draws(g: SeededGenerator, n: nat) -> Seq<i64>
    decreases n,
{
    if n == 0 {
        Seq::<i64>::empty()
    } else {
        seq![spec_next_value(g)] + spec_draws(spec_next_gen(g), (n - 1) as nat)
    }
}

/// Law: construction is deterministic. Equal 16-byte seed buffers yield
/// equal generators, and advancing each once yields equal drawn values.
pub proof fn lemma_same_seed_same_first_draw(s1: Seq<u8>, s2: Seq<u8>)
    requires
        s1 == s2,
        s1.len() == 16,
    ensures
        spec_from_seed(s1) == spec_from_seed(s2),
        spec_next_value(spec_from_seed(s1)) == spec_next_value(spec_from_seed(s2)),
{
}

/// Law: advancing is pure. Equal generator values yield equal drawn
/// values and equal successor states, so repeating the advance on an
/// unchanged value reproduces the first result.
pub proof fn lemma_advance_pure(g1: SeededGenerator, g2: SeededGenerator)
    requires
        g1 == g2,
    ensures
        spec_next_value(g1) == spec_next_value(g2),
        spec_next_gen(g1) == spec_next_gen(g2),
{
}

/// Law: replay is exact. Starting from equal generator states, any number
/// of successive draws reproduces the same sequence of drawn values.
pub proof fn lemma_replay(g1: SeededGenerator, g2: SeededGenerator, n: nat)
    requires
        g1 == g2,
    ensures
        spec_draws(g1, n) == spec_draws(g2, n),
{
}

} // verus!
