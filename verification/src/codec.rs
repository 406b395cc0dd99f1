//! The bit layout of an identifier, and its encoder and decoder.
//!
//! An identifier is one `i64` assembled from four adjacent bit fields, most
//! significant to least significant: the millisecond Unix timestamp, the
//! `seed` identity, the `soil` identity, and the per-millisecond harvest
//! count. The arithmetic form `encode` is the specification; `encode_id` and
//! `decode_id` realise it with shifts and masks.

use vstd::arithmetic::div_mod::lemma_fundamental_div_mod_converse;
use vstd::arithmetic::div_mod::lemma_mod_multiples_vanish;
use vstd::prelude::*;

verus! {

/// Width in bits of the `seed` identity field.
pub const SEED_BITS: i64 = 5;

/// Width in bits of the `soil` identity field.
pub const SOIL_BITS: i64 = 5;

/// Width in bits of the per-millisecond harvest count field.
pub const HARVESTED_COUNT_BITS: i64 = 12;

/// Largest admissible `seed` identity: the field holds 5 bits.
pub const MAX_SEED: i64 = 31;

/// Largest admissible `soil` identity: the field holds 5 bits.
pub const MAX_SOIL: i64 = 31;

/// Largest harvest count within one millisecond: the field holds 12 bits.
pub const HARVESTED_COUNT_MASK: i64 = 0xfff;

/// Exclusive bound on timestamps: with 22 low bits taken by the other three
/// fields, a timestamp of 41 bits is the most an `i64` identifier can carry.
pub const MAX_UNIX_TIME: i64 = 0x200_0000_0000;

/// How far the `soil` field is shifted left: past the harvest count.
const SOIL_SHIFT: u64 = 12;

/// How far the `seed` field is shifted left: past soil and harvest count.
const SEED_SHIFT: u64 = 17;

/// How far the timestamp is shifted left: past the three low fields.
const UNIX_TIME_SHIFT: u64 = 22;

/// Whether the four fields each lie within their bit widths.
pub open spec fn fields_in_range(unix_time: int, seed: int, soil: int, count: int) -> bool {
    &&& 0 <= unix_time < MAX_UNIX_TIME
    &&& 0 <= seed <= MAX_SEED
    &&& 0 <= soil <= MAX_SOIL
    &&& 0 <= count <= HARVESTED_COUNT_MASK
}

/// The identifier holding the four fields. For fields within their bit
/// widths this sum of shifted terms is exactly the bitwise layout
/// `(unix_time << 22) | (seed << 17) | (soil << 12) | count`.
pub open spec fn encode(unix_time: int, seed: int, soil: int, count: int) -> int {
    unix_time * 0x40_0000 + seed * 0x2_0000 + soil * 0x1000 + count
}

/// The timestamp field of an identifier.
pub open spec fn decode_time(id: int) -> int {
    id / 0x40_0000
}

/// The `seed` identity field of an identifier.
pub open spec fn decode_seed(id: int) -> int {
    (id / 0x2_0000) % 32
}

/// The `soil` identity field of an identifier.
pub open spec fn decode_soil(id: int) -> int {
    (id / 0x1000) % 32
}

/// The harvest count field of an identifier.
pub open spec fn decode_count(id: int) -> int {
    id % 0x1000
}

/// For in-range fields, the or of the shifted fields is their sum.
proof fn lemma_encode_bits(t: u64, se: u64, so: u64, c: u64)
    by (bit_vector)
    requires
        t < 0x200_0000_0000,
        se < 32,
        so < 32,
        c < 0x1000,
    ensures
        ((t << 22u64) | (se << 17u64) | (so << 12u64) | c) == t * 0x40_0000 + se * 0x2_0000 + so
            * 0x1000 + c,
{
}

/// Shifts and masks read the quotients and remainders of the layout.
proof fn lemma_decode_bits(u: u64)
    by (bit_vector)
    ensures
        (u >> 22u64) == u / 0x40_0000,
        ((u >> 17u64) & 31) == (u / 0x2_0000) % 32,
        ((u >> 12u64) & 31) == (u / 0x1000) % 32,
        (u & 0xfff) == u % 0x1000,
{
}

/// Assembles the identifier that carries the four given fields.
pub fn encode_id(unix_time: i64, seed: i64, soil: i64, count: i64) -> (id: i64)
    requires
        fields_in_range(unix_time as int, seed as int, soil as int, count as int),
    ensures
        id == encode(unix_time as int, seed as int, soil as int, count as int),
        0 <= id,
{
    proof {
        lemma_encode_bits(unix_time as u64, seed as u64, soil as u64, count as u64);
    }
    let time_part: u64 = (unix_time as u64) << UNIX_TIME_SHIFT;
    let seed_part: u64 = (seed as u64) << SEED_SHIFT;
    let soil_part: u64 = (soil as u64) << SOIL_SHIFT;
    (time_part | seed_part | soil_part | (count as u64)) as i64
}

/// Splits an identifier back into `(unix_time, seed, soil, count)`.
pub fn decode_id(id: i64) -> (r: (i64, i64, i64, i64))
    requires
        0 <= id,
    ensures
        r.0 == decode_time(id as int),
        r.1 == decode_seed(id as int),
        r.2 == decode_soil(id as int),
        r.3 == decode_count(id as int),
{
    let u: u64 = id as u64;
    proof {
        lemma_decode_bits(u);
    }
    let unix_time: i64 = (u >> UNIX_TIME_SHIFT) as i64;
    let seed: i64 = ((u >> SEED_SHIFT) & 31) as i64;
    let soil: i64 = ((u >> SOIL_SHIFT) & 31) as i64;
    let count: i64 = (u & 0xfff) as i64;
    (unix_time, seed, soil, count)
}

/// Law: decoding recovers exactly the four fields an identifier was encoded
/// from, whenever each field lies within its bit width.
pub proof fn lemma_round_trip(unix_time: int, seed: int, soil: int, count: int)
    requires
        fields_in_range(unix_time, seed, soil, count),
    ensures
        decode_time(encode(unix_time, seed, soil, count)) == unix_time,
        decode_seed(encode(unix_time, seed, soil, count)) == seed,
        decode_soil(encode(unix_time, seed, soil, count)) == soil,
        decode_count(encode(unix_time, seed, soil, count)) == count,
{
    let id = encode(unix_time, seed, soil, count);
    lemma_fundamental_div_mod_converse(
        id,
        0x40_0000,
        unix_time,
        seed * 0x2_0000 + soil * 0x1000 + count,
    );
    lemma_fundamental_div_mod_converse(id, 0x2_0000, unix_time * 32 + seed, soil * 0x1000 + count);
    lemma_mod_multiples_vanish(unix_time, seed, 32);
    lemma_fundamental_div_mod_converse(seed, 32, 0, seed);
    lemma_fundamental_div_mod_converse(
        id,
        0x1000,
        unix_time * 1024 + seed * 32 + soil,
        count,
    );
    lemma_mod_multiples_vanish(unix_time * 32 + seed, soil, 32);
    lemma_fundamental_div_mod_converse(soil, 32, 0, soil);
}

/// Law: encoding is injective on in-range fields — two identifiers agree
/// only when all four fields agree.
pub proof fn lemma_encode_injective(
    t1: int,
    se1: int,
    so1: int,
    c1: int,
    t2: int,
    se2: int,
    so2: int,
    c2: int,
)
    requires
        fields_in_range(t1, se1, so1, c1),
        fields_in_range(t2, se2, so2, c2),
        encode(t1, se1, so1, c1) == encode(t2, se2, so2, c2),
    ensures
        t1 == t2,
        se1 == se2,
        so1 == so2,
        c1 == c2,
{
    lemma_round_trip(t1, se1, so1, c1);
    lemma_round_trip(t2, se2, so2, c2);
}

/// Law: identifiers order by timestamp first and harvest count second, for a
/// fixed identity.
pub proof fn lemma_encode_monotonic(t1: int, c1: int, t2: int, c2: int, seed: int, soil: int)
    requires
        fields_in_range(t1, seed, soil, c1),
        fields_in_range(t2, seed, soil, c2),
        t1 < t2 || (t1 == t2 && c1 < c2),
    ensures
        encode(t1, seed, soil, c1) < encode(t2, seed, soil, c2),
{
}

} // verus!
