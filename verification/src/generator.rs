//! The generator itself: identity fields fixed at construction, plus the
//! per-millisecond harvest state, and the minting operation.

use crate::codec::encode;
use crate::codec::encode_id;
use crate::codec::HARVESTED_COUNT_MASK;
use crate::codec::MAX_SEED;
use crate::codec::MAX_SOIL;
use crate::codec::MAX_UNIX_TIME;
use vstd::prelude::*;

verus! {

/// Why an operation refused.
#[derive(Clone, Copy, Debug, PartialEq, Eq)]
pub enum SnowberryError {
    /// A construction argument lay outside its bit width.
    Configuration,
    /// Every harvest count of the current millisecond has been handed out;
    /// retry with a later timestamp.
    SequenceExhausted,
}

/// The mathematical state of a generator: its two identity fields and the
/// harvest state of the most recent millisecond.
pub struct SnowberryView {
    pub seed: int,
    pub soil: int,
    pub harvested_count: int,
    pub last_harvested_at: int,
}

impl SnowberryView {
    /// Whether every field lies within its bit width.
    pub open spec fn wf(self) -> bool {
        &&& 0 <= self.seed <= MAX_SEED
        &&& 0 <= self.soil <= MAX_SOIL
        &&& 0 <= self.harvested_count <= HARVESTED_COUNT_MASK
        &&& 0 <= self.last_harvested_at < MAX_UNIX_TIME
    }
}

/// Whether minting at millisecond `t` succeeds from state `v`: it refuses
/// exactly when `t` is the millisecond already recorded and its harvest
/// counts are used up.
pub open spec fn mint_ok(v: SnowberryView, t: int) -> bool {
    !(t == v.last_harvested_at && v.harvested_count == HARVESTED_COUNT_MASK)
}

/// The generator state after minting at millisecond `t`: within one
/// millisecond the count advances modulo its bit width, a fresh millisecond
/// resets it to zero, and the recorded millisecond becomes `t` either way.
pub open spec fn step(v: SnowberryView, t: int) -> SnowberryView {
    if t == v.last_harvested_at {
        SnowberryView {
            harvested_count: if v.harvested_count == HARVESTED_COUNT_MASK {
                0
            } else {
                v.harvested_count + 1
            },
            ..v
        }
    } else {
        SnowberryView { harvested_count: 0, last_harvested_at: t, ..v }
    }
}

/// The identifier a successful mint at millisecond `t` from state `v` emits.
pub open spec fn step_id(v: SnowberryView, t: int) -> int {
    encode(t, v.seed, v.soil, step(v, t).harvested_count)
}

/// A Snowflake-style generator of unique 64-bit identifiers.
///
/// The identity fields `seed` and `soil` are fixed at construction; the
/// harvest state records the most recent emission millisecond and how many
/// identifiers that millisecond has yielded.
#[derive(Debug)]
pub struct Snowberry {
    seed: i64,
    soil: i64,
    harvested_count: i64,
    last_harvested_at: i64,
}

impl View for Snowberry {
    type V = SnowberryView;

    closed spec fn view(&self) -> SnowberryView {
        SnowberryView {
            seed: self.seed as int,
            soil: self.soil as int,
            harvested_count: self.harvested_count as int,
            last_harvested_at: self.last_harvested_at as int,
        }
    }
}

/// Wrapping increment of the harvest count: the mask turns the count that
/// would overflow its bit width into zero.
proof fn lemma_count_mask(x: i64)
    by (bit_vector)
    requires
        0 < x <= 0x1000,
    ensures
        (x & 0xfff) == if x == 0x1000 {
            0i64
        } else {
            x
        },
{
}

impl Snowberry {
    /// Builds a generator with the given identity fields, no emission
    /// recorded yet, and the harvest count at zero. Refuses any identity
    /// outside its bit width rather than truncating it.
    pub fn new(seed: i64, soil: i64) -> (r: Result<Snowberry, SnowberryError>)
        ensures
            r is Ok <==> (0 <= seed <= MAX_SEED && 0 <= soil <= MAX_SOIL),
            r is Ok ==> r->Ok_0@ == (SnowberryView {
                seed: seed as int,
                soil: soil as int,
                harvested_count: 0,
                last_harvested_at: 0,
            }),
            r is Ok ==> r->Ok_0@.wf(),
            r is Err ==> r->Err_0 == SnowberryError::Configuration,
    {
        if seed < 0 || seed > MAX_SEED || soil < 0 || soil > MAX_SOIL {
            return Err(SnowberryError::Configuration);
        }
        Ok(Snowberry { seed, soil, harvested_count: 0, last_harvested_at: 0 })
    }

    /// Mints the identifier for the millisecond `time_ms`, which must not
    /// precede the generator's recorded millisecond: the state advances by
    /// [`step`], and the emitted identifier is [`step_id`]. The one failure
    /// is exhaustion — `time_ms` equal to the recorded millisecond whose
    /// harvest counts are all spent — and even then the count wraps to zero
    /// and the recorded millisecond stands, so that only a genuinely later
    /// millisecond starts a fresh count.
    pub fn harvest_from_time(&mut self, time_ms: i64) -> (r: Result<i64, SnowberryError>)
        requires
            old(self)@.wf(),
            old(self)@.last_harvested_at <= time_ms,
            time_ms < MAX_UNIX_TIME,
        ensures
            final(self)@ == step(old(self)@, time_ms as int),
            final(self)@.wf(),
            r is Ok <==> mint_ok(old(self)@, time_ms as int),
            r is Ok ==> r->Ok_0 == step_id(old(self)@, time_ms as int),
            r is Err ==> r->Err_0 == SnowberryError::SequenceExhausted,
    {
        if time_ms == self.last_harvested_at {
            proof {
                lemma_count_mask((self.harvested_count + 1) as i64);
            }
            self.harvested_count = (self.harvested_count + 1) & HARVESTED_COUNT_MASK;
            if self.harvested_count == 0 {
                return Err(SnowberryError::SequenceExhausted);
            }
        } else {
            self.harvested_count = 0;
        }
        self.last_harvested_at = time_ms;
        Ok(encode_id(time_ms, self.seed, self.soil, self.harvested_count))
    }

    /// The `seed` identity this generator was built with.
    pub fn seed(&self) -> (r: i64)
        ensures
            r == self@.seed,
    {
        self.seed
    }

    /// The `soil` identity this generator was built with.
    pub fn soil(&self) -> (r: i64)
        ensures
            r == self@.soil,
    {
        self.soil
    }

    /// How many identifiers the recorded millisecond has yielded so far,
    /// less one: the harvest count embedded in the latest identifier.
    pub fn harvested_count(&self) -> (r: i64)
        ensures
            r == self@.harvested_count,
    {
        self.harvested_count
    }

    /// The millisecond of the most recent emission, or zero before the
    /// first.
    pub fn last_harvested_at(&self) -> (r: i64)
        ensures
            r == self@.last_harvested_at,
    {
        self.last_harvested_at
    }
}

} // verus!
