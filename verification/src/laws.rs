//! Laws of whole runs of the generator: what repeated minting yields, stated
//! over the spec-level transition [`step`] and proved once and for all.

use crate::codec::decode_count;
use crate::codec::decode_seed;
use crate::codec::decode_soil;
use crate::codec::decode_time;
use crate::codec::encode;
use crate::codec::fields_in_range;
use crate::codec::lemma_encode_injective;
use crate::codec::lemma_encode_monotonic;
use crate::codec::lemma_round_trip;
use crate::codec::HARVESTED_COUNT_MASK;
use crate::codec::MAX_UNIX_TIME;
use crate::generator::mint_ok;
use crate::generator::step;
use crate::generator::step_id;
use crate::generator::SnowberryView;
use vstd::prelude::*;

verus! {

/// The state after `n` mints, every one at the same millisecond `t`.
pub open spec fn run_at(v: SnowberryView, t: int, n: nat) -> SnowberryView
    decreases n,
{
    if n == 0 {
        v
    } else {
        step(run_at(v, t, (n - 1) as nat), t)
    }
}

/// The identifier the `(k + 1)`-th mint emits in a run at the fixed
/// millisecond `t`.
pub open spec fn id_at(v: SnowberryView, t: int, k: nat) -> int {
    step_id(run_at(v, t, k), t)
}

/// In a run at a fresh millisecond `t`, the first `n` mints leave the
/// identity fields alone, record `t`, and drive the harvest count to
/// `n - 1`.
proof fn lemma_run_at_fresh(v: SnowberryView, t: int, n: nat)
    requires
        v.wf(),
        v.last_harvested_at < t,
        1 <= n <= HARVESTED_COUNT_MASK + 1,
    ensures
        run_at(v, t, n) == (SnowberryView {
            seed: v.seed,
            soil: v.soil,
            harvested_count: n - 1,
            last_harvested_at: t,
        }),
    decreases n,
{
    if n == 1 {
        assert(run_at(v, t, 0nat) == v);
        assert(run_at(v, t, 1nat) == step(v, t));
    } else {
        lemma_run_at_fresh(v, t, (n - 1) as nat);
        assert(run_at(v, t, n) == step(run_at(v, t, (n - 1) as nat), t));
    }
}

/// Each mint of a run at a fresh millisecond `t` emits the identifier whose
/// harvest count field is its position in the run.
proof fn lemma_id_at_fresh(v: SnowberryView, t: int, k: nat)
    requires
        v.wf(),
        v.last_harvested_at < t,
        k <= HARVESTED_COUNT_MASK,
    ensures
        id_at(v, t, k) == encode(t, v.seed, v.soil, k as int),
{
    if k > 0 {
        lemma_run_at_fresh(v, t, k);
    }
}

/// Law: mints at one fixed millisecond yield pairwise distinct identifiers,
/// which agree on the timestamp and both identity fields and differ in the
/// harvest count field alone.
pub proof fn lemma_fixed_time_ids_distinct(v: SnowberryView, t: int, i: nat, j: nat)
    requires
        v.wf(),
        v.last_harvested_at < t,
        t < MAX_UNIX_TIME,
        i < j <= HARVESTED_COUNT_MASK,
    ensures
        id_at(v, t, i) != id_at(v, t, j),
        decode_time(id_at(v, t, i)) == t && decode_time(id_at(v, t, j)) == t,
        decode_seed(id_at(v, t, i)) == v.seed && decode_seed(id_at(v, t, j)) == v.seed,
        decode_soil(id_at(v, t, i)) == v.soil && decode_soil(id_at(v, t, j)) == v.soil,
        decode_count(id_at(v, t, i)) == i && decode_count(id_at(v, t, j)) == j,
{
    lemma_id_at_fresh(v, t, i);
    lemma_id_at_fresh(v, t, j);
    lemma_round_trip(t, v.seed, v.soil, i as int);
    lemma_round_trip(t, v.seed, v.soil, j as int);
}

/// Law: a fresh millisecond yields exactly `HARVESTED_COUNT_MASK + 1` mints
/// — one per harvest count — and the attempt after them is the one that
/// exhausts.
pub proof fn lemma_exhaustion_boundary(v: SnowberryView, t: int, k: nat)
    requires
        v.wf(),
        v.last_harvested_at < t,
        k <= HARVESTED_COUNT_MASK,
    ensures
        mint_ok(run_at(v, t, k), t),
        !mint_ok(run_at(v, t, (HARVESTED_COUNT_MASK + 1) as nat), t),
{
    if k > 0 {
        lemma_run_at_fresh(v, t, k);
    }
    lemma_run_at_fresh(v, t, (HARVESTED_COUNT_MASK + 1) as nat);
}

/// Law: generators whose identity fields differ anywhere never mint the same
/// identifier, even at equal timestamps and equal harvest counts.
pub proof fn lemma_cross_identity_distinct(
    t: int,
    seed1: int,
    soil1: int,
    seed2: int,
    soil2: int,
    count: int,
)
    requires
        fields_in_range(t, seed1, soil1, count),
        fields_in_range(t, seed2, soil2, count),
        seed1 != seed2 || soil1 != soil2,
    ensures
        encode(t, seed1, soil1, count) != encode(t, seed2, soil2, count),
{
    if encode(t, seed1, soil1, count) == encode(t, seed2, soil2, count) {
        lemma_encode_injective(t, seed1, soil1, count, t, seed2, soil2, count);
    }
}

/// Law: a mint at a millisecond later than the recorded one resets the
/// harvest count, whatever it had reached: the new state holds count zero
/// and the emitted identifier carries count zero.
pub proof fn lemma_sequence_reset(v: SnowberryView, t: int)
    requires
        v.wf(),
        v.last_harvested_at < t,
        t < MAX_UNIX_TIME,
    ensures
        step(v, t).harvested_count == 0,
        decode_count(step_id(v, t)) == 0,
{
    lemma_round_trip(t, v.seed, v.soil, 0);
}

/// Whether a run that mints once per entry of `ts` is admissible from state
/// `v`: the timestamps never decrease, the first does not precede the
/// recorded millisecond, and every one lies within range.
pub open spec fn admissible(v: SnowberryView, ts: Seq<int>) -> bool {
    &&& forall|i: int| 0 <= i < ts.len() - 1 ==> #[trigger] ts[i] <= ts[i + 1]
    &&& ts.len() > 0 ==> v.last_harvested_at <= ts[0]
    &&& forall|i: int| 0 <= i < ts.len() ==> ts[i] < MAX_UNIX_TIME
}

/// Whether every mint of the run succeeds.
pub open spec fn all_ok(v: SnowberryView, ts: Seq<int>) -> bool
    decreases ts.len(),
{
    ts.len() == 0 || (mint_ok(v, ts[0]) && all_ok(step(v, ts[0]), ts.drop_first()))
}

/// The identifiers the run emits, in order.
pub open spec fn ids_of_run(v: SnowberryView, ts: Seq<int>) -> Seq<int>
    decreases ts.len(),
{
    if ts.len() == 0 {
        Seq::<int>::empty()
    } else {
        seq![step_id(v, ts[0])] + ids_of_run(step(v, ts[0]), ts.drop_first())
    }
}

/// A run emits one identifier per timestamp.
pub proof fn lemma_ids_of_run_len(v: SnowberryView, ts: Seq<int>)
    ensures
        ids_of_run(v, ts).len() == ts.len(),
    decreases ts.len(),
{
    if ts.len() > 0 {
        lemma_ids_of_run_len(step(v, ts[0]), ts.drop_first());
    }
}

/// One mint keeps the state well formed, keeps the identity fields, and
/// records the millisecond it was given.
proof fn lemma_step_wf(v: SnowberryView, t: int)
    requires
        v.wf(),
        v.last_harvested_at <= t,
        t < MAX_UNIX_TIME,
    ensures
        step(v, t).wf(),
        step(v, t).last_harvested_at == t,
        step(v, t).seed == v.seed,
        step(v, t).soil == v.soil,
{
}

/// A successful mint emits an identifier strictly above the watermark of the
/// state it starts from: the encoding of that state's own recorded
/// millisecond and harvest count.
proof fn lemma_step_id_above(v: SnowberryView, t: int)
    requires
        v.wf(),
        v.last_harvested_at <= t,
        t < MAX_UNIX_TIME,
        mint_ok(v, t),
    ensures
        step_id(v, t) > encode(v.last_harvested_at, v.seed, v.soil, v.harvested_count),
{
    if t == v.last_harvested_at {
        lemma_encode_monotonic(t, v.harvested_count, t, v.harvested_count + 1, v.seed, v.soil);
    } else {
        lemma_encode_monotonic(v.last_harvested_at, v.harvested_count, t, 0, v.seed, v.soil);
    }
}

/// After the first mint, the rest of an admissible, fully successful run is
/// again an admissible, fully successful run.
proof fn lemma_run_tail(v: SnowberryView, ts: Seq<int>)
    requires
        v.wf(),
        admissible(v, ts),
        all_ok(v, ts),
        ts.len() > 0,
    ensures
        step(v, ts[0]).wf(),
        admissible(step(v, ts[0]), ts.drop_first()),
        all_ok(step(v, ts[0]), ts.drop_first()),
    decreases ts.len(),
{
    lemma_step_wf(v, ts[0]);
    let rest = ts.drop_first();
    assert forall|i: int| 0 <= i < rest.len() - 1 implies #[trigger] rest[i] <= rest[i + 1] by {
        assert(rest[i] == ts[i + 1]);
        assert(rest[i + 1] == ts[i + 2]);
    }
    assert forall|i: int| 0 <= i < rest.len() implies rest[i] < MAX_UNIX_TIME by {
        assert(rest[i] == ts[i + 1]);
    }
    if rest.len() > 0 {
        assert(rest[0] == ts[1]);
    }
}

/// Every identifier of an admissible, fully successful run lies strictly
/// above the watermark of the starting state.
proof fn lemma_ids_above_watermark(v: SnowberryView, ts: Seq<int>, j: int)
    requires
        v.wf(),
        admissible(v, ts),
        all_ok(v, ts),
        0 <= j < ts.len(),
    ensures
        ids_of_run(v, ts)[j] > encode(v.last_harvested_at, v.seed, v.soil, v.harvested_count),
    decreases j,
{
    let w = step(v, ts[0]);
    let rest = ts.drop_first();
    lemma_run_tail(v, ts);
    lemma_step_id_above(v, ts[0]);
    lemma_ids_of_run_len(w, rest);
    if j == 0 {
        assert(ids_of_run(v, ts)[0] == step_id(v, ts[0]));
    } else {
        lemma_ids_above_watermark(w, rest, j - 1);
        assert(ids_of_run(v, ts)[j] == ids_of_run(w, rest)[j - 1]);
        assert(encode(w.last_harvested_at, w.seed, w.soil, w.harvested_count) == step_id(v, ts[0]));
    }
}

/// Law: an admissible, fully successful run — mints at non-decreasing
/// timestamps, none of them exhausting — emits strictly increasing
/// identifiers.
pub proof fn lemma_monotonic_ids(v: SnowberryView, ts: Seq<int>, i: int, j: int)
    requires
        v.wf(),
        admissible(v, ts),
        all_ok(v, ts),
        0 <= i < j < ts.len(),
    ensures
        ids_of_run(v, ts)[i] < ids_of_run(v, ts)[j],
    decreases i,
{
    let w = step(v, ts[0]);
    let rest = ts.drop_first();
    lemma_run_tail(v, ts);
    lemma_ids_of_run_len(w, rest);
    assert(ids_of_run(v, ts)[j] == ids_of_run(w, rest)[j - 1]);
    if i == 0 {
        lemma_ids_above_watermark(w, rest, j - 1);
        assert(ids_of_run(v, ts)[0] == step_id(v, ts[0]));
        assert(encode(w.last_harvested_at, w.seed, w.soil, w.harvested_count) == step_id(v, ts[0]));
    } else {
        lemma_monotonic_ids(w, rest, i - 1, j - 1);
        assert(ids_of_run(v, ts)[i] == ids_of_run(w, rest)[i - 1]);
    }
}

/// Law: every emitted identifier decodes back to the millisecond it was
/// minted at, the generator's two identity fields, and the harvest count the
/// mint recorded.
pub proof fn lemma_minted_id_decodes(v: SnowberryView, t: int)
    requires
        v.wf(),
        v.last_harvested_at <= t,
        t < MAX_UNIX_TIME,
        mint_ok(v, t),
    ensures
        decode_time(step_id(v, t)) == t,
        decode_seed(step_id(v, t)) == v.seed,
        decode_soil(step_id(v, t)) == v.soil,
        decode_count(step_id(v, t)) == step(v, t).harvested_count,
{
    lemma_round_trip(t, v.seed, v.soil, step(v, t).harvested_count);
}

} // verus!
