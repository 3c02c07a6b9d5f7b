//! Splitting a list of alphas into multi-simulations and joining their results.
use crate::parameter::AlphaConfig;
use crate::response::{results_view, SimulationResult};
use vstd::prelude::*;

verus! {

/// Alphas per multi-simulation used when the requested number is not in 2..=10.
pub const DEFAULT_MULTI_LIMIT: usize = 10;

/// Multi-simulations run at once when the requested number is not in 1..=8.
pub const DEFAULT_CONCURRENCY: usize = 3;

/// The alphas per multi-simulation: the requested number when it is in
/// 2..=10, else [`DEFAULT_MULTI_LIMIT`].
pub fn normalized_multi_limit(limit: usize) -> (r: usize)
    ensures
        r == if 2 <= limit <= 10 {
            limit
        } else {
            DEFAULT_MULTI_LIMIT
        },
{
    if limit < 2 || limit > 10 {
        DEFAULT_MULTI_LIMIT
    } else {
        limit
    }
}

/// The multi-simulations run at once: the requested number when it is in
/// 1..=8, else [`DEFAULT_CONCURRENCY`].
pub fn normalized_concurrency(limit: usize) -> (r: usize)
    ensures
        r == if 1 <= limit <= 8 {
            limit
        } else {
            DEFAULT_CONCURRENCY
        },
{
    if limit < 1 || limit > 8 {
        DEFAULT_CONCURRENCY
    } else {
        limit
    }
}

/// The contents of a sequence of vectors.
pub open spec fn vecs_view<T>(s: Seq<Vec<T>>) -> Seq<Seq<T>> {
    s.map_values(|v: Vec<T>| v@)
}

/// `chunks` splits `items` in order into runs of `size`, the last run
/// holding what is left (at least one item).
pub open spec fn is_chunking<T>(chunks: Seq<Seq<T>>, items: Seq<T>, size: nat) -> bool {
    &&& chunks.flatten() == items
    &&& forall|j: int| 0 <= j < chunks.len() ==> 0 < #[trigger] chunks[j].len() <= size
    &&& forall|j: int| 0 <= j < chunks.len() - 1 ==> #[trigger] chunks[j].len() == size
}

proof fn lemma_flatten_push<T>(s: Seq<Seq<T>>, x: Seq<T>)
    ensures
        s.push(x).flatten() == s.flatten() + x,
{
    s.push(x).lemma_flatten_and_flatten_alt_are_equivalent();
    s.lemma_flatten_and_flatten_alt_are_equivalent();
    assert(s.push(x).drop_last() =~= s);
}

proof fn lemma_uniform_flatten_len<T>(s: Seq<Seq<T>>, size: nat)
    requires
        forall|j: int| 0 <= j < s.len() ==> #[trigger] s[j].len() == size,
    ensures
        s.flatten().len() == s.len() * size,
    decreases s.len(),
{
    if s.len() > 0 {
        let init = s.drop_last();
        assert forall|j: int| 0 <= j < init.len() implies #[trigger] init[j].len() == size by {
            assert(init[j] == s[j]);
        }
        lemma_uniform_flatten_len(init, size);
        assert(s =~= init.push(s.last()));
        lemma_flatten_push(init, s.last());
        assert(s.len() * size == init.len() * size + size) by (nonlinear_arith)
            requires
                s.len() == init.len() + 1,
        ;
    }
}

/// A chunking of `n` items into runs of `size` has exactly ⌈n / size⌉
/// chunks: a list of alphas becomes that many multi-simulations.
pub proof fn lemma_chunk_count<T>(chunks: Seq<Seq<T>>, items: Seq<T>, size: nat)
    requires
        size > 0,
        is_chunking(chunks, items, size),
    ensures
        chunks.len() == (items.len() + size - 1) / size as int,
{
    if chunks.len() == 0 {
        assert(items.len() == 0);
        assert((size - 1) / size as int == 0) by (nonlinear_arith)
            requires
                size > 0,
        ;
    } else {
        let init = chunks.drop_last();
        let last = chunks.last();
        assert forall|j: int| 0 <= j < init.len() implies #[trigger] init[j].len() == size by {
            assert(init[j] == chunks[j]);
        }
        lemma_uniform_flatten_len(init, size);
        assert(chunks =~= init.push(last));
        lemma_flatten_push(init, last);
        let k = init.len();
        let l = last.len();
        assert(0 < l <= size);
        assert(items.len() == k * size + l);
        assert((k * size + l + size - 1) / size as int == k + 1) by (nonlinear_arith)
            requires
                0 < l <= size,
                size > 0,
                k >= 0,
        ;
    }
}

/// Splits `items` in order into chunks of `size`; the last chunk holds the
/// rest.
pub fn chunk<T>(items: Vec<T>, size: usize) -> (r: Vec<Vec<T>>)
    requires
        size > 0,
    ensures
        is_chunking(vecs_view(r@), items@, size as nat),
{
    let ghost all = items@;
    let mut out: Vec<Vec<T>> = Vec::new();
    let mut cur: Vec<T> = Vec::new();
    let mut rest = items;
    let ghost mut k: int = 0;
    assert(Seq::<Seq<T>>::empty().flatten() =~= Seq::<T>::empty());
    assert(vecs_view(out@) =~= Seq::<Seq<T>>::empty());
    while rest.len() > 0
        invariant
            0 <= k <= all.len(),
            rest@ == all.subrange(k, all.len() as int),
            vecs_view(out@).flatten() + cur@ == all.take(k),
            cur.len() < size,
            forall|j: int| 0 <= j < out.len() ==> #[trigger] out@[j]@.len() == size,
        decreases rest.len(),
    {
        let x = rest.remove(0);
        proof {
            assert(all.take(k + 1) =~= all.take(k).push(x));
            k = k + 1;
        }
        let ghost before = cur@;
        cur.push(x);
        assert(vecs_view(out@).flatten() + cur@ =~= all.take(k)) by {
            assert(cur@ =~= before.push(x));
        }
        if cur.len() == size {
            let ghost old_out = vecs_view(out@);
            let full = cur;
            cur = Vec::new();
            out.push(full);
            proof {
                assert(vecs_view(out@) =~= old_out.push(full@));
                lemma_flatten_push(old_out, full@);
                assert(vecs_view(out@).flatten() + cur@ =~= all.take(k));
            }
        }
    }
    assert(all.take(k) =~= all);
    if cur.len() > 0 {
        let ghost old_out = vecs_view(out@);
        let last = cur;
        out.push(last);
        proof {
            assert(vecs_view(out@) =~= old_out.push(last@));
            lemma_flatten_push(old_out, last@);
        }
    }
    out
}

/// Concatenates the results of the multi-simulations in order.
pub fn flatten_results(parts: Vec<Vec<SimulationResult>>) -> (r: Vec<SimulationResult>)
    ensures
        r@ == vecs_view(parts@).flatten(),
{
    let ghost all = vecs_view(parts@);
    let mut out: Vec<SimulationResult> = Vec::new();
    let mut rest = parts;
    let ghost mut k: int = 0;
    assert(all.take(0).flatten() =~= out@);
    while rest.len() > 0
        invariant
            0 <= k <= all.len(),
            vecs_view(rest@) == all.subrange(k, all.len() as int),
            out@ == all.take(k).flatten(),
        decreases rest.len(),
    {
        let ghost rest_before = vecs_view(rest@);
        let ghost rest_raw = rest@;
        let mut part = rest.remove(0);
        proof {
            assert(rest_before.len() == rest_raw.len());
            assert(all.subrange(k, all.len() as int)[0] == all[k]);
            assert(rest_before[0] == all[k]);
            assert(part@ == all[k]);
            assert(all.take(k + 1) =~= all.take(k).push(part@));
            lemma_flatten_push(all.take(k), part@);
            assert forall|i: int| 0 <= i < vecs_view(rest@).len() implies #[trigger] vecs_view(
                rest@,
            )[i] == all.subrange(k + 1, all.len() as int)[i] by {
                assert(rest@[i] == rest_raw[i + 1]);
                assert(rest_before[i + 1] == all[k + 1 + i]);
            }
            assert(vecs_view(rest@) =~= all.subrange(k + 1, all.len() as int));
            k = k + 1;
        }
        let ghost before = out@;
        out.append(&mut part);
        assert(out@ =~= before + all[k - 1]);
    }
    assert(all.take(k) =~= all);
    out
}

/// Whether a batch is simulated on its own rather than as a
/// multi-simulation: it holds exactly one alpha.
pub fn simulates_alone(batch: &Vec<AlphaConfig>) -> (r: bool)
    ensures
        r == (batch.len() == 1),
{
    batch.len() == 1
}

/// Whether the list holds a super alpha, which the platform does not
/// simulate in multi-simulations.
pub fn has_super_alpha(alphas: &Vec<AlphaConfig>) -> (r: bool)
    ensures
        r == exists|i: int| 0 <= i < alphas.len() && alphas@[i] is Super,
{
    let mut i: usize = 0;
    while i < alphas.len()
        invariant
            i <= alphas.len(),
            forall|j: int| 0 <= j < i ==> !(alphas@[j] is Super),
        decreases alphas.len() - i,
    {
        match &alphas[i] {
            AlphaConfig::Super { .. } => {
                return true;
            },
            AlphaConfig::Regular { .. } => {},
        }
        i = i + 1;
    }
    false
}

/// How a list of alphas is simulated: the batches, each one a
/// multi-simulation (or a single simulation when it holds one alpha), and
/// how many of them run at once.
pub struct SimulationPlan {
    pub concurrency: usize,
    pub batches: Vec<Vec<AlphaConfig>>,
}

/// Plans the simulation of `alphas`: the limits are normalized, and the
/// list is split in order into batches of the multi-simulation limit.
pub fn plan_simulations(
    alphas: Vec<AlphaConfig>,
    concurrency: usize,
    multi_limit: usize,
) -> (r: SimulationPlan)
    ensures
        r.concurrency == if 1 <= concurrency <= 8 {
            concurrency
        } else {
            DEFAULT_CONCURRENCY
        },
        is_chunking(
            vecs_view(r.batches@),
            alphas@,
            (if 2 <= multi_limit <= 10 {
                multi_limit
            } else {
                DEFAULT_MULTI_LIMIT
            }) as nat,
        ),
{
    let size = normalized_multi_limit(multi_limit);
    let conc = normalized_concurrency(concurrency);
    SimulationPlan { concurrency: conc, batches: chunk(alphas, size) }
}

} // verus!
