//! Which agents of a resonance cascade take part in propagation: an agent is
//! active when its amplitude exceeds the activation threshold, and only
//! active agents pass energy on through the coupling matrix.
use vstd::prelude::*;

verus! {

/// The number of active agents among `active`.
pub open spec fn count_active(active: Seq<bool>) -> nat
    decreases active.len(),
{
    if active.len() == 0 {
        0
    } else {
        count_active(active.drop_last()) + if active.last() {
            1nat
        } else {
            0nat
        }
    }
}

/// No more agents can be active than there are agents, and none is active
/// exactly when the count of active agents is zero.
pub proof fn lemma_count_active_bounds(active: Seq<bool>)
    ensures
        count_active(active) <= active.len(),
        count_active(active) == 0 <==> forall|i: int| 0 <= i < active.len() ==> !active[i],
    decreases active.len(),
{
    if active.len() > 0 {
        let rest = active.drop_last();
        lemma_count_active_bounds(rest);
        if count_active(active) == 0 {
            assert forall|i: int| 0 <= i < active.len() implies !active[i] by {
                if i < active.len() - 1 {
                    assert(rest[i] == active[i]);
                }
            }
        } else {
            if !active.last() {
                let i = choose|i: int| 0 <= i < rest.len() && rest[i];
                assert(active[i]);
            }
        }
    }
}

/// `sources` lists, in increasing order and each once, exactly the indices of
/// the active agents of `active`.
pub open spec fn lists_active_agents(active: Seq<bool>, sources: Seq<usize>) -> bool {
    &&& forall|k: int| 0 <= k < sources.len() ==> #[trigger] sources[k] < active.len()
    &&& forall|k: int| 0 <= k < sources.len() ==> active[#[trigger] sources[k] as int]
    &&& forall|a: int, b: int| 0 <= a < b < sources.len() ==> #[trigger] sources[a] < #[trigger] sources[b]
    &&& forall|i: int| 0 <= i < active.len() && #[trigger] active[i] ==> sources.contains(i as usize)
}

/// The agents that propagate energy in a step: the indices `i` with
/// `active[i]`, in increasing order, which is the order in which their
/// contributions are summed.
pub fn active_agents(active: &Vec<bool>) -> (sources: Vec<usize>)
    ensures
        lists_active_agents(active@, sources@),
        sources.len() == count_active(active@),
{
    let mut sources: Vec<usize> = Vec::new();
    let mut i: usize = 0;
    while i < active.len()
        invariant
            i <= active.len(),
            forall|k: int| 0 <= k < sources.len() ==> #[trigger] sources@[k] < i,
            forall|k: int| 0 <= k < sources.len() ==> active@[#[trigger] sources@[k] as int],
            forall|a: int, b: int|
                0 <= a < b < sources.len() ==> #[trigger] sources@[a] < #[trigger] sources@[b],
            forall|j: int| 0 <= j < i && #[trigger] active@[j] ==> sources@.contains(j as usize),
            sources.len() == count_active(active@.take(i as int)),
        decreases active.len() - i,
    {
        assert(active@.take(i + 1).drop_last() =~= active@.take(i as int));
        let ghost before = sources@;
        if active[i] {
            sources.push(i);
            assert(sources@[sources.len() - 1] == i);
        }
        assert forall|j: int| 0 <= j < i + 1 && #[trigger] active@[j] implies sources@.contains(
            j as usize,
        ) by {
            if j == i {
                assert(sources@[sources.len() - 1] == i);
            } else {
                let k = choose|k: int| 0 <= k < before.len() && before[k] == j as usize;
                assert(sources@[k] == j as usize);
            }
        }
        i = i + 1;
    }
    assert(active@.take(active.len() as int) =~= active@);
    sources
}

/// The number of agents above the activation threshold.
pub fn active_count(active: &Vec<bool>) -> (n: usize)
    ensures
        n == count_active(active@),
        n <= active.len(),
{
    proof {
        lemma_count_active_bounds(active@);
    }
    let sources = active_agents(active);
    sources.len()
}

/// Whether the cascade has died out: no agent is above the threshold.
pub fn is_settled(active: &Vec<bool>) -> (settled: bool)
    ensures
        settled <==> count_active(active@) == 0,
        settled <==> forall|i: int| 0 <= i < active.len() ==> !active@[i],
{
    proof {
        lemma_count_active_bounds(active@);
    }
    active_count(active) == 0
}

} // verus!
