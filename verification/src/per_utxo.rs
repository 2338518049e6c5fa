use vstd::prelude::*;

use crate::psbt_builder::{require_dust, SweepError};
use crate::types::Utxo;

verus! {

/// Clean output `i` ranks above clean output `j`: a larger amount, or the
/// same amount and a later place.
pub open spec fn ranks_above(s: Seq<Utxo>, i: int, j: int) -> bool {
    s[i].amount_sats > s[j].amount_sats || (s[i].amount_sats == s[j].amount_sats && i > j)
}

/// `r` names the `k` best ranked clean outputs, best first.
pub open spec fn is_top_funders(s: Seq<Utxo>, r: Seq<usize>, k: nat) -> bool {
    &&& r.len() == k
    &&& forall|t: int| 0 <= t < k ==> #[trigger] r[t] < s.len()
    &&& forall|t: int, u: int| 0 <= t < u < k ==> ranks_above(s, #[trigger] r[t] as int, #[trigger] r[u] as int)
    &&& k > 0 ==> forall|j: int|
        #![trigger r.contains(j as usize)]
        #![trigger ranks_above(s, r[k - 1] as int, j)]
        0 <= j < s.len() && !r.contains(j as usize) ==> ranks_above(s, r[k - 1] as int, j)
}

/// The funders of `count` per-output requests: while clean outputs last,
/// request `t` takes the `t`-th best ranked one, so no two of these share a
/// funder; the requests beyond them all take the best ranked one.
pub open spec fn is_funder_plan(s: Seq<Utxo>, r: Seq<usize>, count: nat) -> bool {
    let m = if count <= s.len() { count } else { s.len() };
    &&& r.len() == count
    &&& count > 0 ==> s.len() > 0
    &&& is_top_funders(s, r.take(m as int), m)
    &&& forall|t: int| m <= t < count ==> #[trigger] r[t] == r[0]
}

/// The outpoints of the outputs are pairwise different.
pub open spec fn distinct_outpoints(s: Seq<Utxo>) -> bool {
    forall|i: int, j: int|
        0 <= i < j < s.len() ==> crate::psbt_builder::outpoint(#[trigger] s[i])
            != crate::psbt_builder::outpoint(#[trigger] s[j])
}

/// Per-output request `i`: it spends funder `funders[i]` (into `clean`) and
/// dust output `i` only, paying the funder's amount to `address` (after an
/// `OP_RETURN` "ash" output, when burning).
pub open spec fn per_utxo_request_spec(
    clean: Seq<Utxo>,
    funders: Seq<usize>,
    dust: Seq<Utxo>,
    i: int,
    address: Seq<char>,
    consolidate: bool,
) -> crate::psbt_builder::FundedPsbtRequestView {
    if consolidate {
        crate::psbt_builder::consolidate_request_spec(clean[funders[i] as int], seq![dust[i]], address)
    } else {
        crate::psbt_builder::op_return_request_spec(clean[funders[i] as int], seq![dust[i]], address)
    }
}

/// A clean output may come next after the funders `chosen`: it ranks below
/// the last of them.
pub open spec fn eligible_next(s: Seq<Utxo>, chosen: Seq<usize>, j: int) -> bool {
    chosen.len() == 0 || ranks_above(s, chosen.last() as int, j)
}

proof fn lemma_ranks_above_total(s: Seq<Utxo>, i: int, j: int)
    requires
        i != j,
    ensures
        ranks_above(s, i, j) || ranks_above(s, j, i),
        !(ranks_above(s, i, j) && ranks_above(s, j, i)),
{
}

/// `t` indices below `n`, with `t < n`, always miss one of them.
proof fn lemma_misses_one(r: Seq<usize>, n: nat)
    requires
        r.len() < n,
        n <= usize::MAX,
    ensures
        exists|j: int| 0 <= j < n && !#[trigger] r.contains(j as usize),
{
    if forall|j: int| 0 <= j < n ==> #[trigger] r.contains(j as usize) {
        let rr = r.map_values(|x: usize| x as int);
        assert forall|j: int| vstd::set_lib::set_int_range(0, n as int).contains(j) implies rr.to_set().contains(
            j,
        ) by {
            assert(r.contains(j as usize));
            let k = choose|k: int| 0 <= k < r.len() && r[k] == j as usize;
            assert(rr[k] == j);
            assert(rr.contains(j));
        }
        vstd::set_lib::lemma_int_range(0, n as int);
        vstd::seq_lib::seq_to_set_is_finite(rr);
        vstd::set_lib::lemma_len_subset(vstd::set_lib::set_int_range(0, n as int), rr.to_set());
        rr.lemma_cardinality_of_set();
        assert(false);
    }
}

fn ranks_above_exec(s: &[Utxo], i: usize, j: usize) -> (r: bool)
    requires
        i < s@.len(),
        j < s@.len(),
    ensures
        r == ranks_above(s@, i as int, j as int),
{
    s[i].amount_sats > s[j].amount_sats || (s[i].amount_sats == s[j].amount_sats && i > j)
}

/// The `count` best ranked clean outputs, best first: the largest amounts,
/// the later of equal ones first.
fn top_funders(count: usize, clean_utxos: &[Utxo]) -> (r: Vec<usize>)
    requires
        count <= clean_utxos@.len(),
    ensures
        is_top_funders(clean_utxos@, r@, count as nat),
{
    let n = clean_utxos.len();
    let mut chosen: Vec<usize> = Vec::new();
    for t in 0..count
        invariant
            n == clean_utxos@.len(),
            count <= n,
            is_top_funders(clean_utxos@, chosen@, t as nat),
    {
        let ghost s = clean_utxos@;
        let mut best: Option<usize> = None;
        for j in 0..n
            invariant
                n == s.len(),
                s == clean_utxos@,
                t == chosen@.len(),
                t < n,
                is_top_funders(s, chosen@, t as nat),
                best is None ==> forall|jj: int|
                    0 <= jj < j ==> !#[trigger] eligible_next(s, chosen@, jj),
                best matches Some(b) ==> {
                    &&& b < j
                    &&& eligible_next(s, chosen@, b as int)
                    &&& forall|jj: int|
                        0 <= jj < j && #[trigger] eligible_next(s, chosen@, jj) ==> jj == b
                            || ranks_above(s, b as int, jj)
                },
        {
            let eligible = t == 0 || ranks_above_exec(clean_utxos, chosen[t - 1], j);
            assert(eligible == eligible_next(s, chosen@, j as int));
            if eligible {
                match best {
                    None => {
                        best = Some(j);
                    },
                    Some(b) => {
                        if ranks_above_exec(clean_utxos, j, b) {
                            best = Some(j);
                        } else {
                            proof {
                                lemma_ranks_above_total(s, j as int, b as int);
                            }
                        }
                    },
                }
            }
        }
        proof {
            lemma_misses_one(chosen@, n as nat);
            let j = choose|j: int| 0 <= j < n && !#[trigger] chosen@.contains(j as usize);
            assert(eligible_next(s, chosen@, j));
        }
        let b = match best {
            Some(b) => b,
            None => {
                proof {
                    assert(false);
                }
                0
            },
        };
        let ghost before = chosen@;
        chosen.push(b);
        proof {
            let after = chosen@;
            assert(after.len() == t + 1);
            assert forall|q: int| 0 <= q < t + 1 implies #[trigger] after[q] < s.len() by {
                if q < t {
                    assert(after[q] == before[q]);
                }
            }
            assert forall|p: int, u: int| 0 <= p < u < t + 1 implies ranks_above(
                s,
                #[trigger] after[p] as int,
                #[trigger] after[u] as int,
            ) by {
                assert(after[p] == before[p]);
                if u < t {
                    assert(after[u] == before[u]);
                } else if p < t - 1 {
                    assert(ranks_above(s, before[p] as int, before[t - 1] as int));
                }
            }
            assert forall|j: int| 0 <= j < s.len() && !after.contains(j as usize) implies ranks_above(
                s,
                after[t as int] as int,
                j,
            ) by {
                assert(after[t as int] == b);
                if j == b as int {
                    assert(after.contains(j as usize));
                }
                if before.contains(j as usize) {
                    let k = choose|k: int| 0 <= k < before.len() && before[k] == j as usize;
                    assert(after[k] == j as usize);
                    assert(after.contains(j as usize));
                }
                assert(eligible_next(s, before, j));
            }
        }
    }
    chosen
}

/// The funders of `count` per-output requests: the best ranked clean outputs,
/// no two the same, while they last, then the best ranked one again for every
/// further request. `None` when a request needs a funder and there is no
/// clean output.
pub fn select_funders(count: usize, clean_utxos: &[Utxo]) -> (r: Option<Vec<usize>>)
    ensures
        r is None <==> clean_utxos@.len() == 0 && count > 0,
        r matches Some(v) ==> is_funder_plan(clean_utxos@, v@, count as nat),
{
    let n = clean_utxos.len();
    if count == 0 {
        let v: Vec<usize> = Vec::new();
        assert(v@.take(0) =~= v@);
        return Some(v);
    }
    if n == 0 {
        return None;
    }
    let m = if count <= n { count } else { n };
    let mut funders = top_funders(m, clean_utxos);
    let best = funders[0];
    let ghost top = funders@;
    for t in m..count
        invariant
            m <= count,
            m > 0,
            top.len() == m,
            funders@.len() == t,
            funders@.take(m as int) == top,
            best == top[0],
            forall|q: int| m <= q < t ==> #[trigger] funders@[q] == best,
    {
        funders.push(best);
        proof {
            assert(funders@.take(m as int) =~= top);
        }
    }
    proof {
        assert(funders@[0] == funders@.take(m as int)[0]);
    }
    Some(funders)
}

/// Checks a per-output sweep and picks its funders: `NoDust` first, then
/// `NoFunder`, else one funder for each dust output as `select_funders` picks
/// them.
pub fn prepare_per_utxo_sweep(dust_utxos: &[Utxo], clean_utxos: &[Utxo]) -> (r: Result<
    Vec<usize>,
    SweepError,
>)
    ensures
        r is Err <==> crate::psbt_builder::setup_error(dust_utxos@, clean_utxos@) is Some,
        r matches Err(e) ==> Some(e) == crate::psbt_builder::setup_error(dust_utxos@, clean_utxos@),
        r matches Ok(v) ==> is_funder_plan(clean_utxos@, v@, dust_utxos@.len()),
{
    require_dust(dust_utxos)?;
    match select_funders(dust_utxos.len(), clean_utxos) {
        Some(v) => Ok(v),
        None => Err(SweepError::NoFunder),
    }
}

} // verus!
