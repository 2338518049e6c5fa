//! Properties that hold across the library's functions, proved over the
//! specifications that their contracts use.
use vstd::prelude::*;

use crate::analyzer::{
    clean_smart, clean_under, dust_smart, dust_under, effective_threshold,
};
use crate::psbt_builder::{
    consolidate_request_spec, op_return_request_spec, outpoint, sum_sats, FundedPsbtRequestView,
    OutputView,
};
use crate::per_utxo::{
    distinct_outpoints, is_funder_plan, is_top_funders, per_utxo_request_spec, ranks_above,
};
use crate::types::Utxo;

verus! {

proof fn lemma_sum_sats_push(s: Seq<Utxo>, u: Utxo)
    ensures
        sum_sats(s.push(u)) == sum_sats(s) + u.amount_sats,
{
    assert(s.push(u).drop_last() =~= s);
}

/// Splitting by a predicate and by its negation loses and duplicates nothing:
/// the counts and the amounts of the two parts add up to the whole.
proof fn lemma_split(s: Seq<Utxo>, p: spec_fn(Utxo) -> bool, q: spec_fn(Utxo) -> bool)
    requires
        forall|u: Utxo| #[trigger] q(u) == !p(u),
    ensures
        s.filter(p).len() + s.filter(q).len() == s.len(),
        sum_sats(s.filter(p)) + sum_sats(s.filter(q)) == sum_sats(s),
    decreases s.len(),
{
    reveal_with_fuel(Seq::<_>::filter, 1);
    if s.len() > 0 {
        let init = s.drop_last();
        let x = s.last();
        lemma_split(init, p, q);
        assert(s.drop_last() == init);
        if p(x) {
            lemma_sum_sats_push(init.filter(p), x);
        } else {
            lemma_sum_sats_push(init.filter(q), x);
        }
        lemma_sum_sats_push(init, x);
        assert(init.push(x) =~= s);
    }
}

proof fn lemma_filter_all(s: Seq<Utxo>, p: spec_fn(Utxo) -> bool)
    ensures
        forall|i: int| 0 <= i < s.filter(p).len() ==> p(#[trigger] s.filter(p)[i]),
{
    assert forall|i: int| 0 <= i < s.filter(p).len() implies p(#[trigger] s.filter(p)[i]) by {
        s.lemma_filter_pred(p, i);
    }
}

/// A flat threshold splits the outputs into a dust part and a clean part:
/// together they hold every output once, all dust lies below the threshold,
/// no clean output does, and their amounts add up to the wallet's total.
pub proof fn law_classify_partitions(utxos: Seq<Utxo>, threshold: u64)
    ensures
        utxos.filter(dust_under(threshold)).len() + utxos.filter(clean_under(threshold)).len()
            == utxos.len(),
        sum_sats(utxos.filter(dust_under(threshold))) + sum_sats(utxos.filter(clean_under(threshold)))
            == sum_sats(utxos),
        forall|i: int|
            0 <= i < utxos.filter(dust_under(threshold)).len() ==> #[trigger] utxos.filter(
                dust_under(threshold),
            )[i].amount_sats < threshold,
        forall|i: int|
            0 <= i < utxos.filter(clean_under(threshold)).len() ==> #[trigger] utxos.filter(
                clean_under(threshold),
            )[i].amount_sats >= threshold,
{
    lemma_split(utxos, dust_under(threshold), clean_under(threshold));
    lemma_filter_all(utxos, dust_under(threshold));
    lemma_filter_all(utxos, clean_under(threshold));
}

/// The same holds of the per-script-type split: every output lands in
/// exactly one part, judged by the threshold that applies to it.
pub proof fn law_classify_smart_partitions(utxos: Seq<Utxo>, user_threshold: Option<u64>)
    ensures
        utxos.filter(dust_smart(user_threshold)).len() + utxos.filter(clean_smart(user_threshold)).len()
            == utxos.len(),
        sum_sats(utxos.filter(dust_smart(user_threshold))) + sum_sats(
            utxos.filter(clean_smart(user_threshold)),
        ) == sum_sats(utxos),
        forall|i: int|
            0 <= i < utxos.filter(dust_smart(user_threshold)).len() ==> {
                let u = #[trigger] utxos.filter(dust_smart(user_threshold))[i];
                u.amount_sats < effective_threshold(u, user_threshold)
            },
        forall|i: int|
            0 <= i < utxos.filter(clean_smart(user_threshold)).len() ==> {
                let u = #[trigger] utxos.filter(clean_smart(user_threshold))[i];
                u.amount_sats >= effective_threshold(u, user_threshold)
            },
{
    lemma_split(utxos, dust_smart(user_threshold), clean_smart(user_threshold));
    lemma_filter_all(utxos, dust_smart(user_threshold));
    lemma_filter_all(utxos, clean_smart(user_threshold));
}

/// A threshold the user gives overrides every per-script-type limit: the
/// per-type split with it is the flat split by it.
pub proof fn law_user_threshold_overrides(utxos: Seq<Utxo>, threshold: u64)
    ensures
        utxos.filter(dust_smart(Some(threshold))) == utxos.filter(dust_under(threshold)),
        utxos.filter(clean_smart(Some(threshold))) == utxos.filter(clean_under(threshold)),
{
    assert(dust_smart(Some(threshold)) =~= dust_under(threshold));
    assert(clean_smart(Some(threshold)) =~= clean_under(threshold));
}

/// Raising the threshold never turns dust clean: every dust output stays dust,
/// and the dust part never shrinks.
pub proof fn law_higher_threshold_keeps_dust(utxos: Seq<Utxo>, low: u64, high: u64)
    requires
        low <= high,
    ensures
        utxos.filter(dust_under(low)).len() <= utxos.filter(dust_under(high)).len(),
        forall|u: Utxo| utxos.filter(dust_under(low)).contains(u) ==> #[trigger] utxos.filter(
            dust_under(high),
        ).contains(u),
    decreases utxos.len(),
{
    reveal_with_fuel(Seq::<_>::filter, 1);
    if utxos.len() > 0 {
        let init = utxos.drop_last();
        let x = utxos.last();
        law_higher_threshold_keeps_dust(init, low, high);
        let lo = init.filter(dust_under(low));
        let hi = init.filter(dust_under(high));
        assert forall|u: Utxo| utxos.filter(dust_under(low)).contains(u) implies #[trigger] utxos.filter(
            dust_under(high),
        ).contains(u) by {
            if x.amount_sats < low {
                let k = choose|k: int| 0 <= k < lo.push(x).len() && lo.push(x)[k] == u;
                if k < lo.len() {
                    assert(lo[k] == u);
                    assert(lo.contains(u));
                    assert(hi.contains(u));
                    let m = choose|m: int| 0 <= m < hi.len() && hi[m] == u;
                    assert(hi.push(x)[m] == u);
                } else {
                    assert(hi.push(x)[hi.len() as int] == u);
                }
            } else {
                assert(lo.contains(u));
                assert(hi.contains(u));
                let m = choose|m: int| 0 <= m < hi.len() && hi[m] == u;
                if x.amount_sats < high {
                    assert(hi.push(x)[m] == u);
                }
            }
        }
    }
}

proof fn lemma_filter_refines(s: Seq<Utxo>, p1: spec_fn(Utxo) -> bool, p2: spec_fn(Utxo) -> bool)
    requires
        forall|u: Utxo| #[trigger] p1(u) ==> p2(u),
    ensures
        s.filter(p1) == s.filter(p2).filter(p1),
    decreases s.len(),
{
    reveal_with_fuel(Seq::<_>::filter, 1);
    if s.len() > 0 {
        let init = s.drop_last();
        let x = s.last();
        lemma_filter_refines(init, p1, p2);
        if p2(x) {
            let f2 = init.filter(p2).push(x);
            assert(f2.drop_last() =~= init.filter(p2));
            assert(s.filter(p2) == f2);
        }
    }
}

/// Raising the threshold only moves outputs from clean to dust, keeping their
/// order: the dust list of the lower threshold is the dust list of the higher
/// one with the outputs at or above the lower threshold taken out, and the
/// clean list of the higher threshold is likewise drawn, in order, from the
/// clean list of the lower one. A threshold of zero leaves no dust.
pub proof fn law_higher_threshold_refines(utxos: Seq<Utxo>, low: u64, high: u64)
    requires
        low <= high,
    ensures
        utxos.filter(dust_under(low)) == utxos.filter(dust_under(high)).filter(dust_under(low)),
        utxos.filter(clean_under(high)) == utxos.filter(clean_under(low)).filter(
            clean_under(high),
        ),
        utxos.filter(dust_under(0)) == Seq::<Utxo>::empty(),
        utxos.filter(clean_under(0)) == utxos,
    decreases utxos.len(),
{
    lemma_filter_refines(utxos, dust_under(low), dust_under(high));
    lemma_filter_refines(utxos, clean_under(high), clean_under(low));
    reveal_with_fuel(Seq::<_>::filter, 1);
    if utxos.len() > 0 {
        law_higher_threshold_refines(utxos.drop_last(), low, high);
        assert(utxos.drop_last().push(utxos.last()) =~= utxos);
    }
}

/// The output that pays the fee is the one that returns the funder's amount,
/// written so that it denotes exactly that amount, in both batch methods.
pub proof fn law_fee_comes_from_funder_output(funder: Utxo, dust: Seq<Utxo>, address: Seq<char>)
    ensures
        ({
            let c = consolidate_request_spec(funder, dust, address);
            let o = op_return_request_spec(funder, dust, address);
            &&& c.outputs[c.subtract_fee_from_output] == OutputView::Pay(
                address,
                crate::amount::btc_text(funder.amount_sats as nat),
            )
            &&& o.outputs[o.subtract_fee_from_output] == OutputView::Pay(
                address,
                crate::amount::btc_text(funder.amount_sats as nat),
            )
        }),
        crate::amount::btc_text_value(crate::amount::btc_text(funder.amount_sats as nat))
            == funder.amount_sats,
{
    crate::amount::law_btc_text_denotes_amount(funder.amount_sats as nat);
}

/// Every batch request spends the funder and each dust output, and nothing
/// else.
pub proof fn law_batch_spends_funder_and_all_dust(funder: Utxo, dust: Seq<Utxo>, address: Seq<char>)
    ensures
        ({
            let r: FundedPsbtRequestView = consolidate_request_spec(funder, dust, address);
            &&& r.inputs.len() == dust.len() + 1
            &&& r.inputs[0] == outpoint(funder)
            &&& forall|i: int| 0 <= i < dust.len() ==> r.inputs[i + 1] == outpoint(#[trigger] dust[i])
        }),
        op_return_request_spec(funder, dust, address).inputs == consolidate_request_spec(
            funder,
            dust,
            address,
        ).inputs,
{
    let r = consolidate_request_spec(funder, dust, address);
    assert forall|i: int| 0 <= i < dust.len() implies r.inputs[i + 1] == outpoint(#[trigger] dust[i]) by {
    }
}

/// A per-output request never links two dust outputs: of all the dust
/// outputs, it spends only the one it is for.
pub proof fn law_per_utxo_spends_one_dust_output(
    funder: Utxo,
    dust: Seq<Utxo>,
    change: Seq<char>,
    i: int,
    j: int,
)
    requires
        0 <= i < dust.len(),
        0 <= j < dust.len(),
        outpoint(dust[j]) != outpoint(dust[i]),
        outpoint(dust[j]) != outpoint(funder),
    ensures
        !op_return_request_spec(funder, seq![dust[i]], change).inputs.contains(outpoint(dust[j])),
{
    let ins = op_return_request_spec(funder, seq![dust[i]], change).inputs;
    assert(ins =~= seq![outpoint(funder), outpoint(dust[i])]);
    if ins.contains(outpoint(dust[j])) {
        let k = choose|k: int| 0 <= k < ins.len() && ins[k] == outpoint(dust[j]);
        assert(k == 0 || k == 1);
    }
}

/// The best ranked funders are pairwise different clean outputs, and the
/// first of them is the one a batch sweep takes: the last of the largest.
proof fn lemma_top_funders(clean: Seq<Utxo>, funders: Seq<usize>, k: nat)
    requires
        clean.len() <= usize::MAX,
        is_top_funders(clean, funders, k),
    ensures
        forall|a: int, b: int| 0 <= a < b < k ==> funders[a] != funders[b],
        k > 0 ==> crate::psbt_builder::is_last_max(clean, funders[0] as int),
{
    assert forall|a: int, b: int| 0 <= a < b < k implies funders[a] != funders[b] by {
        assert(ranks_above(clean, funders[a] as int, funders[b] as int));
    }
    if k > 0 {
        let f = funders[0] as int;
        assert forall|j: int| 0 <= j < clean.len() && j != f implies ranks_above(clean, f, j) by {
            if funders.contains(j as usize) {
                let u = choose|u: int| 0 <= u < funders.len() && funders[u] == j as usize;
                assert(u != 0);
                assert(ranks_above(clean, funders[0] as int, funders[u] as int));
            } else if k > 1 {
                assert(ranks_above(clean, funders[0] as int, funders[k - 1] as int));
                assert(ranks_above(clean, funders[k - 1] as int, j));
            } else {
                assert(ranks_above(clean, funders[k - 1] as int, j));
            }
        }
        assert forall|j: int| 0 <= j < clean.len() implies #[trigger] clean[j].amount_sats
            <= clean[f].amount_sats by {
            if j != f {
                assert(ranks_above(clean, f, j));
            }
        }
        assert forall|j: int| f < j < clean.len() implies #[trigger] clean[j].amount_sats
            < clean[f].amount_sats by {
            assert(ranks_above(clean, f, j));
        }
    }
}

/// The funders of a per-output sweep: while clean outputs last, no two
/// requests share one; every request's funder is a clean output; the first
/// is the batch sweep's funder, and it funds every request beyond the clean
/// outputs.
pub proof fn law_per_utxo_funders(clean: Seq<Utxo>, funders: Seq<usize>, count: nat)
    requires
        clean.len() <= usize::MAX,
        is_funder_plan(clean, funders, count),
        count > 0,
    ensures
        forall|a: int, b: int|
            0 <= a < b < count && b < clean.len() ==> funders[a] != funders[b],
        forall|t: int| 0 <= t < count ==> #[trigger] funders[t] < clean.len(),
        crate::psbt_builder::is_last_max(clean, funders[0] as int),
        forall|t: int| clean.len() <= t < count ==> #[trigger] funders[t] == funders[0],
{
    let m: nat = if count <= clean.len() { count } else { clean.len() };
    let top = funders.take(m as int);
    lemma_top_funders(clean, top, m);
    assert(top[0] == funders[0]);
    assert forall|a: int, b: int| 0 <= a < b < count && b < clean.len() implies funders[a] != funders[b] by {
        assert(top[a] == funders[a]);
        assert(top[b] == funders[b]);
    }
    assert forall|t: int| 0 <= t < count implies #[trigger] funders[t] < clean.len() by {
        if t < m {
            assert(top[t] == funders[t]);
        } else {
            assert(funders[t] == funders[0]);
        }
    }
}

/// Per-output requests never link two dust outputs: request `i` spends dust
/// output `i` and no other. While clean outputs last, two requests share no
/// input at all, so each can be signed and broadcast on its own. This holds
/// for both per-output methods, given that the wallet's outputs are distinct
/// outpoints.
pub proof fn law_per_utxo_requests_disjoint(
    clean: Seq<Utxo>,
    funders: Seq<usize>,
    dust: Seq<Utxo>,
    address_i: Seq<char>,
    address_j: Seq<char>,
    consolidate: bool,
    i: int,
    j: int,
)
    requires
        clean.len() <= usize::MAX,
        is_funder_plan(clean, funders, dust.len()),
        distinct_outpoints(clean + dust),
        0 <= i < dust.len(),
        0 <= j < dust.len(),
        i != j,
    ensures
        ({
            let ri = per_utxo_request_spec(clean, funders, dust, i, address_i, consolidate);
            let rj = per_utxo_request_spec(clean, funders, dust, j, address_j, consolidate);
            &&& ri.inputs == seq![outpoint(clean[funders[i] as int]), outpoint(dust[i])]
            &&& !ri.inputs.contains(outpoint(dust[j]))
            &&& (i < clean.len() && j < clean.len()) ==> forall|a: int, b: int|
                0 <= a < ri.inputs.len() && 0 <= b < rj.inputs.len() ==> #[trigger] ri.inputs[a]
                    != #[trigger] rj.inputs[b]
        }),
{
    law_per_utxo_funders(clean, funders, dust.len());
    let ri = per_utxo_request_spec(clean, funders, dust, i, address_i, consolidate);
    let rj = per_utxo_request_spec(clean, funders, dust, j, address_j, consolidate);
    let all = clean + dust;
    let fi = funders[i] as int;
    let fj = funders[j] as int;
    let ci = clean.len() + i;
    let cj = clean.len() + j;
    assert(all[fi] == clean[fi]);
    assert(all[fj] == clean[fj]);
    assert(all[ci] == dust[i]);
    assert(all[cj] == dust[j]);
    assert(ri.inputs =~= seq![outpoint(clean[fi]), outpoint(dust[i])]);
    assert(rj.inputs =~= seq![outpoint(clean[fj]), outpoint(dust[j])]);
    assert(outpoint(all[fi]) != outpoint(all[cj]));
    assert(outpoint(all[ci]) != outpoint(all[fj]));
    assert(outpoint(all[ci]) != outpoint(all[cj]));
    if ri.inputs.contains(outpoint(dust[j])) {
        let k = choose|k: int| 0 <= k < ri.inputs.len() && ri.inputs[k] == outpoint(dust[j]);
        assert(k == 0 || k == 1);
    }
    if i < clean.len() && j < clean.len() {
        if i < j {
            assert(fi != fj);
        } else {
            assert(fj != fi);
        }
        assert(outpoint(all[fi]) != outpoint(all[fj]));
    }
}

} // verus!
