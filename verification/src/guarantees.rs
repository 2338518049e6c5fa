//! What each operation promises, written out with plain numbers, characters
//! and variants, so that every promise stands apart from the specification
//! functions that the contracts are phrased in.
use vstd::prelude::*;

use crate::analyzer::{dust_smart, script_type_of, threshold_of, ScriptType};
use crate::cli::SweepMethod;
use crate::psbt_builder::{
    address_label, all_anyonecanpay, ash_hex, consolidate_request_spec, estimated_fee,
    is_last_max, max_sats, op_return_request_spec, outpoint, rbf_sequence, sum_sats, OutputView,
};
use crate::per_utxo::{is_funder_plan, per_utxo_request_spec};
use crate::psbt_builder::{setup_error, SweepError};
use crate::text::{contains_seq, has_prefix};
use crate::report::{sweep_mode_of, SweepMode};
use crate::types::Utxo;

verus! {

/// `a` begins with the characters of `p`.
pub open spec fn begins(a: Seq<char>, p: Seq<char>) -> bool {
    a.len() >= p.len() && forall|k: int| 0 <= k < p.len() ==> a[k] == #[trigger] p[k]
}

proof fn lemma_begins_prefix(a: Seq<char>, p: Seq<char>)
    ensures
        begins(a, p) == crate::text::has_prefix(a, p),
{
    if begins(a, p) {
        assert(a.subrange(0, p.len() as int) =~= p);
    }
    if crate::text::has_prefix(a, p) {
        assert forall|k: int| 0 <= k < p.len() implies a[k] == #[trigger] p[k] by {
            assert(a.subrange(0, p.len() as int)[k] == a[k]);
        }
    }
}

/// The address families and their dust limits. An address that begins with
/// `1` is P2PKH with a limit of 546 sats; with `3`, P2SH with 540; with
/// `bc1q`, `bcrt1q` or `tb1q`, P2WPKH with 294; with `bc1p`, `bcrt1p` or
/// `tb1p`, P2TR with 294; with none of these, it is of no known type and held
/// to 546.
pub proof fn law_address_families(a: Seq<char>)
    ensures
        begins(a, seq!['1']) ==> script_type_of(a) == ScriptType::P2PKH,
        begins(a, seq!['3']) ==> script_type_of(a) == ScriptType::P2SH,
        begins(a, seq!['b', 'c', '1', 'q']) ==> script_type_of(a) == ScriptType::P2WPKH,
        begins(a, seq!['b', 'c', 'r', 't', '1', 'q']) ==> script_type_of(a) == ScriptType::P2WPKH,
        begins(a, seq!['t', 'b', '1', 'q']) ==> script_type_of(a) == ScriptType::P2WPKH,
        begins(a, seq!['b', 'c', '1', 'p']) ==> script_type_of(a) == ScriptType::P2TR,
        begins(a, seq!['b', 'c', 'r', 't', '1', 'p']) ==> script_type_of(a) == ScriptType::P2TR,
        begins(a, seq!['t', 'b', '1', 'p']) ==> script_type_of(a) == ScriptType::P2TR,
        !begins(a, seq!['1']) && !begins(a, seq!['3']) && !begins(a, seq!['b', 'c', '1', 'q'])
            && !begins(a, seq!['b', 'c', 'r', 't', '1', 'q']) && !begins(a, seq!['t', 'b', '1', 'q'])
            && !begins(a, seq!['b', 'c', '1', 'p']) && !begins(a, seq!['b', 'c', 'r', 't', '1', 'p'])
            && !begins(a, seq!['t', 'b', '1', 'p']) ==> script_type_of(a) == ScriptType::Unknown,
        threshold_of(ScriptType::P2PKH) == 546,
        threshold_of(ScriptType::P2SH) == 540,
        threshold_of(ScriptType::P2WPKH) == 294,
        threshold_of(ScriptType::P2TR) == 294,
        threshold_of(ScriptType::Unknown) == 546,
{
    let ps = seq![
        seq!['1'],
        seq!['3'],
        seq!['b', 'c', '1', 'q'],
        seq!['b', 'c', 'r', 't', '1', 'q'],
        seq!['t', 'b', '1', 'q'],
        seq!['b', 'c', '1', 'p'],
        seq!['b', 'c', 'r', 't', '1', 'p'],
        seq!['t', 'b', '1', 'p'],
    ];
    assert forall|i: int| 0 <= i < ps.len() implies begins(a, #[trigger] ps[i]) == crate::text::has_prefix(a, ps[i]) by {
        lemma_begins_prefix(a, ps[i]);
    }
    assert(ps[0] == crate::analyzer::p2pkh_prefix());
    assert(ps[1] == crate::analyzer::p2sh_prefix());
    assert(ps[2] == crate::analyzer::p2wpkh_prefixes()[0]);
    assert(ps[3] == crate::analyzer::p2wpkh_prefixes()[1]);
    assert(ps[4] == crate::analyzer::p2wpkh_prefixes()[2]);
    assert(ps[5] == crate::analyzer::p2tr_prefixes()[0]);
    assert(ps[6] == crate::analyzer::p2tr_prefixes()[1]);
    assert(ps[7] == crate::analyzer::p2tr_prefixes()[2]);
    // No address begins with two of these families at once.
    if begins(a, ps[2]) || begins(a, ps[3]) || begins(a, ps[4]) {
        assert(!begins(a, ps[0]) && !begins(a, ps[1]));
        assert(!begins(a, ps[5]) && !begins(a, ps[6]) && !begins(a, ps[7])) by {
            if begins(a, ps[5]) { assert(a[3] == ps[5][3]); if begins(a, ps[2]) { assert(a[3] == ps[2][3]); } if begins(a, ps[3]) { assert(a[2] == ps[3][2]); } if begins(a, ps[4]) { assert(a[0] == ps[4][0]); } }
            if begins(a, ps[6]) { assert(a[5] == ps[6][5]); if begins(a, ps[2]) { assert(a[2] == ps[2][2]); } if begins(a, ps[3]) { assert(a[5] == ps[3][5]); } if begins(a, ps[4]) { assert(a[0] == ps[4][0]); } }
            if begins(a, ps[7]) { assert(a[3] == ps[7][3]); if begins(a, ps[2]) { assert(a[0] == ps[2][0]); } if begins(a, ps[3]) { assert(a[0] == ps[3][0]); } if begins(a, ps[4]) { assert(a[3] == ps[4][3]); } }
        }
        if begins(a, ps[0]) { assert(a[0] == ps[0][0]); }
        if begins(a, ps[1]) { assert(a[0] == ps[1][0]); }
    }
    if begins(a, ps[5]) || begins(a, ps[6]) || begins(a, ps[7]) {
        if begins(a, ps[0]) { assert(a[0] == ps[0][0]); }
        if begins(a, ps[1]) { assert(a[0] == ps[1][0]); }
    }
    if begins(a, ps[0]) && begins(a, ps[1]) {
        assert(a[0] == ps[0][0]);
    }
    if !begins(a, ps[2]) && !begins(a, ps[3]) && !begins(a, ps[4]) {
        assert(!crate::analyzer::has_any_prefix(a, crate::analyzer::p2wpkh_prefixes())) by {
            if crate::analyzer::has_any_prefix(a, crate::analyzer::p2wpkh_prefixes()) {
                let i = choose|i: int| 0 <= i < 3 && crate::text::has_prefix(a, #[trigger] crate::analyzer::p2wpkh_prefixes()[i]);
                assert(i == 0 || i == 1 || i == 2);
            }
        }
    } else {
        assert(crate::analyzer::has_any_prefix(a, crate::analyzer::p2wpkh_prefixes())) by {
            if begins(a, ps[2]) { assert(crate::text::has_prefix(a, crate::analyzer::p2wpkh_prefixes()[0])); }
            else if begins(a, ps[3]) { assert(crate::text::has_prefix(a, crate::analyzer::p2wpkh_prefixes()[1])); }
            else { assert(crate::text::has_prefix(a, crate::analyzer::p2wpkh_prefixes()[2])); }
        }
    }
    if !begins(a, ps[5]) && !begins(a, ps[6]) && !begins(a, ps[7]) {
        assert(!crate::analyzer::has_any_prefix(a, crate::analyzer::p2tr_prefixes())) by {
            if crate::analyzer::has_any_prefix(a, crate::analyzer::p2tr_prefixes()) {
                let i = choose|i: int| 0 <= i < 3 && crate::text::has_prefix(a, #[trigger] crate::analyzer::p2tr_prefixes()[i]);
                assert(i == 0 || i == 1 || i == 2);
            }
        }
    } else {
        assert(crate::analyzer::has_any_prefix(a, crate::analyzer::p2tr_prefixes())) by {
            if begins(a, ps[5]) { assert(crate::text::has_prefix(a, crate::analyzer::p2tr_prefixes()[0])); }
            else if begins(a, ps[6]) { assert(crate::text::has_prefix(a, crate::analyzer::p2tr_prefixes()[1])); }
            else { assert(crate::text::has_prefix(a, crate::analyzer::p2tr_prefixes()[2])); }
        }
    }
}

/// The smart dust test of an output: with a user threshold, below that
/// threshold; without one, below the dust limit of its address's script type
/// (the same test `is_dust_smart` makes on the address alone), and below 546
/// sats for an output without an address. With the families above, a Taproot
/// or segwit output of 300 sats is clean and a P2PKH one is dust.
pub proof fn law_smart_dust_test(u: Utxo, user_threshold: Option<u64>)
    ensures
        user_threshold matches Some(t) ==> (dust_smart(user_threshold)(u) <==> u.amount_sats < t),
        user_threshold is None ==> match u.address {
            Some(a) => dust_smart(None)(u) <==> u.amount_sats < threshold_of(script_type_of(a@)),
            None => dust_smart(None)(u) <==> u.amount_sats < 546,
        },
        user_threshold is None && u.address is Some ==> {
            let a = u.address->0@;
            &&& (begins(a, seq!['b', 'c', 'r', 't', '1', 'p']) || begins(a, seq!['b', 'c', '1', 'p'])
                || begins(a, seq!['t', 'b', '1', 'p'])) ==> (dust_smart(None)(u) <==> u.amount_sats < 294)
            &&& (begins(a, seq!['b', 'c', 'r', 't', '1', 'q']) || begins(a, seq!['b', 'c', '1', 'q'])
                || begins(a, seq!['t', 'b', '1', 'q'])) ==> (dust_smart(None)(u) <==> u.amount_sats < 294)
            &&& begins(a, seq!['1']) ==> (dust_smart(None)(u) <==> u.amount_sats < 546)
            &&& begins(a, seq!['3']) ==> (dust_smart(None)(u) <==> u.amount_sats < 540)
        },
{
    if let Some(a) = u.address {
        law_address_families(a@);
    }
}

/// Planning a sweep: without dust nothing is done; with dust, `--dry-run`
/// always gives a preview and never builds anything (the funderless preview
/// for `ALL|ANYONECANPAY`, else the fee estimate), whatever `--batch` and the
/// method; without `--dry-run`, `ALL|ANYONECANPAY` signs each output alone,
/// `--batch` gives one transaction by the method, and otherwise each dust
/// output gets its own by the method.
pub proof fn law_sweep_plan(dust_count: nat, dry_run: bool, batch: bool, method: SweepMethod)
    ensures
        dust_count == 0 ==> sweep_mode_of(dust_count, dry_run, batch, method) == SweepMode::NothingToSweep,
        dust_count > 0 ==> sweep_mode_of(dust_count, dry_run, batch, method) != SweepMode::NothingToSweep,
        dust_count > 0 && dry_run && method != SweepMethod::AnyoneCanPay ==> sweep_mode_of(
            dust_count,
            dry_run,
            batch,
            method,
        ) == SweepMode::DryRun,
        dust_count > 0 && dry_run && method == SweepMethod::AnyoneCanPay ==> sweep_mode_of(
            dust_count,
            dry_run,
            batch,
            method,
        ) == SweepMode::DryRunAnyoneCanPay,
        dust_count > 0 && !dry_run ==> ({
            let m = sweep_mode_of(dust_count, dry_run, batch, method);
            &&& m != SweepMode::DryRun
            &&& m != SweepMode::DryRunAnyoneCanPay
            &&& method == SweepMethod::AnyoneCanPay ==> m == SweepMode::AnyoneCanPay
            &&& method == SweepMethod::Consolidate && batch ==> m == SweepMode::BatchConsolidate
            &&& method == SweepMethod::Consolidate && !batch ==> m == SweepMode::PerUtxoConsolidate
            &&& method == SweepMethod::OpReturn && batch ==> m == SweepMode::BatchOpReturn
            &&& method == SweepMethod::OpReturn && !batch ==> m == SweepMode::PerUtxoOpReturn
        }),
{
}

/// The dry run's fee estimate: 218 sats for the funder alone, and exactly 136
/// sats (68 vbytes at 2 sat/vbyte) more for every dust input.
pub proof fn law_fee_estimate(dust_count: nat)
    ensures
        estimated_fee(0) == 218,
        estimated_fee(dust_count + 1) == estimated_fee(dust_count) + 136,
        estimated_fee(dust_count) == 136 * dust_count + 218,
{
}

/// Every funded PSBT request is replaceable and keeps its shape, for any
/// number of dust inputs: consolidation pays one output, the fee's, which is
/// output 0; burning puts the `OP_RETURN` data `617368` ("ash") first and the
/// fee-paying return of the funder's amount second. Each spends the funder
/// first and the dust after it.
pub proof fn law_request_shape(funder: Utxo, dust: Seq<Utxo>, address: Seq<char>)
    ensures
        ({
            let c = consolidate_request_spec(funder, dust, address);
            &&& c.replaceable
            &&& c.subtract_fee_from_output == 0
            &&& c.outputs.len() == 1
            &&& c.outputs[0] is Pay
            &&& c.outputs[0]->Pay_0 == address
            &&& c.inputs.len() == dust.len() + 1
            &&& c.inputs[0] == outpoint(funder)
        }),
        ({
            let o = op_return_request_spec(funder, dust, address);
            &&& o.replaceable
            &&& o.subtract_fee_from_output == 1
            &&& o.outputs.len() == 2
            &&& o.outputs[0] == OutputView::Data(seq!['6', '1', '7', '3', '6', '8'])
            &&& o.outputs[1] is Pay
            &&& o.outputs[1]->Pay_0 == address
            &&& o.inputs.len() == dust.len() + 1
            &&& o.inputs[0] == outpoint(funder)
        }),
        ash_hex() == seq!['6', '1', '7', '3', '6', '8'],
{
}

/// Every per-output request, burning or consolidating, is replaceable and
/// has exactly two inputs: its funder and its one dust output.
pub proof fn law_per_utxo_request_shape(
    clean: Seq<Utxo>,
    funders: Seq<usize>,
    dust: Seq<Utxo>,
    i: int,
    address: Seq<char>,
    consolidate: bool,
)
    ensures
        per_utxo_request_spec(clean, funders, dust, i, address, consolidate).replaceable,
        per_utxo_request_spec(clean, funders, dust, i, address, consolidate).inputs == seq![
            outpoint(clean[funders[i] as int]),
            outpoint(dust[i]),
        ],
        per_utxo_request_spec(clean, funders, dust, i, address, consolidate).subtract_fee_from_output
            == if consolidate { 0int } else { 1int },
{
    let r = per_utxo_request_spec(clean, funders, dust, i, address, consolidate);
    assert(r.inputs =~= seq![outpoint(clean[funders[i] as int]), outpoint(dust[i])]);
}

/// An `ALL|ANYONECANPAY` transaction signals replaceability with sequence
/// 0xfffffffd and is signed with the flag `ALL|ANYONECANPAY`; an output
/// without an address is labelled `unknown`.
pub proof fn law_anyonecanpay_constants(u: Utxo)
    ensures
        rbf_sequence() == 0xfffffffdu32,
        all_anyonecanpay() == seq![
            'A', 'L', 'L', '|', 'A', 'N', 'Y', 'O', 'N', 'E', 'C', 'A', 'N', 'P', 'A', 'Y'
        ],
        u.address is None ==> address_label(u) == seq!['u', 'n', 'k', 'n', 'o', 'w', 'n'],
        u.address matches Some(a) ==> address_label(u) == a@,
{
}

/// The funder of a batch sweep has the largest amount of all clean outputs,
/// and every later clean output has less; that amount is the largest one.
pub proof fn law_batch_funder(clean: Seq<Utxo>, i: int)
    requires
        is_last_max(clean, i),
    ensures
        0 <= i < clean.len(),
        forall|j: int| 0 <= j < clean.len() ==> #[trigger] clean[j].amount_sats <= clean[i].amount_sats,
        forall|j: int| i < j < clean.len() ==> #[trigger] clean[j].amount_sats < clean[i].amount_sats,
        clean[i].amount_sats == max_sats(clean),
    decreases clean.len(),
{
    lemma_max_is_an_amount(clean);
    let k = choose|k: int| 0 <= k < clean.len() && clean[k].amount_sats == max_sats(clean);
    lemma_max_bounds(clean, i);
    assert(clean[k].amount_sats <= clean[i].amount_sats);
}

proof fn lemma_max_is_an_amount(s: Seq<Utxo>)
    requires
        s.len() > 0,
    ensures
        exists|k: int| 0 <= k < s.len() && s[k].amount_sats == max_sats(s),
    decreases s.len(),
{
    let last = s.len() - 1;
    assert(s[last] == s.last());
    if s.len() > 1 {
        lemma_max_is_an_amount(s.drop_last());
        let k = choose|k: int| 0 <= k < s.len() - 1 && s.drop_last()[k].amount_sats == max_sats(s.drop_last());
        assert(s[k] == s.drop_last()[k]);
        if max_sats(s.drop_last()) <= s.last().amount_sats {
            assert(s[last].amount_sats == max_sats(s));
        } else {
            assert(s[k].amount_sats == max_sats(s));
        }
    } else {
        assert(s.drop_last().len() == 0);
        assert(s[last].amount_sats == max_sats(s));
    }
}

proof fn lemma_max_bounds(s: Seq<Utxo>, i: int)
    requires
        0 <= i < s.len(),
    ensures
        s[i].amount_sats <= max_sats(s),
    decreases s.len(),
{
    if i < s.len() - 1 {
        lemma_max_bounds(s.drop_last(), i);
        assert(s.drop_last()[i] == s[i]);
    } else {
        assert(s[i] == s.last());
    }
}

/// Totals: nothing sums to zero, and an added output adds its amount.
pub proof fn law_totals(s: Seq<Utxo>, u: Utxo)
    ensures
        sum_sats(Seq::<Utxo>::empty()) == 0,
        sum_sats(s.push(u)) == sum_sats(s) + u.amount_sats,
{
    assert(s.push(u).drop_last() =~= s);
}

/// The funders of a per-output sweep, in plain terms: while clean outputs
/// last, request `t` takes a clean output, no two requests the same one, in
/// order of decreasing amount (a later output first among equal amounts), and
/// no clean output left unused has more than the last one taken; requests
/// beyond the clean outputs take the first funder again.
pub proof fn law_funder_plan_plain(clean: Seq<Utxo>, funders: Seq<usize>, count: nat)
    requires
        is_funder_plan(clean, funders, count),
    ensures
        funders.len() == count,
        count > 0 ==> clean.len() > 0,
        forall|t: int| 0 <= t < count && t < clean.len() ==> #[trigger] funders[t] < clean.len(),
        forall|t: int, v: int|
            #![trigger funders[t], funders[v]]
            0 <= t < v < count && v < clean.len() ==> {
                let a = clean[funders[t] as int].amount_sats;
                let b = clean[funders[v] as int].amount_sats;
                &&& funders[t] != funders[v]
                &&& a >= b
                &&& a == b ==> funders[t] > funders[v]
            },
        forall|t: int| clean.len() <= t < count ==> #[trigger] funders[t] == funders[0],
{
    let m: int = if count <= clean.len() { count as int } else { clean.len() as int };
    let top = funders.take(m);
    assert forall|t: int| 0 <= t < count && t < clean.len() implies #[trigger] funders[t] < clean.len() by {
        assert(top[t] == funders[t]);
    }
    assert forall|t: int, v: int|
        #![trigger funders[t], funders[v]]
        0 <= t < v < count && v < clean.len() implies {
        let a = clean[funders[t] as int].amount_sats;
        let b = clean[funders[v] as int].amount_sats;
        &&& funders[t] != funders[v]
        &&& a >= b
        &&& a == b ==> funders[t] > funders[v]
    } by {
        assert(top[t] == funders[t]);
        assert(top[v] == funders[v]);
        assert(crate::per_utxo::ranks_above(clean, top[t] as int, top[v] as int));
    }
}

/// Setting up a sweep fails for want of dust before it fails for want of a
/// funder, and goes on whenever there are both.
pub proof fn law_setup_errors(dust: Seq<Utxo>, clean: Seq<Utxo>)
    ensures
        dust.len() == 0 ==> setup_error(dust, clean) == Some(SweepError::NoDust),
        dust.len() > 0 && clean.len() == 0 ==> setup_error(dust, clean) == Some(SweepError::NoFunder),
        dust.len() > 0 && clean.len() > 0 ==> setup_error(dust, clean) is None,
{
}

/// Text search: a text holds every run of characters placed anywhere inside
/// it, begins with whatever comes first in it, and holds nothing longer than
/// itself.
pub proof fn law_text_search(x: Seq<char>, p: Seq<char>, y: Seq<char>)
    ensures
        contains_seq(x + p + y, p),
        has_prefix(p + y, p),
        p.len() > x.len() ==> !contains_seq(x, p),
{
    let t = x + p + y;
    assert(t.subrange(x.len() as int, (x.len() + p.len()) as int) =~= p);
    assert((p + y).subrange(0, p.len() as int) =~= p);
}

} // verus!
