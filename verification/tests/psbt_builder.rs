use dust_cleaner::amount::{btc_string, decimal_string};
use dust_cleaner::psbt_builder::{
    anyonecanpay_raw_tx_request, anyonecanpay_result, anyonecanpay_sign_request, build_inputs,
    checked_total_sats, consolidate_request, dry_run_fits_check, dry_run_sweep, op_return_request,
    per_utxo_request, per_utxo_result, prepare_sweep, require_dust, select_funder, sweep_result,
    total_sats, OutputSpec, SweepError,
};
use dust_cleaner::Utxo;

fn utxo(txid: &str, vout: u32, amount: u64) -> Utxo {
    Utxo::new(txid, vout, amount, None)
}

fn dust() -> Vec<Utxo> {
    vec![
        Utxo::new("d1", 0, 500, Some("bcrt1qaaa")),
        Utxo::new("d2", 1, 300, Some("bcrt1qbbb")),
        Utxo::new("d3", 1, 800, None),
    ]
}

fn clean() -> Vec<Utxo> {
    vec![utxo("c1", 0, 4_999_999_860), utxo("c2", 0, 100_000), utxo("c3", 2, 4_999_999_860)]
}

fn pay(o: &OutputSpec) -> (String, String) {
    match o {
        OutputSpec::Pay { address, amount_btc } => (address.clone(), amount_btc.clone()),
        OutputSpec::Data { .. } => panic!("expected a payment"),
    }
}

fn data(o: &OutputSpec) -> String {
    match o {
        OutputSpec::Data { hex } => hex.clone(),
        OutputSpec::Pay { .. } => panic!("expected data"),
    }
}

#[test]
fn test_btc_string_eight_decimals() {
    assert_eq!(btc_string(0), "0.00000000");
    assert_eq!(btc_string(546), "0.00000546");
    assert_eq!(btc_string(100_000_000), "1.00000000");
    assert_eq!(btc_string(123_456_789), "1.23456789");
    assert_eq!(btc_string(5_000_000_000), "50.00000000");
    assert_eq!(btc_string(4_999_999_860), "49.99999860");
    assert_eq!(btc_string(u64::MAX), "184467440737.09551615");
    for s in [0u64, 1, 99, 546, 123_456_789, 2_100_000_000_000_000] {
        let text = btc_string(s);
        let (whole, frac) = text.split_once('.').unwrap();
        assert_eq!(frac.len(), 8);
        let back = whole.parse::<u64>().unwrap() * 100_000_000 + frac.parse::<u64>().unwrap();
        assert_eq!(back, s);
    }
}

#[test]
fn test_decimal_string() {
    assert_eq!(decimal_string(0), "0");
    assert_eq!(decimal_string(7), "7");
    assert_eq!(decimal_string(1000), "1000");
    assert_eq!(decimal_string(u64::MAX), "18446744073709551615");
}

#[test]
fn test_select_funder_largest_last_of_ties() {
    assert_eq!(select_funder(&[]), None);
    assert_eq!(select_funder(&[utxo("a", 0, 5)]), Some(0));
    assert_eq!(select_funder(&[utxo("a", 0, 5), utxo("b", 0, 9), utxo("c", 0, 1)]), Some(1));
    // equal largest amounts: the last one is taken
    assert_eq!(select_funder(&clean()), Some(2));
}

#[test]
fn test_prepare_sweep_errors() {
    assert_eq!(prepare_sweep(&[], &clean()), Err(SweepError::NoDust));
    assert_eq!(prepare_sweep(&[], &[]), Err(SweepError::NoDust));
    assert_eq!(prepare_sweep(&dust(), &[]), Err(SweepError::NoFunder));
    assert_eq!(prepare_sweep(&dust(), &clean()), Ok(2));
    assert_eq!(require_dust(&[]), Err(SweepError::NoDust));
    assert_eq!(require_dust(&dust()), Ok(()));
}

#[test]
fn test_build_inputs_funder_first() {
    let c = clean();
    let inputs = build_inputs(&c[0], &dust());
    let got: Vec<(String, u32)> = inputs.iter().map(|i| (i.txid.clone(), i.vout)).collect();
    assert_eq!(
        got,
        vec![
            ("c1".to_string(), 0),
            ("d1".to_string(), 0),
            ("d2".to_string(), 1),
            ("d3".to_string(), 1)
        ]
    );
}

#[test]
fn test_consolidate_request() {
    let c = clean();
    let r = consolidate_request(&c[2], &dust(), "bcrt1qfresh");
    assert_eq!(r.inputs.len(), 4);
    assert_eq!(r.inputs[0].txid, "c3");
    assert_eq!(r.inputs[0].vout, 2);
    assert_eq!(r.outputs.len(), 1);
    assert_eq!(pay(&r.outputs[0]), ("bcrt1qfresh".to_string(), "49.99999860".to_string()));
    assert_eq!(r.subtract_fee_from_output, 0);
    assert!(r.replaceable);
}

#[test]
fn test_op_return_request() {
    let c = clean();
    let r = op_return_request(&c[1], &dust(), "bcrt1qchange");
    assert_eq!(r.inputs.len(), 4);
    assert_eq!(r.outputs.len(), 2);
    assert_eq!(data(&r.outputs[0]), "617368");
    assert_eq!(pay(&r.outputs[1]), ("bcrt1qchange".to_string(), "0.00100000".to_string()));
    assert_eq!(r.subtract_fee_from_output, 1);
    assert!(r.replaceable);
    // the fee comes out of the output that returns the funder's amount
    assert_eq!(pay(&r.outputs[r.subtract_fee_from_output]).1, btc_string(c[1].amount_sats));
}

#[test]
fn test_per_utxo_request_spends_one_dust_output() {
    let c = clean();
    let d = dust();
    for u in &d {
        let r = per_utxo_request(&c[2], u, "bcrt1qchange");
        let got: Vec<(String, u32)> = r.inputs.iter().map(|i| (i.txid.clone(), i.vout)).collect();
        assert_eq!(got, vec![("c3".to_string(), 2), (u.txid.clone(), u.vout)]);
        assert_eq!(data(&r.outputs[0]), "617368");
        assert_eq!(r.subtract_fee_from_output, 1);
    }
}

#[test]
fn test_sweep_result() {
    let d = dust();
    assert_eq!(sweep_result(&d, None).err(), Some(SweepError::NoPsbt));
    let r = sweep_result(&d, Some("cHNidP8B".to_string())).ok().unwrap();
    assert_eq!(r.psbt, "cHNidP8B");
    assert_eq!(r.dust_input_count, 3);
    assert_eq!(r.total_dust_sats, 1600);
}

#[test]
fn test_per_utxo_result() {
    let d = dust();
    assert_eq!(per_utxo_result(&d[0], None).err(), Some(SweepError::NoPsbt));
    let (addr, r) = per_utxo_result(&d[0], Some("p1".to_string())).ok().unwrap();
    assert_eq!(addr, "bcrt1qaaa");
    assert_eq!(r.psbt, "p1");
    assert_eq!(r.dust_input_count, 1);
    assert_eq!(r.total_dust_sats, 500);
    let (addr, r) = per_utxo_result(&d[2], Some("p3".to_string())).ok().unwrap();
    assert_eq!(addr, "unknown");
    assert_eq!(r.total_dust_sats, 800);
    let sum: u64 = d
        .iter()
        .map(|u| per_utxo_result(u, Some(String::new())).ok().unwrap().1.total_dust_sats)
        .sum();
    assert_eq!(sum, sweep_result(&d, Some(String::new())).ok().unwrap().total_dust_sats);
}

#[test]
fn test_dry_run_sweep() {
    let d = dust();
    let c = clean();
    assert!(dry_run_fits_check(&d, &c));
    let r = dry_run_sweep(&d, &c).ok().unwrap();
    assert_eq!(r.dust_input_count, 3);
    assert_eq!(r.total_dust_sats, 1600);
    assert_eq!(r.funder_sats, 4_999_999_860);
    assert_eq!(r.estimated_fee_sats, 626);
    assert_eq!(r.estimated_output_sats, 4_999_999_860 + 1600 - 626);
    assert_eq!(r.estimated_output_sats + r.estimated_fee_sats, r.funder_sats + r.total_dust_sats);
}

#[test]
fn test_dry_run_errors() {
    assert_eq!(dry_run_sweep(&[], &clean()).err(), Some(SweepError::NoDust));
    assert_eq!(dry_run_sweep(&dust(), &[]).err(), Some(SweepError::NoFunder));
}

#[test]
fn test_dry_run_fee_above_funds_is_refused_beforehand() {
    let d = vec![utxo("d", 0, 1); 5];
    let c = vec![utxo("c", 0, 300)];
    // fee: (6 * 68 + 41) * 2 = 898 > 305
    assert!(!dry_run_fits_check(&d, &c));
    assert!(dry_run_fits_check(&[], &c));
    assert!(!dry_run_fits_check(&[utxo("d", 0, u64::MAX), utxo("e", 0, 1)], &c));
}

#[test]
fn test_totals() {
    assert_eq!(total_sats(&dust()), 1600);
    assert_eq!(total_sats(&[]), 0);
    assert_eq!(checked_total_sats(&dust()), Some(1600));
    assert_eq!(checked_total_sats(&[utxo("a", 0, u64::MAX), utxo("b", 0, 1)]), None);
}

#[test]
fn test_anyonecanpay_steps() {
    let d = dust();
    assert_eq!(
        anyonecanpay_raw_tx_request(&d[0], None).err(),
        Some(SweepError::NoScriptPubKey)
    );
    let raw = anyonecanpay_raw_tx_request(&d[0], Some("0014abcd")).ok().unwrap();
    assert_eq!(raw.inputs.len(), 1);
    assert_eq!(raw.inputs[0].txid, "d1");
    assert_eq!(raw.inputs[0].vout, 0);
    assert_eq!(raw.inputs[0].sequence, 4294967293);
    assert_eq!(raw.outputs.len(), 1);
    assert_eq!(data(&raw.outputs[0]), "617368");

    assert_eq!(
        anyonecanpay_sign_request(&d[0], "0014abcd", None).err(),
        Some(SweepError::RawTxNotCreated)
    );
    let sign = anyonecanpay_sign_request(&d[0], "0014abcd", Some("0200".to_string())).ok().unwrap();
    assert_eq!(sign.raw_tx, "0200");
    assert_eq!(sign.sighash, "ALL|ANYONECANPAY");
    assert_eq!(sign.prevtxs.len(), 1);
    assert_eq!(sign.prevtxs[0].txid, "d1");
    assert_eq!(sign.prevtxs[0].vout, 0);
    assert_eq!(sign.prevtxs[0].script_pubkey, "0014abcd");
    assert_eq!(sign.prevtxs[0].amount_sats, 500);

    assert_eq!(
        anyonecanpay_result(&d[0], Some(false), "[]".to_string(), Some("ff".to_string())).err(),
        Some(SweepError::SigningIncomplete { errors: "[]".to_string() })
    );
    assert_eq!(
        anyonecanpay_result(&d[0], None, "null".to_string(), Some("ff".to_string())).err(),
        Some(SweepError::SigningIncomplete { errors: "null".to_string() })
    );
    assert_eq!(
        anyonecanpay_result(&d[0], Some(true), "null".to_string(), None).err(),
        Some(SweepError::NoSignedHex)
    );
    let res = anyonecanpay_result(&d[2], Some(true), "null".to_string(), Some("ff".to_string()))
        .ok()
        .unwrap();
    assert_eq!(res.address, "unknown");
    assert_eq!(res.dust_sats, 800);
    assert_eq!(res.raw_tx_hex, "ff");
}

#[test]
fn test_sweep_error_messages() {
    assert_eq!(SweepError::NoDust.message(), "No dust UTXOs to sweep");
    assert_eq!(
        SweepError::NoFunder.message(),
        "Cannot sweep: no clean UTXOs available to fund transaction fees.\nTip: fund your wallet first with a non-dust amount."
    );
    assert_eq!(SweepError::NoPsbt.message(), "No PSBT returned from node");
    assert_eq!(SweepError::NoScriptPubKey.message(), "Could not get scriptPubKey");
    assert_eq!(SweepError::RawTxNotCreated.message(), "Could not create raw transaction");
    assert_eq!(
        SweepError::SigningIncomplete { errors: "[{\"error\":\"x\"}]".to_string() }.message(),
        "Signing incomplete: [{\"error\":\"x\"}]"
    );
    assert_eq!(SweepError::NoSignedHex.message(), "No signed hex returned");
}
