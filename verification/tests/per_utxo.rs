use dust_cleaner::per_utxo::{prepare_per_utxo_sweep, select_funders};
use dust_cleaner::psbt_builder::{
    dry_run_anyonecanpay, per_utxo_consolidate_request, per_utxo_request, select_funder,
    FundedPsbtRequest, OutputSpec, SweepError,
};
use dust_cleaner::Utxo;

fn utxo(txid: &str, vout: u32, amount: u64) -> Utxo {
    Utxo::new(txid, vout, amount, None)
}

fn dust() -> Vec<Utxo> {
    vec![utxo("d1", 0, 500), utxo("d2", 1, 300), utxo("d3", 1, 800)]
}

fn clean() -> Vec<Utxo> {
    vec![
        utxo("c1", 0, 10_000),
        utxo("c2", 0, 50_000),
        utxo("c3", 0, 10_000),
        utxo("c4", 3, 7_000),
    ]
}

fn outpoints(r: &FundedPsbtRequest) -> Vec<(String, u32)> {
    r.inputs.iter().map(|i| (i.txid.clone(), i.vout)).collect()
}

#[test]
fn test_select_funders_best_first() {
    let c = clean();
    assert_eq!(select_funders(0, &c), Some(vec![]));
    assert_eq!(select_funders(0, &[]), Some(vec![]));
    assert_eq!(select_funders(2, &[]), None);
    assert_eq!(select_funders(1, &c), Some(vec![1]));
    // equal amounts: the later one ranks first
    assert_eq!(select_funders(3, &c), Some(vec![1, 2, 0]));
    assert_eq!(select_funders(4, &c), Some(vec![1, 2, 0, 3]));
    // beyond the clean outputs, the best ranked one funds the rest
    assert_eq!(select_funders(6, &c), Some(vec![1, 2, 0, 3, 1, 1]));
    assert_eq!(select_funders(1, &c).unwrap()[0], select_funder(&c).unwrap());
}

#[test]
fn test_prepare_per_utxo_sweep() {
    assert_eq!(prepare_per_utxo_sweep(&[], &clean()), Err(SweepError::NoDust));
    assert_eq!(prepare_per_utxo_sweep(&[], &[]), Err(SweepError::NoDust));
    assert_eq!(prepare_per_utxo_sweep(&dust(), &[]), Err(SweepError::NoFunder));
    let one_clean = vec![utxo("c", 0, 1_000_000)];
    assert_eq!(prepare_per_utxo_sweep(&dust(), &one_clean), Ok(vec![0, 0, 0]));
    let two_clean = vec![utxo("a", 0, 2_000), utxo("b", 0, 9_000)];
    assert_eq!(prepare_per_utxo_sweep(&dust(), &two_clean), Ok(vec![1, 0, 1]));
    assert_eq!(prepare_per_utxo_sweep(&dust(), &clean()), Ok(vec![1, 2, 0]));
}

fn op_return_requests(c: &[Utxo], d: &[Utxo]) -> Vec<FundedPsbtRequest> {
    let funders = prepare_per_utxo_sweep(d, c).unwrap();
    d.iter()
        .zip(&funders)
        .enumerate()
        .map(|(i, (u, &f))| per_utxo_request(&c[f], u, &format!("a{}", i)))
        .collect()
}

#[test]
fn test_per_utxo_op_return_requests_disjoint() {
    let c = clean();
    let d = dust();
    let reqs = op_return_requests(&c, &d);
    assert_eq!(reqs.len(), 3);
    assert_eq!(outpoints(&reqs[0]), vec![("c2".to_string(), 0), ("d1".to_string(), 0)]);
    assert_eq!(outpoints(&reqs[1]), vec![("c3".to_string(), 0), ("d2".to_string(), 1)]);
    assert_eq!(outpoints(&reqs[2]), vec![("c1".to_string(), 0), ("d3".to_string(), 1)]);
    for i in 0..3 {
        for j in 0..3 {
            if i != j {
                for a in outpoints(&reqs[i]) {
                    assert!(!outpoints(&reqs[j]).contains(&a));
                }
            }
        }
        assert!(matches!(&reqs[i].outputs[0], OutputSpec::Data { hex } if hex == "617368"));
        assert_eq!(reqs[i].subtract_fee_from_output, 1);
    }
    match &reqs[1].outputs[1] {
        OutputSpec::Pay { address, amount_btc } => {
            assert_eq!(address, "a1");
            assert_eq!(amount_btc, "0.00010000");
        }
        _ => panic!("expected a payment"),
    }
}

#[test]
fn test_per_utxo_requests_with_fewer_clean_outputs() {
    let c = vec![utxo("c", 7, 1_000_000)];
    let d = vec![utxo("d1", 0, 500), utxo("d2", 1, 300)];
    let reqs = op_return_requests(&c, &d);
    // one request per dust output, each with only its own dust output
    assert_eq!(reqs.len(), 2);
    assert_eq!(outpoints(&reqs[0]), vec![("c".to_string(), 7), ("d1".to_string(), 0)]);
    assert_eq!(outpoints(&reqs[1]), vec![("c".to_string(), 7), ("d2".to_string(), 1)]);
}

#[test]
fn test_per_utxo_consolidate_requests() {
    let c = clean();
    let d = dust();
    let funders = prepare_per_utxo_sweep(&d, &c).unwrap();
    for (i, (u, &f)) in d.iter().zip(&funders).enumerate() {
        let addr = format!("f{}", i);
        let r = per_utxo_consolidate_request(&c[f], u, &addr);
        assert_eq!(r.inputs.len(), 2);
        assert_eq!(r.inputs[1].txid, d[i].txid);
        assert_eq!(r.outputs.len(), 1);
        assert_eq!(r.subtract_fee_from_output, 0);
        assert!(r.replaceable);
        match &r.outputs[0] {
            OutputSpec::Pay { address, .. } => assert_eq!(address, &addr),
            OutputSpec::Data { .. } => panic!("no data output in a consolidation"),
        }
    }
    let single = per_utxo_consolidate_request(&c[1], &d[0], "fresh");
    assert_eq!(outpoints(&single), vec![("c2".to_string(), 0), ("d1".to_string(), 0)]);
    match &single.outputs[0] {
        OutputSpec::Pay { address, amount_btc } => {
            assert_eq!(address, "fresh");
            assert_eq!(amount_btc, "0.00050000");
        }
        _ => panic!("expected a payment"),
    }
}

#[test]
fn test_dry_run_anyonecanpay() {
    assert_eq!(dry_run_anyonecanpay(&[]).err(), Some(SweepError::NoDust));
    let r = dry_run_anyonecanpay(&dust()).ok().unwrap();
    assert_eq!(r.dust_input_count, 3);
    assert_eq!(r.total_dust_sats, 1600);
    assert_eq!(r.fee_sats, 1600);
}
