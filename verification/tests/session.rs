use dust_cleaner::cli::SweepMethod;
use dust_cleaner::report::{
    links_addresses, plan_sweep, scan_summary, threshold_display, SweepMode,
};
use dust_cleaner::scanner::{classify_fetch_error, connect_error_message, FetchError};
use dust_cleaner::text::{contains, starts_with};
use dust_cleaner::Utxo;

#[test]
fn test_threshold_display() {
    assert_eq!(threshold_display(Some(1000)), "1000 sats (custom)");
    assert_eq!(threshold_display(Some(0)), "0 sats (custom)");
    assert_eq!(
        threshold_display(None),
        "per-script-type (P2PKH:546, P2WPKH:294, P2TR:294, P2SH:540)"
    );
}

#[test]
fn test_scan_summary() {
    let dust = vec![
        Utxo::new("a", 0, 500, None),
        Utxo::new("b", 1, 300, None),
        Utxo::new("c", 1, 800, None),
    ];
    let clean = vec![Utxo::new("d", 0, 4_999_999_860, None), Utxo::new("e", 0, 10_000_000_000, None)];
    let s = scan_summary(&dust, &clean, Some(1000));
    assert_eq!(s.total_utxos, 5);
    assert_eq!(s.dust_count, 3);
    assert_eq!(s.clean_count, 2);
    assert_eq!(s.total_dust_sats, 1600);
    assert_eq!(s.total_clean_sats, 14_999_999_860);
    assert_eq!(s.threshold_display, "1000 sats (custom)");
    assert!(s.has_dust);
    let s = scan_summary(&[], &clean, None);
    assert!(!s.has_dust);
    assert_eq!(s.total_dust_sats, 0);
}

#[test]
fn test_plan_sweep() {
    assert_eq!(plan_sweep(0, true, true, SweepMethod::Consolidate), SweepMode::NothingToSweep);
    assert_eq!(plan_sweep(0, false, false, SweepMethod::AnyoneCanPay), SweepMode::NothingToSweep);
    assert_eq!(plan_sweep(2, true, false, SweepMethod::OpReturn), SweepMode::DryRun);
    assert_eq!(plan_sweep(2, true, true, SweepMethod::Consolidate), SweepMode::DryRun);
    assert_eq!(plan_sweep(2, true, false, SweepMethod::AnyoneCanPay), SweepMode::DryRunAnyoneCanPay);
    assert_eq!(plan_sweep(2, false, true, SweepMethod::Consolidate), SweepMode::BatchConsolidate);
    assert_eq!(plan_sweep(2, false, true, SweepMethod::OpReturn), SweepMode::BatchOpReturn);
    assert_eq!(plan_sweep(2, false, false, SweepMethod::OpReturn), SweepMode::PerUtxoOpReturn);
    assert_eq!(plan_sweep(2, false, false, SweepMethod::Consolidate), SweepMode::PerUtxoConsolidate);
    assert_eq!(plan_sweep(2, false, false, SweepMethod::AnyoneCanPay), SweepMode::AnyoneCanPay);
    assert_eq!(plan_sweep(2, false, true, SweepMethod::AnyoneCanPay), SweepMode::AnyoneCanPay);
}

#[test]
fn test_links_addresses() {
    assert!(links_addresses(true, SweepMethod::Consolidate));
    assert!(links_addresses(true, SweepMethod::OpReturn));
    assert!(!links_addresses(true, SweepMethod::AnyoneCanPay));
    assert!(!links_addresses(false, SweepMethod::Consolidate));
}

#[test]
fn test_classify_fetch_error() {
    let e = classify_fetch_error("JSON-RPC error: transport error: Connection refused (os error 111)");
    assert_eq!(e, FetchError::NodeUnreachable);
    assert!(e.message().starts_with("Could not connect to Bitcoin Core. Is your node running?\nTip: bitcoind"));
    let e = classify_fetch_error("JSON-RPC error: RPC error response: RpcError { code: -18, message: \"No wallet is loaded.\" }");
    assert_eq!(e, FetchError::NoWallet);
    assert_eq!(
        e.message(),
        "No wallet loaded.\nTip: bitcoin-cli -rpcport=18443 -rpcuser=user -rpcpassword=pass loadwallet \"testwallet\""
    );
    // a refused connection is named first
    assert_eq!(classify_fetch_error("No wallet; Connection refused"), FetchError::NodeUnreachable);
    let e = classify_fetch_error("timeout");
    assert_eq!(e, FetchError::Other { detail: "timeout".to_string() });
    assert_eq!(e.message(), "Failed to fetch UTXOs: timeout");
}

#[test]
fn test_connect_error_message() {
    assert_eq!(
        connect_error_message("invalid url"),
        "Failed to create RPC client: invalid url\nCheck your --rpc-url, --rpc-user and --rpc-pass"
    );
}

#[test]
fn test_text_search() {
    assert!(starts_with("bcrt1qabc", "bcrt1q"));
    assert!(!starts_with("bc", "bcrt1q"));
    assert!(starts_with("x", ""));
    assert!(contains("abcdef", "cde"));
    assert!(contains("abc", ""));
    assert!(!contains("abc", "abcd"));
    assert!(!contains("aab", "abb"));
    assert!(contains("héllo wörld", "wö"));
}
