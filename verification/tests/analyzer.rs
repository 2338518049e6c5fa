use dust_cleaner::analyzer::{
    classify_utxos, classify_utxos_smart, detect_script_type, dust_threshold, is_dust,
    is_dust_smart, ScriptType,
};
use dust_cleaner::Utxo;

fn utxo(txid: &str, vout: u32, amount: u64, address: Option<&str>) -> Utxo {
    Utxo::new(txid, vout, amount, address)
}

#[test]
fn test_is_dust_default_threshold() {
    assert!(is_dust(500, 1000));
    assert!(is_dust(999, 1000));
    assert!(!is_dust(1000, 1000));
    assert!(!is_dust(5000000000, 1000));
}

#[test]
fn test_is_dust_custom_threshold() {
    assert!(is_dust(500, 2000));
    assert!(is_dust(1999, 2000));
    assert!(!is_dust(2000, 2000));
    assert!(!is_dust(5000, 2000));
}

#[test]
fn test_is_dust_zero_threshold() {
    assert!(!is_dust(0, 0));
    assert!(!is_dust(1, 0));
}

#[test]
fn test_detect_script_type_p2pkh() {
    assert_eq!(detect_script_type("1A1zP1eP5QGefi2DMPTfTL5SLmv7DivfNa"), ScriptType::P2PKH);
}

#[test]
fn test_detect_script_type_p2sh() {
    assert_eq!(detect_script_type("3J98t1WpEZ73CNmQviecrnyiWrnqRhWNLy"), ScriptType::P2SH);
}

#[test]
fn test_detect_script_type_p2wpkh() {
    assert_eq!(
        detect_script_type("bc1qar0srrr7xfkvy5l643lydnw9re59gtzzwf5mdq"),
        ScriptType::P2WPKH
    );
    assert_eq!(
        detect_script_type("bcrt1q60zqq3wz5kdhrqnqle0qfmqhmuflnhyz9ud0tz"),
        ScriptType::P2WPKH
    );
    assert_eq!(
        detect_script_type("tb1qw508d6qejxtdg4y5r3zarvary0c5xw7kxpjzsx"),
        ScriptType::P2WPKH
    );
}

#[test]
fn test_detect_script_type_p2tr() {
    assert_eq!(
        detect_script_type("bc1p5d7rjq7g6rdk2yhzks9smlaqtedr4dekq08ge8ztwac72sfr9rusxg3297"),
        ScriptType::P2TR
    );
    assert_eq!(detect_script_type("bcrt1pxyz"), ScriptType::P2TR);
    assert_eq!(detect_script_type("tb1pxyz"), ScriptType::P2TR);
}

#[test]
fn test_detect_script_type_unknown() {
    assert_eq!(detect_script_type("unknown"), ScriptType::Unknown);
    assert_eq!(detect_script_type(""), ScriptType::Unknown);
    assert_eq!(detect_script_type("bc1zw508d6qejxtdg4y5r3zarvaryvg"), ScriptType::Unknown);
    assert_eq!(detect_script_type("mipcBbFg9gMiCh81Kj8tqqdgoZub1ZJRfn"), ScriptType::Unknown);
}

#[test]
fn test_dust_thresholds_per_type() {
    assert_eq!(dust_threshold(ScriptType::P2PKH), 546);
    assert_eq!(dust_threshold(ScriptType::P2WPKH), 294);
    assert_eq!(dust_threshold(ScriptType::P2TR), 294);
    assert_eq!(dust_threshold(ScriptType::P2SH), 540);
    assert_eq!(dust_threshold(ScriptType::Unknown), 546);
}

#[test]
fn test_is_dust_smart_p2wpkh() {
    let addr = "bcrt1q60zqq3wz5kdhrqnqle0qfmqhmuflnhyz9ud0tz";
    assert!(is_dust_smart(293, addr, None));
    assert!(!is_dust_smart(294, addr, None));
    assert!(!is_dust_smart(300, addr, None));
}

#[test]
fn test_is_dust_smart_p2pkh_and_p2sh() {
    assert!(is_dust_smart(545, "1BoatSLRHtKNngkdXEeobR76b53LETtpyT", None));
    assert!(!is_dust_smart(546, "1BoatSLRHtKNngkdXEeobR76b53LETtpyT", None));
    assert!(is_dust_smart(539, "3J98t1WpEZ73CNmQviecrnyiWrnqRhWNLy", None));
    assert!(!is_dust_smart(540, "3J98t1WpEZ73CNmQviecrnyiWrnqRhWNLy", None));
}

#[test]
fn test_is_dust_smart_user_override() {
    let addr = "bcrt1q60zqq3wz5kdhrqnqle0qfmqhmuflnhyz9ud0tz";
    assert!(is_dust_smart(500, addr, Some(1000)));
    assert!(!is_dust_smart(1000, addr, Some(1000)));
    assert!(!is_dust_smart(100, addr, Some(100)));
}

#[test]
fn test_classify_owned_utxos_splits_correctly() {
    let utxos = vec![
        utxo("a", 0, 500, None),
        utxo("b", 1, 5000, None),
        utxo("c", 0, 999, None),
        utxo("d", 2, 1000, None),
    ];
    let (dust, clean) = classify_utxos(utxos, 1000);
    assert_eq!(dust, vec![utxo("a", 0, 500, None), utxo("c", 0, 999, None)]);
    assert_eq!(clean, vec![utxo("b", 1, 5000, None), utxo("d", 2, 1000, None)]);
}

#[test]
fn test_classify_owned_utxos_all_dust() {
    let utxos = vec![utxo("a", 0, 1, None), utxo("b", 0, 2, None)];
    let (dust, clean) = classify_utxos(utxos, 1000);
    assert_eq!(dust.len(), 2);
    assert!(clean.is_empty());
}

#[test]
fn test_classify_owned_utxos_all_clean() {
    let utxos = vec![utxo("a", 0, 1000, None), utxo("b", 0, 2000, None)];
    let (dust, clean) = classify_utxos(utxos, 1000);
    assert!(dust.is_empty());
    assert_eq!(clean.len(), 2);
}

#[test]
fn test_classify_owned_utxos_empty() {
    let (dust, clean) = classify_utxos(vec![], 1000);
    assert!(dust.is_empty());
    assert!(clean.is_empty());
}

#[test]
fn test_classify_owned_utxos_custom_threshold() {
    let utxos = vec![utxo("a", 0, 1500, None), utxo("b", 0, 2500, None)];
    let (dust, clean) = classify_utxos(utxos, 2000);
    assert_eq!(dust, vec![utxo("a", 0, 1500, None)]);
    assert_eq!(clean, vec![utxo("b", 0, 2500, None)]);
}

#[test]
fn test_classify_smart_per_type() {
    let wpkh = "bcrt1q60zqq3wz5kdhrqnqle0qfmqhmuflnhyz9ud0tz";
    let pkh = "1BoatSLRHtKNngkdXEeobR76b53LETtpyT";
    let utxos = vec![
        utxo("a", 0, 300, Some(wpkh)),
        utxo("b", 0, 300, Some(pkh)),
        utxo("c", 0, 545, None),
        utxo("d", 0, 546, None),
    ];
    let (dust, clean) = classify_utxos_smart(utxos, None);
    assert_eq!(dust, vec![utxo("b", 0, 300, Some(pkh)), utxo("c", 0, 545, None)]);
    assert_eq!(clean, vec![utxo("a", 0, 300, Some(wpkh)), utxo("d", 0, 546, None)]);
}

#[test]
fn test_classify_smart_user_threshold_matches_flat() {
    let wpkh = "bcrt1q60zqq3wz5kdhrqnqle0qfmqhmuflnhyz9ud0tz";
    let make = || {
        vec![
            utxo("a", 0, 300, Some(wpkh)),
            utxo("b", 0, 800, None),
            utxo("c", 0, 1000, Some("1BoatSLRHtKNngkdXEeobR76b53LETtpyT")),
        ]
    };
    let smart = classify_utxos_smart(make(), Some(1000));
    let flat = classify_utxos(make(), 1000);
    assert_eq!(smart, flat);
    assert_eq!(smart.0.len(), 2);
}

#[test]
fn test_higher_threshold_keeps_dust() {
    let make = || vec![utxo("a", 0, 300, None), utxo("b", 0, 800, None), utxo("c", 0, 1500, None)];
    let (low, _) = classify_utxos(make(), 500);
    let (high, _) = classify_utxos(make(), 1000);
    assert_eq!(low.len(), 1);
    assert_eq!(high.len(), 2);
    assert!(low.iter().all(|u| high.contains(u)));
}

#[test]
fn test_higher_threshold_keeps_order() {
    let make = || {
        vec![
            utxo("a", 0, 900, None),
            utxo("b", 0, 300, None),
            utxo("c", 0, 1500, None),
            utxo("d", 0, 400, None),
        ]
    };
    let (low_dust, low_clean) = classify_utxos(make(), 500);
    let (high_dust, high_clean) = classify_utxos(make(), 1000);
    let refined: Vec<Utxo> = high_dust.iter().filter(|u| u.amount_sats < 500).cloned().collect();
    assert_eq!(low_dust, refined);
    let refined: Vec<Utxo> = low_clean.iter().filter(|u| u.amount_sats >= 1000).cloned().collect();
    assert_eq!(high_clean, refined);
    let (zero_dust, zero_clean) = classify_utxos(make(), 0);
    assert!(zero_dust.is_empty());
    assert_eq!(zero_clean, make());
}

#[test]
fn test_utxo_new_and_clone() {
    let u = Utxo::new("abcd", 3, 777, Some("bc1qxyz"));
    assert_eq!(u.txid, "abcd");
    assert_eq!(u.vout, 3);
    assert_eq!(u.amount_sats, 777);
    assert_eq!(u.address.as_deref(), Some("bc1qxyz"));
    assert_eq!(u.clone(), u);
    assert_eq!(u.duplicate(), u);
    let v = Utxo::new("ef", 0, 1, None);
    assert_eq!(v.address, None);
}
