use vstd::prelude::*;

use crate::amount::push_decimal;
use crate::cli::SweepMethod;
use crate::psbt_builder::total_sats;
use crate::types::Utxo;

verus! {

/// The totals of a scan.
pub struct ScanSummary {
    pub total_utxos: usize,
    pub dust_count: usize,
    pub clean_count: usize,
    pub total_dust_sats: u64,
    pub total_clean_sats: u64,
    pub threshold_display: String,
    pub has_dust: bool,
}

/// How the threshold in force is described.
pub open spec fn threshold_text(user_threshold: Option<u64>) -> Seq<char> {
    match user_threshold {
        Some(t) => crate::amount::decimal(t as nat) + " sats (custom)"@,
        None => "per-script-type (P2PKH:546, P2WPKH:294, P2TR:294, P2SH:540)"@,
    }
}

/// The description of the threshold in force.
pub fn threshold_display(user_threshold: Option<u64>) -> (r: String)
    ensures
        r@ == threshold_text(user_threshold),
{
    match user_threshold {
        Some(t) => {
            let mut s = String::new();
            push_decimal(&mut s, t);
            s.append(" sats (custom)");
            assert(s@ =~= threshold_text(user_threshold));
            s
        },
        None => String::from_str("per-script-type (P2PKH:546, P2WPKH:294, P2TR:294, P2SH:540)"),
    }
}

/// The totals of a scan that split the wallet's outputs into `dust` and
/// `clean`.
pub fn scan_summary(dust: &[Utxo], clean: &[Utxo], user_threshold: Option<u64>) -> (r: ScanSummary)
    requires
        crate::psbt_builder::sum_sats(dust@) <= u64::MAX,
        crate::psbt_builder::sum_sats(clean@) <= u64::MAX,
        dust@.len() + clean@.len() <= usize::MAX,
    ensures
        r.total_utxos == dust@.len() + clean@.len(),
        r.dust_count == dust@.len(),
        r.clean_count == clean@.len(),
        r.total_dust_sats == crate::psbt_builder::sum_sats(dust@),
        r.total_clean_sats == crate::psbt_builder::sum_sats(clean@),
        r.threshold_display@ == threshold_text(user_threshold),
        r.has_dust == (dust@.len() > 0),
{
    ScanSummary {
        total_utxos: dust.len() + clean.len(),
        dust_count: dust.len(),
        clean_count: clean.len(),
        total_dust_sats: total_sats(dust),
        total_clean_sats: total_sats(clean),
        threshold_display: threshold_display(user_threshold),
        has_dust: dust.len() > 0,
    }
}

/// What a sweep command comes down to.
#[derive(Debug, Clone, Copy, PartialEq, Eq, Structural)]
pub enum SweepMode {
    /// No dust: the wallet is clean and nothing is built.
    NothingToSweep,
    /// Only a preview of the batch sweep, with its estimated fee.
    DryRun,
    /// Only a preview of the `ALL|ANYONECANPAY` sweep: all dust goes to fees,
    /// no funder is needed.
    DryRunAnyoneCanPay,
    /// One PSBT sending all dust and the funder to a fresh address.
    BatchConsolidate,
    /// One PSBT burning all dust into an `OP_RETURN` output.
    BatchOpReturn,
    /// One PSBT per dust output, each sending it and its funder to a fresh
    /// address.
    PerUtxoConsolidate,
    /// One PSBT per dust output, each burning it into an `OP_RETURN` output
    /// with its funder's amount returned.
    PerUtxoOpReturn,
    /// One transaction per dust output, signed `ALL|ANYONECANPAY`.
    AnyoneCanPay,
}

/// The mode of a sweep: nothing without dust; the `ALL|ANYONECANPAY` method
/// previews or builds its own transactions; otherwise a preview if asked,
/// else one batch by the method if batching is asked, else one PSBT per dust
/// output by the method.
pub open spec fn sweep_mode_of(dust_count: nat, dry_run: bool, batch: bool, method: SweepMethod) -> SweepMode {
    if dust_count == 0 {
        SweepMode::NothingToSweep
    } else if method == SweepMethod::AnyoneCanPay {
        if dry_run {
            SweepMode::DryRunAnyoneCanPay
        } else {
            SweepMode::AnyoneCanPay
        }
    } else if dry_run {
        SweepMode::DryRun
    } else if batch {
        if method == SweepMethod::Consolidate {
            SweepMode::BatchConsolidate
        } else {
            SweepMode::BatchOpReturn
        }
    } else if method == SweepMethod::Consolidate {
        SweepMode::PerUtxoConsolidate
    } else {
        SweepMode::PerUtxoOpReturn
    }
}

/// Decides what a sweep command does.
pub fn plan_sweep(dust_count: usize, dry_run: bool, batch: bool, method: SweepMethod) -> (r: SweepMode)
    ensures
        r == sweep_mode_of(dust_count as nat, dry_run, batch, method),
{
    if dust_count == 0 {
        return SweepMode::NothingToSweep;
    }
    match method {
        SweepMethod::AnyoneCanPay => if dry_run {
            SweepMode::DryRunAnyoneCanPay
        } else {
            SweepMode::AnyoneCanPay
        },
        SweepMethod::Consolidate => if dry_run {
            SweepMode::DryRun
        } else if batch {
            SweepMode::BatchConsolidate
        } else {
            SweepMode::PerUtxoConsolidate
        },
        SweepMethod::OpReturn => if dry_run {
            SweepMode::DryRun
        } else if batch {
            SweepMode::BatchOpReturn
        } else {
            SweepMode::PerUtxoOpReturn
        },
    }
}

/// Whether the sweep spends all dust outputs in one transaction, and so links
/// their addresses: batching was asked, and the method is not
/// `ALL|ANYONECANPAY`, which always signs each dust output alone.
pub fn links_addresses(batch: bool, method: SweepMethod) -> (r: bool)
    ensures
        r == (batch && method != SweepMethod::AnyoneCanPay),
{
    batch && match method {
        SweepMethod::AnyoneCanPay => false,
        _ => true,
    }
}

} // verus!
