use vstd::prelude::*;

use crate::amount::btc_string;
use crate::types::Utxo;

verus! {

/// What a batch or per-output sweep hands back: the node's PSBT and what it
/// sweeps.
pub struct SweepResult {
    pub psbt: String,
    pub dust_input_count: usize,
    pub total_dust_sats: u64,
}

/// A preview of a batch sweep, with an estimated fee.
pub struct DryRunResult {
    pub dust_input_count: usize,
    pub total_dust_sats: u64,
    pub funder_sats: u64,
    pub estimated_fee_sats: u64,
    pub estimated_output_sats: u64,
}

/// A dust output signed on its own with `ALL|ANYONECANPAY`.
pub struct AnyoneCanPayResult {
    pub address: String,
    pub dust_sats: u64,
    pub raw_tx_hex: String,
}

/// Why a sweep cannot go on.
#[derive(Debug, PartialEq)]
pub enum SweepError {
    /// There is nothing to sweep.
    NoDust,
    /// No clean output can pay the fee.
    NoFunder,
    /// The node's answer holds no PSBT.
    NoPsbt,
    /// The previous transaction holds no script for the output.
    NoScriptPubKey,
    /// The node built no raw transaction.
    RawTxNotCreated,
    /// The wallet could not sign everything; `errors` is what it reported.
    SigningIncomplete { errors: String },
    /// The node's answer holds no signed transaction.
    NoSignedHex,
}

/// An outpoint to spend: the transaction and the index of its output.
pub struct InputRef {
    pub txid: String,
    pub vout: u32,
}

/// An outpoint spent with an explicit sequence number.
pub struct SequencedInput {
    pub txid: String,
    pub vout: u32,
    pub sequence: u32,
}

/// An output of a transaction to create.
pub enum OutputSpec {
    /// An `OP_RETURN` output carrying the given hex data and no value.
    Data { hex: String },
    /// A payment of `amount_btc` (eight decimals) to `address`.
    Pay { address: String, amount_btc: String },
}

/// The arguments of `walletcreatefundedpsbt`: the inputs, the outputs, the
/// output that pays the fee, and whether the transaction may be replaced.
pub struct FundedPsbtRequest {
    pub inputs: Vec<InputRef>,
    pub outputs: Vec<OutputSpec>,
    pub subtract_fee_from_output: usize,
    pub replaceable: bool,
}

/// The arguments of `createrawtransaction`.
pub struct RawTxRequest {
    pub inputs: Vec<SequencedInput>,
    pub outputs: Vec<OutputSpec>,
}

/// A previous output as `signrawtransactionwithwallet` needs it described.
pub struct PrevTxRef {
    pub txid: String,
    pub vout: u32,
    pub script_pubkey: String,
    pub amount_sats: u64,
}

/// The arguments of `signrawtransactionwithwallet`.
pub struct SignRequest {
    pub raw_tx: String,
    pub prevtxs: Vec<PrevTxRef>,
    pub sighash: String,
}

// ---------------------------------------------------------------------------
// Views

/// An output as plain values.
pub enum OutputView {
    Data(Seq<char>),
    Pay(Seq<char>, Seq<char>),
}

pub struct FundedPsbtRequestView {
    pub inputs: Seq<(Seq<char>, u32)>,
    pub outputs: Seq<OutputView>,
    pub subtract_fee_from_output: int,
    pub replaceable: bool,
}

pub struct RawTxRequestView {
    pub inputs: Seq<(Seq<char>, u32, u32)>,
    pub outputs: Seq<OutputView>,
}

pub struct SignRequestView {
    pub raw_tx: Seq<char>,
    pub prevtxs: Seq<(Seq<char>, u32, Seq<char>, u64)>,
    pub sighash: Seq<char>,
}

impl View for InputRef {
    type V = (Seq<char>, u32);

    open spec fn view(&self) -> (Seq<char>, u32) {
        (self.txid@, self.vout)
    }
}

impl View for SequencedInput {
    type V = (Seq<char>, u32, u32);

    open spec fn view(&self) -> (Seq<char>, u32, u32) {
        (self.txid@, self.vout, self.sequence)
    }
}

impl View for OutputSpec {
    type V = OutputView;

    open spec fn view(&self) -> OutputView {
        match self {
            OutputSpec::Data { hex } => OutputView::Data(hex@),
            OutputSpec::Pay { address, amount_btc } => OutputView::Pay(address@, amount_btc@),
        }
    }
}

impl View for PrevTxRef {
    type V = (Seq<char>, u32, Seq<char>, u64);

    open spec fn view(&self) -> (Seq<char>, u32, Seq<char>, u64) {
        (self.txid@, self.vout, self.script_pubkey@, self.amount_sats)
    }
}

pub open spec fn inputs_view(v: Seq<InputRef>) -> Seq<(Seq<char>, u32)> {
    v.map_values(|i: InputRef| i@)
}

pub open spec fn outputs_view(v: Seq<OutputSpec>) -> Seq<OutputView> {
    v.map_values(|o: OutputSpec| o@)
}

impl View for FundedPsbtRequest {
    type V = FundedPsbtRequestView;

    open spec fn view(&self) -> FundedPsbtRequestView {
        FundedPsbtRequestView {
            inputs: inputs_view(self.inputs@),
            outputs: outputs_view(self.outputs@),
            subtract_fee_from_output: self.subtract_fee_from_output as int,
            replaceable: self.replaceable,
        }
    }
}

impl View for RawTxRequest {
    type V = RawTxRequestView;

    open spec fn view(&self) -> RawTxRequestView {
        RawTxRequestView {
            inputs: self.inputs@.map_values(|i: SequencedInput| i@),
            outputs: outputs_view(self.outputs@),
        }
    }
}

impl View for SignRequest {
    type V = SignRequestView;

    open spec fn view(&self) -> SignRequestView {
        SignRequestView {
            raw_tx: self.raw_tx@,
            prevtxs: self.prevtxs@.map_values(|p: PrevTxRef| p@),
            sighash: self.sighash@,
        }
    }
}

// ---------------------------------------------------------------------------
// Specifications

/// The outpoint of an output.
pub open spec fn outpoint(u: Utxo) -> (Seq<char>, u32) {
    (u.txid@, u.vout)
}

/// The sum of the amounts of a run of outputs.
pub open spec fn sum_sats(s: Seq<Utxo>) -> int
    decreases s.len(),
{
    if s.len() == 0 {
        0
    } else {
        sum_sats(s.drop_last()) + s.last().amount_sats
    }
}

/// The largest amount among the outputs (0 for none).
pub open spec fn max_sats(s: Seq<Utxo>) -> u64
    decreases s.len(),
{
    if s.len() == 0 {
        0
    } else if max_sats(s.drop_last()) <= s.last().amount_sats {
        s.last().amount_sats
    } else {
        max_sats(s.drop_last())
    }
}

/// `i` is the last of the outputs with the largest amount.
pub open spec fn is_last_max(s: Seq<Utxo>, i: int) -> bool {
    &&& 0 <= i < s.len()
    &&& forall|j: int| 0 <= j < s.len() ==> #[trigger] s[j].amount_sats <= s[i].amount_sats
    &&& forall|j: int| i < j < s.len() ==> #[trigger] s[j].amount_sats < s[i].amount_sats
}

/// The hex of the `OP_RETURN` payload `ash`.
pub open spec fn ash_hex() -> Seq<char> {
    seq!['6', '1', '7', '3', '6', '8']
}

/// Sequence number that signals replaceability and no locktime: `0xfffffffd`.
pub open spec fn rbf_sequence() -> u32 {
    4294967293
}

/// The sighash flag of an output that commits to every output and to no other
/// input.
pub open spec fn all_anyonecanpay() -> Seq<char> {
    seq!['A', 'L', 'L', '|', 'A', 'N', 'Y', 'O', 'N', 'E', 'C', 'A', 'N', 'P', 'A', 'Y']
}

/// The funder first, then every dust output in order.
pub open spec fn sweep_inputs(funder: Utxo, dust: Seq<Utxo>) -> Seq<(Seq<char>, u32)> {
    seq![outpoint(funder)] + dust.map_values(|u: Utxo| outpoint(u))
}

/// Consolidation: everything goes to one fresh address, which is paid the
/// funder's amount and pays the fee.
pub open spec fn consolidate_request_spec(funder: Utxo, dust: Seq<Utxo>, address: Seq<char>) -> FundedPsbtRequestView {
    FundedPsbtRequestView {
        inputs: sweep_inputs(funder, dust),
        outputs: seq![OutputView::Pay(address, crate::amount::btc_text(funder.amount_sats as nat))],
        subtract_fee_from_output: 0,
        replaceable: true,
    }
}

/// Burning: an `OP_RETURN` "ash" output first, then the funder's amount back
/// to a change address, which pays the fee.
pub open spec fn op_return_request_spec(funder: Utxo, dust: Seq<Utxo>, change: Seq<char>) -> FundedPsbtRequestView {
    FundedPsbtRequestView {
        inputs: sweep_inputs(funder, dust),
        outputs: seq![
            OutputView::Data(ash_hex()),
            OutputView::Pay(change, crate::amount::btc_text(funder.amount_sats as nat)),
        ],
        subtract_fee_from_output: 1,
        replaceable: true,
    }
}

/// The label of an output's address: the address, or `unknown` without one.
pub open spec fn address_label(u: Utxo) -> Seq<char> {
    match u.address {
        Some(a) => a@,
        None => seq!['u', 'n', 'k', 'n', 'o', 'w', 'n'],
    }
}

/// The fee estimate of a batch sweep of `dust_count` dust outputs and one
/// funder: 68 vbytes an input, 31 for the output, 10 of overhead, at 2 sat/vbyte.
pub open spec fn estimated_fee(dust_count: nat) -> nat {
    ((dust_count + 1) * 68 + 31 + 10) * 2
}

/// The dry run's arithmetic stays within `u64`, where it gets to arithmetic.
pub open spec fn dry_run_fits(dust: Seq<Utxo>, clean: Seq<Utxo>) -> bool {
    dust.len() > 0 && clean.len() > 0 ==> {
        &&& sum_sats(dust) <= u64::MAX
        &&& estimated_fee(dust.len()) <= u64::MAX
        &&& max_sats(clean) + sum_sats(dust) <= u64::MAX
        &&& estimated_fee(dust.len()) <= max_sats(clean) + sum_sats(dust)
    }
}

/// The error a sweep setup ends in, if any: no dust comes before no funder.
pub open spec fn setup_error(dust: Seq<Utxo>, clean: Seq<Utxo>) -> Option<SweepError> {
    if dust.len() == 0 {
        Some(SweepError::NoDust)
    } else if clean.len() == 0 {
        Some(SweepError::NoFunder)
    } else {
        None
    }
}

// ---------------------------------------------------------------------------
// Lemmas

proof fn lemma_sum_sats_take_step(s: Seq<Utxo>, i: int)
    requires
        0 <= i < s.len(),
    ensures
        sum_sats(s.take(i + 1)) == sum_sats(s.take(i)) + s[i].amount_sats,
{
    assert(s.take(i + 1).drop_last() =~= s.take(i));
}

proof fn lemma_max_sats_take_step(s: Seq<Utxo>, i: int)
    requires
        0 <= i < s.len(),
    ensures
        max_sats(s.take(i + 1)) == if max_sats(s.take(i)) <= s[i].amount_sats {
            s[i].amount_sats
        } else {
            max_sats(s.take(i))
        },
{
    assert(s.take(i + 1).drop_last() =~= s.take(i));
}

/// Sums of prefixes grow with the prefix.
proof fn lemma_sum_sats_prefix_le(s: Seq<Utxo>, i: int)
    requires
        0 <= i <= s.len(),
    ensures
        sum_sats(s.take(i)) <= sum_sats(s),
    decreases s.len() - i,
{
    if i < s.len() {
        lemma_sum_sats_take_step(s, i);
        lemma_sum_sats_prefix_le(s, i + 1);
    } else {
        assert(s.take(i) =~= s);
    }
}

// ---------------------------------------------------------------------------
// Functions

/// The sum of the amounts, where it fits in `u64`.
pub fn checked_total_sats(utxos: &[Utxo]) -> (r: Option<u64>)
    ensures
        r is Some <==> sum_sats(utxos@) <= u64::MAX,
        r matches Some(t) ==> t == sum_sats(utxos@),
{
    let mut total: u64 = 0;
    let n = utxos.len();
    for i in 0..n
        invariant
            n == utxos@.len(),
            total == sum_sats(utxos@.take(i as int)),
    {
        proof {
            lemma_sum_sats_take_step(utxos@, i as int);
        }
        match total.checked_add(utxos[i].amount_sats) {
            Some(t) => {
                total = t;
            },
            None => {
                proof {
                    lemma_sum_sats_prefix_le(utxos@, i + 1);
                }
                return None;
            },
        }
    }
    assert(utxos@.take(n as int) =~= utxos@);
    Some(total)
}

/// The sum of the amounts.
pub fn total_sats(utxos: &[Utxo]) -> (r: u64)
    requires
        sum_sats(utxos@) <= u64::MAX,
    ensures
        r == sum_sats(utxos@),
{
    let mut total: u64 = 0;
    let n = utxos.len();
    for i in 0..n
        invariant
            n == utxos@.len(),
            total == sum_sats(utxos@.take(i as int)),
            sum_sats(utxos@) <= u64::MAX,
    {
        proof {
            lemma_sum_sats_take_step(utxos@, i as int);
            lemma_sum_sats_prefix_le(utxos@, i + 1);
        }
        total = total + utxos[i].amount_sats;
    }
    assert(utxos@.take(n as int) =~= utxos@);
    total
}

/// The index of the clean output that funds the fee: the one with the largest
/// amount, the last of them where several share it; `None` without any.
pub fn select_funder(clean_utxos: &[Utxo]) -> (r: Option<usize>)
    ensures
        r is None <==> clean_utxos@.len() == 0,
        r matches Some(i) ==> is_last_max(clean_utxos@, i as int),
        r matches Some(i) ==> clean_utxos@[i as int].amount_sats == max_sats(clean_utxos@),
{
    let n = clean_utxos.len();
    if n == 0 {
        return None;
    }
    let mut best: usize = 0;
    proof {
        lemma_max_sats_take_step(clean_utxos@, 0);
        assert(clean_utxos@.take(0).len() == 0);
    }
    for i in 1..n
        invariant
            n == clean_utxos@.len(),
            n > 0,
            best < i,
            is_last_max(clean_utxos@.take(i as int), best as int),
            clean_utxos@[best as int].amount_sats == max_sats(clean_utxos@.take(i as int)),
    {
        proof {
            lemma_max_sats_take_step(clean_utxos@, i as int);
        }
        let ghost prev = best;
        if clean_utxos[i].amount_sats >= clean_utxos[best].amount_sats {
            best = i;
        }
        proof {
            let t = clean_utxos@.take(i + 1);
            assert forall|j: int| 0 <= j < t.len() implies #[trigger] t[j].amount_sats <= t[best as int].amount_sats by {
                if j < i {
                    assert(clean_utxos@.take(i as int)[j] == t[j]);
                    assert(clean_utxos@.take(i as int)[prev as int] == t[prev as int]);
                }
            }
            assert forall|j: int| best < j < t.len() implies #[trigger] t[j].amount_sats < t[best as int].amount_sats by {
                if j < i {
                    assert(clean_utxos@.take(i as int)[j] == t[j]);
                }
                assert(clean_utxos@.take(i as int)[prev as int] == t[prev as int]);
            }
        }
    }
    assert(clean_utxos@.take(n as int) =~= clean_utxos@);
    Some(best)
}

/// Fails with `NoDust` when there is nothing to sweep.
pub fn require_dust(dust_utxos: &[Utxo]) -> (r: Result<(), SweepError>)
    ensures
        r is Err <==> dust_utxos@.len() == 0,
        r matches Err(e) ==> e == SweepError::NoDust,
{
    if dust_utxos.len() == 0 {
        Err(SweepError::NoDust)
    } else {
        Ok(())
    }
}

/// Checks that there is dust and picks the funder among the clean outputs:
/// `NoDust` first, then `NoFunder`, else the index that `select_funder` gives.
pub fn prepare_sweep(dust_utxos: &[Utxo], clean_utxos: &[Utxo]) -> (r: Result<usize, SweepError>)
    ensures
        r is Err <==> setup_error(dust_utxos@, clean_utxos@) is Some,
        r matches Err(e) ==> Some(e) == setup_error(dust_utxos@, clean_utxos@),
        r matches Ok(i) ==> is_last_max(clean_utxos@, i as int)
            && clean_utxos@[i as int].amount_sats == max_sats(clean_utxos@),
{
    require_dust(dust_utxos)?;
    match select_funder(clean_utxos) {
        Some(i) => Ok(i),
        None => Err(SweepError::NoFunder),
    }
}

fn input_of(u: &Utxo) -> (r: InputRef)
    ensures
        r@ == outpoint(*u),
{
    InputRef { txid: u.txid.clone(), vout: u.vout }
}

/// The inputs of a sweep: the funder first, then every dust output in order.
pub fn build_inputs(funder: &Utxo, dust_utxos: &[Utxo]) -> (r: Vec<InputRef>)
    ensures
        inputs_view(r@) == sweep_inputs(*funder, dust_utxos@),
{
    let mut inputs: Vec<InputRef> = Vec::new();
    inputs.push(input_of(funder));
    let n = dust_utxos.len();
    for i in 0..n
        invariant
            n == dust_utxos@.len(),
            inputs_view(inputs@) == sweep_inputs(*funder, dust_utxos@.take(i as int)),
    {
        let ghost before = inputs@;
        let next = input_of(&dust_utxos[i]);
        inputs.push(next);
        proof {
            let d = dust_utxos@;
            assert(d.take(i + 1) =~= d.take(i as int).push(d[i as int]));
            assert(inputs_view(inputs@) =~= inputs_view(before).push(outpoint(d[i as int])));
            assert(d.take(i + 1).map_values(|u: Utxo| outpoint(u)) =~= d.take(i as int).map_values(
                |u: Utxo| outpoint(u),
            ).push(outpoint(d[i as int])));
            assert(sweep_inputs(*funder, d.take(i + 1)) =~= sweep_inputs(*funder, d.take(i as int)).push(
                outpoint(d[i as int]),
            ));
        }
    }
    assert(dust_utxos@.take(n as int) =~= dust_utxos@);
    inputs
}

fn ash_data() -> (r: OutputSpec)
    ensures
        r@ == OutputView::Data(ash_hex()),
{
    proof {
        reveal_strlit("617368");
    }
    let hex = String::from_str("617368");
    assert(hex@ =~= ash_hex());
    OutputSpec::Data { hex }
}

fn pay_funder_amount(funder: &Utxo, address: &str) -> (r: OutputSpec)
    ensures
        r@ == OutputView::Pay(address@, crate::amount::btc_text(funder.amount_sats as nat)),
{
    OutputSpec::Pay { address: String::from_str(address), amount_btc: btc_string(funder.amount_sats) }
}

/// The request of a batch consolidation into `address`.
pub fn consolidate_request(funder: &Utxo, dust_utxos: &[Utxo], address: &str) -> (r: FundedPsbtRequest)
    ensures
        r@ == consolidate_request_spec(*funder, dust_utxos@, address@),
{
    let inputs = build_inputs(funder, dust_utxos);
    let mut outputs: Vec<OutputSpec> = Vec::new();
    outputs.push(pay_funder_amount(funder, address));
    let r = FundedPsbtRequest { inputs, outputs, subtract_fee_from_output: 0, replaceable: true };
    assert(r@.outputs =~= consolidate_request_spec(*funder, dust_utxos@, address@).outputs);
    r
}

/// The request of a batch burn, with the funder's amount back to
/// `change_address`.
pub fn op_return_request(funder: &Utxo, dust_utxos: &[Utxo], change_address: &str) -> (r: FundedPsbtRequest)
    ensures
        r@ == op_return_request_spec(*funder, dust_utxos@, change_address@),
{
    let inputs = build_inputs(funder, dust_utxos);
    let mut outputs: Vec<OutputSpec> = Vec::new();
    outputs.push(ash_data());
    outputs.push(pay_funder_amount(funder, change_address));
    let r = FundedPsbtRequest { inputs, outputs, subtract_fee_from_output: 1, replaceable: true };
    assert(r@.outputs =~= op_return_request_spec(*funder, dust_utxos@, change_address@).outputs);
    r
}

/// The request that burns the single dust output `utxo`: the funder and that
/// output are its only inputs.
pub fn per_utxo_request(funder: &Utxo, utxo: &Utxo, change_address: &str) -> (r: FundedPsbtRequest)
    ensures
        r@ == op_return_request_spec(*funder, seq![*utxo], change_address@),
        r@.inputs == seq![outpoint(*funder), outpoint(*utxo)],
{
    let single = vec![utxo.duplicate()];
    let r = op_return_request(funder, single.as_slice(), change_address);
    proof {
        assert(single@ =~= seq![*utxo]);
        assert(sweep_inputs(*funder, seq![*utxo]) =~= seq![outpoint(*funder), outpoint(*utxo)]);
    }
    r
}

/// The request that sends the single dust output `utxo` and the funder to a
/// fresh `address`: those two are its only inputs, and the one output, paid the
/// funder's amount, pays the fee.
pub fn per_utxo_consolidate_request(funder: &Utxo, utxo: &Utxo, address: &str) -> (r: FundedPsbtRequest)
    ensures
        r@ == consolidate_request_spec(*funder, seq![*utxo], address@),
        r@.inputs == seq![outpoint(*funder), outpoint(*utxo)],
{
    let single = vec![utxo.duplicate()];
    let r = consolidate_request(funder, single.as_slice(), address);
    proof {
        assert(single@ =~= seq![*utxo]);
        assert(sweep_inputs(*funder, seq![*utxo]) =~= seq![outpoint(*funder), outpoint(*utxo)]);
    }
    r
}

/// The label of an output's address.
pub fn address_label_of(utxo: &Utxo) -> (r: String)
    ensures
        r@ == address_label(*utxo),
{
    match &utxo.address {
        Some(a) => a.clone(),
        None => {
            proof {
                reveal_strlit("unknown");
            }
            let s = String::from_str("unknown");
            assert(s@ =~= address_label(*utxo));
            s
        },
    }
}

/// The outcome of a batch sweep once the node has answered: `NoPsbt` without
/// a PSBT, else the PSBT with the number and total of the dust outputs.
pub fn sweep_result(dust_utxos: &[Utxo], psbt: Option<String>) -> (r: Result<SweepResult, SweepError>)
    requires
        sum_sats(dust_utxos@) <= u64::MAX,
    ensures
        r is Err <==> psbt is None,
        r matches Err(e) ==> e == SweepError::NoPsbt,
        r matches Ok(res) ==> {
            &&& Some(res.psbt) == psbt
            &&& res.dust_input_count == dust_utxos@.len()
            &&& res.total_dust_sats == sum_sats(dust_utxos@)
        },
{
    match psbt {
        None => Err(SweepError::NoPsbt),
        Some(p) => Ok(SweepResult {
            psbt: p,
            dust_input_count: dust_utxos.len(),
            total_dust_sats: total_sats(dust_utxos),
        }),
    }
}

/// The outcome of sweeping one dust output: its address label and a result
/// that counts that output alone.
pub fn per_utxo_result(utxo: &Utxo, psbt: Option<String>) -> (r: Result<(String, SweepResult), SweepError>)
    ensures
        r is Err <==> psbt is None,
        r matches Err(e) ==> e == SweepError::NoPsbt,
        r matches Ok(res) ==> {
            &&& res.0@ == address_label(*utxo)
            &&& Some(res.1.psbt) == psbt
            &&& res.1.dust_input_count == 1
            &&& res.1.total_dust_sats == utxo.amount_sats
        },
{
    match psbt {
        None => Err(SweepError::NoPsbt),
        Some(p) => {
            let address = address_label_of(utxo);
            Ok((address, SweepResult { psbt: p, dust_input_count: 1, total_dust_sats: utxo.amount_sats }))
        },
    }
}

/// Whether the dry run's arithmetic stays within `u64` on these outputs.
pub fn dry_run_fits_check(dust_utxos: &[Utxo], clean_utxos: &[Utxo]) -> (r: bool)
    ensures
        r == dry_run_fits(dust_utxos@, clean_utxos@),
{
    if dust_utxos.len() == 0 || clean_utxos.len() == 0 {
        return true;
    }
    let total = match checked_total_sats(dust_utxos) {
        Some(t) => t,
        None => return false,
    };
    let funder = match select_funder(clean_utxos) {
        Some(i) => clean_utxos[i].amount_sats,
        None => return true,
    };
    let count = dust_utxos.len() as u64;
    if count > (u64::MAX / 2 - 41) / 68 - 1 {
        return false;
    }
    let fee = ((count + 1) * 68 + 31 + 10) * 2;
    match funder.checked_add(total) {
        None => false,
        Some(available) => fee <= available,
    }
}

/// Previews a batch sweep: the funder is the largest clean output, and the
/// fee is estimated from the number of inputs.
pub fn dry_run_sweep(dust_utxos: &[Utxo], clean_utxos: &[Utxo]) -> (r: Result<DryRunResult, SweepError>)
    requires
        dry_run_fits(dust_utxos@, clean_utxos@),
    ensures
        r is Err <==> setup_error(dust_utxos@, clean_utxos@) is Some,
        r matches Err(e) ==> Some(e) == setup_error(dust_utxos@, clean_utxos@),
        r matches Ok(res) ==> {
            &&& res.dust_input_count == dust_utxos@.len()
            &&& res.total_dust_sats == sum_sats(dust_utxos@)
            &&& res.funder_sats == max_sats(clean_utxos@)
            &&& res.estimated_fee_sats == estimated_fee(dust_utxos@.len())
            &&& res.estimated_output_sats == res.funder_sats + res.total_dust_sats - res.estimated_fee_sats
        },
{
    let funder_index = prepare_sweep(dust_utxos, clean_utxos)?;
    let total_dust_sats = total_sats(dust_utxos);
    let funder_sats = clean_utxos[funder_index].amount_sats;
    let total_inputs = dust_utxos.len() as u64 + 1;
    let estimated_vbytes = (total_inputs * 68) + 31 + 10;
    let estimated_fee_sats = estimated_vbytes * 2;
    let estimated_output_sats = funder_sats + total_dust_sats - estimated_fee_sats;
    Ok(DryRunResult {
        dust_input_count: dust_utxos.len(),
        total_dust_sats,
        funder_sats,
        estimated_fee_sats,
        estimated_output_sats,
    })
}

/// The request that creates the transaction burning `utxo`: it spends that
/// output alone, replaceably, into a single valueless `OP_RETURN` "ash"
/// output, so that its whole amount goes to the fee. `NoScriptPubKey` when the
/// previous transaction did not show the output's script.
pub fn anyonecanpay_raw_tx_request(utxo: &Utxo, script_pubkey: Option<&str>) -> (r: Result<
    RawTxRequest,
    SweepError,
>)
    ensures
        r is Err <==> script_pubkey is None,
        r matches Err(e) ==> e == SweepError::NoScriptPubKey,
        r matches Ok(req) ==> {
            &&& req@.inputs == seq![(utxo.txid@, utxo.vout, rbf_sequence())]
            &&& req@.outputs == seq![OutputView::Data(ash_hex())]
        },
{
    if script_pubkey.is_none() {
        return Err(SweepError::NoScriptPubKey);
    }
    let mut inputs: Vec<SequencedInput> = Vec::new();
    inputs.push(SequencedInput { txid: utxo.txid.clone(), vout: utxo.vout, sequence: 4294967293 });
    let mut outputs: Vec<OutputSpec> = Vec::new();
    outputs.push(ash_data());
    let r = RawTxRequest { inputs, outputs };
    assert(r@.inputs =~= seq![(utxo.txid@, utxo.vout, rbf_sequence())]);
    assert(r@.outputs =~= seq![OutputView::Data(ash_hex())]);
    Ok(r)
}

/// The request that signs the created transaction with `ALL|ANYONECANPAY`,
/// describing the spent output by its script and amount. `RawTxNotCreated`
/// when the node returned no transaction.
pub fn anyonecanpay_sign_request(utxo: &Utxo, script_pubkey: &str, raw_tx: Option<String>) -> (r: Result<
    SignRequest,
    SweepError,
>)
    ensures
        r is Err <==> raw_tx is None,
        r matches Err(e) ==> e == SweepError::RawTxNotCreated,
        r matches Ok(req) ==> {
            &&& Some(req.raw_tx) == raw_tx
            &&& req@.prevtxs == seq![(utxo.txid@, utxo.vout, script_pubkey@, utxo.amount_sats)]
            &&& req@.sighash == all_anyonecanpay()
        },
{
    let raw_tx = match raw_tx {
        None => return Err(SweepError::RawTxNotCreated),
        Some(t) => t,
    };
    let mut prevtxs: Vec<PrevTxRef> = Vec::new();
    prevtxs.push(
        PrevTxRef {
            txid: utxo.txid.clone(),
            vout: utxo.vout,
            script_pubkey: String::from_str(script_pubkey),
            amount_sats: utxo.amount_sats,
        },
    );
    proof {
        reveal_strlit("ALL|ANYONECANPAY");
    }
    let sighash = String::from_str("ALL|ANYONECANPAY");
    let r = SignRequest { raw_tx, prevtxs, sighash };
    assert(r@.prevtxs =~= seq![(utxo.txid@, utxo.vout, script_pubkey@, utxo.amount_sats)]);
    assert(r@.sighash =~= all_anyonecanpay());
    Ok(r)
}

/// The outcome of signing: `SigningIncomplete` with the wallet's errors unless
/// it reported the signing complete (a missing flag counts as incomplete),
/// then `NoSignedHex` without a signed transaction, else the output's label,
/// its amount and the signed transaction.
pub fn anyonecanpay_result(
    utxo: &Utxo,
    complete: Option<bool>,
    errors: String,
    signed_hex: Option<String>,
) -> (r: Result<AnyoneCanPayResult, SweepError>)
    ensures
        complete != Some(true) ==> r == Err::<AnyoneCanPayResult, SweepError>(
            SweepError::SigningIncomplete { errors },
        ),
        complete == Some(true) && signed_hex is None ==> r == Err::<AnyoneCanPayResult, SweepError>(
            SweepError::NoSignedHex,
        ),
        r is Ok <==> complete == Some(true) && signed_hex is Some,
        r matches Ok(res) ==> {
            &&& res.address@ == address_label(*utxo)
            &&& res.dust_sats == utxo.amount_sats
            &&& Some(res.raw_tx_hex) == signed_hex
        },
{
    let complete = match complete {
        Some(c) => c,
        None => false,
    };
    if !complete {
        return Err(SweepError::SigningIncomplete { errors });
    }
    match signed_hex {
        None => Err(SweepError::NoSignedHex),
        Some(hex) => Ok(
            AnyoneCanPayResult {
                address: address_label_of(utxo),
                dust_sats: utxo.amount_sats,
                raw_tx_hex: hex,
            },
        ),
    }
}

/// A preview of burning every dust output with `ALL|ANYONECANPAY`: no funder
/// is spent, and the whole dust amount goes to the fee.
pub struct AnyoneCanPayDryRun {
    pub dust_input_count: usize,
    pub total_dust_sats: u64,
    pub fee_sats: u64,
}

/// Previews the `ALL|ANYONECANPAY` sweep: fails only without dust.
pub fn dry_run_anyonecanpay(dust_utxos: &[Utxo]) -> (r: Result<AnyoneCanPayDryRun, SweepError>)
    requires
        sum_sats(dust_utxos@) <= u64::MAX,
    ensures
        r is Err <==> dust_utxos@.len() == 0,
        r matches Err(e) ==> e == SweepError::NoDust,
        r matches Ok(res) ==> {
            &&& res.dust_input_count == dust_utxos@.len()
            &&& res.total_dust_sats == sum_sats(dust_utxos@)
            &&& res.fee_sats == res.total_dust_sats
        },
{
    require_dust(dust_utxos)?;
    let total = total_sats(dust_utxos);
    Ok(AnyoneCanPayDryRun { dust_input_count: dust_utxos.len(), total_dust_sats: total, fee_sats: total })
}

impl SweepError {
    /// The text shown for each error.
    pub open spec fn text(&self) -> Seq<char> {
        match self {
            SweepError::NoDust => "No dust UTXOs to sweep"@,
            SweepError::NoFunder => "Cannot sweep: no clean UTXOs available to fund transaction fees.\nTip: fund your wallet first with a non-dust amount."@,
            SweepError::NoPsbt => "No PSBT returned from node"@,
            SweepError::NoScriptPubKey => "Could not get scriptPubKey"@,
            SweepError::RawTxNotCreated => "Could not create raw transaction"@,
            SweepError::SigningIncomplete { errors } => "Signing incomplete: "@ + errors@,
            SweepError::NoSignedHex => "No signed hex returned"@,
        }
    }

    /// The error's text.
    pub fn message(&self) -> (r: String)
        ensures
            r@ == self.text(),
    {
        match self {
            SweepError::NoDust => String::from_str("No dust UTXOs to sweep"),
            SweepError::NoFunder => String::from_str(
                "Cannot sweep: no clean UTXOs available to fund transaction fees.\nTip: fund your wallet first with a non-dust amount.",
            ),
            SweepError::NoPsbt => String::from_str("No PSBT returned from node"),
            SweepError::NoScriptPubKey => String::from_str("Could not get scriptPubKey"),
            SweepError::RawTxNotCreated => String::from_str("Could not create raw transaction"),
            SweepError::SigningIncomplete { errors } => {
                let s = String::from_str("Signing incomplete: ");
                s.concat(errors.as_str())
            },
            SweepError::NoSignedHex => String::from_str("No signed hex returned"),
        }
    }
}

} // verus!
