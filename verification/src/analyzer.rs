use vstd::prelude::*;

use crate::text::starts_with;
use crate::types::Utxo;

verus! {

/// The output script of an address, as far as its prefix tells it.
#[derive(Debug, Clone, Copy, PartialEq, Eq, Structural)]
pub enum ScriptType {
    P2PKH,
    P2WPKH,
    P2TR,
    P2SH,
    Unknown,
}

/// Characters of the address prefixes that identify a script type.
pub open spec fn p2pkh_prefix() -> Seq<char> { seq!['1'] }
pub open spec fn p2sh_prefix() -> Seq<char> { seq!['3'] }
pub open spec fn p2wpkh_prefixes() -> Seq<Seq<char>> {
    seq![seq!['b', 'c', '1', 'q'], seq!['b', 'c', 'r', 't', '1', 'q'], seq!['t', 'b', '1', 'q']]
}
pub open spec fn p2tr_prefixes() -> Seq<Seq<char>> {
    seq![seq!['b', 'c', '1', 'p'], seq!['b', 'c', 'r', 't', '1', 'p'], seq!['t', 'b', '1', 'p']]
}

pub open spec fn has_any_prefix(a: Seq<char>, ps: Seq<Seq<char>>) -> bool {
    exists|i: int| 0 <= i < ps.len() && crate::text::has_prefix(a, #[trigger] ps[i])
}

/// The script type that an address denotes: `1…` is P2PKH, `3…` is P2SH,
/// `bc1q`/`bcrt1q`/`tb1q` is P2WPKH, `bc1p`/`bcrt1p`/`tb1p` is P2TR.
pub open spec fn script_type_of(a: Seq<char>) -> ScriptType {
    if crate::text::has_prefix(a, p2pkh_prefix()) {
        ScriptType::P2PKH
    } else if crate::text::has_prefix(a, p2sh_prefix()) {
        ScriptType::P2SH
    } else if has_any_prefix(a, p2wpkh_prefixes()) {
        ScriptType::P2WPKH
    } else if has_any_prefix(a, p2tr_prefixes()) {
        ScriptType::P2TR
    } else {
        ScriptType::Unknown
    }
}

/// Bitcoin Core's dust limit for an output of each script type, in sats.
/// An address of no known type is held to the largest of them.
pub open spec fn threshold_of(t: ScriptType) -> u64 {
    match t {
        ScriptType::P2PKH => 546,
        ScriptType::P2WPKH => 294,
        ScriptType::P2TR => 294,
        ScriptType::P2SH => 540,
        ScriptType::Unknown => 546,
    }
}

/// The script type of an output: that of its address, `Unknown` without one.
pub open spec fn utxo_script_type(u: Utxo) -> ScriptType {
    match u.address {
        Some(a) => script_type_of(a@),
        None => ScriptType::Unknown,
    }
}

/// The threshold that applies to an output: the user's where one is given,
/// else the one of its script type.
pub open spec fn effective_threshold(u: Utxo, user_threshold: Option<u64>) -> u64 {
    match user_threshold {
        Some(t) => t,
        None => threshold_of(utxo_script_type(u)),
    }
}

pub open spec fn dust_under(threshold: u64) -> spec_fn(Utxo) -> bool {
    |u: Utxo| u.amount_sats < threshold
}

pub open spec fn clean_under(threshold: u64) -> spec_fn(Utxo) -> bool {
    |u: Utxo| !(u.amount_sats < threshold)
}

pub open spec fn dust_smart(user_threshold: Option<u64>) -> spec_fn(Utxo) -> bool {
    |u: Utxo| u.amount_sats < effective_threshold(u, user_threshold)
}

pub open spec fn clean_smart(user_threshold: Option<u64>) -> spec_fn(Utxo) -> bool {
    |u: Utxo| !(u.amount_sats < effective_threshold(u, user_threshold))
}

/// An amount is dust when it lies strictly below the threshold.
pub fn is_dust(amount_sats: u64, threshold: u64) -> (r: bool)
    ensures
        r == (amount_sats < threshold),
{
    amount_sats < threshold
}

fn starts_with_any3(a: &str, p0: &str, p1: &str, p2: &str, ps: Ghost<Seq<Seq<char>>>) -> (r: bool)
    requires
        ps@.len() == 3,
        ps@[0] == p0@,
        ps@[1] == p1@,
        ps@[2] == p2@,
    ensures
        r == has_any_prefix(a@, ps@),
{
    let r = starts_with(a, p0) || starts_with(a, p1) || starts_with(a, p2);
    proof {
        if has_any_prefix(a@, ps@) {
            let i = choose|i: int| 0 <= i < ps@.len() && crate::text::has_prefix(a@, #[trigger] ps@[i]);
            assert(i == 0 || i == 1 || i == 2);
        }
        if r {
            if crate::text::has_prefix(a@, p0@) {
                assert(crate::text::has_prefix(a@, ps@[0]));
            } else if crate::text::has_prefix(a@, p1@) {
                assert(crate::text::has_prefix(a@, ps@[1]));
            } else {
                assert(crate::text::has_prefix(a@, ps@[2]));
            }
        }
    }
    r
}

/// The script type that an address's prefix denotes.
pub fn detect_script_type(address: &str) -> (r: ScriptType)
    ensures
        r == script_type_of(address@),
{
    proof {
        reveal_strlit("1");
        reveal_strlit("3");
        reveal_strlit("bc1q");
        reveal_strlit("bcrt1q");
        reveal_strlit("tb1q");
        reveal_strlit("bc1p");
        reveal_strlit("bcrt1p");
        reveal_strlit("tb1p");
        assert("1"@ =~= p2pkh_prefix());
        assert("3"@ =~= p2sh_prefix());
        assert("bc1q"@ =~= p2wpkh_prefixes()[0]);
        assert("bcrt1q"@ =~= p2wpkh_prefixes()[1]);
        assert("tb1q"@ =~= p2wpkh_prefixes()[2]);
        assert("bc1p"@ =~= p2tr_prefixes()[0]);
        assert("bcrt1p"@ =~= p2tr_prefixes()[1]);
        assert("tb1p"@ =~= p2tr_prefixes()[2]);
    }
    if starts_with(address, "1") {
        ScriptType::P2PKH
    } else if starts_with(address, "3") {
        ScriptType::P2SH
    } else if starts_with_any3(address, "bc1q", "bcrt1q", "tb1q", Ghost(p2wpkh_prefixes())) {
        ScriptType::P2WPKH
    } else if starts_with_any3(address, "bc1p", "bcrt1p", "tb1p", Ghost(p2tr_prefixes())) {
        ScriptType::P2TR
    } else {
        ScriptType::Unknown
    }
}

/// The dust limit of a script type, in sats.
pub fn dust_threshold(script_type: ScriptType) -> (r: u64)
    ensures
        r == threshold_of(script_type),
{
    match script_type {
        ScriptType::P2PKH => 546,
        ScriptType::P2WPKH => 294,
        ScriptType::P2TR => 294,
        ScriptType::P2SH => 540,
        ScriptType::Unknown => 546,
    }
}

/// Dust by the user's threshold where one is given, else by the limit of the
/// address's script type.
pub fn is_dust_smart(amount_sats: u64, address: &str, user_threshold: Option<u64>) -> (r: bool)
    ensures
        r == (amount_sats < match user_threshold {
            Some(t) => t,
            None => threshold_of(script_type_of(address@)),
        }),
{
    match user_threshold {
        Some(t) => is_dust(amount_sats, t),
        None => is_dust(amount_sats, dust_threshold(detect_script_type(address))),
    }
}

fn utxo_is_dust_smart(u: &Utxo, user_threshold: Option<u64>) -> (r: bool)
    ensures
        r == (u.amount_sats < effective_threshold(*u, user_threshold)),
{
    match user_threshold {
        Some(t) => is_dust(u.amount_sats, t),
        None => {
            let st = match &u.address {
                Some(a) => detect_script_type(a.as_str()),
                None => ScriptType::Unknown,
            };
            is_dust(u.amount_sats, dust_threshold(st))
        },
    }
}

/// Splits outputs into dust (below `threshold`) and clean ones, each in the
/// order they came in.
pub fn classify_utxos(utxos: Vec<Utxo>, threshold: u64) -> (r: (Vec<Utxo>, Vec<Utxo>))
    ensures
        r.0@ == utxos@.filter(dust_under(threshold)),
        r.1@ == utxos@.filter(clean_under(threshold)),
{
    let mut dust: Vec<Utxo> = Vec::new();
    let mut clean: Vec<Utxo> = Vec::new();
    let n = utxos.len();
    for i in 0..n
        invariant
            n == utxos@.len(),
            dust@ == utxos@.take(i as int).filter(dust_under(threshold)),
            clean@ == utxos@.take(i as int).filter(clean_under(threshold)),
    {
        proof {
            reveal_with_fuel(Seq::<_>::filter, 1);
            assert(utxos@.take(i + 1).drop_last() =~= utxos@.take(i as int));
        }
        if is_dust(utxos[i].amount_sats, threshold) {
            dust.push(utxos[i].duplicate());
        } else {
            clean.push(utxos[i].duplicate());
        }
    }
    assert(utxos@.take(n as int) =~= utxos@);
    (dust, clean)
}

/// Splits outputs into dust and clean ones, each output judged by the user's
/// threshold where one is given, else by the dust limit of its script type.
pub fn classify_utxos_smart(utxos: Vec<Utxo>, user_threshold: Option<u64>) -> (r: (
    Vec<Utxo>,
    Vec<Utxo>,
))
    ensures
        r.0@ == utxos@.filter(dust_smart(user_threshold)),
        r.1@ == utxos@.filter(clean_smart(user_threshold)),
{
    let mut dust: Vec<Utxo> = Vec::new();
    let mut clean: Vec<Utxo> = Vec::new();
    let n = utxos.len();
    for i in 0..n
        invariant
            n == utxos@.len(),
            dust@ == utxos@.take(i as int).filter(dust_smart(user_threshold)),
            clean@ == utxos@.take(i as int).filter(clean_smart(user_threshold)),
    {
        proof {
            reveal_with_fuel(Seq::<_>::filter, 1);
            assert(utxos@.take(i + 1).drop_last() =~= utxos@.take(i as int));
        }
        if utxo_is_dust_smart(&utxos[i], user_threshold) {
            dust.push(utxos[i].duplicate());
        } else {
            clean.push(utxos[i].duplicate());
        }
    }
    assert(utxos@.take(n as int) =~= utxos@);
    (dust, clean)
}

} // verus!
