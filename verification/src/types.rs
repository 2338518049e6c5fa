use vstd::prelude::*;

verus! {

/// An unspent output of the wallet, held as plain values.
#[derive(Debug, PartialEq)]
pub struct Utxo {
    pub txid: String,
    pub vout: u32,
    pub amount_sats: u64,
    pub address: Option<String>,
}

/// The view of an optional address: the characters it holds, if any.
pub open spec fn opt_str_view(a: Option<&str>) -> Option<Seq<char>> {
    match a {
        Some(s) => Some(s@),
        None => None,
    }
}

pub open spec fn opt_string_view(a: Option<String>) -> Option<Seq<char>> {
    match a {
        Some(s) => Some(s@),
        None => None,
    }
}

impl Utxo {
    /// Builds an output from borrowed text, copying it.
    pub fn new(txid: &str, vout: u32, amount_sats: u64, address: Option<&str>) -> (r: Self)
        ensures
            r.txid@ == txid@,
            r.vout == vout,
            r.amount_sats == amount_sats,
            opt_string_view(r.address) == opt_str_view(address),
    {
        let address = match address {
            Some(a) => Some(String::from_str(a)),
            None => None,
        };
        Utxo { txid: String::from_str(txid), vout, amount_sats, address }
    }

    /// A copy of this output, field for field.
    pub fn duplicate(&self) -> (r: Self)
        ensures
            r == *self,
    {
        let address = match &self.address {
            Some(a) => Some(a.clone()),
            None => None,
        };
        Utxo { txid: self.txid.clone(), vout: self.vout, amount_sats: self.amount_sats, address }
    }
}

impl Clone for Utxo {
    fn clone(&self) -> (r: Self)
        ensures
            r == *self,
    {
        self.duplicate()
    }
}

} // verus!
