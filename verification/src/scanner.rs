use vstd::prelude::*;

use crate::text::contains;

verus! {

/// Why the wallet's outputs could not be listed.
#[derive(Debug, PartialEq)]
pub enum FetchError {
    /// The node did not accept the connection.
    NodeUnreachable,
    /// The node has no wallet loaded.
    NoWallet,
    /// Anything else, with the node's own message.
    Other { detail: String },
}

/// Reads the RPC client's error message.
pub fn classify_fetch_error(msg: &str) -> (r: FetchError)
    ensures
        crate::text::contains_seq(msg@, "Connection refused"@) ==> r == FetchError::NodeUnreachable,
        !crate::text::contains_seq(msg@, "Connection refused"@) && crate::text::contains_seq(msg@, "No wallet"@) ==> r
            == FetchError::NoWallet,
        !crate::text::contains_seq(msg@, "Connection refused"@) && !crate::text::contains_seq(msg@, "No wallet"@) ==> (r matches FetchError::Other { detail } && detail@ == msg@),
{
    if contains(msg, "Connection refused") {
        FetchError::NodeUnreachable
    } else if contains(msg, "No wallet") {
        FetchError::NoWallet
    } else {
        FetchError::Other { detail: String::from_str(msg) }
    }
}

impl FetchError {
    /// The text shown for each failure, with a hint at its remedy.
    pub open spec fn text(&self) -> Seq<char> {
        match self {
            FetchError::NodeUnreachable => "Could not connect to Bitcoin Core. Is your node running?\nTip: bitcoind -conf=/home/$USER/.bitcoin/regtest-dev/bitcoin.conf -datadir=/home/$USER/.bitcoin/regtest-dev"@,
            FetchError::NoWallet => "No wallet loaded.\nTip: bitcoin-cli -rpcport=18443 -rpcuser=user -rpcpassword=pass loadwallet \"testwallet\""@,
            FetchError::Other { detail } => "Failed to fetch UTXOs: "@ + detail@,
        }
    }

    /// The failure's text.
    pub fn message(&self) -> (r: String)
        ensures
            r@ == self.text(),
    {
        match self {
            FetchError::NodeUnreachable => String::from_str(
                "Could not connect to Bitcoin Core. Is your node running?\nTip: bitcoind -conf=/home/$USER/.bitcoin/regtest-dev/bitcoin.conf -datadir=/home/$USER/.bitcoin/regtest-dev",
            ),
            FetchError::NoWallet => String::from_str(
                "No wallet loaded.\nTip: bitcoin-cli -rpcport=18443 -rpcuser=user -rpcpassword=pass loadwallet \"testwallet\"",
            ),
            FetchError::Other { detail } => {
                let s = String::from_str("Failed to fetch UTXOs: ");
                s.concat(detail.as_str())
            },
        }
    }
}

/// The text shown when the RPC client cannot be created.
pub open spec fn connect_error_text(detail: Seq<char>) -> Seq<char> {
    "Failed to create RPC client: "@ + detail + "\nCheck your --rpc-url, --rpc-user and --rpc-pass"@
}

/// The message for a client that could not be created, around the client's
/// own error text.
pub fn connect_error_message(detail: &str) -> (r: String)
    ensures
        r@ == connect_error_text(detail@),
{
    let s = String::from_str("Failed to create RPC client: ");
    let s = s.concat(detail);
    s.concat("\nCheck your --rpc-url, --rpc-user and --rpc-pass")
}

} // verus!
