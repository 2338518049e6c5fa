use vstd::prelude::*;

verus! {

/// The command line: how to reach the node, the dust threshold if the user
/// sets one, and what to do.
pub struct Cli {
    pub rpc_url: String,
    pub rpc_user: String,
    pub rpc_pass: String,
    pub threshold: Option<u64>,
    pub command: Commands,
}

/// Where swept dust goes.
#[derive(Debug, Clone, Copy, PartialEq, Eq, Structural)]
pub enum SweepMethod {
    /// Into a fresh address of the wallet.
    Consolidate,
    /// Into an `OP_RETURN` output, the dust paying the miners.
    OpReturn,
    /// Each dust output signed alone with `ALL|ANYONECANPAY` into an
    /// `OP_RETURN` output.
    AnyoneCanPay,
}

/// What the tool is asked to do.
#[derive(Debug, Clone, Copy, PartialEq, Eq, Structural)]
pub enum Commands {
    /// List dust and clean outputs.
    Scan,
    /// Sweep the dust outputs.
    Sweep { dry_run: bool, method: SweepMethod, batch: bool },
}

} // verus!
