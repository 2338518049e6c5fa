# dust-cleaner

Detects dust-attack UTXOs in a Bitcoin Core wallet and prepares their sweep:
batch or one transaction per dust output, into a fresh address, into an
`OP_RETURN` "ash" output, or signed alone with `ALL|ANYONECANPAY`.

- `src/` is the library, with every function proved against its contract:
  dust classification (`analyzer`), the sweep requests and their outcomes
  (`psbt_builder`), per-output funders and requests (`per_utxo`), amount
  formatting (`amount`), error texts of the node connection (`scanner`), the
  scan summary and the choice of sweep (`report`), and the laws that hold
  across them (`laws`).
- `app/` is the command-line program: argument parsing, the RPC calls to the
  node and the printing.
- `tests/` runs the library on concrete values.
