# gift_for_dragons

An auto-compounding bot for the SNIPS/XPR and XPR/XUSDC pools of the
`proton.swaps` exchange on the XPR Network. Each cycle it claims farming
rewards, moves balances to the exchange, adds liquidity, stakes the liquidity
tokens in `yield.farms` and withdraws what is left, all through the `proton`
CLI.

- `src/` is the verified library (Verus): the text of every CLI command, the
  parsing of balances, pool rows and `liquidityadd` replies, the decimal point
  placement of reported amounts, and each retry decision, with contracts and
  the lemmas that state the laws.
- `app/` runs the cycle: shell commands, environment, JSON decoding and the
  floating-point amounts.
- `tests/` runs the library on concrete inputs.
