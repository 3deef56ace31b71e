# pumpfun

A client for the Pump.fun program on Solana: create a token, create one and buy of it at once, buy,
and sell. The library in `src/` makes every decision of the client, verified with Verus, and touches
no network; `app/` is the thin layer that owns the connection.

| module | what it holds |
| --- | --- |
| `client` | the configuration of a client, its derived addresses, the accounts that it reads |
| `flow` | the operations, each as a sequence of actions and events |
| `request` | transactions: the priority fee, the instructions in order, who signs |
| `instruction`, `cpi` | the instructions, their accounts and their bytes |
| `accounts` | the layout of the program's accounts, and the quotes that they give |
| `address`, `pubkey`, `constants` | addresses and how they are derived |
| `utils` | slippage, token amounts, token metadata |
| `error` | why an operation fails |
| `laws` | what holds of the operations as a whole |

An operation starts with a method of `PumpFun`, which returns a `Flow` and its first `Action`. Whoever
drives it carries the action out and hands the outcome to `Flow::resume`, until the action is
`Finish`.

Program derived addresses, associated token accounts, compute budget instructions and the decoding of
accounts come from `solana-sdk`, `anchor-spl` and `borsh`; what is believed of each call stands on the
wrapper that makes it.
