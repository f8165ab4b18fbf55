# streamswap

Continuous token swap streams for CosmWasm chains, with their logic verified by Verus.

A stream sells a fixed supply of an out token over a period of time. Subscribers deposit
the in token; while the stream runs, their deposits are spent linearly and the out token
is released linearly, shared among subscribers in proportion to their shares. Once the
stream ends, subscribers exit with what they bought and what they did not spend, and the
creator finalizes the stream to collect the proceeds, less an exit fee.

## Layout

- `src/` is the verified library. Each operation takes the state it reads as plain values
  and returns the new state and the transfers to make; its contract states the result, or
  the exact error, for every input.
  - `contract`, `killswitch`, `threshold`, `stream_math`, `state`: the contract that holds
    many streams (create, subscribe, withdraw, update, finalize, exit, pause, resume,
    cancel, thresholds).
  - `lifecycle`, `phased`, `post_stream`: the stream contract that runs through waiting,
    bootstrapping, active and ended phases, with pools and vesting at the end.
  - `controller`: protocol parameters and stream creation.
  - `payment`, `payments`: payment checks and batched transfers.
  - `math`: the fixed-point decimal with 18 fractional digits.
  - `migrate`: the migration of stored streams and positions.
  - `laws`: properties that relate several operations (conservation of tokens, phases
    moving forward, operations that can happen once), proved.
- `tests/`: tests of the library on concrete values.
- `app/`: the contracts' entry points: message decoding, storage, addresses, chain
  queries and responses around the library. It is not verified.

## Amounts

The library holds amounts and shares as `u128`, as bank coins are. Distribution indexes,
positions' indexes, pending fractions and prices are wide decimals: a 128-bit whole part
and 18 fractional digits, enough for any ratio of two 128-bit amounts. Rates (the exit
fee) are decimals with 128-bit atomics. Products of an amount and a decimal (fees,
purchases, pool shares) are computed with a 256-bit intermediate, so only their result has
to fit. Where an amount or a share count kept in a stream's state would pass 128 bits (a
total of deposits, or the shares minted over a nearly spent in supply), the operation
returns `Overflow`, which its contract states.
