# hello_world

A Wormhole "hello world" program for Solana, with its logic verified by Verus.

- `src/` is the verified library:
  - `message`: the `HelloWorldMessage` payload format (`Alive`: payload ID 0
    and a 32-byte program address; `Hello`: payload ID 1, a big-endian `u16`
    length and at most 512 message bytes), with proofs that reading back what
    was written gives the message back and that encoding is injective.
  - `contexts`: the four instructions (`initialize`, `register_emitter`,
    `send_message`, `receive_message`) as functions from the values they read
    to the values they write and the invocations (fee transfer, Wormhole
    `post_message`) they plan.
  - `states`: the program's accounts as plain values (addresses are 32 bytes).
  - `wormhole`: the Wormhole values the logic relies on, finality codes, and
    the signer seeds of posted messages and of the emitter.
- `app/` is the Anchor program: account validation, loading and storing
  accounts, and performing the planned invocations.
- `tests/` runs the library on concrete values and checks the restated
  Wormhole constants against the Wormhole SDK.
