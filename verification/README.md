# trezor_api

A client library for hardware wallets of the Trezor family, written in Verus:
the logic is proved against its contracts, and the I/O around it is plain Rust.

## Layout

- `src/` — the verified library.
  - `message_type.rs`: the type codes of protocol messages and the
    `TrezorMessage` trait that ties a message to its code.
  - `protos/`: the messages the client and the Bitcoin application exchange.
  - `client.rs`: the device as the host sees it, the request builders, how an
    answer is read (expected answer, interaction request, failure,
    unexpected), and the stages of the PIN-change dialogue.
  - `error.rs`, `transport/error.rs`: errors of the client and of the links.
  - `transport/udp.rs`: the emulator discovery handshake.
  - `btc/`: Bitcoin data as the library reads it, the requests of the Bitcoin
    application, and the transaction-signing dialogue in `flows/sign_tx.rs`,
    which also puts the signatures the device hands back into the PSBT.
  - `cli.rs`: the device tool's arguments and the device choice.
- `tests/` — tests of the library on concrete values.
- `app/` — protobuf encoding, the UDP link to the emulator, the calls that
  write a request and read the answer, the Bitcoin application's calls and the
  device tool's command line.

Calls into outside crates (script templates, addresses and extended keys of
`bitcoin`, hashes of `bitcoin_hashes`, signatures of `secp256k1`, Unicode
normalization) sit behind small trusted wrappers whose contracts say what the
crates' sources show.
