# miden-standards (verified)

Standard account components of the Miden protocol, written in Verus and proved against their
contracts.

- `src/field.rs`: Goldilocks field elements kept canonical, and four-element words.
- `src/maps.rs`: finite maps described by sequences of entries, with the lemmas relating them.
- `src/storage.rs`: storage slot names, storage maps, storage slots and account storage; reads
  are specified against the map from slot names to slot contents.
- `src/account.rs`: public key commitments, accounts and the storage part of account components.
- `src/errors.rs`: account errors and their messages.
- `src/multisig.rs`: the multisig configuration with spending limits, its validation, the names
  of its storage slots, the storage it lays out, and the laws that tie them together.
- `src/auth_scheme.rs`: authentication schemes and their public key commitments.
- `src/network_account.rs`: note script allowlists and network accounts.
- `src/hash.rs`: the RPO256 hash of `miden-crypto`, behind two trusted wrappers whose results
  are named, not specified.
- `src/note.rs`: note types, execution hints, tags, inputs, assets, recipients, and the P2ID,
  P2IDE, SWAP, MINT and BURN note constructors, which take the serial numbers drawn for them and
  the roots of the well-known note scripts.
- `app/lib.rs`: conversions between the library's elements and words and those of
  `miden-crypto`.
- `app/note.rs`: the note constructors that draw their serial numbers from a `FeltRng`.
- `app/code_builder.rs`, `app/mock_account.rs`: the code builder and the mock accounts. They are
  made only of calls into the Miden assembler and into miden-protocol (transaction kernel,
  account builder, compiled mock components), which this crate cannot depend on, so they are
  kept as they are and do not build here.
- `tests/`: the scenarios, run against the compiled library.
