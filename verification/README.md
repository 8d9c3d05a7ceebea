# record_service

A record service for Solana: classes are namespaces held by an authority,
records live in a class and are owned by a key or, once tokenized, by a
Token-2022 mint whose single token stands for the record.

The decisions of the program are verified with Verus:

- `src/state` lays out class, record and record-delegate accounts and checks
  who may act on them;
- `src/instructions` parses each instruction, checks its accounts, changes the
  accounts it owns and plans the invocations of the system, token and
  associated token programs that the instruction needs (`src/cpi.rs`);
- `src/token2022` encodes the Token-2022 instructions and reads mints and
  token accounts;
- `src/utils.rs` reads and writes the byte layouts and resizes accounts;
- `src/laws.rs` states what holds across operations: what is written reads
  back, frozen records refuse changes, minting then burning gives a record
  back, resizing and deleting conserve lamports.

`app/` is the on-chain entrypoint: it turns the runtime's accounts into the
library's, asks the runtime for rent and program addresses, performs the
planned invocations and writes the results back.
