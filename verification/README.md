# brick_profile

A profile holds the workflows of one owner and the EVM accounts that these workflows may use. The
owner manages workflows, accounts and authorizations. A scheduler polls workflows: a poll opens the
session of a workflow and has the JavaScript runner execute its command line, and while the session
is open the workflow may ask for the address of its account and have transactions signed.

- `src/` is the library, verified with Verus. `state.rs` is the mathematical model: what a profile
  is, what each request answers and what it leaves behind. `profile.rs` implements it, `laws.rs` and
  `record.rs` prove what holds across requests. `keys.rs`, `poll.rs`, `text.rs`, `transaction.rs`
  and `signing.rs` hold keys and salts, poll ids, the texts of requests, transactions and signing
  jobs. `host.rs` makes the
  calls whose results are taken on trust.
- `app/` is the contract around it: storage, entry points, the call to the runner, and the signer.
- `tests/` runs the library against a mock of the host.
