# carbon_credit

A smart contract for carbon credits, with its rules proved in Verus.

The admin mints batches of credits. A batch has an owner, who can hand it over
and retire credits of it. Retired credits are gone for good; a certificate lists
their serial numbers. No serial number ever belongs to two batches.

## Layout

- `src/contract.rs`: the calls of the contract.
- `src/rules.rs`: what each call answers, what it stores, and what it asks of the
  network.
- `src/env.rs`, `src/host.rs`, `src/table.rs`: the surroundings of a call: the
  stored entries that were loaded for it, the time, and the requests that it makes.
- `src/records.rs`, `src/text.rs`, `src/error.rs`: the data.
- `src/history.rs`: calls one after the other, and what makes a ledger sound.
- `src/laws.rs`, `src/soundness.rs`, `src/chronicle.rs`, `src/numbering.rs`: what
  holds of the contract as a whole.
- `app/`: the contract on the Soroban network. It loads the entries that a call
  looks at, lets the library decide, and carries out the requests.

The library works on plain values. On the network, strings, lists and addresses
are handles into the memory of the host that runs the contract, every use of them
is metered, and any of them can abort the call; `app/` converts them at the edge.
