# kora_protocol

The verified core of an invoice-financing protocol on Soroban.

- `src/invoice_state_machine.rs` — the invoice lifecycle (Created → Listed →
  Funded → Repaid or Defaulted) and its laws.
- `src/access_control.rs`, `src/audit.rs` — the admin, the pause switch,
  roles and their registries, the N-of-M multisig, parameter governance,
  signer recovery, timelocked upgrades and the audit ring buffer.
- `src/dispute_resolution.rs` — disputes, opened only against an invoice
  that defaulted within the dispute window, and their resolution.
- `src/marketplace.rs` and `src/marketplace/` — listings, funding (single,
  batched, cross-currency), fees and referrer splits, cancellations and
  refunds, multisig-gated settings and dependency migration.
- `src/types.rs` — addresses, shared validation, errors, safe arithmetic.
- `src/fuzz_values.rs` — boundary-skewed values for exercising the contracts.

Each contract's storage is a plain value; every entry point takes the ledger
time, the authenticated caller and what other contracts report as
arguments. Where a call is to change another contract, the entry point
returns it as a request: listing and withdrawal return the NFT status
change, funding and refunds return receipts of the transfers, and the
conversion requests say what the price oracle is to convert. `app/` holds
the Soroban side: the address book, the reads from the other contracts,
the marketplace calls that tie reads, library and effects together, and
the transfers and calls that the requests describe.
