# market

A storage market with verified logic. Providers pledge currency (locked by the
market) and register the address of their storage; clients place orders with
registered providers to store files; each accepted order takes its amount out of
the unused part of the provider's pledge.

Layout:

- `src/model.rs`: the market's state as mathematical maps (`MarketView`), its
  consistency (`wf`), and the outcome of every call as a spec function.
- `src/market.rs`: `Module`, the executable market; each call is proved to give
  the outcome its spec function describes and to keep the state consistent.
- `src/laws.rs`: properties that relate calls (a pledge undone by a cut, refused
  calls change nothing, orders are never lost, ...), proved over the model.
- `src/file_map.rs`, `src/order_table.rs`: association lists keyed by file
  identifier and by order identifier.
- `src/seed.rs`: the seed from which the runtime draws a new order identifier;
  the SCALE encoding of accounts comes from `parity-scale-codec`.
- `src/traits.rs`: the services the market calls out to (order inspector,
  payment handler) and the interface it offers to other modules.
- `app/lib.rs`: the types with their SCALE and serde encodings, converted to and
  from the library's types.

The services of the runtime that the market only queries (the currency's minimum
balance, a client's transferable balance, whether it can reserve an amount, the
block number, the drawn order identifier) are handed to the calls as plain values.
