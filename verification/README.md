# ace_dst

Verified core of the ACE diagnostic test fixtures and of the production DoIP vehicle
driver.

- `src/` (Verus): the in-memory DID store and the seed/key provider that answer the
  UDS server's hooks in tests, the routing-activation providers, the topology builder
  and per-tick delivery decisions of the DoIP -> CAN simulation scenario, and the
  driver's DoIP framing, discovery request and per-connection writer table.
  `bounded.rs` holds the contracts trusted for the `heapless` vectors the fixtures use.
- `tests/`: runtime tests of the library.
- `app/`: the wiring to the protocol-stack crates, simulation buses, sockets and
  threads.
