# manta

Verified parts of two Manta Network crates, written with Verus.

- `src/weight.rs`: the two-dimensional `Weight` and its saturating scalar
  multiplication (done by `sp-weights`).
- `src/xcm_weights.rs`: the Dolphin runtime's weigher of XCM instructions,
  over benchmarked base weights, with its laws (monotonicity in the number of
  assets, wildcards weighed as `MAX_ASSETS` assets, the holding-register cap,
  unsupported instructions at `u64::MAX`).
- `src/asset_registry.rs`: the test runtime's asset registry as a step
  function over the assets-pallet calls it makes, and its asset configuration.
- `src/benchmark.rs`: the secp256k1 key the benchmarks sign with, the
  Keccak-256 hash of `"Alice"` (hashing by `sp-io`, parsing by `libsecp256k1`).
- `src/mock_params.rs`: the test runtime's parameters and its list of pallets
  that cannot be paused.

`app/` holds the runtime glue: the loop that dispatches the registry's calls,
the test runtime itself, and the `XcmWeightInfo` implementation. It needs
Manta's own pallets and the Polkadot v0.9.37 FRAME and XCM crates.
