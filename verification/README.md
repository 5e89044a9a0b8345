# stg_mamba

A spatial-temporal forecasting toolkit for market data, split in two parts.

- `src/` is the verified library (Verus). It holds the asset universe and its
  Kraken symbols, the per-asset sliding-window history of feature entries
  (on the `ringbuffer` crate), the decisions of the Kraken and Polymarket feeds
  (subscriptions, message routing, symbol lookup, trade sides, outcome
  classification), the scheduling of the technical indicators and the feature
  dimension it implies, the Fibonacci time zones, and the integer plans of the
  graph layers (layer configurations, activations, adjacency assembly,
  temporal pooling windows and upsampling maps).
- `app/` is the command-line program and everything that runs on floating
  point, tensors or the network: the indicator formulas, the burn layers and
  models, and the asynchronous market-data clients. It takes its decisions
  from the library.
- `tests/` exercises the library.
