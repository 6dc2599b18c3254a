# pivotradar

The decision core of PivotRadar, a multi-asset detector of trading signals (range
breakouts, liquidity sweeps, fair value gaps, order blocks and H4 structure shifts) on
OHLCV series in series order (index 0 = the bar in formation).

`src/` is the verified library:

- `types`: detectors and directions, with their names and latch slots.
- `indicators`: broker-local time, sessions and kill zones, the nearest-bar search by
  time, trend length from the EMA alignment, the signal identifier hash, the ATR ring.
- `structure`: H1 swings, structural direction, H4 structure shifts, prior-range and
  premium/discount range scans.
- `pending`: the bookkeeping of pending signals (measurement passes, excursions,
  duplicates, recent signals, the capped pending list).
- `latch`, `cache`: the engine's per-bar latches and caches.
- `hypothesis`, `calibration`, `gauges`: hypothesis lifetime, probability range and
  wording; base probabilities; the persistence count.

Prices enter the library as order keys (`claves`): integers that compare exactly as the
prices do. The analyses above only compare prices, so they are stated and proved on keys.

`app/` holds what computes with floating-point numbers (EMA, ATR, ratios, scores, the
detectors' thresholds), the serde types and the PyO3 bindings, around the library.
