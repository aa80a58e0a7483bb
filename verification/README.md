# trailblazer

An HTTP load balancer with adaptive strategy selection, its workers, and a
first round-robin balancer, written as a Verus-verified library (`src/`) and a
thin Tokio/Hyper application around it (`app/`).

## Library (`src/`)

- `loadbalancer::strategy` — the two strategies and the switching rule
  (`next_strategy`), with its laws (a switch always changes the strategy, never
  flips back at the same average, and an average exactly at the threshold is
  stable).
- `loadbalancer::strategy_manager` — the strategy manager: switches at most
  once per switch interval, only with data, by the rule above.
- `loadbalancer::status_table` — the worker-status table (one entry per
  address) and the first-minimum search used by least-average-response-time.
- `loadbalancer::load_balancer` — the balancer: creation from the
  configuration, round-robin and least-average selection, recording health
  reports, building the forwarding URI; its errors.
- `loadbalancer::metrics`, `loadbalancer::matrics` — response-time averages.
- `worker` — a worker's metrics, routing and health report.
- `basic` — the first balancer (round robin from the second worker on).
- `laws` — round-robin coverage and periodicity, read-after-write of the
  status table.
- `text`, `uri`, `constants` — decimal rendering, forwarding URIs (parsed with
  `hyper::Uri`), configuration-file names.

Durations are integers: configuration values in milliseconds, measurements in
nanoseconds. The exponential moving average with weight 0.1 is computed in
floating point by the application and handed to the library, which decides
when it applies.

## Application (`app/`)

`app/main.rs` runs `loadbalancer` (default), `worker` or `basic`. It reads the
configuration file (`CONFIG_FILE_NAME`, default `config.toml`), serves HTTP,
forwards requests, polls worker health, and keeps the library state behind
mutexes.
