# ztnet-box

A self-hosted web UI and API for a ZeroTier node, with its decision logic
verified by Verus.

- `src/` — the library (`ztnet_box`). Every function is verified except
  eight small trusted wrappers around outside calls, whose contracts are
  believed rather than proved: `text::string_of` (collecting characters into
  a `String`), `server::log_collector::lowercase` (`str::to_lowercase`),
  `LogLevel::from_tracing` (`tracing::Level`), `encode_base64` and
  `decode_base64` (the `base64` crate), `command::debug_list` (`{:?}`
  formatting), `new_token_id` (`uuid`) and `now_rfc3339` (`chrono`). The
  rest covers configuration
  and environment overrides, input validation, the plans of host changes
  (firewall rules for the exit node, physical-network routing, L2 bridge
  units, NDP proxy, TCP relay deployment, daemon patching) as lists of
  `command::Step`s, the Prometheus text parser and the selection of samples
  behind each metric, the Central token store, and the bounded log buffer.
  Laws that span several calls (for example, that removing an applied rule
  set undoes it) are public proof functions next to the code they speak of.
- `tests/` — tests of the library on concrete values.
- `app/` — the service binary: reads the environment and files, probes the
  host, runs the steps the library plans, polls the metrics endpoint and
  serves HTTP with axum.
