# polyfield

Plugin SDK for the Polyfield anti-cheat framework, split in two:

- `src/` — the verified library (Verus). Game enumerations with their raw
  ids and names, the event payloads, the keys and names the SDK builds for
  the host (plugin-namespaced KV keys, `Player<N>` slot names and their
  parsing), the decoding of the host's `out_buf, cap -> required` string
  replies, the map-pool splitting, and the fail-open verdict of intercepted
  calls. Each function carries a contract; the cross-function properties
  (raw-id and name round trips, slot name/id round trip, namespace
  isolation, map-pool round trip, UTF-8 text read-back) are proof functions.
- `app/` — the host-facing layer: the C ABI vtables and trampolines, the
  `Ctx` / `Player` / `Vehicle` handles that call through them, `Vec3`, the
  `Plugin` trait, the `manifest!` / `declare_plugin!` macros and `serde`
  copies of the event payloads.
- `tests/` — tests of the library on concrete values.
