# lz4_etna

Property checks over the `lz4_flex` codecs, verified with Verus.

- `src/block.rs`, `src/frame.rs`: trusted wrappers around `lz4_flex`'s block
  and frame functions; each result is named by a spec function of the
  arguments, beside the few facts that the `lz4_flex` source shows plainly.
- `src/properties.rs`: the three property checks (short inputs to
  `decompress_size_prepended`, roundtrips through short dictionaries, and
  dropping an auto-finishing frame encoder), with the judging of each
  codec outcome in public functions of its own.
- `src/names.rs`, `src/report.rs`, `src/json.rs`, `src/text.rs`: tool and
  property names, the fixed run, combining runs, and the one-line JSON
  report, with its text specified character by character.
- `app/main.rs`: the runner program (argument handling, the proptest,
  quickcheck and crabcheck drivers, panics, printing).
