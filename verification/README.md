# weaver_vdir

A verified library for Weaver's virtual directory paths.

- `src/path_grammar.rs` states the grammar `source[@refspec][[sub_folder]]`
  (shortest source, refspec preferred and shortest, bracketed sub-folder) and
  finds its parts in a text.
- `src/vdir_types.rs` holds `VirtualDirectoryPath`, its mathematical model,
  reading (`from_text`, `FromStr`, `TryFrom`), rendering (`to_string`) and
  `map_sub_folder`.
- `src/roundtrip.rs` proves that a path read from text, rendered and read
  again is the same path (with the one exception it names).
- `src/host_abi.rs` decides the stage codes, refusal order and status codes of
  the WebAssembly host interface.
- `app/` holds the serde/JSON-schema form of paths and the WebAssembly exports
  that drive the policy engine.
