# noctalia_config

Configuration logic of the Noctalia shell, verified with Verus.

- `src/` is the verified library: the in-memory TOML model (`value`), the
  deep merge of configuration layers (`merge`), the versioned migrations and
  legacy-setting normalization (`migrations`, with `migrations::settled`
  proving that normalizing twice changes nothing more), reading TOML text
  through the `toml` crate (`toml_text`), the diagnostics and validation
  passes (`schema`, `validate`; `schema::registry` holds the keys every
  section schema knows, `schema::value_checks` the checks its readers make,
  `schema::fields` with `plain_sections`, `optional_sections`,
  `nested_sections`, `enum_sections`, `monitor_sections` and
  `template_section` the section readers and writers,
  each with a proof that reading what was written gives it back),
  the persistent state store (`state_store`), settings overrides (`service`),
  widget resolution, bar settings and monitor overrides (`types`, with the
  capsule bounds clamped on IEEE bit patterns by `ieee_bits`), and the
  command-line decisions (`cli`).
- `tests/` exercises the library on concrete documents.
- `app/` is the unverified edge: TOML rendering, files, environment and the
  terminal. It hands the library plain values and acts on its answers.
