# senrigan_types

Shared contracts of the Senrigan webcam tracker, verified with Verus.

- `src/` is the verified library: runtime-clock timestamps and stream order,
  the persisted-schema version, the canonical joint tables and their
  topology laws, coordinate-frame conventions, and the validation rules of
  frame packets, model manifests, spatial observations and canonical motion
  frames. Every public function states its result exactly; the laws of the
  library are public proof functions.
- `app/` holds what Verus does not check: the floating-point value types and
  coordinate math, and the serde forms of the records, whose deserializers
  call the verified `validate`.
- `tests/` runs the library on concrete values.
