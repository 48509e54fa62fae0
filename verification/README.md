# gpui (verified core)

The platform-independent vocabulary of a GPU-accelerated UI toolkit, written
in Verus with its behaviour stated in contracts and proved.

- `src/` is the verified library: window-button layout strings (parse and
  format, with the round-trip law), clipboard strings and image formats,
  font and glyph identifiers, atlas keys and texture lists, line-wrap
  fragments, the no-op text system's layout, image decoding into BGRA
  frames, display and window descriptors, and the dispatchers' bookkeeping.
- `tests/` exercises the library on concrete values.
- `app/` holds what computes with floating-point pixels, locks, random
  identifiers, the process environment and serde, calling into the library
  for every decision.

Outside crates are called from `src/` only through trusted wrappers whose
doc comments say what is assumed: `seahash` (clipboard change hashes),
`etagere` (tile ids) and `image` (decoding).
