# color-wasm

CSS Color 4 colour spaces (sRGB, linear sRGB, XYZ-D65, OKLAB, OKLCH, OKLrAB,
OKLrCH) and its two gamut-mapping algorithms, with WebAssembly bindings.

- `src/` is the verified library (Verus). It holds the colour-space marker
  types and the control of gamut mapping: the lightness test that opens both
  algorithms (`entry`), a state machine for the binary search with local
  MINDE (`minde`), one for raytracing (`raytrace`), and the decisions of the
  ray/box intersection (`raycast`), each with its laws proved.
- `app/` is ordinary Rust: colours as `f64` coordinates, the conversions, the
  numeric side of both gamut-mapping algorithms (driven by the verified
  machines), and the `wasm_bindgen` exports `srgb_to_oklch` and
  `oklch_to_srgb`.
- `tests/` drives the verified machines through concrete runs.
