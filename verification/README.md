# spacers

The logic of a printCAD workbench that makes round, hex, square and flanged
spacers, written in Verus and proved against its contracts.

Lengths are whole micrometres (`i64`). The document and the host speak
millimetres as floating-point numbers; `app/` converts at that edge, to the
nearest micrometre, and draws.

## Layout

| Path | What it is |
| --- | --- |
| `src/text.rs` | name comparison, ignoring ASCII case or not; numbers without trailing zeros |
| `src/shape.rs` | the shapes, with their names, icons, tools and keys, in the panel's order |
| `src/spacer.rs` | a spacer: what is wrong with it, fitting its flange, its outline and prisms, its label, its panel |
| `src/plan.rs` | a body's rebuild plan from its spacer features |
| `src/bench.rs` | the workbench's state: defaults, the task under edit, the make command, input, menus |
| `tests/` | tests of the library |
| `app/` | the WebAssembly component: JSON, host calls, kernel geometry and drawing |

## Flanges

Only a flanged spacer has a flange. A spacer of another shape reads 0 for
its flange and its thickness: picking another shape in the task panel takes
the flange away, the make command ignores flange numbers for another shape,
and a flange number cannot be set on one.

## Rounding

- A fitted flange is 1.5 times the outside, to the nearest hundredth of a
  millimetre, halves away from zero; its thickness a quarter of the height,
  to the nearest micrometre, halves up, from 0.4 mm to 2 mm.
- A label takes each length written to two decimals of a millimetre by
  `app/` (from the document's float, so 1.005 mm is written 1.00 and 0.125 mm
  0.12) and leaves out trailing zeros.
