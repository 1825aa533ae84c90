# itofin-py

The argument policies of the `itofin` Python bindings over the `libitofin`
pricing core, as a Verus-verified library.

Each facade of the bindings decides, before it touches the core, which object
to build or which exception to raise: which curve an interpolation and
bootstrap name select, which `minimize` method, options and bounds apply, how
vector constraints are laid out as scalar components, whether a volatility
grid is rectangular, which flow a (possibly negative) leg index names, when a
quote may be mutated, and so on. Those decisions live in `src/`, each with a
contract over plain values and the laws that relate them.

- `src/` — the verified library, one module per facade family.
- `tests/` — concrete scenarios for every decision and law.
- `app/` — the pyo3 facades: they convert Python values, ask the library,
  call the core and raise the exception class the library names.
