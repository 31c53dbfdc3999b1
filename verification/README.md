# tutti-au-host

Hosting Audio Unit (AUv2) plugins: a library whose rules are stated as
contracts and proved with Verus, and a thin layer of ordinary Rust that talks to
AudioToolbox.

- `src/` is the library. It holds the life cycle of an instance, the exchange of
  stream settings, the render buffers, MIDI in both directions, parameters,
  channel layouts, presets and the transport. It makes no system call: where a
  unit has to be asked, the library says what to ask and takes the answer.
- `app/` performs those requests on macOS, and converts between C structures,
  CoreFoundation values and the library's own types.
- `tests/` runs the library on concrete values, with a stand-in for the unit
  where one is needed.

Samples and other floating-point values pass through the library by their bit
patterns or as values of a type parameter; it never computes with them.
