# Noob Saturator

An antialiased waveshaper whose dry path is delayed to match its wet one,
so that the dry/wet control sums without combing, with a live readout of the
aliasing it does not make.

## Layout

| path | what |
|---|---|
| `src/` | the verified library (Verus) |
| `src/dsp/curve.rs` | the curve menu: order, names, parameter values |
| `src/dsp/oversample.rs` | the half-band cascade's depths and latencies, the polyphase branch history `Line`, the dry path's `DryDelay`, and `Alignment`, which moves both channels' dry delays with the cascade's depth, with the proofs that every latency is whole, that the delay delays by exactly its length and that the dry delay always equals the reported latency |
| `src/dsp/alias.rs` | the aliasing readout's window size and `WindowFill`, which gathers its windows from blocks of any length |
| `src/dsp/adaa.rs` | the antialiasing threshold and the antiderivative precision it is paired with |
| `src/dsp/publish.rs` | when the processor publishes its sticky streams, per call and over a whole run from a fresh processor (`replay_schedule`) |
| `src/dsp/source.rs` | the demo noise generator's state |
| `src/dsp/mod.rs` | the stream layout, the stream and parameter tables the bridge declares from, and the parameter ids and their resolution |
| `src/report.rs` | the benchmark report's verdicts, rows, tallies and harmonic mask |
| `src/render.rs` | the benchmark report's text: conditions, summary with its totals, every row with its verdict, notes, factor and curve tables, probe |
| `src/wav.rs` | the float WAV layout the benchmark writes for the out-of-tree probe |
| `tests/` | tests of the library |
| `app/` | the floating-point signal path, the benchmark, and the shells around them (the page bridge, the nih-plug plug-in, the standalone server) |

The signal path itself — the curves and their antiderivatives, the
antialiasing quotient, the Kaiser half-band filters, the colour section, the
aliasing readout and the engine — is floating point and lives in `app/`,
built on the library's delay lines, layouts and schedules.

The page bridge and the plug-in depend on noob-vst-webgui-framework and
nih-plug, which the crate registry this build draws from does not carry, so
those modules are compiled only with the `framework` and `plugin` features.
