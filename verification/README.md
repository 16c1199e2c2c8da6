# ym2203

A register-level model of the YM2203 (OPN) sound chip, verified with Verus, and
a PCM renderer around it.

- `src/` is the model. It holds every register, key, envelope phase, timer flag
  and wiring decision of the chip, in integers.
  - `operator`: one FM operator, its pitch and its envelope generator
  - `channel`: four operators, the eight algorithms, channel frequencies
  - `fm`: the FM section and its register map
  - `ssg`: the SSG section: tone, noise, envelope shapes, mixer
  - `chip`: the bus, the timers, the prescaler, and the two sections together
  - `bits`: bits and bit fields of bytes, as arithmetic
- `app/` turns the model into sound: phase accumulators, sines and amplitudes
  in floating point.
- `tests/` runs both the model and a renderer on it.

A sample goes like this: the renderer counts the timers and tells the chip
which of them ran out (`tick_timers`), asks it what each FM operator does in
this sample (`render`), computes, and reports back what its generators reached
(`advance`).
