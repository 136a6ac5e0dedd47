# druzhba_logic

The control logic of an HF transceiver's main controller and front panel,
verified with Verus.

- `src/` is the verified library: the CW keyer and paddle debouncing, the
  keying loop, the command arbiters (mode, filter, IF gain mode, frequency and
  band, tuning target, equalisers, VOX, squelch, scan, keyer settings and the
  on/off switches), the ALC decisions, the integer audio mixer and compressor,
  the waterfall composition and history, the band scanner, the sweep scheduler's conditions,
  the encoder, button and potentiometer handling, and the arithmetic of the
  front-panel screens (meters, colours, labels, info line, crash-screen text).
  Each public function states its result in its `ensures`; the `lemma_*`
  proof functions state the properties that span calls.
- `tests/` runs the library on concrete values.
- `app/` is ordinary Rust around the library: the floating-point audio
  stages, the ALC's power arithmetic, the task loops and event channels, the
  traits through which the loops reach the firmware's DSP chain and sweeper,
  and the drawing of the screens with `embedded-graphics`.
