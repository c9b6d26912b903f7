# pluto

Host software for a Pluto+ SDR single-sideband transceiver, as a Verus-verified library and a
thin application around it.

`src/` (verified with Verus):

- `device.rs` – the FPGA fabric register shadow and every register sequence it issues (RX/TX
  control words, DDS pulses, CIC configuration, the ping-pong audio DMA), DMA word unpacking,
  the RX CIC decimation rule, the AD9361 FIR configuration text, antenna checks and the TX DMA
  accumulator.
- `phy.rs` – the order of AD9361 rate, FIR and bandwidth writes.
- `text.rs` – string equality, decimal parsing and the `KEY:value` field reader.
- `state.rs`, `dsp/` – demodulation and sideband modes, the history rings and decimation
  counters of the FIR filters, the L/M resampler schedule, filter sizing and the waterfall row
  shift.
- `threads/` – the decision logic of the device loop (control plane), the RX IO, TX IO and TX
  DSP threads, the audio tuning offset and the WebSocket binary framing.
- `diagnostics.rs` – run provenance tags and the BIST loopback guard.

`app/` holds `main`, the web server, libiio and memory-mapped register access, the worker
loops and the floating-point DSP; it performs what the library decides.
