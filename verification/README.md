# webrtc-audio-processing

Configuration and control logic for a processor around WebRTC's AudioProcessing module
(echo cancellation, noise suppression, automatic gain control), written in Verus.

- `src/config.rs` — the configuration types and their defaults. `f32` settings are held as
  their IEEE 754 bit patterns (`F32Bits`).
- `src/native.rs` — the configuration in the shape the native module takes it.
- `src/convert.rs` — the conversion from the one to the other, with its laws.
- `src/error.rs` — native status codes and the errors they name.
- `src/processor.rs` — the processor's decisions: accepting a new native instance, taking a
  configuration, the stream delay before each capture frame, the frame shape.
- `src/stats.rs` — the integer part of the native statistics.
- `app/` — the native-backed `Processor`, statistics and AEC3 configuration, and the
  `f32`/serde/strum form of the configuration. It needs the `webrtc-audio-processing-sys`
  bindings and the native library.
