# aac

The configuration, access unit intake, start-up and frame decisions of an
AAC-ELD decoder (ER AAC ELD, object type 39, mono or stereo, without SBR, from raw
access units), and the Huffman decoding of its scale factors, with their
behaviour stated as contracts and proved. The decoding of spectral data and the
rendering of the time signal are not part of this crate.

- `src/common`: the bit buffer (a ring read and written most significant bit
  first), object types, element ids, flags.
- `src/tp_dec`: the transport decoder: AudioSpecificConfig and ELD specific config
  parsing, access unit intake.
- `src/aac_dec`: the decoder instance, its configuration, the core's channel
  elements and start-up, the decisions of a frame and its output information,
  section data, scale factors and noise bands, and M/S flags.
- `src/reference`: the `.rawpkts` packet stream, WAV reading and writing, the
  encoder settings and the noise generator of the reference tool.
- `app/`: the reference tool around the FDK AAC encoder (`encode`, `fixtures`).
- `tests/`: the tests.
