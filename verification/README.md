# sensel

A driver for Sensel Morph touch devices, in two parts.

- `src/` is the verified core (Verus). It holds plain-data mirrors of
  LibSensel's structures (`bindings`), the conversion of status codes into
  results (`result`), the frame and contact content masks and the decoding of
  frames and contacts (`frame`, with `frame::forces` for frames that also carry
  the pressure and label images; `contact`), and the device logic (`device`):
  device lists, the order of the requests that open a device, the scanning
  typestate, the LED register layout, and what each answer of LibSensel means.
- `app/` makes the LibSensel calls (C FFI), owns the device handle, exposes
  the masks as `bitflags` types, and holds the demonstration programs.

Floating-point values that LibSensel reports (sensor size, contact positions
and forces) cross the core as their IEEE-754 bit patterns (`Float32`).
