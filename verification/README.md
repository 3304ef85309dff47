# amt-ptp

Apple Magic Trackpad 2 and T2 MacBook trackpads as Windows Precision
Touchpads: the device logic of two KMDF filter drivers (USB and Bluetooth),
written in Verus and proved against its contracts.

## Layout

- `src/` — the verified library (crate `amt_ptp`):
  - `constants`, `device`: USB/Bluetooth identifiers, the per-model
    configuration table and its lookup;
  - `wire`, `finger`: little-endian fields, TYPE5 and legacy finger
    decoding, whole-report parsing, PTP coordinate transform;
  - `ptp`, `hid`: PTP report structures and their wire bytes, the HID report
    descriptor and the HQA certification blob;
  - `feature`, `input`: GET/SET_FEATURE handling, scan time, PTP report
    assembly from a parsed frame;
  - `usb`, `bt`: the per-device state of each driver and every decision it
    takes between WDF, USB and VHF calls;
  - `error`: parse errors and their messages.
- `tests/` — the test suite, run against the compiled library.
- `app/` — the kernel glue (WDF, USB, VHF, I/O targets, timers) around the
  library, built on the `wdk` crates for Windows.
