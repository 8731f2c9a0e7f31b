# picoo_desktop

The decision logic of the Picoo Camera desktop receiver as a Verus-verified
library: the receiver's window and tray, virtual-camera setup on Windows and
macOS, launch at startup, preferences, live diagnostics, the preview
pipeline's pacing and hand-off, QR rendering of the pairing code, and the
text formats these produce.

- `src/` is the library. Every public function carries a `requires` /
  `ensures` contract over spec functions and views, and the library's laws
  stand as public `proof fn`s (named `lemma_*`). Verus proves all of them.
  Calls into the operating system are not made here: functions take what a
  probe or a system call returned as plain values, and return what is to be
  written or shown.
- `tests/` runs the library on concrete inputs.
- `app/` is the command-line program around the library: argument handling,
  file I/O for the preferences (JSON via serde), the launch-at-startup store
  of the `auto-launch` crate, and the floating-point metric thresholds.

The one outside computation the library relies on is QR encoding by the
`qrcode` crate, behind a wrapper whose contract names its result.
