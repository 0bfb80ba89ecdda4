# evo-control

Control of the Audient EVO 8 USB audio interface on Linux: output volume,
input gain, phantom power, mutes, the loopback mixer, presets, and the
installation of the `evo_raw` kernel module that forwards USB control
transfers from `/dev/evo8`.

## Layout

- `src/` — the library, verified with Verus. It holds the program's logic
  and states it in contracts:
  - `codec`, `controls`, `entities`: the wire format (Q8.8 levels, 4-byte
    boolean payloads) and the UAC2 addressing of each control;
  - `device`: the EVO 8's layout and level ranges, and how a requested level
    is clamped and snapped;
  - `transfer`, `driver`, `status`: the control transfers each operation
    sends, how replies are read, and how a status snapshot is assembled;
  - `worker`: what the thread that owns the device does with each event,
    and how applying the saved state on connect retries a device that is not
    ready yet;
  - `state`, `presets`, `paths`: the saved device state, the writes that
    restore it, preset listing and the configuration paths;
  - `text`, `command`, `probe`: parsing of command-line arguments and the
    text the front end prints, and the protocol probe's table;
  - `install`: the steps of installing and removing the driver and the
    contents they write.
- `app/` — the program around it: argument parsing, the device file and its
  ioctl, the worker thread, TOML files, running system commands, the GUI,
  and the conversion between dB as real numbers and Q8.8.
- `tests/` — tests of the library.

Levels are held in Q8.8 (1/256 dB) throughout the library; the conversion
from and to dB as real numbers happens in `app/`.
