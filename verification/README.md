# mumu_remote

LAN remote control for the MuMu Android emulator on Windows: the PC captures the
emulator window, encodes frames as JPEG and streams them over UDP to a paired
phone, and injects the phone's touch and key events into the emulator through
`adb`.

- `src/` is the verified library (Verus): the video packet format and frame
  splitting, pairing records and tokens, the pairing protocol's decisions, input
  event handling, `adb` argument lists, runtime settings, the streaming step,
  the QR picture of a pairing offer and the control panel's state.
- `app/` is the program around it: window capture and lookup (Win32), sockets,
  threads, files, JSON, the `adb` process and the desktop window (eframe).
- `tests/` exercises the library.
