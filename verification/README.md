# mugon

A tray utility for Windows that mutes and push-to-talks the microphone. One
hotkey drives it, and it acts on the microphone itself, so that every program
sees the mute.

- **Mute Toggle** rests unmuted; a press of the hotkey flips the mute.
- **Push to Talk** rests muted; the microphone is live while the hotkey is held.

## Layout

`src/` is the library. It is verified with Verus, but for two functions in `text`
that are trusted: they call the standard library's `Debug` on a string and on a
duration.

| Module | What it decides |
|---|---|
| `modes` | the mode machine: what a key edge does to the microphone |
| `dispatch` | keyboard events, the stuck-key watchdog, and what must follow |
| `state` | the running state, the picker's binding, the status line, the snapshot |
| `startup` | starting up, and unmuting in an emergency |
| `commands` | what the settings window can ask for |
| `config` | the settings, and how they are read and written |
| `hotkey` | bindings, the table of keys, the hook's events, recording |
| `audio` | errors, the audio worker, endpoints, device notifications, the meter |
| `notify`, `tray`, `autostart` | toasts and beeps, the tray, starting at login |
| `scalar`, `span`, `text` | single-precision numbers by their bits, spans of time, building messages |

A microphone is anything that implements `audio::MicBackend`. The trait says
nothing about what a device does unless the implementor states it, so the
contracts that mention a microphone hold for one that other programs share.

`app/` is the program around the library: Core Audio, the keyboard hook, the
threads, the settings file, and the window and tray by Tauri. It builds on
Windows only.

`tests/` runs the library against microphones made of memory.
