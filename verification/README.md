# rustsdlretro core

The verified core of a small libretro frontend for Linux (framebuffer or
desktop window, ALSA sound, evdev or window keyboard, an option menu drawn
over the game, and a WebSocket control server).

- `src/` is the library, verified with Verus: the audio ring buffer, the
  core-option store and the old-style variable parser, the option menu and
  its overlay drawing commands, keyboard-to-joypad mapping, the decisions
  of audio playback (write retries, device reopening, silent fallback), pixel
  conversion and overlay drawing on a window canvas and a framebuffer
  surface, the bitmap fonts, frame pacing, save-file paths, the choice of
  the ROM inside a ZIP archive, the web control state and the libretro
  environment requests.
- `app/` is the program around it: loading a core with `dlopen`, the C
  callbacks, the framebuffer device and the window, ALSA playback, the
  evdev reader, the JSON configuration file and the WebSocket server.
- `tests/` runs the library on concrete values.

The project's older core library, `sdlretro-core` (an earlier ring buffer
with a smaller capacity and read batch, and its own option store), is left
out: this crate holds the current core only.
