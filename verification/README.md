# remote_desktop

A headless Wayland remote desktop over Tailscale: a server that runs a
dedicated headless sway session, captures it, encodes it as H.264 and
streams it; a client that shows the stream and sends input and clipboard
changes back; and a tray icon for saved hosts.

The library in `src/` holds the logic, verified with Verus:

- `protocol`: message types, the length-prefixed framing and its codec;
- `annexb`, `encoder`, `yuv`: access-unit detection in H.264 output, the
  encoder's bookkeeping and the RGB to YUV 4:2:0 conversion;
- `server_session`, `client_session`: what each side decides for every
  message, keyframe scheduling, reconnection and monitor choice;
- `clipboard`, `client_clipboard`: change detection without echoes;
- `capture`, `decoder`: the capture queue and decoded frame planes;
- `monitor`, `headless`, `portal`, `client_input`, `scancodes`: monitors,
  the headless session, input translation and injection commands;
- `status`, `hosts`, `tray`, `quality`: status and setup checks, saved hosts,
  the tray menu and the quality levels;
- `text`, `buffer`, `error`: string helpers, the byte buffer of `bytes`, and
  error types.

`app/` holds the programs around it: sockets, processes, SDL2, ffmpeg,
PipeWire, the Wayland virtual-input protocols, the portal and the tray icon.
The executable runs as the server, the tray or the client according to its
name.
