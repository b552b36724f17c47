# xpalm

Server for xPalm clients, which drive a virtual XBox 360 controller on this
machine over the network.

- `src/` is the verified library (Verus):
  - `x360.rs`: the controller's buttons, triggers, d-pad axes and joysticks,
    their wire ids, their Linux input codes, the name, ids, axes, keys and
    force-feedback effects of the virtual device, and the input events each client input becomes;
  - `protocol.rs`: big-endian integers, the authorization handshake and code,
    the command stream of the control connection (a reader fed one read at a
    time), joystick datagrams, vibration commands and discovery
    announcements;
  - `throttle.rs`: the cooldown on repeated connection requests;
  - `watchdog.rs`: the idle watchdog that kicks a client sending no heartbeat;
  - `config.rs`: command-line settings, their defaults and bounds.
- `app/` is the program around it: argument parsing, sockets, tasks and
  timers, and the `uinput` device.
- `tests/` runs the library on concrete values.
