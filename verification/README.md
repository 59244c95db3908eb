# tao_ohos

The decision core of the OpenHarmony backend of a windowing library,
verified with Verus.

- `src/keycodes.rs`, `src/keyboard.rs`: OpenHarmony key codes, their
  logical keys and keyboard locations.
- `src/input.rs`: the input-event model (mouse, axis, touch, key, IME) and
  the specification of the window events each one becomes.
- `src/event_loop.rs`: `EventLoop`, which performs that translation (with
  key auto-repeat detection) and the main-loop dispatch of platform events,
  the URLs of a re-launch, and the user-event receiver.
- `src/window.rs`: the state mirror of a window and the bridge commands its
  setters dispatch; window creation decisions; inner/outer geometry with
  title-bar compensation.
- `src/decor.rs`: the title-bar (decor) correction watcher of the main window.
- `src/style.rs`: pointer styles, `0xAARRGGBB` colors and theme resolution.
- `src/monitor.rs`, `src/geometry.rs`, `src/ids.rs`: display readings,
  sizes and positions, ids and builder attributes.
- `app/`: the host that talks to the platform (`openharmony-ability`, its
  window bridge, tokio) and performs what the library decides.

Single-precision values (coordinates, deltas, scales, forces) are carried as
their IEEE-754 bit patterns; the library decides only on comparisons that it
states exactly over the encoding.
