# notify

A desktop notification daemon: a D-Bus `org.freedesktop.Notifications` service that
shows each notification in an animated layer-shell window.

- `src/` is the verified library: the configuration (`config`), the notification record
  and the service's answers (`dbus`), icon lookup (`icon`), the window's animation state
  machine (`window`), and the string and table operations they rest on (`text`, `table`).
  The laws of the window's behaviour are proof functions in `window.rs`.
- `app/` is the program around it: reading the TOML configuration, the D-Bus service,
  the GTK widgets, the file-system checks for icons, and the floating-point easing and
  interpolation of the animation.
- `tests/` runs the library on concrete cases.
