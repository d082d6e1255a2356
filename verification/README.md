# cosmic-caffeineland

A panel applet for the COSMIC desktop that keeps the session awake on
request, like Caffeine on macOS, and lets go when the battery drops below
10 % without a charger or when the laptop lid is closed.

- `src/` is the verified library: the applet's state machine (`applet`), the
  battery (`battery`), the lid files (`lid`), the translations (`locale`),
  what is handed to Wayland, logind and the screen saver (`desktop`), the
  character helpers they share (`text`), and the laws that hold across
  states and events (`laws`).
- `app/` is the program around it: the COSMIC application, the D-Bus and
  Wayland calls, the file reads and the notifications. It feeds each event to
  `CaffeineApplet::update` and carries out the effects it returns, in order.
