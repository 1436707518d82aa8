# cosmic-applet-arch (verified core)

The logic of an applet that shows pending Arch Linux updates, written in Verus.

- `src/config.rs`: settings, the set of update kinds, the unofficial repository addresses.
- `src/packages.rs`: update records, package pages, the text of each package line.
- `src/text.rs`: replacing a pattern in a text, comparing texts.
- `src/state.rs`: what the applet knows at a given moment.
- `src/view_window.rs`: what the popup shows, row by row.
- `src/widgets.rs`: collapsible sections and lists cut to a maximum length.
- `app/`: a command-line front end that reads the settings file, runs the checks and prints the popup.
