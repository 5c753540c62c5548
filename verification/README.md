# Active window title applet

The logic of an applet for the COSMIC panel: it shows windows by their titles, offers a context
menu for each and lets the user change a few settings. The library is written in Verus, so what
its contracts say is proved.

- `src/text.rs`: titles that are cut to a length, texts without white space at their ends, and
  which desktop actions open a new window.
- `src/wayland.rs`: which toplevel is the active window, on the panel's output first, and when a
  change of it is told.
- `src/event_loop.rs`: how the compositor is reached, and the stages of the thread that listens
  to it.
- `src/desktop.rs`: what a desktop entry gives a window: a name, an icon and the actions of its
  menu.
- `src/config.rs`, `src/applet.rs`: the settings, the applet's state, and what each message does.
- `src/panel.rs`: the tiles in the panel and the contents of the popups.
- `src/laws.rs`: what holds across these.
- `app/`: the program around it, with the widgets, the Wayland connection and the stored settings.
  It is built on `libcosmic`, which is not on crates.io.

What is believed without proof stands behind functions marked `external_body`: `str::trim` and
`str::parse` of the standard library, and the readers of `freedesktop_desktop_entry::DesktopEntry`.

An entry may name a message catalogue for the texts that it has in no language of the user. The
library says what a catalogue is to be asked (`catalogue_questions`); `app/` asks it, and hands
the answers back with the entry (`FoundEntry`).
