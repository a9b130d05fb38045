# barrita

The decision-making core of a desktop status bar, written in Verus. The
functions in `src/` carry contracts that the verifier proves, except a few
thin wrappers around outside code (`std`'s lower-casing and string pushing,
the `image` crate's decoding and resampling, the fuzzy search of
`rust-fuzzy-search`, and the configuration directory of `dirs`), whose
contracts are taken on trust (the configuration directory, which depends on
the environment, has none).

- `src/config.rs` – configuration defaults, colour notation, configuration paths.
- `src/app/` – the widgets: toast queue, battery warnings, clock labels,
  volume, processes, workspaces (Hyprland and komorebi), the tray and its
  menus, media popup, control center.
- `src/vault/` – desktop entries, the application selector and its queries,
  and the freedesktop icon lookup over a snapshot of the file system.
- `src/platform/` – power notifications, app-bar registration and docking,
  the media session listener.
- `src/backend.rs`, `src/spell.rs` – layer-shell window configuration and the
  lock-screen adapters.
- `src/input.rs` – cursor shapes and key events for the compositor adapter.
- `src/imaging.rs` – image decoding and resampling through the `image` crate.
- `app/` – the program around the library: it reads the configuration file,
  the clock, the desktop files and the icon directories.
- `tests/` – tests of the library on concrete values.
