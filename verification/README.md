# gbrowse

A Gemini browser for the terminal, with its logic verified by Verus.

- `src/` is the verified library: the layout of frames, dialogs and pages on
  the screen, cursors and scrolling, text wrapping, the Gemini status lines and
  documents, the style, key and user settings read from TOML text (the
  `toml` crate parses it behind a trusted wrapper), and the decisions that turn terminal events into messages and messages into
  steps. Each public function carries a contract; the laws that relate
  several functions are proof functions.
- `app/` is the program around it: the terminal, reading and writing the files
  under `gdata/`, and the network.
- `tests/` runs the library on concrete values.

All user data is located in the `gdata` directory: saved URLs in
`gdata/urls`, settings in `gdata/init`, styles in `gdata/styles` and keys in
`gdata/keys`.
