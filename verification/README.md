# k-shrink

A Wayland clipboard daemon that re-encodes copied images into a smaller
format (WebP by default) and puts the result back on the clipboard.

- `src/` is the library, verified with Verus: image re-encoding (through the
  `image` crate), SHA-256 identification of the daemon's own output (through
  `sha2`), configuration defaults and validation, the search of a clipboard
  offer for an image (MIME type priority, `text/uri-list` file copies,
  percent-decoding), one round of the daemon over a `ClipboardProvider`, and
  the text of each error.
- `app/` is the daemon itself: the Wayland clipboard (`wl-clipboard-rs`), the
  configuration file (`toml`, `serde`, `dirs`), logging and the polling loop.
- `tests/` exercises the library, with a mock clipboard for the daemon round.
