# bilibili_ticket

Verified core of a Bilibili ticket helper, written in Verus.

- `src/ctoken.rs` — the `ctoken` token: its 16-byte record, the widening to
  little-endian 16-bit units, the token text and its laws, and token
  generation (clock and random draws come through small trusted wrappers).
- `src/screen_info.rs` — the decisions of the project-detail window:
  finding the account entry, preparing the window, selecting a screening,
  choosing a ticket type, closing, sale statuses, labels, the basic
  information lines and timestamp text.
- `src/encoding.rs` — standard Base64 as a specification, the call into
  the `base64` crate, and its laws (length, splitting, injectivity).
- `src/text.rs` — string comparison and decimal text of integers.
- `app/` — the program around the library: logging, releasing the bundled
  resources, and the egui drawing of the window and the monitor tab.
- `tests/` — tests on concrete values.
