# paper_plane

The decision, layout and formatting logic of the Paper Plane Telegram
client, written in Verus and verified: every public function states what it
returns in its `requires` / `ensures` contract, and the laws of the library
are proof functions.

- `src/` is the verified library, one module per part of the client:
  text escaping and markup (`text`, `markup`, `format`), durations,
  the chat folder selection, the chat search, the chat action bar, the
  sidebar rows, message rows and history rows, the login pages, the phone
  number entry, widget sizes and placements, QR codes and images.
- `tests/` runs the library on concrete values.
- `app/` is a small command line front end: it reads arguments, files and
  the locale, translates messages with gettext, and prints what the library
  computes.

The outside crates that the library calls (`regex`, `qrcode-generator`) are
reached through a few wrappers whose contracts are trusted; each one names
the function it calls and says what its contract claims.
