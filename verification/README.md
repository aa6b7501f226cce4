# mypass_tui

The terminal interface to a password vault: a list of entries, a form that edits
one of them, and what follows when the interface is left.

- `src/` is the library, verified with Verus. It takes key events and plain values
  and gives back states, messages and drawing steps. It reads and writes nothing.
  - `app`: the state of the interface and what each key does to it.
  - `form`: the form, its cursor, and what it demands of an entry.
  - `entry`: entries and the order in which they are listed.
  - `draw` and `layout`: what the screen shows, and where.
  - `save`: what follows when the interface is left.
  - `key`, `secret`, `text`: keys, texts that are erased, and work on characters.
  - `laws`: what holds of the interface as a whole, proved.
- `app/` carries it out on a terminal. The vault, the clipboard and the passphrase
  come from the program around it, through the trait `Host`.
- `tests/` runs the library on concrete values.

What the proofs take on trust are the contracts of a few functions of the standard
library (in `text`), of `Zeroize::zeroize` (in `secret`) and of `Layout::split` (in
`layout`). The comment above each says what it claims.
