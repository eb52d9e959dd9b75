# chess_tutor

A chess teaching library driven by FEN text: attack maps, static exchange
evaluation, threat scans, live game state with an optional Fischer clock, a
stateless snapshot API for app shells, and the text views and teaching
narration built on them. Move generation, SAN and FEN handling come from
`shakmaty`; every other piece of logic is verified with Verus.

Layout:

- `src/` — the verified library. `rules.rs`, `position.rs` and
  `bitboard.rs` hold the trusted wrappers around `shakmaty` and the names
  (`uninterp` spec functions) for what it computes; everything else is
  proved against those contracts.
- `tests/` — ordinary Rust tests of the library.
- `app/` — the `chess-tutor` command line (`analyze`, `explain`, `board`,
  `forcing`, `attacks`, `alignments`,
  `play`, `review`), the JSON surface for app shells, and the serde shapes
  of the library's types.
