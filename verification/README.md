# tic_tac_toe

A two-player game of tic-tac-toe, played on a terminal or over WebSockets, whose
rules and front-end decisions are verified with Verus.

- `src/game`: the board, the winning lines, moves and turns, and reading a
  player's command. Laws proved here: the players take turns, refused moves
  change nothing, marks are permanent, a status of `Won`/`Draw` is what the
  board shows.
- `src/interface`: the messages sent to players, the terminal session (board,
  prompts, answers, a whole session over a given input) and the web seats and
  commands.
- `src/ui.rs`, `src/input.rs`, `src/display.rs`, `src/web.rs`: simpler front
  ends with their own wording.
- `src/text.rs`: trimming, decimal numbers and UTF-8 output, stated against the
  standard library's behaviour.
- `app/`: the program itself: standard input and output, the axum web server and
  the JSON forms of the messages.
