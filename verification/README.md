# pc_tictactoe

Tic-Tac-Toe training ground for a predictive-coding actor-critic agent
(`pc-rl-core`), written as a Verus-verified library with a thin command-line
program around it.

## Layout

- `src/` — the verified library.
  - `env/tictactoe.rs` — bitboard game, legal moves, win and draw detection,
    board encoding per perspective.
  - `env/minimax.rs` — alpha-beta minimax opponent with move ordering and a
    persistent transposition table, specified exactly by `search` and
    `choose_spec`.
  - `training/episode.rs` — one game between the agent and the opponent:
    side choice, opponent replies, outcome for the agent.
  - `training/curriculum.rs` — opponent depth schedule with its outcome
    window.
  - `training/continuous.rs` — decisions of the continuous training loop:
    stop condition, sides, replay memory seal and replay schedule.
  - `training/stress_test.rs` — stress test bookkeeping: opponent draws,
    depth histogram and its text, checkpoints, plasticity transitions.
  - `training/champion.rs` — champion search schedule and identity.
  - `training/experiment.rs` — sweep parameter naming and parsing.
  - `ui/cli.rs` — subcommand arguments, board text, game verdict.
  - `utils/` — configuration sections and validation rules, log levels and
    rotation names, outcome window, decimal text, random draws.
- `tests/` — tests of the library.
- `app/` — the program: TOML loading, real-valued settings and fitness,
  the agent's networks and training loops, logging to files, the CLI.
