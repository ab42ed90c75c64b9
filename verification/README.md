# automate

The verified core of a chess-bot arena. Users submit Python bots; a worker
validates each bot by letting it play, and plays ranked and casual games
between bots; a web service manages users, bots, games and a leaderboard.

- `src/` — the library, verified with Verus:
  - `text` — character helpers (trimming, prefixes, decimal numbers).
  - `protocol` — the line protocol with a bot worker (loading handshake, move replies).
  - `matches` — end reasons, PGN records, result tags, who wins when a bot fails.
  - `chess` — the chess rules from `shakmaty`, on FEN and UCI text.
  - `referee` — the state machine that runs a game and writes its conclusion.
  - `validation` — the state machine that validates a new bot.
  - `models` — messages on the job queue and API request bodies.
  - `api` — API errors, submission rules, ownership checks, leaderboard paging, OAuth URLs.
  - `ids` — UUID text, shared keys and channels, jobs, sessions.
  - `pairing` — seating two bots at random.
  - `elo` — the rating factor.
- `app/` — the two programs (web service and worker): HTTP, database,
  queue, containers, JSON, and the floating-point rating formulas.
- `tests/` — tests of the library.
