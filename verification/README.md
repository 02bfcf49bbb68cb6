# showrunner_backend

The backend of Showrunner, a self-hosted tracker for TV shows and movies:
a watchlist kept in SQLite, refreshed from TMDB, with an "up next" list, a
calendar of airing episodes, a history of watched / unwatched actions, and
Slack notifications for episodes airing today.

## Layout

- `src/` is the library, written in Verus. It holds the project's logic with
  its contracts: reading the configuration, building TMDB requests and judging
  their answers, shaping database rows into API responses, paging the history,
  validating requests, escaping and formatting Slack messages, the notification
  run as a state machine, the refresh plan and its report, the rate gate, and
  the HTTP security rules (content type, CORS, response headers). Calls into
  outside crates go through small trusted wrappers whose contracts are
  documented beside them.
- `app/` is the server around the library: axum routes and middleware, SQL
  queries through sqlx, the HTTP client, the scheduler, and the serde/sqlx
  copies of the library's types. It performs the I/O and asks the library what
  to do with the results.
- `tests/` exercises the library's public functions on concrete values.

## Configuration

Environment variables: `TMDB_API_KEY` (required), `SERVER_HOST`
(default `0.0.0.0`), `SERVER_PORT` (3001), `CORS_ALLOWED_ORIGIN`,
`DATABASE_URL` (`sqlite:///data/showrunner.db`), `SLACK_WEBHOOK_URL`,
`RESYNC_CRON` (`0 0 6 * * *`), `NOTIFICATION_CHECK_INTERVAL_MINUTES` (60) and
`TIMEZONE` (`America/New_York`), which decides what "today" is and when the
refresh runs. Blank values count as unset.
