# macht-api

A oneshot importer of football matches from the football-data feed into a
shared SQLite database, with its logic verified by Verus.

- `src/` is the verified library:
  - `api/match_client.rs`: the match model, the stored form of team fields,
    the team-determined rule, the per-match import decision
    (`prepare_import` / `plan_import`), the insert-or-update statement, the
    request address and the import tally;
  - `api/text.rs`: the "blank text" rule (Unicode white space only);
  - `service/score_helper.rs`: home and away score from the regular-time
    score, else the full-time score;
  - `window.rs`: the day-before to day-after window of the incremental import.
- `app/` is the binary: arguments, environment, HTTP, JSON and SQLite.
- `tests/` runs the library on concrete inputs.
