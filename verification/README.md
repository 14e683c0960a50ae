# image_indexer

An image intake service: uploads become persisted jobs, a background worker
turns each into a 64x64 thumbnail, and failed jobs are retried with backoff.

`src/` is the verified library (Verus):

- `domain`: the job lifecycle (`pending`, `processing`, `done`, `failed`), each
  transition's contract over `ImageJobModel`, and the lifecycle laws.
- `worker`: the retry policy and its backoff table, and the worker's decisions
  once a thumbnail has been attempted.
- `repository`: the stored row format of a job; a row written by
  `ImageJobRecord::from_job` reads back with `map_row` as the same job, for jobs
  whose times fall in years 0 to 9999 (the years that RFC 3339 text holds).
- `storage`, `routes`, `config`, `error`, `processing`: file names and paths,
  the upload handler's decisions, settings with their defaults, and errors.
- `timestamp`, `ids`, `text`: instants, UUID texts and decimal texts.

`app/` holds the HTTP server (actix-web), the SQLite repository (sqlx), the
thumbnail generation (image) and the worker loop; it hands the library plain
values and acts on what it returns.
