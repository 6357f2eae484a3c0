# link_server

A server that keeps a list of links, downloads what they point at, transcodes it to MP4 and serves
the result.

- `src/` decides. Every request and every background job is a value that names the next effect it
  needs and is resumed with the reply. Nothing there performs I/O, and all of it is verified with
  Verus, but for a few wrappers round `hex`, `sha2`, `uuid` and the standard library's formatting.
- `app/` acts. It performs the effects: the database, the files, the programs `yt-dlp`, `ffprobe`
  and `ffmpeg`, the queue and the HTTP routes. The database migrations are part of the program.
- `tests/` runs the library on concrete values.

Settings come from the environment: `DATABASE_URL`, and, with defaults, `DOWNLOAD_FOLDER`,
`TRANSCODE_FOLDER` and `FRONTEND_FOLDER`.
