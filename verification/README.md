# holdmybackup

A backup service that packs configured folders into gzip tarballs, uploads
them to a Minio (S3-compatible) bucket, lists the stored backups and lets the
log filter be changed over HTTP.

- `src/` is the library, verified with Verus: the configuration types, the
  command-line defaults, the tarball and upload plans, the steps of a backup
  run and of an upload and what a failure does to them, the Minio store
  setup, bucket decisions and listing, the HTTP routing and answers, the log
  filter check, and the log level and trace export settings.
- `app/` is the program around it: command line, configuration file loading
  and watching, tracing setup, file archiving, network calls and the HTTP
  server.
- `tests/` runs the library on concrete values.
