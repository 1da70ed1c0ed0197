# infuse

A small service that accepts PDF uploads over HTTP, files each under the
SHA3-256 digest of its contents, queues a conversion job for it, and serves
the jobs and the documents they produce.

- `src/` is the verified library (Verus): decimal identifiers (`decimal`),
  content digests (`digest`) and storage paths (`storage`), the records
  (`models`), the job scheduler and job runs (`processing`), the replies to
  each route (`replies`), the upload flow (`upload`) and the listening
  address (`server`).
- `app/` is the server around it: the iron routes, the diesel/PostgreSQL
  queries, the file system, the processor threads and the JSON encoding.
  It performs what the library's state machines ask for and hands the
  outcomes back.
- `tests/` exercises the library on concrete values.
