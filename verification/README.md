# spider page fetching, verified

The page-fetching helpers of the `spider` web crawler, written in Verus.

- `src/` is the verified library. It makes every decision of the fetchers:
  which redirect a response shows (`redirect`), how a streamed body is
  collected (`body`) or spilled to a file once it grows (`spool`), when a
  browser page has loaded (`page_load`), which limits apply and whether a task
  may run (`limits`), what the browser fetcher does with its cache, its
  domain counts and failed navigations (`chrome`), and the control messages
  sent to running crawls (`control`). `strings` holds the text helpers and
  the log line.
- `app/` drives the network (`reqwest`), the browser (`chromiumoxide`), the
  file system, timers and the shared tables (`dashmap`, `moka`), and hands
  what happened to the library.
- `tests/` runs the library on concrete values.
