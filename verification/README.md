# solana_vanity

Finds Ed25519 key pairs whose Base58 public key ends in a chosen suffix, and offers the
search over HTTP: to be waited for, or as a job that is polled.

`src/` is the library, verified with Verus:

- `text`: decimal numerals, trimming, ASCII case folding, suffixes.
- `base58`: what a Base58 text is, and that it determines the bytes.
- `vanity`: which keys match, which suffixes are valid, how long a search is expected to take.
- `keys`: Ed25519 key pairs as bytes.
- `worker`: one search thread as a state machine, and the batch that drives it.
- `search`: several workers at once, and what their shared flag and counter come to.
- `models`: requests, answers and jobs.
- `jobs`: the table of jobs.
- `api`: how each request is answered.
- `run`: the run of one job, from its first report to its end.
- `laws`: what holds across requests.
- `history`: what holds over any series of calls.

`app/` is the HTTP service around it: routing, JSON, threads, and the texts for rates and
durations, which are floating-point numbers. `tests/` runs the library.

Each function that calls an outside crate states in its doc comment what is taken on trust.
