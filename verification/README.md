# starship_session

Status-line metrics for a coding-assistant session, shown in a Starship prompt.

The assistant hands its status-line command a JSON document (the hook data).
The status-line program saves it to a temp file and hands over to
`starship prompt`; Starship custom modules then call the metric reader, which
prints one metric: cost, tokens, lines changed, model, context use, duration,
API time, version, message count, response-time percentiles, or the estimated
cost of the 5-hour billing window or of today, computed from the transcript.

## Layout

- `src/` — the verified library (Verus):
  - `text.rs`: decimal rendering, substring search, string equality;
  - `hook.rs`: the hook data;
  - `pricing.rs`: per-model pricing, held exactly in cents per million tokens,
    and the cost of a token usage in microcents (10^-8 USD);
  - `timestamp.rs`: UTC timestamps as chrono holds them, their order, the
    millisecond difference chrono computes, and the clock cutoffs;
  - `transcript.rs`: message count, estimated cost since a cutoff, response
    times and their percentiles;
  - `metric.rs`: what each metric prints.
- `app/` — the program: command line, files, stdin, clock, JSON, `exec`, and
  the printing of floating-point amounts.
- `tests/` — tests of the library.
