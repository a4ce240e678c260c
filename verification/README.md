# aspy

The library behind an observability proxy for a Messages-API coding
client: it reads the API traffic into events (tool calls matched with their
results, thinking blocks, token usage, context compaction), keeps session
statistics, plans what a lifetime history stores and what telemetry
exports, and prepares search queries over that history. The proxy itself,
the database and the telemetry exporter are not part of this crate: `app/`
holds the command line and configuration files around the library.

This crate is a Verus project. `src/` is the verified library: Verus
proves every function there against its contract, and the laws that relate
several functions stand as public proof functions. The counters shared
between threads (`lifestats_metrics`, `indexer_metrics`) are std atomics,
whose values Verus does not model; their functions state nothing of the
values read.

- `config`, `settings`, `observability`, `routing`, `features`,
  `serialization`: the configuration, the precedence rule that builds it
  (environment, then file, then defaults), client/provider routing, and its
  TOML form.
- `parser`, `sse`, `json`: reading requests and responses, streamed or not,
  into events; tool calls and results are correlated.
- `context`, `stats`, `telemetry`, `logging`: context-window tracking and
  compaction detection, session statistics, span plans, captured logs.
- `lifestats`, `lifestats_metrics`, `indexer`, `indexer_metrics`,
  `embedding`, `search`, `fusion`: what is stored for each event, the
  decisions of the storage writer and embedding indexer loops, embedding
  blobs, full-text query preparation and rank fusion.
- `cli`, `setup`: what a command line asks for, how answers to prompts are
  read, and the preview of a configuration update.
- `text`, `strmap`, `sorting`: strings, small ordered maps and string order.

`app/` is the program around the library: argument parsing, files, the
environment, printing, and the floating-point scores. `tests/` runs the
library on concrete values.
