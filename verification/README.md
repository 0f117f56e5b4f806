# loom

Building blocks for layered text-processing pipelines, with their behaviour
stated as contracts and proved with Verus.

## Layout

- `src/` — the verified library.
  - `pipe/` — pipeline operators over single values: map, filter, guard,
    branch, fan-out, router, `Result`/`Option` unwrapping, and sequence
    operators (flatten, flat-map, chunk, window, concat). A `Source` holds a
    value or the work that makes it; piping an operator adds to that work,
    and nothing runs until the source is built.
  - `media_type.rs`, `path/`, `model/` — media types and their MIME names,
    file/field/URI paths and their syntax, model types and configurations.
  - `data_source/` — records, documents and values; an in-memory source; the
    decisions and caches of the file-system and JSON sources (the caller does
    the file work and hands back its outcome); content fingerprints.
  - `codec/` — the text codec.
  - `eval/` — datasets and their validation, the counts gathered over scored
    samples (overall, per category, per label), the per-category groups of a
    score export, and the length-dependent score threshold.
  - `bench.rs` — benchmark runs: which texts go to the scorer next, and what
    each sample's result is given the scorer's answer for its batch.
  - `config.rs` — runtime settings.
- `app/` — what works with the outside world around the library: file I/O
  for the file-system and JSON sources, (de)serialisation of configuration
  and datasets, timeouts and delays, retries, running functions on threads,
  driving a scorer through a benchmark run, and
  the float-valued scores and rates computed from the library's counts.
- `tests/` — tests of the library.

Not included: registries of named processing layers, pipelines assembled from
them, and operators that await asynchronous tasks. They rest on a layer
interface with run-time type erasure and on an async runtime, neither of which
is part of this crate. Path components follow Unix path rules.
