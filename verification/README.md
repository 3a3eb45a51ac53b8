# imageforge_lib

The backend logic of a local-first image compressor (JPEG, PNG, WebP, HEIC),
written in Verus.

- `src/` is the verified library: format detection, per-format codec policies
  (PNG through oxipng, WebP through libwebp, metadata transfer through
  img-parts), alpha compositing over white, the savings rule, collision-free
  output naming, the per-file pipeline as a state machine, and the decisions
  of the batch queue. Calls into codec crates and `std::path` sit behind
  small trusted wrappers in `src/codecs.rs`, `src/paths.rs` and
  `src/queue.rs`, whose results are named by uninterpreted spec functions.
- `tests/` exercises the library with the real codec crates linked.
- `app/` is the unverified shell: file I/O, the libjpeg-turbo and libheif
  calls, the driver of the per-file state machine, the tokio batch queue,
  the command handlers, and serde copies of the library's types.
