# async_downloader

A file downloader for graphical programs, in two parts.

`src/` is the library. It holds everything that the downloader decides, written and proved in
Verus, and it does no input or output:

- `attempt`: one attempt at a download as a state machine, from the directory of the file to its
  digest: range requests, files that are complete already, reports, pauses and failures;
- `download`: a download, the wishes of its user (pause, resume, cancel) and the moves of its worker;
- `batch`: the progress of several downloads taken as one;
- `downloader`, `settings`, `job`, `progress`, `speed`: the plain data, numbered and counted;
- `digest`: SHA-256 of a file that is read in pieces (with the `sha2` crate), and the comparison
  with the expected digest;
- `units`, `url`, `card`, `text`: sizes and speeds for people to read, file names out of addresses,
  and what a card with a download shows;
- `laws`: what holds of whole attempts, of the life of a download and its control, of the pool of
  workers, of batches and of digests.

`app/` is the engine around it: a Tokio runtime with a pool of workers on a queue, `reqwest` for the
transfers, and views for `egui` and `iced`. Floating-point arithmetic is done there; the library
carries a speed as its bit pattern and a share as a quotient of two integers.

What the library takes on trust is marked `external_body` or `assume_specification`: the SHA-256
hasher, and a few conversions of the standard library.
