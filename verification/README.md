# isyswasfa-http

The host side of the `wasi:http/types` interface for a wasmtime embedding:
header fields, request options, requests, responses and the one-shot
channels that carry trailers, all kept in wasmtime resource tables.

- `src/fields.rs`: the header list and what reading, setting, deleting and
  appending do to it, with the laws that tie these together.
- `src/table.rs`: the resource table seen as a map from handles to slots,
  and the trusted calls into `wasmtime::component::ResourceTable`.
- `src/host.rs`, `src/requests.rs`, `src/responses.rs`, `src/options.rs`:
  one verified operation per host method, each stated over the tables it
  reads and changes.
- `src/laws.rs`: what holds across calls of those operations.
- `app/lib.rs`: the bindings that implement the generated host traits by
  calling the library.
