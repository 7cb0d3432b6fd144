# orbit

A serverless platform for WebAssembly functions: functions are uploaded to a
MinIO bucket, fetched and run on request in a separate `wasmtime` process, and
every run is recorded in per-function execution metrics.

- `src/` is the verified library: metrics and how runs update them, the
  decisions of the HTTP endpoints (as step-by-step flows for running and
  uploading a function), function names and module paths, decimal numbers,
  and the object-store settings.
- `app/` is the server around it: the actix-web endpoints, the actor that runs
  functions, the `wasmtime` process, the metrics file and the object stores.
- `tests/` runs the library on concrete values.
