# myust

A client library for the mystb.in paste service, verified with Verus.

- `src/` is the verified library: what each operation sends (`requests`),
  what it makes of the answer (`responses`), the JSON model and its text
  (`json`), dates (`date`), the values of the API (`model`), the request and
  response shapes (`http`), and the properties that hold across operations
  (`laws`).
- `app/` holds the asynchronous `Client` and `AuthClient`, which send the
  requests over HTTP with `reqwest` and carry `chrono` dates and
  `serde_json` values.
- `tests/` runs the library on concrete requests and responses.
