# openrouter-rs

A client library for the [OpenRouter](https://openrouter.ai) API, written in
Verus. The library's own functions carry contracts that the verifier proves.
Calls into `serde_json`, `urlencoding`, `reqwest` and a few std functions go
through small trusted wrappers whose contracts are believed, not proved; each
wrapper's doc comment says what it claims of the function it calls.

## Layout

- `src/` — the verified library.
  - `json.rs`: JSON values built and read through small trusted wrappers
    around `serde_json`, and `JsonMap`, a text-keyed map with distinct keys.
  - `decode.rs`: reading required and optional fields out of JSON objects,
    and the extra fields a type keeps.
  - `body.rs`: the entries of JSON request bodies, one per set field.
  - `tool.rs`: tool definitions, tool choice, their builders and JSON forms.
  - `images.rs`: image generation requests and their builder, response and
    stream-event models decoded from JSON, the events a buffered response
    stands for, and the requests sent to the image endpoints.
  - `image_models.rs`: image model and provider-endpoint discovery replies,
    decoded from JSON.
  - `responses.rs`: the Responses API request and its builder, response and
    stream-event models, and the requests sent to `POST /responses`.
  - `sse.rs`: server-sent events: content-type detection, line splitting and
    a frame decoder, including the end of a stream.
  - `http.rs`: HTTP requests as plain values (method, URL, headers, body),
    and the reading of a reply's status.
  - `client.rs`: the client's settings, builder, keys and domain clients.
  - `text.rs`: appending, joining and percent-encoding text.
- `tests/` — tests run against the compiled library.
- `app/` — the async HTTP transport (`reqwest`) around the library.
