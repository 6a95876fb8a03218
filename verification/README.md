# rtsp_webrtc

A server that pulls RTSP streams through media pipelines and hands them to
browsers over WebRTC, with the decisions it takes verified.

- `src/` is the verified library:
  - `codec` — Base64 text encoding and decoding (through the `base64` crate);
    decoding an encoded text gives the text back.
  - `sources` — the registry of sources, their listing, and its laws, among
    them that a stopped source stays stopped in every later listing.
  - `api` — what each request is answered: token checks, adding, stopping and
    connecting to sources, the answer to a viewer's offer.
  - `offer` — reading a viewer's offer: Base64 of a session description in
    JSON (through `serde_json`).
  - `session` — the pipeline description, the bounded retries to start it,
    what becomes of each sample, and the encoded answer.
  - `config` — command-line defaults and the log filter.
  - `frontend` — the pages and the entries of the source chooser.
- `app/` is the HTTP server: routing, JSON, the media pipelines and the WebRTC
  sessions, which call into the library for every decision.
- `tests/` runs the library on concrete values.
