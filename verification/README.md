# live_video

A verified library for signing and validating live video segments.

- `src/` is the library. Every function has a contract over mathematical models of the data
  (sequences of boxes, messages, session states), and Verus proves the code against it. The modules
  ending in `laws` state what the pieces promise together: that a signed segment is read back and
  accepted, that a refused one changes nothing, that a session resumes where it was.
- `tests/` runs the library with the outside crates linked.
- `app/` is ordinary Rust around the library: signing and validation with the services that an SDK
  supplies, the wire format of the segment info map, and the C interface.

The outside crates (`coset`, `c2pa_cbor`, `ed25519-dalek`, `serde_json`, `chrono`, `pem`) are called
through small trusted functions in `cose.rs`, `cbor.rs`, `ed25519.rs`, `json.rs`, `clock.rs` and
`certificates.rs`; each says in its doc comment what is taken on trust.
