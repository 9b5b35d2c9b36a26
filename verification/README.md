# openvr

Typed access to the `System` interface of an OpenVR runtime.

- `src/` is the verified library. The runtime answers each query with raw C
  values (enumeration codes, sentinel indices, success flags, error codes and
  string lengths); the functions in `src/system/` decode those answers into
  Rust types, and their contracts state each decoding exactly. `src/lib.rs`
  holds the shared types (eyes, tracking origins, device classes, controller
  roles) with the codes that name them to the runtime, and the laws that tie
  decoding and naming together.
- `app/` holds `System`, which calls through the runtime's function table
  (`openvr_sys`) and hands each answer to the library, together with the
  float-valued types and the formatting of property errors.
- `tests/` runs the decoding functions on concrete answers.
