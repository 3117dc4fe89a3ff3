# jobfuscator

Client for the JObfuscator Web API (Java source obfuscation service).

- `src/` — the verified library:
  - `client.rs`: the client configuration (`JObfuscator`, set up with
    `new`, `with_strategy` and `with_compression`), the parameters of
    each request (`login_request`, `obfuscate_request`,
    `obfuscate_file_request`) and what becomes of a reply (`handle_response`);
  - `codec.rs`: packing of sources (zlib, then Base64) and unpacking of
    outputs, over `flate2` and `base64`;
  - `response.rs`: the reply types;
  - `laws.rs`: properties of every request and reply.
- `app/` — the HTTP side: multipart POST with `reqwest`, JSON with
  `serde_json`, file reading with `tokio`.
- `tests/` — tests of the library on concrete values.
