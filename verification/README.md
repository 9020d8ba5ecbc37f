# jremote

The signalling core of JRemote (AnyMio), a personal remote-desktop endpoint
and relay, written in Verus. The functions under `src/` carry contracts that
Verus proves, except the small wrappers marked `#[verifier::external_body]`
that call outside crates and std: their contracts are trusted, and each
one's doc comment says what it claims.

## Layout

- `src/` — the verified library.
  - `protocol` — length-delimited frames (big-endian `u32` length, at most
    64 KiB) and the registration payload.
  - `identity` — device identities: Ed25519 key, the nine-digit locator
    derived from the SHA-256 of the public key, its `ddd ddd ddd` form, and
    the `REGISTER` answer to a relay challenge.
  - `relay` — the relay's registry and every decision it takes on a
    message, including which messages it sends and to which queue:
    authenticated registration, blocking of addresses after
    repeated failed proofs, connection requests with their expiry and rate
    limits, and answers that only the awaited host may give.
  - `config`, `consent`, `session_history`, `events` — local records and the
    rules that keep them valid and bounded.
  - `update`, `update_cache`, `updater`, `manifest`, `startup` — the update
    channel: which manifest to read, when a release is offered, how the
    helper checks a download, and the signed manifest text.
  - `diagnostics`, `reconnect`, `security`, `window` — diagnostics plans,
    bounded reconnect backoff, Argon2id passwords, and the decisions of the
    local window.
  - `crypto`, `system`, `url` — the calls into `sha2`, `ed25519-dalek`,
    `uuid`, `rand`, `semver`, `argon2` and `reqwest`'s URL parser, each behind
    a small trusted wrapper whose contract states what the library relies on.
  - `bytes`, `hex`, `text` — byte, hexadecimal and text helpers.
- `app/` — the program around the library: command line, files, network,
  the relay's accept loop, the update helper, the manifest signer and the
  window.
- `tests/` — tests of the library on concrete values.

The laws that the library promises are public proof functions named
`law_*`; each states its promise in its doc comment.
