# beep_sfu

Signalling and configuration logic of the Beep SFU server, verified with Verus.

- `src/` — the verified library: decimal parsing of ports and token
  identifiers (`numparse`), UTF-8 well-formedness (`utf8check`), the
  configuration and its media port range (`config`), token claims (`token`),
  the token service, which lets in only HS256 tokens signed with the
  application secret (`verify_jwt`, through `jsonwebtoken`), the signalling
  decisions: worker selection by session and the HTTP reply for every worker
  answer (`signaling`), the course of an offer request as a state machine
  (`offer`), and what a media worker answers to each request (`worker`).
- `app/` — the server around it: environment, actix-web endpoint,
  reading token claims with serde, UDP media workers built on `sfu`.
- `tests/` — executable tests of the library.
