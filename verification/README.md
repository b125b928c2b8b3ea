# yubitui

YubiKey management: OpenPGP, PIV, OATH, FIDO2 and OTP state, the card
commands that change it, and the logic of the interactive screens. The library
is written in Verus; its functions carry contracts that Verus proves. The few
that only read the clock (`rand_byte`, `unix_now_secs`) promise nothing of the
value, which is the clock's; the functions that turn a reading into a result
(`byte_from_nanos`, `signed_unix_secs`, `date_of_unix_secs`) are exact.

## Layout

- `src/model/` — device state and the card protocols: APDU encoding and response
  decoding for the OATH, OTP, PIV and OpenPGP applets, the FIDO2 reset frames,
  the `gpg --card-edit` PIN dialogue as a state machine, touch policies and the
  KDF-DO PIN hashing.
- `src/diagnostics/` — the status of pcscd, gpg-agent, scdaemon and the SSH
  agent, computed from what the probes report.
- `src/tui/` — the screens' logic: key handling, wizards, input parsing
  (`otpauth://` URIs, hex management keys) and the text each screen shows.
  Screens take actions and return what the caller does next; the caller runs
  the card, process or clock work and hands the outcome back.
- `src/utils/` — GnuPG's directory and what `gpg` prints.
- `src/text.rs` — character-sequence helpers shared by the parsers.
- `src/clock.rs` — reading the system clock.
- `app/` — the command-line program: argument handling, the system probes and
  the configuration file.
- `tests/` — tests against the compiled library.

Calls into outside crates (`sha2`, `des`/`cipher`, `x509-parser`,
`oid-registry`, `toml`, `chrono`) and std's clock sit behind small trusted wrappers whose
contracts name or state what those crates compute.
