# vault

The core of an offline desktop vault for secrets, verified with Verus.

- `src/` is the verified library:
  - `crypto` derives the vault key (Argon2id, 64 MiB, 3 passes), seals
    payloads with AES-256-GCM under a fresh random nonce and stores nonce
    and ciphertext in base64; `decrypt` states exactly which check refuses
    a blob, and `encrypt` states that what it seals opens again to the
    plaintext.
  - `encoding` holds the base64 calls.
  - `session` holds the key of the open vault and wipes it on lock.
  - `item` holds vault items and the rules of saving and importing them.
  - `commands` holds the rules of creating, unlocking, re-keying, listing,
    exporting and importing a vault.
  - `error` lists every refusal with its message.
- `app/` is the command layer around it: SQLite storage, JSON records,
  backup files and the session lock.
- `tests/` exercises the library on concrete values.
