# armoire

Credentials, random password generation, and the decision logic of an
OS-backed secret store, verified with Verus.

- `src/credential.rs`: `Credential` and its builder.
- `src/passwords.rs`: character classes and the random password `Generator`.
- `src/secrets.rs`: `Secret`, `SecretError`, and each store operation (add,
  get, remove, update, upsert, create_random) as a state machine that asks the
  store for one lookup, write or removal at a time; `advance` takes the
  store's reply to the next step.
- `app/lib.rs`: serde forms of `Credential` and `Secret`, and the Linux
  driver that performs the store's requests through libsecret.
- `tests/`: tests of the library, with an in-memory store standing in for the
  platform one.
