# tpm_provider

The decisions of a key provider that is backed by a TPM 2.0, verified with Verus.

A provider creates, imports, exports and destroys keys for the applications of a
service, and signs and verifies with them. This one leaves the keys to a TPM: what
it keeps of a key, in the Key ID Manager of the service, is the context that the
TPM has saved and the authorisation value of the key.

- `src/` is the library. Each operation that needs the TPM comes in two steps: a
  method of `TpmProvider` checks the request and gives the call to make, and
  `finish` of that call takes the answer of the TPM and gives the result.
  - `provider`, `builder` and `tpm` hold these steps;
  - `password_context` holds the bytes that stand for a key in the Key ID Manager;
  - `rsa_public_key` holds the DER encoding of RSA public keys;
  - `key_id_managers` holds the Key ID Manager, and `in_memory` one in memory;
  - `laws` states what holds of several operations together.
- `app/` puts the library to work: the locks, the logs, the wire protocol and the
  connection to the TPM.
- `tests/` runs the library.
