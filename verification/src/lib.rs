//! The decisions of a key provider that is backed by a TPM.
//!
//! `provider` checks the requests and says what to ask of the TPM; `tpm` makes
//! results of its answers. What is kept of a key is in `password_context`, the
//! encoding of public keys in `rsa_public_key`, and what holds of several
//! operations together in `laws`. `operation_laws` says what each operation does,
//! and `term_laws` what the terms in its contract mean.

pub mod builder;
pub mod hyphenated_uuid;
pub mod in_memory;
pub mod key_id_managers;
pub mod laws;
pub mod operation_laws;
pub mod operations;
pub mod password_context;
pub mod provider;
pub mod radix;
pub mod requests;
pub mod rsa_public_key;
pub mod term_laws;
pub mod tpm;

