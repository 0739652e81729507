//! Codes that requests and responses carry.

use vstd::prelude::*;

verus! {

/// The providers of the service.
#[derive(Clone, Copy, Debug, PartialEq, Eq, Structural)]
pub enum ProviderID {
    /// Provider for core operations of the service.
    CoreProvider,
    /// Provider using the Mbed Crypto software library.
    MbedProvider,
    /// Provider using a PKCS 11 compatible library.
    Pkcs11Provider,
    /// Provider using a TSS 2.0 Enhanced System API library.
    TpmProvider,
}

/// The operations of the service.
#[derive(Clone, Copy, Debug, PartialEq, Eq, Structural)]
pub enum Opcode {
    Ping,
    CreateKey,
    DestroyKey,
    AsymSign,
    AsymVerify,
    ImportKey,
    ExportPublicKey,
    ListProviders,
    ListOpcodes,
}

/// Why a request was refused: the statuses that the TPM provider answers with.
#[derive(Clone, Copy, Debug, PartialEq, Eq, Structural)]
pub enum ResponseStatus {
    /// The Key ID Manager failed, or holds something that is not a `PasswordContext`.
    KeyIDManagerError,
    /// The key triple is mapped already.
    KeyAlreadyExists,
    /// The key triple is not mapped.
    KeyDoesNotExist,
    /// The provider does not handle keys of this sort.
    UnsupportedOperation,
    /// An argument is out of its range.
    PsaErrorInvalidArgument,
    /// Key material could not be encoded or decoded.
    PsaErrorCommunicationFailure,
    /// The TPM reported an error.
    PsaErrorHardwareFailure,
    /// The signature is not one of the given hash by the given key.
    PsaErrorInvalidSignature,
}

/// The outcome of a request.
pub type Result<T> = core::result::Result<T, ResponseStatus>;

} // verus!
