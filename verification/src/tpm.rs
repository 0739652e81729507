//! What the provider asks of a TPM, and what it makes of the answers.
//!
//! Each operation that needs the TPM comes in two steps. The provider's method
//! gives the call to make, as one of the types below; when the TPM has answered,
//! `finish` takes the answer and gives the result of the operation.

use vstd::prelude::*;

use crate::key_id_managers::{KeyTriple, ManageKeyIDs};
use crate::operations::{
    ResultAsymSign, ResultAsymVerify, ResultCreateKey, ResultExportPublicKey, ResultImportKey,
};
use crate::password_context::{
    insert_password_context, insertion_result, storable, PasswordContext, PasswordContextView,
    TpmsContext,
};
use crate::requests::{ResponseStatus, Result};
use crate::rsa_public_key::{export_key, exported_key};

verus! {

/// Kinds of TSS response codes, as far as the provider tells them apart.
#[derive(Clone, Copy, Debug, PartialEq, Eq, Structural)]
pub enum Tss2ResponseCodeKind {
    /// The signature is not valid.
    Signature,
    /// Any other kind.
    Other,
}

/// An error that the TPM, or the software stack in front of it, reports.
#[derive(Clone, Copy, Debug)]
pub struct TpmError {
    /// The kind of its response code, if that has one.
    pub kind: Option<Tss2ResponseCodeKind>,
}

/// What the TPM answers: the result of the call, or an error.
pub type TpmReply<T> = core::result::Result<T, TpmError>;

/// TPM identifier of the hash algorithm SHA-256.
pub const TPM2_ALG_SHA256: u16 = 0x000b;

/// Signature schemes, as far as the provider tells them apart.
#[derive(Clone, Copy, Debug, PartialEq, Eq, Structural)]
pub enum AsymSchemeUnion {
    /// RSASSA-PKCS1-v1_5 with the hash algorithm of the given identifier.
    RSASSA(u16),
    /// Any other scheme.
    Other,
}

/// A signature and its scheme.
#[derive(Debug)]
pub struct Signature {
    pub scheme: AsymSchemeUnion,
    pub signature: Vec<u8>,
}

/// A result, without the value in it.
pub open spec fn status_of<T>(r: Result<T>) -> Result<()> {
    match r {
        Ok(_) => Ok(()),
        Err(status) => Err(status),
    }
}

/// What the answer to a verification means for the request: the signature is
/// valid, it is not, or the TPM failed.
pub open spec fn verdict(reply: TpmReply<()>) -> Result<ResultAsymVerify> {
    match reply {
        Ok(()) => Ok(ResultAsymVerify {  }),
        Err(e) => if e.kind == Some(Tss2ResponseCodeKind::Signature) {
            Err(ResponseStatus::PsaErrorInvalidSignature)
        } else {
            Err(ResponseStatus::PsaErrorHardwareFailure)
        },
    }
}

/// Call to create an RSA signing key.
#[derive(Debug)]
pub struct CreateRsaSigningKey {
    /// The triple to store the key under.
    pub key_triple: KeyTriple,
    /// Size of the key in bits.
    pub key_size: usize,
    /// Number of octets of the authorisation value to make for the key.
    pub auth_value_len: usize,
}

impl CreateRsaSigningKey {
    /// Stores the key that the TPM has created: its context and its
    /// authorisation value.
    pub fn finish<K: ManageKeyIDs + ?Sized>(
        self,
        store_handle: &mut K,
        reply: TpmReply<(TpmsContext, Vec<u8>)>,
    ) -> (r: Result<ResultCreateKey>)
        requires
            reply matches Ok((context, auth_value)) ==> storable(
                PasswordContextView { context: context@, auth_value: auth_value@ },
            ),
        ensures
            match reply {
                Err(_) => {
                    &&& r == Err::<ResultCreateKey, _>(ResponseStatus::PsaErrorHardwareFailure)
                    &&& &*final(store_handle) == &*old(store_handle)
                },
                Ok((context, auth_value)) => insertion_result(
                    &*old(store_handle),
                    self.key_triple@,
                    PasswordContextView { context: context@, auth_value: auth_value@ },
                    &*final(store_handle),
                    status_of(r),
                ),
            },
            r is Ok ==> r == Ok::<_, ResponseStatus>(ResultCreateKey {  }),
    {
        match reply {
            Err(_) => Err(ResponseStatus::PsaErrorHardwareFailure),
            Ok((context, auth_value)) => {
                match insert_password_context(
                    store_handle,
                    self.key_triple,
                    PasswordContext { context, auth_value },
                ) {
                    Ok(()) => Ok(ResultCreateKey {  }),
                    Err(status) => Err(status),
                }
            },
        }
    }
}

/// Call to load an RSA public key that was made elsewhere.
#[derive(Debug)]
pub struct LoadExternalRsaPublicKey {
    /// The triple to store the key under.
    pub key_triple: KeyTriple,
    /// The modulus of the key, most significant octet first.
    pub modulus: Vec<u8>,
}

impl LoadExternalRsaPublicKey {
    /// Stores the key that the TPM has loaded: its context, and no authorisation
    /// value.
    pub fn finish<K: ManageKeyIDs + ?Sized>(
        self,
        store_handle: &mut K,
        reply: TpmReply<TpmsContext>,
    ) -> (r: Result<ResultImportKey>)
        requires
            reply matches Ok(context) ==> storable(
                PasswordContextView { context: context@, auth_value: seq![] },
            ),
        ensures
            match reply {
                Err(_) => {
                    &&& r == Err::<ResultImportKey, _>(ResponseStatus::PsaErrorHardwareFailure)
                    &&& &*final(store_handle) == &*old(store_handle)
                },
                Ok(context) => insertion_result(
                    &*old(store_handle),
                    self.key_triple@,
                    PasswordContextView { context: context@, auth_value: seq![] },
                    &*final(store_handle),
                    status_of(r),
                ),
            },
            r is Ok ==> r == Ok::<_, ResponseStatus>(ResultImportKey {  }),
    {
        match reply {
            Err(_) => Err(ResponseStatus::PsaErrorHardwareFailure),
            Ok(context) => {
                let auth_value: Vec<u8> = Vec::new();
                assert(auth_value@ =~= seq![]);
                match insert_password_context(
                    store_handle,
                    self.key_triple,
                    PasswordContext { context, auth_value },
                ) {
                    Ok(()) => Ok(ResultImportKey {  }),
                    Err(status) => Err(status),
                }
            },
        }
    }
}

/// Call to read the modulus of a key.
#[derive(Debug)]
pub struct ReadPublicKey {
    /// The saved context of the key.
    pub context: TpmsContext,
}

impl ReadPublicKey {
    /// The call for the key whose password context was looked up.
    pub fn with(found: Result<PasswordContext>) -> (r: Result<ReadPublicKey>)
        ensures
            r == match found {
                Ok(c) => Ok(ReadPublicKey { context: c.context }),
                Err(status) => Err(status),
            },
    {
        match found {
            Ok(password_context) => Ok(ReadPublicKey { context: password_context.context }),
            Err(status) => Err(status),
        }
    }

    /// Encodes the public key whose modulus the TPM has read.
    pub fn finish(self, reply: TpmReply<Vec<u8>>) -> (r: Result<ResultExportPublicKey>)
        requires
            reply matches Ok(modulus) ==> modulus@.len() + 32 <= isize::MAX / 2,
        ensures
            match reply {
                Err(_) => r == Err::<ResultExportPublicKey, _>(
                    ResponseStatus::PsaErrorHardwareFailure,
                ),
                Ok(modulus) => r is Ok && r->Ok_0.key_data@ == exported_key(modulus@),
            },
    {
        match reply {
            Err(_) => Err(ResponseStatus::PsaErrorHardwareFailure),
            Ok(modulus) => match export_key(modulus) {
                Ok(key_data) => Ok(ResultExportPublicKey { key_data }),
                Err(status) => Err(status),
            },
        }
    }
}

/// Call to sign a hash.
pub struct Sign {
    /// The saved context of the key.
    pub context: TpmsContext,
    /// The authorisation value of the key.
    pub auth_value: Vec<u8>,
    pub hash: Vec<u8>,
}

impl Sign {
    /// The call to sign `hash` with the key whose password context was looked up.
    pub fn with(found: Result<PasswordContext>, hash: Vec<u8>) -> (r: Result<Sign>)
        ensures
            r == match found {
                Ok(c) => Ok(Sign { context: c.context, auth_value: c.auth_value, hash }),
                Err(status) => Err(status),
            },
    {
        match found {
            Ok(password_context) => Ok(
                Sign {
                    context: password_context.context,
                    auth_value: password_context.auth_value,
                    hash,
                },
            ),
            Err(status) => Err(status),
        }
    }

    /// Gives the octets of the signature that the TPM has made.
    pub fn finish(self, reply: TpmReply<Signature>) -> (r: Result<ResultAsymSign>)
        ensures
            match reply {
                Err(_) => r == Err::<ResultAsymSign, _>(ResponseStatus::PsaErrorHardwareFailure),
                Ok(signature) => r is Ok && r->Ok_0.signature@ == signature.signature@,
            },
    {
        match reply {
            Err(_) => Err(ResponseStatus::PsaErrorHardwareFailure),
            Ok(signature) => Ok(ResultAsymSign { signature: signature.signature }),
        }
    }
}

/// Call to verify the signature of a hash.
#[derive(Debug)]
pub struct VerifySignature {
    /// The saved context of the key.
    pub context: TpmsContext,
    pub hash: Vec<u8>,
    pub signature: Signature,
}

impl VerifySignature {
    /// The call to verify that `signature` is one of `hash` by the key whose
    /// password context was looked up: one by RSASSA with SHA-256.
    pub fn with(
        found: Result<PasswordContext>,
        hash: Vec<u8>,
        signature: Vec<u8>,
    ) -> (r: Result<VerifySignature>)
        ensures
            r == match found {
                Ok(c) => Ok(
                    VerifySignature {
                        context: c.context,
                        hash,
                        signature: Signature {
                            scheme: AsymSchemeUnion::RSASSA(TPM2_ALG_SHA256),
                            signature,
                        },
                    },
                ),
                Err(status) => Err(status),
            },
    {
        let signature = Signature { scheme: AsymSchemeUnion::RSASSA(TPM2_ALG_SHA256), signature };
        match found {
            Ok(password_context) => Ok(
                VerifySignature { context: password_context.context, hash, signature },
            ),
            Err(status) => Err(status),
        }
    }

    /// Tells a signature that is not valid from a TPM that failed.
    pub fn finish(self, reply: TpmReply<()>) -> (r: Result<ResultAsymVerify>)
        ensures
            r == verdict(reply),
    {
        match reply {
            Ok(()) => Ok(ResultAsymVerify {  }),
            Err(e) => match e.kind {
                Some(Tss2ResponseCodeKind::Signature) => Err(
                    ResponseStatus::PsaErrorInvalidSignature,
                ),
                _ => Err(ResponseStatus::PsaErrorHardwareFailure),
            },
        }
    }
}

} // verus!
