//! The TPM provider and its operations.

use vstd::prelude::*;

use crate::hyphenated_uuid::{is_hyphenated, parse_hyphenated, uuid_octets};
use crate::key_id_managers::{
    may_have_failed, ApplicationName, KeyTriple, KeyTripleView, ManageKeyIDs, Mappings,
};
use crate::operations::{
    KeyType, OpAsymSign, OpAsymVerify, OpCreateKey, OpDestroyKey, OpExportPublicKey, OpImportKey,
    OpListOpcodes, ProviderInfo, ResultDestroyKey, ResultListOpcodes,
};
use crate::password_context::{get_password_context, lookup_outcome, TpmsContextView};
use crate::requests::{Opcode, ProviderID, ResponseStatus, Result};
use crate::rsa_public_key::{import_modulus, importable_modulus};
use crate::tpm::{
    AsymSchemeUnion, CreateRsaSigningKey, LoadExternalRsaPublicKey, ReadPublicKey, Sign,
    VerifySignature, TPM2_ALG_SHA256,
};

verus! {

/// Number of octets of the authorisation value of a key that the provider
/// creates.
pub const AUTH_VAL_LEN: usize = 32;

/// The greatest number of octets that a hash to sign or to verify may have.
pub const MAX_HASH_LEN: usize = 64;

/// The triple of the provider's key with the given name.
pub open spec fn tpm_triple(app_name: Seq<char>, key_name: Seq<char>) -> KeyTripleView {
    KeyTripleView { app_name, provider_id: ProviderID::TpmProvider, key_name }
}

/// The operations of the provider.
pub open spec fn supported_opcodes() -> Seq<Opcode> {
    seq![
        Opcode::CreateKey,
        Opcode::DestroyKey,
        Opcode::AsymSign,
        Opcode::AsymVerify,
        Opcode::ImportKey,
        Opcode::ExportPublicKey,
        Opcode::ListOpcodes,
    ]
}

/// The context that exporting the key of `triple` reads, given by a Key ID
/// Manager that answers.
pub open spec fn export_outcome(mappings: Mappings, triple: KeyTripleView) -> Result<
    TpmsContextView,
> {
    match lookup_outcome(mappings, triple) {
        Ok(c) => Ok(c.context),
        Err(status) => Err(status),
    }
}

/// The context and the authorisation value that signing `hash` with the key of
/// `triple` uses, given by a Key ID Manager that answers.
pub open spec fn sign_outcome(
    mappings: Mappings,
    triple: KeyTripleView,
    hash: Seq<u8>,
) -> Result<(TpmsContextView, Seq<u8>)> {
    if hash.len() > MAX_HASH_LEN {
        Err(ResponseStatus::PsaErrorInvalidArgument)
    } else {
        match lookup_outcome(mappings, triple) {
            Ok(c) => Ok((c.context, c.auth_value)),
            Err(status) => Err(status),
        }
    }
}

/// The context that verifying a signature of `hash` with the key of `triple`
/// uses, given by a Key ID Manager that answers.
pub open spec fn verify_outcome(
    mappings: Mappings,
    triple: KeyTripleView,
    hash: Seq<u8>,
) -> Result<TpmsContextView> {
    if hash.len() > MAX_HASH_LEN {
        Err(ResponseStatus::PsaErrorInvalidArgument)
    } else {
        export_outcome(mappings, triple)
    }
}

/// The mappings and the result that destroying the key of `triple` leaves behind,
/// when `before` were the mappings and the Key ID Manager answers: the triple is
/// free now, and the result tells whether it was mapped.
pub open spec fn removal_outcome(
    before: Mappings,
    triple: KeyTripleView,
    after: Mappings,
    r: Result<ResultDestroyKey>,
) -> bool {
    &&& after == before.remove(triple)
    &&& r == if before.contains_key(triple) {
        Ok(ResultDestroyKey {  })
    } else {
        Err(ResponseStatus::KeyDoesNotExist)
    }
}

/// What destroying the key of `triple` does to the Key ID Manager `before`, and
/// what it results in: the manager answers, or it may fail and did.
pub open spec fn removal_result<K: ManageKeyIDs + ?Sized>(
    before: &K,
    triple: KeyTripleView,
    after: &K,
    r: Result<ResultDestroyKey>,
) -> bool {
    ||| removal_outcome(before.mappings(), triple, after.mappings(), r)
    ||| {
        &&& may_have_failed(before, after)
        &&& r == Err::<ResultDestroyKey, _>(ResponseStatus::KeyIDManagerError)
    }
}

/// What the reply of a Key ID Manager to a removal means for the request.
pub fn removal_status(reply: core::result::Result<Option<Vec<u8>>, String>) -> (r: Result<
    ResultDestroyKey,
>)
    ensures
        r == match reply {
            Err(_) => Err(ResponseStatus::KeyIDManagerError),
            Ok(None) => Err(ResponseStatus::KeyDoesNotExist),
            Ok(Some(_)) => Ok(ResultDestroyKey {  }),
        },
{
    match reply {
        Err(_) => Err(ResponseStatus::KeyIDManagerError),
        Ok(None) => Err(ResponseStatus::KeyDoesNotExist),
        Ok(Some(_)) => Ok(ResultDestroyKey {  }),
    }
}

/// A provider whose keys a TPM holds.
///
/// `C` is the connection to the TPM, and `S` the Key ID Manager, which stores the
/// context of each key and its authorisation value. Both are shared with others,
/// so whoever runs an operation has exclusive use of the connection, and passes a
/// handle of the Key ID Manager that it holds from the first step of the operation
/// to the last.
pub struct TpmProvider<S, C> {
    pub esapi_context: C,
    pub key_id_store: S,
}

impl<S, C> TpmProvider<S, C> {
    /// Creates and initialises a new instance of `TpmProvider`.
    pub fn new(key_id_store: S, esapi_context: C) -> (r: Option<TpmProvider<S, C>>)
        ensures
            r == Some(TpmProvider { esapi_context, key_id_store }),
    {
        Some(TpmProvider { esapi_context, key_id_store })
    }

    /// Lists the operations of the provider.
    pub fn list_opcodes(&self, _op: OpListOpcodes) -> (r: Result<ResultListOpcodes>)
        ensures
            r is Ok,
            r->Ok_0.opcodes@ == supported_opcodes(),
    {
        let opcodes: Vec<Opcode> = vec![
            Opcode::CreateKey,
            Opcode::DestroyKey,
            Opcode::AsymSign,
            Opcode::AsymVerify,
            Opcode::ImportKey,
            Opcode::ExportPublicKey,
            Opcode::ListOpcodes,
        ];
        assert(opcodes@ =~= supported_opcodes());
        Ok(ResultListOpcodes { opcodes })
    }

    /// Describes the provider.
    pub fn describe(&self) -> (r: ProviderInfo)
        ensures
            r.uuid@ == seq![
                0x1eu8, 0x49, 0x54, 0xa4, 0xff, 0x21, 0x46, 0xd3, 0xab, 0x0c, 0x66, 0x1e, 0xeb,
                0x66, 0x7e, 0x1d,
            ],
            r.description@
                == "TPM provider, interfacing with a library implementing the TCG TSS 2.0 Enhanced System API specification."@,
            r.vendor@ == "Trusted Computing Group (TCG)"@,
            r.version_maj == 0,
            r.version_min == 1,
            r.version_rev == 0,
            r.id == ProviderID::TpmProvider,
    {
        proof {
            reveal_strlit("1e4954a4-ff21-46d3-ab0c-661eeb667e1d");
            let s = "1e4954a4-ff21-46d3-ab0c-661eeb667e1d"@;
            assert(is_hyphenated(s));
            assert(uuid_octets(s) =~= seq![
                0x1eu8, 0x49, 0x54, 0xa4, 0xff, 0x21, 0x46, 0xd3, 0xab, 0x0c, 0x66, 0x1e, 0xeb,
                0x66, 0x7e, 0x1d,
            ]);
        }
        ProviderInfo {
            uuid: parse_hyphenated("1e4954a4-ff21-46d3-ab0c-661eeb667e1d"),
            description:
                "TPM provider, interfacing with a library implementing the TCG TSS 2.0 Enhanced System API specification.".to_owned(),
            vendor: "Trusted Computing Group (TCG)".to_owned(),
            version_maj: 0,
            version_min: 1,
            version_rev: 0,
            id: ProviderID::TpmProvider,
        }
    }

    /// Begins to create a key: only RSA key pairs for signing and verifying.
    pub fn create_key(&self, app_name: ApplicationName, op: OpCreateKey) -> (r: Result<
        CreateRsaSigningKey,
    >)
        ensures
            match r {
                Ok(call) => {
                    &&& op.key_attributes.is_rsa_signing_key(KeyType::RsaKeypair)
                    &&& call.key_triple@ == tpm_triple(app_name@, op.key_name@)
                    &&& call.key_size == op.key_attributes.key_size
                    &&& call.auth_value_len == AUTH_VAL_LEN
                },
                Err(status) => {
                    &&& !op.key_attributes.is_rsa_signing_key(KeyType::RsaKeypair)
                    &&& status == ResponseStatus::UnsupportedOperation
                },
            },
    {
        if !op.key_attributes.is_for_rsa_signing(KeyType::RsaKeypair) {
            return Err(ResponseStatus::UnsupportedOperation);
        }
        let key_triple = KeyTriple::new(app_name, ProviderID::TpmProvider, op.key_name);
        let key_size: usize = op.key_attributes.key_size as usize;
        Ok(CreateRsaSigningKey { key_triple, key_size, auth_value_len: AUTH_VAL_LEN })
    }

    /// Begins to import a key: only RSA public keys for verifying, with the public
    /// exponent of the provider and with 1024 bits or more.
    pub fn import_key(&self, app_name: ApplicationName, op: OpImportKey) -> (r: Result<
        LoadExternalRsaPublicKey,
    >)
        ensures
            op.key_attributes.is_rsa_signing_key(KeyType::RsaPublicKey) ==> importable_modulus(
                op.key_data@,
            ) == match r {
                Ok(call) => Ok(call.modulus@),
                Err(status) => Err(status),
            },
            !op.key_attributes.is_rsa_signing_key(KeyType::RsaPublicKey) ==> r
                == Err::<LoadExternalRsaPublicKey, _>(ResponseStatus::UnsupportedOperation),
            r matches Ok(call) ==> call.key_triple@ == tpm_triple(app_name@, op.key_name@),
    {
        if !op.key_attributes.is_for_rsa_signing(KeyType::RsaPublicKey) {
            return Err(ResponseStatus::UnsupportedOperation);
        }
        let key_triple = KeyTriple::new(app_name, ProviderID::TpmProvider, op.key_name);
        match import_modulus(op.key_data.as_slice()) {
            Ok(modulus) => Ok(LoadExternalRsaPublicKey { key_triple, modulus }),
            Err(status) => Err(status),
        }
    }

    /// Begins to export the public part of a key.
    pub fn export_public_key<K: ManageKeyIDs + ?Sized>(
        &self,
        store_handle: &K,
        app_name: ApplicationName,
        op: OpExportPublicKey,
    ) -> (r: Result<ReadPublicKey>)
        ensures
            (store_handle.may_fail() && r matches Err(ResponseStatus::KeyIDManagerError))
                || export_outcome(store_handle.mappings(), tpm_triple(app_name@, op.key_name@))
                == match r {
                Ok(call) => Ok(call.context@),
                Err(status) => Err(status),
            },
    {
        let key_triple = KeyTriple::new(app_name, ProviderID::TpmProvider, op.key_name);
        ReadPublicKey::with(get_password_context(store_handle, key_triple))
    }

    /// Destroys a key.
    pub fn destroy_key<K: ManageKeyIDs + ?Sized>(
        &self,
        store_handle: &mut K,
        app_name: ApplicationName,
        op: OpDestroyKey,
    ) -> (r: Result<ResultDestroyKey>)
        ensures
            removal_result(
                &*old(store_handle),
                tpm_triple(app_name@, op.key_name@),
                &*final(store_handle),
                r,
            ),
    {
        let key_triple = KeyTriple::new(app_name, ProviderID::TpmProvider, op.key_name);
        removal_status(store_handle.remove(&key_triple))
    }

    /// Begins to sign a hash.
    pub fn asym_sign<K: ManageKeyIDs + ?Sized>(
        &self,
        store_handle: &K,
        app_name: ApplicationName,
        op: OpAsymSign,
    ) -> (r: Result<Sign>)
        ensures
            (store_handle.may_fail() && op.hash@.len() <= MAX_HASH_LEN && r matches Err(
                ResponseStatus::KeyIDManagerError,
            )) || sign_outcome(
                store_handle.mappings(),
                tpm_triple(app_name@, op.key_name@),
                op.hash@,
            ) == match r {
                Ok(call) => Ok((call.context@, call.auth_value@)),
                Err(status) => Err(status),
            },
            r matches Ok(call) ==> call.hash@ == op.hash@,
    {
        let key_triple = KeyTriple::new(app_name, ProviderID::TpmProvider, op.key_name);
        if op.hash.len() > MAX_HASH_LEN {
            return Err(ResponseStatus::PsaErrorInvalidArgument);
        }
        Sign::with(get_password_context(store_handle, key_triple), op.hash)
    }

    /// Begins to verify the signature of a hash, which is taken for one by RSASSA
    /// with SHA-256.
    pub fn asym_verify<K: ManageKeyIDs + ?Sized>(
        &self,
        store_handle: &K,
        app_name: ApplicationName,
        op: OpAsymVerify,
    ) -> (r: Result<VerifySignature>)
        ensures
            (store_handle.may_fail() && op.hash@.len() <= MAX_HASH_LEN && r matches Err(
                ResponseStatus::KeyIDManagerError,
            )) || verify_outcome(
                store_handle.mappings(),
                tpm_triple(app_name@, op.key_name@),
                op.hash@,
            ) == match r {
                Ok(call) => Ok(call.context@),
                Err(status) => Err(status),
            },
            r matches Ok(call) ==> {
                &&& call.hash@ == op.hash@
                &&& call.signature.scheme == AsymSchemeUnion::RSASSA(TPM2_ALG_SHA256)
                &&& call.signature.signature@ == op.signature@
            },
    {
        let key_triple = KeyTriple::new(app_name, ProviderID::TpmProvider, op.key_name);
        if op.hash.len() > MAX_HASH_LEN {
            return Err(ResponseStatus::PsaErrorInvalidArgument);
        }
        VerifySignature::with(
            get_password_context(store_handle, key_triple),
            op.hash,
            op.signature,
        )
    }
}

} // verus!
