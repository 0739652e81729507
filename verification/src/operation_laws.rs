//! What the operations do, said of their arguments and their results alone.
//!
//! Each law speaks of results that a function can give: `call_ensures` of the
//! function, its arguments and the result. Keys are told apart by the names in
//! their triples, and what a Key ID Manager holds is a map.

use vstd::prelude::*;

use crate::builder::{CreateTransientObjectContext, Tcti, TpmProviderBuilder};
use crate::in_memory::InMemoryKeyIDManager;
use crate::key_id_managers::{
    ApplicationName, KeyTriple, KeyTripleView, ManageKeyIDs, Mappings,
};
use crate::laws::{opcodes_are_listed_once, stored_key_is_found};
use crate::operations::{
    Algorithm, KeyType, OpAsymSign, OpAsymVerify, OpCreateKey, OpDestroyKey,
    OpExportPublicKey, OpImportKey, OpListOpcodes, ResultAsymSign, ResultAsymVerify,
    ResultCreateKey, ResultDestroyKey, ResultExportPublicKey, ResultImportKey, ResultListOpcodes,
    SignAlgorithm,
};
use crate::password_context::{
    encoded, found_password_context, get_password_context,
    insert_password_context, insertion_status, lookup_outcome, starts_with_context, PasswordContext,
    PasswordContextView, TpmsContext, TpmsContextView,
};
use crate::provider::{removal_status, TpmProvider};
use crate::requests::{Opcode, ProviderID, ResponseStatus, Result};
use crate::rsa_public_key::{
    decoded_key, der_length, export_key, exported_key_imports_back, import_modulus,
    lemma_exported_parts, magnitude, well_nested, PUBLIC_EXPONENT,
};
use crate::tpm::{
    status_of, AsymSchemeUnion, CreateRsaSigningKey, LoadExternalRsaPublicKey, ReadPublicKey, Sign,
    Signature, TpmReply, Tss2ResponseCodeKind, VerifySignature,
};

verus! {

/// Creating a key asks the TPM for an RSA signing key of the given size, with an
/// authorisation value of 32 octets, if and only if the key is an RSA key pair for
/// PKCS #1 v1.5 signatures with no hash named; other keys are not supported.
pub proof fn creation_asks_for_a_signing_key<S, C>(
    provider: &TpmProvider<S, C>,
    app_name: ApplicationName,
    op: OpCreateKey,
    r: Result<CreateRsaSigningKey>,
)
    requires
        call_ensures(TpmProvider::<S, C>::create_key, (provider, app_name, op), r),
    ensures
        r is Ok <==> {
            &&& op.key_attributes.key_type == KeyType::RsaKeypair
            &&& op.key_attributes.algorithm == Algorithm::Sign(SignAlgorithm::RsaPkcs1v15Sign, None)
        },
        r matches Err(status) ==> status == ResponseStatus::UnsupportedOperation,
        r matches Ok(call) ==> {
            &&& call.key_triple.app_name.name@ == app_name.name@
            &&& call.key_triple.provider_id == ProviderID::TpmProvider
            &&& call.key_triple.key_name@ == op.key_name@
            &&& call.key_size == op.key_attributes.key_size
            &&& call.auth_value_len == 32
        },
{
}

/// Keys of all sizes are created alike: what type a key has and what it is for
/// decide whether it is supported.
pub proof fn creation_supports_all_sizes<S, C>(
    provider: &TpmProvider<S, C>,
    app_name: ApplicationName,
    op: OpCreateKey,
    r: Result<CreateRsaSigningKey>,
    other_name: ApplicationName,
    other: OpCreateKey,
    s: Result<CreateRsaSigningKey>,
)
    requires
        call_ensures(TpmProvider::<S, C>::create_key, (provider, app_name, op), r),
        call_ensures(TpmProvider::<S, C>::create_key, (provider, other_name, other), s),
        op.key_attributes.key_type == other.key_attributes.key_type,
        op.key_attributes.algorithm == other.key_attributes.algorithm,
    ensures
        r is Ok <==> s is Ok,
{
}

/// Importing a key hands the TPM a modulus only for an RSA public key for PKCS #1
/// v1.5 signatures with no hash named; the others are not supported, whatever
/// their data.
pub proof fn import_takes_public_keys<S, C>(
    provider: &TpmProvider<S, C>,
    app_name: ApplicationName,
    op: OpImportKey,
    r: Result<LoadExternalRsaPublicKey>,
)
    requires
        call_ensures(TpmProvider::<S, C>::import_key, (provider, app_name, op), r),
    ensures
        !(op.key_attributes.key_type == KeyType::RsaPublicKey && op.key_attributes.algorithm
            == Algorithm::Sign(SignAlgorithm::RsaPkcs1v15Sign, None)) ==> r is Err && r->Err_0
            == ResponseStatus::UnsupportedOperation,
        r matches Ok(call) ==> {
            &&& op.key_attributes.key_type == KeyType::RsaPublicKey
            &&& op.key_attributes.algorithm == Algorithm::Sign(SignAlgorithm::RsaPkcs1v15Sign, None)
            &&& call.key_triple.app_name.name@ == app_name.name@
            &&& call.key_triple.provider_id == ProviderID::TpmProvider
            &&& call.key_triple.key_name@ == op.key_name@
        },
{
}

/// What importing does with the data of a public key depends on nothing else: it is
/// what `import_modulus` does with them, whatever the size in the attributes.
pub proof fn import_decides_by_the_data<S, C>(
    provider: &TpmProvider<S, C>,
    app_name: ApplicationName,
    op: OpImportKey,
    r: Result<LoadExternalRsaPublicKey>,
    key_data: &[u8],
    s: Result<Vec<u8>>,
)
    requires
        call_ensures(TpmProvider::<S, C>::import_key, (provider, app_name, op), r),
        call_ensures(import_modulus, (key_data,), s),
        op.key_attributes.key_type == KeyType::RsaPublicKey,
        op.key_attributes.algorithm == Algorithm::Sign(SignAlgorithm::RsaPkcs1v15Sign, None),
        key_data@ == op.key_data@,
    ensures
        r is Ok <==> s is Ok,
        r is Ok ==> r->Ok_0.modulus@ == s->Ok_0@,
        r is Err ==> r->Err_0 == s->Err_0,
{
}

/// A modulus is imported only out of data that decode to a key with it: the
/// exponent of that key is 65537, and its modulus without a sign octet is the one
/// imported, of 128 octets or more. Data that decode to such a key are imported.
pub proof fn imported_modulus_is_that_of_the_key(key_data: &[u8], r: Result<Vec<u8>>)
    requires
        call_ensures(import_modulus, (key_data,), r),
    ensures
        r is Ok <==> {
            &&& well_nested(key_data@)
            &&& decoded_key(key_data@) is Some
            &&& magnitude(decoded_key(key_data@)->Some_0.public_exponent) == seq![1u8, 0, 1]
            &&& magnitude(decoded_key(key_data@)->Some_0.modulus).len() >= 128
        },
        r matches Ok(modulus) ==> {
            &&& modulus@ == magnitude(decoded_key(key_data@)->Some_0.modulus)
            &&& modulus@.len() >= 128
        },
{
    assert(PUBLIC_EXPONENT@ =~= seq![1u8, 0, 1]);
}

/// Data that are no key are refused as such; a key that the provider does not
/// handle is refused for that.
pub proof fn refused_data_are_told_apart(key_data: &[u8], r: Result<Vec<u8>>)
    requires
        call_ensures(import_modulus, (key_data,), r),
    ensures
        r is Err && r->Err_0 == ResponseStatus::PsaErrorCommunicationFailure <==> !well_nested(
            key_data@,
        ) || decoded_key(key_data@) is None,
        r is Err ==> r->Err_0 == ResponseStatus::PsaErrorCommunicationFailure || r->Err_0
            == ResponseStatus::UnsupportedOperation,
{
}

/// An exported key is a SEQUENCE of two INTEGERs, each behind its tag and its
/// length octets: the modulus, with a zero octet before it if and only if its
/// first octet has the highest bit set, and 65537.
pub proof fn exported_key_holds_the_modulus(modulus: Vec<u8>, r: Result<Vec<u8>>)
    requires
        call_ensures(export_key, (modulus,), r),
        modulus@.len() + 32 <= isize::MAX / 2,
    ensures
        r is Ok,
        ({
            let n = if modulus@.len() > 0 && modulus@[0] >= 128 {
                seq![0u8] + modulus@
            } else {
                modulus@
            };
            let objects = seq![0x02u8] + der_length(n.len()) + n + seq![
                0x02u8,
                0x03,
                0x01,
                0x00,
                0x01,
            ];
            r->Ok_0@ == seq![0x30u8] + der_length(objects.len()) + objects
        }),
{
    lemma_exported_parts(modulus@);
}

/// An exported key can be imported, and gives the TPM the modulus that it came
/// from. (The modulus of an RSA key starts with an octet that is not zero.)
pub proof fn export_and_import_give_the_modulus_back(
    modulus: Vec<u8>,
    r: Result<Vec<u8>>,
    key_data: &[u8],
    s: Result<Vec<u8>>,
)
    requires
        call_ensures(export_key, (modulus,), r),
        call_ensures(import_modulus, (key_data,), s),
        key_data@ == r->Ok_0@,
        128 <= modulus@.len() <= isize::MAX / 2 - 32,
        modulus@[0] != 0,
    ensures
        r is Ok,
        s is Ok,
        s->Ok_0@ == modulus@,
{
    lemma_exported_parts(modulus@);
    exported_key_imports_back(modulus@);
}

/// A password context is stored whenever storing it succeeds, and nothing else
/// changes; it succeeds where the triple is free and the Key ID Manager answers. A
/// triple that is taken is told as such, and maps to the new context all the same.
pub proof fn insertion_stores_the_context<K: ManageKeyIDs + ?Sized>(
    store: &mut K,
    key_triple: KeyTriple,
    c: PasswordContext,
    r: Result<()>,
)
    requires
        call_ensures(insert_password_context::<K>, (store, key_triple, c), r),
    ensures
        ({
            let triple = KeyTripleView {
                app_name: key_triple.app_name.name@,
                provider_id: key_triple.provider_id,
                key_name: key_triple.key_name@,
            };
            let before = old(store).mappings();
            let after = final(store).mappings();
            let stored = before.insert(
                triple,
                encoded(
                    PasswordContextView {
                        context: TpmsContextView {
                            sequence: c.context.sequence,
                            saved_handle: c.context.saved_handle,
                            hierarchy: c.context.hierarchy,
                            context_blob: c.context.context_blob@,
                        },
                        auth_value: c.auth_value@,
                    },
                ),
            );
            &&& r is Ok ==> !before.contains_key(triple) && after == stored
            &&& r is Err && r->Err_0 == ResponseStatus::KeyAlreadyExists ==> before.contains_key(
                triple,
            ) && after == stored
            &&& r is Err ==> r->Err_0 == ResponseStatus::KeyAlreadyExists || (r->Err_0
                == ResponseStatus::KeyIDManagerError && old(store).may_fail() && old(
                store,
            ).may_leave(after))
            &&& !old(store).may_fail() ==> after == stored && (r is Ok <==> !before.contains_key(
                triple,
            ))
        }),
{
}

/// A key that the TPM has created is stored with its context and its authorisation
/// value, and creating it succeeds, where its triple is free and the Key ID Manager
/// answers. Only a TPM that failed is told as a hardware failure, and then nothing
/// is stored.
pub proof fn created_key_is_stored<K: ManageKeyIDs + ?Sized>(
    call: CreateRsaSigningKey,
    store: &mut K,
    reply: TpmReply<(TpmsContext, Vec<u8>)>,
    r: Result<ResultCreateKey>,
)
    requires
        call_ensures(CreateRsaSigningKey::finish::<K>, (call, store, reply), r),
    ensures
        r is Err && r->Err_0 == ResponseStatus::PsaErrorHardwareFailure <==> reply is Err,
        reply is Err ==> final(store).mappings() == old(store).mappings(),
        reply matches Ok((context, auth_value)) ==> {
            let triple = KeyTripleView {
                app_name: call.key_triple.app_name.name@,
                provider_id: call.key_triple.provider_id,
                key_name: call.key_triple.key_name@,
            };
            let before = old(store).mappings();
            let after = final(store).mappings();
            let stored = before.insert(
                triple,
                encoded(
                    PasswordContextView {
                        context: TpmsContextView {
                            sequence: context.sequence,
                            saved_handle: context.saved_handle,
                            hierarchy: context.hierarchy,
                            context_blob: context.context_blob@,
                        },
                        auth_value: auth_value@,
                    },
                ),
            );
            &&& r is Ok ==> !before.contains_key(triple) && after == stored
            &&& r is Err ==> (r->Err_0 == ResponseStatus::KeyAlreadyExists && before.contains_key(
                triple,
            ) && after == stored) || (r->Err_0 == ResponseStatus::KeyIDManagerError && old(
                store,
            ).may_fail() && old(store).may_leave(after))
            &&& !old(store).may_fail() ==> after == stored && (r is Ok <==> !before.contains_key(
                triple,
            ))
        },
{
}

/// A key that the TPM has loaded is stored with its context and no authorisation
/// value, and importing it succeeds, where its triple is free and the Key ID
/// Manager answers. Only a TPM that failed is told as a hardware failure, and then
/// nothing is stored.
pub proof fn loaded_key_is_stored<K: ManageKeyIDs + ?Sized>(
    call: LoadExternalRsaPublicKey,
    store: &mut K,
    reply: TpmReply<TpmsContext>,
    r: Result<ResultImportKey>,
)
    requires
        call_ensures(LoadExternalRsaPublicKey::finish::<K>, (call, store, reply), r),
    ensures
        r is Err && r->Err_0 == ResponseStatus::PsaErrorHardwareFailure <==> reply is Err,
        reply is Err ==> final(store).mappings() == old(store).mappings(),
        reply matches Ok(context) ==> {
            let triple = KeyTripleView {
                app_name: call.key_triple.app_name.name@,
                provider_id: call.key_triple.provider_id,
                key_name: call.key_triple.key_name@,
            };
            let before = old(store).mappings();
            let after = final(store).mappings();
            let stored = before.insert(
                triple,
                encoded(
                    PasswordContextView {
                        context: TpmsContextView {
                            sequence: context.sequence,
                            saved_handle: context.saved_handle,
                            hierarchy: context.hierarchy,
                            context_blob: context.context_blob@,
                        },
                        auth_value: seq![],
                    },
                ),
            );
            &&& r is Ok ==> !before.contains_key(triple) && after == stored
            &&& r is Err ==> (r->Err_0 == ResponseStatus::KeyAlreadyExists && before.contains_key(
                triple,
            ) && after == stored) || (r->Err_0 == ResponseStatus::KeyIDManagerError && old(
                store,
            ).may_fail() && old(store).may_leave(after))
            &&& !old(store).may_fail() ==> after == stored && (r is Ok <==> !before.contains_key(
                triple,
            ))
        },
{
}

/// A key is destroyed whenever destroying it succeeds: its triple was mapped and is
/// not any more, and nothing else changes. It succeeds where the triple is mapped
/// and the Key ID Manager answers.
pub proof fn destroyed_key_is_gone<S, C, K: ManageKeyIDs + ?Sized>(
    provider: &TpmProvider<S, C>,
    store: &mut K,
    app_name: ApplicationName,
    op: OpDestroyKey,
    r: Result<ResultDestroyKey>,
)
    requires
        call_ensures(TpmProvider::<S, C>::destroy_key::<K>, (provider, store, app_name, op), r),
    ensures
        ({
            let triple = KeyTripleView {
                app_name: app_name.name@,
                provider_id: ProviderID::TpmProvider,
                key_name: op.key_name@,
            };
            let before = old(store).mappings();
            let after = final(store).mappings();
            &&& r is Ok ==> before.contains_key(triple) && after == before.remove(triple)
            &&& r is Err ==> (r->Err_0 == ResponseStatus::KeyDoesNotExist && !before.contains_key(
                triple,
            ) && after == before) || (r->Err_0 == ResponseStatus::KeyIDManagerError && old(
                store,
            ).may_fail() && old(store).may_leave(after))
            &&& !old(store).may_fail() ==> after == before.remove(triple) && (r is Ok
                <==> before.contains_key(triple))
        }),
{
    let triple = KeyTripleView {
        app_name: app_name.name@,
        provider_id: ProviderID::TpmProvider,
        key_name: op.key_name@,
    };
    if !old(store).mappings().contains_key(triple) {
        assert(old(store).mappings().remove(triple) =~= old(store).mappings());
    }
}

/// A lookup gives a context only where the triple is mapped to bytes that start
/// with its encoding, and tells that there is no key only where the triple is not
/// mapped. Otherwise the Key ID Manager is at fault: it may fail, or the bytes start
/// with no encoding.
pub proof fn lookup_reads_the_mapping<K: ManageKeyIDs + ?Sized>(
    store: &K,
    key_triple: KeyTriple,
    r: Result<PasswordContext>,
)
    requires
        call_ensures(get_password_context::<K>, (store, key_triple), r),
    ensures
        ({
            let triple = KeyTripleView {
                app_name: key_triple.app_name.name@,
                provider_id: key_triple.provider_id,
                key_name: key_triple.key_name@,
            };
            let held = store.mappings();
            &&& r is Ok ==> {
                let c = r->Ok_0;
                held.contains_key(triple) && encoded(
                    PasswordContextView {
                        context: TpmsContextView {
                            sequence: c.context.sequence,
                            saved_handle: c.context.saved_handle,
                            hierarchy: c.context.hierarchy,
                            context_blob: c.context.context_blob@,
                        },
                        auth_value: c.auth_value@,
                    },
                ).is_prefix_of(held[triple])
            }
            &&& r is Err && r->Err_0 == ResponseStatus::KeyDoesNotExist ==> !held.contains_key(
                triple,
            )
            &&& r is Err && r->Err_0 != ResponseStatus::KeyDoesNotExist ==> {
                &&& r->Err_0 == ResponseStatus::KeyIDManagerError
                &&& store.may_fail() || (held.contains_key(triple) && forall|
                    c: PasswordContextView,
                | !#[trigger] encoded(c).is_prefix_of(held[triple]))
            }
        }),
{
    let held = store.mappings();
    let triple = key_triple@;
    if held.contains_key(triple) && !store.may_fail() {
        assert forall|c: PasswordContextView| #[trigger] encoded(c).is_prefix_of(
            held[triple],
        ) implies r is Ok by {
            assert(starts_with_context(held[triple], c));
        }
    }
}

/// Signing, verifying and exporting reach the TPM only with what the key's triple
/// is mapped to, and tell that there is no key only where the triple is not mapped,
/// whether the Key ID Manager may fail or not.
pub proof fn calls_come_from_the_mapping<S, C, K: ManageKeyIDs + ?Sized>(
    provider: &TpmProvider<S, C>,
    store: &K,
    app_names: (ApplicationName, ApplicationName, ApplicationName),
    sign: OpAsymSign,
    verify: OpAsymVerify,
    export: OpExportPublicKey,
    signing: Result<Sign>,
    verifying: Result<VerifySignature>,
    exporting: Result<ReadPublicKey>,
)
    requires
        call_ensures(
            TpmProvider::<S, C>::asym_sign::<K>,
            (provider, store, app_names.0, sign),
            signing,
        ),
        call_ensures(
            TpmProvider::<S, C>::asym_verify::<K>,
            (provider, store, app_names.1, verify),
            verifying,
        ),
        call_ensures(
            TpmProvider::<S, C>::export_public_key::<K>,
            (provider, store, app_names.2, export),
            exporting,
        ),
        app_names.0.name@ == app_names.2.name@,
        app_names.1.name@ == app_names.2.name@,
        sign.key_name@ == export.key_name@,
        verify.key_name@ == export.key_name@,
    ensures
        ({
            let triple = KeyTripleView {
                app_name: app_names.2.name@,
                provider_id: ProviderID::TpmProvider,
                key_name: export.key_name@,
            };
            let held = store.mappings();
            &&& signing is Ok ==> held.contains_key(triple) && sign.hash@.len() <= 64 && encoded(
                PasswordContextView {
                    context: signing->Ok_0.context@,
                    auth_value: signing->Ok_0.auth_value@,
                },
            ).is_prefix_of(held[triple])
            &&& verifying is Ok ==> held.contains_key(triple) && verify.hash@.len() <= 64
                && exists|c: PasswordContextView| #[trigger]
                encoded(c).is_prefix_of(held[triple]) && c.context == verifying->Ok_0.context@
            &&& exporting is Ok ==> held.contains_key(triple) && exists|c: PasswordContextView|
                #[trigger] encoded(c).is_prefix_of(held[triple]) && c.context
                    == exporting->Ok_0.context@
            &&& signing is Err && signing->Err_0 == ResponseStatus::KeyDoesNotExist
                ==> !held.contains_key(triple)
            &&& verifying is Err && verifying->Err_0 == ResponseStatus::KeyDoesNotExist
                ==> !held.contains_key(triple)
            &&& exporting is Err && exporting->Err_0 == ResponseStatus::KeyDoesNotExist
                ==> !held.contains_key(triple)
            &&& signing is Err ==> signing->Err_0 == ResponseStatus::PsaErrorInvalidArgument
                || signing->Err_0 == ResponseStatus::KeyDoesNotExist || signing->Err_0
                == ResponseStatus::KeyIDManagerError
            &&& verifying is Err ==> verifying->Err_0 == ResponseStatus::PsaErrorInvalidArgument
                || verifying->Err_0 == ResponseStatus::KeyDoesNotExist || verifying->Err_0
                == ResponseStatus::KeyIDManagerError
            &&& exporting is Err ==> exporting->Err_0 == ResponseStatus::KeyDoesNotExist
                || exporting->Err_0 == ResponseStatus::KeyIDManagerError
        }),
{
    let triple = KeyTripleView {
        app_name: app_names.2.name@,
        provider_id: ProviderID::TpmProvider,
        key_name: export.key_name@,
    };
    let held = store.mappings();
    if held.contains_key(triple) && lookup_outcome(held, triple) is Ok {
        let c = lookup_outcome(held, triple)->Ok_0;
        assert(starts_with_context(held[triple], c));
        assert(encoded(c).is_prefix_of(held[triple]));
    }
}

/// What the reply of a Key ID Manager to a lookup makes of the request: a failure,
/// a key that does not exist, or the context that the bytes start with.
pub proof fn found_bytes_are_read(
    reply: core::result::Result<Option<&[u8]>, String>,
    r: Result<PasswordContext>,
)
    requires
        call_ensures(found_password_context, (reply,), r),
    ensures
        reply is Err ==> r is Err && r->Err_0 == ResponseStatus::KeyIDManagerError,
        reply is Ok ==> (reply->Ok_0 is None <==> r is Err && r->Err_0
            == ResponseStatus::KeyDoesNotExist),
        r is Ok ==> reply is Ok && reply->Ok_0 is Some && encoded(r->Ok_0@).is_prefix_of(
            reply->Ok_0->Some_0@,
        ),
        reply is Ok && reply->Ok_0 is Some && r is Err ==> forall|c: PasswordContextView|
            !#[trigger] encoded(c).is_prefix_of(reply->Ok_0->Some_0@),
{
    if reply is Ok && reply->Ok_0 is Some {
        let bytes = reply->Ok_0->Some_0@;
        assert forall|c: PasswordContextView| #[trigger] encoded(c).is_prefix_of(
            bytes,
        ) implies r is Ok by {
            assert(starts_with_context(bytes, c));
        }
    }
}

/// What the replies of a Key ID Manager to an insertion and to a removal make of
/// the request.
pub proof fn replies_decide(
    reply: core::result::Result<Option<Vec<u8>>, String>,
    inserted: Result<()>,
    removed: Result<ResultDestroyKey>,
)
    requires
        call_ensures(insertion_status, (reply,), inserted),
        call_ensures(removal_status, (reply,), removed),
    ensures
        inserted is Ok <==> reply is Ok && reply->Ok_0 is None,
        removed is Ok <==> reply is Ok && reply->Ok_0 is Some,
        inserted is Err && removed is Err ==> inserted->Err_0 == ResponseStatus::KeyIDManagerError
            && removed->Err_0 == ResponseStatus::KeyIDManagerError && reply is Err,
        reply is Ok && inserted is Err ==> inserted->Err_0 == ResponseStatus::KeyAlreadyExists,
        reply is Ok && removed is Err ==> removed->Err_0 == ResponseStatus::KeyDoesNotExist,
{
}

/// Signing, verifying and exporting do with a key what a lookup of its triple
/// finds: they hand the TPM the context that was found, and signing its
/// authorisation value, or give the status of the lookup.
pub proof fn found_key_is_used<S, C, K: ManageKeyIDs + ?Sized>(
    provider: &TpmProvider<S, C>,
    store: &K,
    app_names: (ApplicationName, ApplicationName, ApplicationName),
    sign: OpAsymSign,
    verify: OpAsymVerify,
    export: OpExportPublicKey,
    key_triple: KeyTriple,
    found: Result<PasswordContext>,
    signing: Result<Sign>,
    verifying: Result<VerifySignature>,
    exporting: Result<ReadPublicKey>,
)
    requires
        call_ensures(get_password_context::<K>, (store, key_triple), found),
        call_ensures(
            TpmProvider::<S, C>::asym_sign::<K>,
            (provider, store, app_names.0, sign),
            signing,
        ),
        call_ensures(
            TpmProvider::<S, C>::asym_verify::<K>,
            (provider, store, app_names.1, verify),
            verifying,
        ),
        call_ensures(
            TpmProvider::<S, C>::export_public_key::<K>,
            (provider, store, app_names.2, export),
            exporting,
        ),
        !store.may_fail(),
        key_triple.provider_id == ProviderID::TpmProvider,
        app_names.0.name@ == key_triple.app_name.name@,
        app_names.1.name@ == key_triple.app_name.name@,
        app_names.2.name@ == key_triple.app_name.name@,
        sign.key_name@ == key_triple.key_name@,
        verify.key_name@ == key_triple.key_name@,
        export.key_name@ == key_triple.key_name@,
        sign.hash@.len() <= 64,
        verify.hash@.len() <= 64,
    ensures
        found is Ok <==> signing is Ok,
        found is Ok <==> verifying is Ok,
        found is Ok <==> exporting is Ok,
        found is Err ==> {
            &&& signing->Err_0 == found->Err_0
            &&& verifying->Err_0 == found->Err_0
            &&& exporting->Err_0 == found->Err_0
        },
        found is Ok ==> {
            let c = found->Ok_0.context;
            let (s, v, e) = (signing->Ok_0, verifying->Ok_0, exporting->Ok_0);
            &&& s.auth_value@ == found->Ok_0.auth_value@
            &&& s.hash@ == sign.hash@
            &&& s.context.sequence == c.sequence && s.context.saved_handle == c.saved_handle
            &&& s.context.hierarchy == c.hierarchy && s.context.context_blob@ == c.context_blob@
            &&& v.hash@ == verify.hash@
            &&& v.signature.scheme == AsymSchemeUnion::RSASSA(0x000b)
            &&& v.signature.signature@ == verify.signature@
            &&& v.context.sequence == c.sequence && v.context.saved_handle == c.saved_handle
            &&& v.context.hierarchy == c.hierarchy && v.context.context_blob@ == c.context_blob@
            &&& e.context.sequence == c.sequence && e.context.saved_handle == c.saved_handle
            &&& e.context.hierarchy == c.hierarchy && e.context.context_blob@ == c.context_blob@
        },
{
}

/// A hash of more than 64 octets is refused, whatever the Key ID Manager does, and
/// no other hash is refused for its length.
pub proof fn hashes_have_a_greatest_length<S, C, K: ManageKeyIDs + ?Sized>(
    provider: &TpmProvider<S, C>,
    store: &K,
    app_names: (ApplicationName, ApplicationName),
    sign: OpAsymSign,
    verify: OpAsymVerify,
    signing: Result<Sign>,
    verifying: Result<VerifySignature>,
)
    requires
        call_ensures(
            TpmProvider::<S, C>::asym_sign::<K>,
            (provider, store, app_names.0, sign),
            signing,
        ),
        call_ensures(
            TpmProvider::<S, C>::asym_verify::<K>,
            (provider, store, app_names.1, verify),
            verifying,
        ),
    ensures
        signing is Err && signing->Err_0 == ResponseStatus::PsaErrorInvalidArgument
            <==> sign.hash@.len() > 64,
        verifying is Err && verifying->Err_0 == ResponseStatus::PsaErrorInvalidArgument
            <==> verify.hash@.len() > 64,
{
}

/// A key that has been created signs: the TPM is handed the context and the
/// authorisation value that it gave, and the hash.
pub proof fn created_key_signs<S, C, K: ManageKeyIDs + ?Sized>(
    call: CreateRsaSigningKey,
    store: &mut K,
    context: TpmsContext,
    auth_value: Vec<u8>,
    r: Result<ResultCreateKey>,
    provider: &TpmProvider<S, C>,
    later: &K,
    app_name: ApplicationName,
    op: OpAsymSign,
    s: Result<Sign>,
)
    requires
        call_ensures(
            CreateRsaSigningKey::finish::<K>,
            (call, store, Ok((context, auth_value))),
            r,
        ),
        r is Ok,
        32 + context.context_blob@.len() + auth_value@.len() <= isize::MAX,
        call.key_triple.provider_id == ProviderID::TpmProvider,
        later.mappings() == final(store).mappings(),
        !later.may_fail(),
        app_name.name@ == call.key_triple.app_name.name@,
        op.key_name@ == call.key_triple.key_name@,
        op.hash@.len() <= 64,
        call_ensures(TpmProvider::<S, C>::asym_sign::<K>, (provider, later, app_name, op), s),
    ensures
        s is Ok,
        s->Ok_0.auth_value@ == auth_value@,
        s->Ok_0.hash@ == op.hash@,
        s->Ok_0.context.sequence == context.sequence,
        s->Ok_0.context.saved_handle == context.saved_handle,
        s->Ok_0.context.hierarchy == context.hierarchy,
        s->Ok_0.context.context_blob@ == context.context_blob@,
{
    let c = PasswordContextView { context: context@, auth_value: auth_value@ };
    stored_key_is_found(
        old(store).mappings(),
        call.key_triple@,
        c,
        final(store).mappings(),
        status_of(r),
    );
}

/// A key that has been imported verifies: the TPM is handed the context that it
/// gave, the hash and the signature, as one by RSASSA with SHA-256.
pub proof fn imported_key_verifies<S, C, K: ManageKeyIDs + ?Sized>(
    call: LoadExternalRsaPublicKey,
    store: &mut K,
    context: TpmsContext,
    r: Result<ResultImportKey>,
    provider: &TpmProvider<S, C>,
    later: &K,
    app_name: ApplicationName,
    op: OpAsymVerify,
    s: Result<VerifySignature>,
)
    requires
        call_ensures(LoadExternalRsaPublicKey::finish::<K>, (call, store, Ok(context)), r),
        r is Ok,
        32 + context.context_blob@.len() <= isize::MAX,
        call.key_triple.provider_id == ProviderID::TpmProvider,
        later.mappings() == final(store).mappings(),
        !later.may_fail(),
        app_name.name@ == call.key_triple.app_name.name@,
        op.key_name@ == call.key_triple.key_name@,
        op.hash@.len() <= 64,
        call_ensures(TpmProvider::<S, C>::asym_verify::<K>, (provider, later, app_name, op), s),
    ensures
        s is Ok,
        s->Ok_0.hash@ == op.hash@,
        s->Ok_0.signature.scheme == AsymSchemeUnion::RSASSA(0x000b),
        s->Ok_0.signature.signature@ == op.signature@,
        s->Ok_0.context.sequence == context.sequence,
        s->Ok_0.context.saved_handle == context.saved_handle,
        s->Ok_0.context.hierarchy == context.hierarchy,
        s->Ok_0.context.context_blob@ == context.context_blob@,
{
    let c = PasswordContextView { context: context@, auth_value: seq![] };
    stored_key_is_found(
        old(store).mappings(),
        call.key_triple@,
        c,
        final(store).mappings(),
        status_of(r),
    );
}

/// A key that has been destroyed neither signs nor can be destroyed again: both
/// are told that it does not exist.
pub proof fn destroyed_key_is_not_used<S, C, K: ManageKeyIDs + ?Sized>(
    provider: &TpmProvider<S, C>,
    store: &mut K,
    app_name: ApplicationName,
    op: OpDestroyKey,
    r: Result<ResultDestroyKey>,
    later: &mut K,
    app_names: (ApplicationName, ApplicationName),
    sign: OpAsymSign,
    s: Result<Sign>,
    again: OpDestroyKey,
    q: Result<ResultDestroyKey>,
)
    requires
        call_ensures(TpmProvider::<S, C>::destroy_key::<K>, (provider, store, app_name, op), r),
        r is Ok,
        old(later).mappings() == final(store).mappings(),
        !old(later).may_fail(),
        app_names.0.name@ == app_name.name@,
        app_names.1.name@ == app_name.name@,
        sign.key_name@ == op.key_name@,
        again.key_name@ == op.key_name@,
        sign.hash@.len() <= 64,
        call_ensures(
            TpmProvider::<S, C>::asym_sign::<K>,
            (provider, &*old(later), app_names.0, sign),
            s,
        ),
        call_ensures(
            TpmProvider::<S, C>::destroy_key::<K>,
            (provider, later, app_names.1, again),
            q,
        ),
    ensures
        s is Err,
        s->Err_0 == ResponseStatus::KeyDoesNotExist,
        q is Err,
        q->Err_0 == ResponseStatus::KeyDoesNotExist,
{
}

/// What the TPM answers to an export decides its result: the key with the modulus
/// that was read, as `export_key` writes it, or a hardware failure.
pub proof fn read_modulus_is_exported(
    call: ReadPublicKey,
    reply: TpmReply<Vec<u8>>,
    r: Result<ResultExportPublicKey>,
    modulus: Vec<u8>,
    s: Result<Vec<u8>>,
)
    requires
        call_ensures(ReadPublicKey::finish, (call, reply), r),
        call_ensures(export_key, (modulus,), s),
        reply matches Ok(m) ==> m@ == modulus@,
    ensures
        r is Ok <==> reply is Ok,
        r is Err ==> r->Err_0 == ResponseStatus::PsaErrorHardwareFailure,
        r is Ok ==> s is Ok && r->Ok_0.key_data@ == s->Ok_0@,
{
}

/// What the TPM answers to a signature decides its result: the octets that were
/// made, or a hardware failure.
pub proof fn made_signature_is_given(
    call: Sign,
    reply: TpmReply<Signature>,
    r: Result<ResultAsymSign>,
)
    requires
        call_ensures(Sign::finish, (call, reply), r),
    ensures
        r is Ok <==> reply is Ok,
        r is Err ==> r->Err_0 == ResponseStatus::PsaErrorHardwareFailure,
        r is Ok ==> r->Ok_0.signature@ == reply->Ok_0.signature@,
{
}

/// What the TPM answers to a verification decides its result: it succeeds if and
/// only if the TPM says so, and only an error of the kind for signatures is told
/// as a signature that is not valid.
pub proof fn verdict_is_given(call: VerifySignature, reply: TpmReply<()>, r: Result<ResultAsymVerify>)
    requires
        call_ensures(VerifySignature::finish, (call, reply), r),
    ensures
        r is Ok <==> reply is Ok,
        r is Err && r->Err_0 == ResponseStatus::PsaErrorInvalidSignature <==> reply is Err
            && reply->Err_0.kind == Some(Tss2ResponseCodeKind::Signature),
        r is Err && r->Err_0 == ResponseStatus::PsaErrorHardwareFailure <==> reply is Err
            && reply->Err_0.kind != Some(Tss2ResponseCodeKind::Signature),
{
}

/// The provider lists each operation of the service once, but for the two that
/// concern the service as a whole.
pub proof fn operations_are_listed<S, C>(
    provider: &TpmProvider<S, C>,
    op: OpListOpcodes,
    r: Result<ResultListOpcodes>,
)
    requires
        call_ensures(TpmProvider::<S, C>::list_opcodes, (provider, op), r),
    ensures
        r is Ok,
        r->Ok_0.opcodes@.no_duplicates(),
        forall|opcode: Opcode|
            r->Ok_0.opcodes@.contains(opcode) <==> opcode != Opcode::Ping && opcode
                != Opcode::ListProviders,
{
    opcodes_are_listed_once();
}

/// A provider is made of what it is given.
pub proof fn provider_has_its_parts<S, C>(
    key_id_store: S,
    esapi_context: C,
    r: Option<TpmProvider<S, C>>,
)
    requires
        call_ensures(TpmProvider::<S, C>::new, (key_id_store, esapi_context), r),
    ensures
        r is Some,
        r->Some_0.key_id_store == key_id_store,
        r->Some_0.esapi_context == esapi_context,
{
}

/// A Key ID Manager that has answered an insertion gives those bytes to a lookup of
/// the triple, and to lookups of other triples what it gave before.
pub proof fn inserted_bytes_are_got<K: ManageKeyIDs>(
    store: &mut K,
    key_triple: KeyTriple,
    key_id: Vec<u8>,
    r: core::result::Result<Option<Vec<u8>>, String>,
    later: &K,
    other: &KeyTriple,
    got: core::result::Result<Option<&[u8]>, String>,
    earlier: core::result::Result<Option<&[u8]>, String>,
)
    requires
        call_ensures(K::insert, (store, key_triple, key_id), r),
        r is Ok,
        later.mappings() == final(store).mappings(),
        call_ensures(K::get, (later, other), got),
        call_ensures(K::get, (&*old(store), other), earlier),
        got is Ok,
        earlier is Ok,
    ensures
        other.app_name.name@ == key_triple.app_name.name@ && other.provider_id
            == key_triple.provider_id && other.key_name@ == key_triple.key_name@ ==> {
            &&& got->Ok_0 is Some
            &&& got->Ok_0->Some_0@ == key_id@
            &&& r->Ok_0 is Some <==> earlier->Ok_0 is Some
            &&& r->Ok_0 is Some ==> r->Ok_0->Some_0@ == earlier->Ok_0->Some_0@
        },
        !(other.app_name.name@ == key_triple.app_name.name@ && other.provider_id
            == key_triple.provider_id && other.key_name@ == key_triple.key_name@) ==> {
            &&& got->Ok_0 is Some <==> earlier->Ok_0 is Some
            &&& got->Ok_0 is Some ==> got->Ok_0->Some_0@ == earlier->Ok_0->Some_0@
        },
{
}

/// A Key ID Manager that has answered a removal has nothing for a lookup of the
/// triple, and for lookups of other triples what it had before.
pub proof fn removed_bytes_are_not_got<K: ManageKeyIDs>(
    store: &mut K,
    key_triple: &KeyTriple,
    r: core::result::Result<Option<Vec<u8>>, String>,
    later: &K,
    other: &KeyTriple,
    got: core::result::Result<Option<&[u8]>, String>,
    earlier: core::result::Result<Option<&[u8]>, String>,
)
    requires
        call_ensures(K::remove, (store, key_triple), r),
        r is Ok,
        later.mappings() == final(store).mappings(),
        call_ensures(K::get, (later, other), got),
        call_ensures(K::get, (&*old(store), other), earlier),
        got is Ok,
        earlier is Ok,
    ensures
        other.app_name.name@ == key_triple.app_name.name@ && other.provider_id
            == key_triple.provider_id && other.key_name@ == key_triple.key_name@ ==> {
            &&& got->Ok_0 is None
            &&& r->Ok_0 is Some <==> earlier->Ok_0 is Some
            &&& r->Ok_0 is Some ==> r->Ok_0->Some_0@ == earlier->Ok_0->Some_0@
        },
        !(other.app_name.name@ == key_triple.app_name.name@ && other.provider_id
            == key_triple.provider_id && other.key_name@ == key_triple.key_name@) ==> {
            &&& got->Ok_0 is Some <==> earlier->Ok_0 is Some
            &&& got->Ok_0 is Some ==> got->Ok_0->Some_0@ == earlier->Ok_0->Some_0@
        },
{
}

/// The Key ID Manager in memory never fails, and holds nothing at first.
pub proof fn memory_does_not_fail(
    manager: InMemoryKeyIDManager,
    after: Mappings,
    made: InMemoryKeyIDManager,
    triple: KeyTripleView,
)
    requires
        call_ensures(InMemoryKeyIDManager::new, (), made),
    ensures
        !manager.may_fail(),
        manager.may_leave(after) ==> after == manager.mappings(),
        !made.mappings().contains_key(triple),
{
}

/// Every request can be made: the operations that begin one, and destroying a key,
/// ask nothing of their arguments.
pub proof fn requests_can_be_made<S, C, K: ManageKeyIDs + ?Sized>(
    provider: &TpmProvider<S, C>,
    store: &mut K,
    app_name: ApplicationName,
    create: OpCreateKey,
    import: OpImportKey,
    export: OpExportPublicKey,
    destroy: OpDestroyKey,
    sign: OpAsymSign,
    verify: OpAsymVerify,
    key_data: &[u8],
)
    ensures
        call_requires(TpmProvider::<S, C>::create_key, (provider, app_name, create)),
        call_requires(TpmProvider::<S, C>::import_key, (provider, app_name, import)),
        call_requires(import_modulus, (key_data,)),
        call_requires(
            TpmProvider::<S, C>::export_public_key::<K>,
            (provider, &*old(store), app_name, export),
        ),
        call_requires(
            TpmProvider::<S, C>::destroy_key::<K>,
            (provider, store, app_name, destroy),
        ),
        call_requires(
            TpmProvider::<S, C>::asym_sign::<K>,
            (provider, &*old(store), app_name, sign),
        ),
        call_requires(
            TpmProvider::<S, C>::asym_verify::<K>,
            (provider, &*old(store), app_name, verify),
        ),
{
}

/// Every answer of the TPM can be taken, but one that is too long for memory.
pub proof fn answers_can_be_taken<K: ManageKeyIDs + ?Sized>(
    store: &mut K,
    create: CreateRsaSigningKey,
    created: TpmReply<(TpmsContext, Vec<u8>)>,
    load: LoadExternalRsaPublicKey,
    loaded: TpmReply<TpmsContext>,
    read: ReadPublicKey,
    modulus: TpmReply<Vec<u8>>,
    sign: Sign,
    signature: TpmReply<Signature>,
    verify: VerifySignature,
    verified: TpmReply<()>,
)
    requires
        created matches Ok((context, auth_value)) ==> 32 + context.context_blob@.len()
            + auth_value@.len() <= isize::MAX,
        loaded matches Ok(context) ==> 32 + context.context_blob@.len() <= isize::MAX,
        modulus matches Ok(octets) ==> octets@.len() + 32 <= isize::MAX / 2,
    ensures
        call_requires(CreateRsaSigningKey::finish::<K>, (create, store, created)),
        call_requires(LoadExternalRsaPublicKey::finish::<K>, (load, store, loaded)),
        call_requires(ReadPublicKey::finish, (read, modulus)),
        call_requires(Sign::finish, (sign, signature)),
        call_requires(VerifySignature::finish, (verify, verified)),
{
}

/// A builder is given a way to reach the TPM by two names only, and a Key ID
/// Manager; neither takes the other back.
pub proof fn builder_keeps_what_it_is_given<S>(
    builder: TpmProviderBuilder<S>,
    name: &str,
    r: TpmProviderBuilder<S>,
    key_id_store: S,
    s: TpmProviderBuilder<S>,
)
    requires
        call_ensures(TpmProviderBuilder::<S>::with_tcti, (builder, name), r),
        call_ensures(TpmProviderBuilder::<S>::with_key_id_store, (builder, key_id_store), s),
    ensures
        r.key_id_store == builder.key_id_store,
        r.tcti == Some(Tcti::Device) <==> name@ == "device"@,
        r.tcti == Some(Tcti::Mssim) <==> name@ == "mssim"@,
        r.tcti is None <==> name@ != "device"@ && name@ != "mssim"@,
        s.tcti == builder.tcti,
        s.key_id_store == Some(key_id_store),
{
    reveal_strlit("device");
    reveal_strlit("mssim");
    assert("device"@.len() != "mssim"@.len());
}

/// A built provider has the Key ID Manager and the connection that it was given;
/// the connection is opened by the way that was given, with a root key of 2048
/// bits, 32 octets to authorise it and none for the owner hierarchy.
pub proof fn built_provider_has_its_parts<S, C>(
    builder: TpmProviderBuilder<S>,
    call: CreateTransientObjectContext<S>,
    esapi_context: C,
    r: TpmProvider<S, C>,
)
    requires
        call_ensures(TpmProviderBuilder::<S>::build, (builder,), call),
        call_ensures(CreateTransientObjectContext::<S>::finish::<C>, (call, esapi_context), r),
    ensures
        builder.tcti == Some(call.tcti),
        call.root_key_size == 2048,
        call.root_key_auth_size == 32,
        call.owner_hierarchy_auth@.len() == 0,
        builder.key_id_store == Some(r.key_id_store),
        r.esapi_context == esapi_context,
{
}

} // verus!
