//! The operations of the provider, with the answers of a TPM given by hand.

use tpm_provider::builder::{Tcti, TpmProviderBuilder};
use tpm_provider::in_memory::InMemoryKeyIDManager;
use tpm_provider::key_id_managers::{ApplicationName, KeyTriple, ManageKeyIDs};
use tpm_provider::operations::{
    Algorithm, HashAlgorithm, KeyAttributes, KeyType, OpAsymSign, OpAsymVerify, OpCreateKey,
    OpDestroyKey, OpExportPublicKey, OpImportKey, OpListOpcodes, ResultAsymVerify,
    ResultCreateKey, ResultDestroyKey, ResultImportKey, SignAlgorithm,
};
use tpm_provider::password_context::{PasswordContext, TpmsContext};
use tpm_provider::provider::{removal_status, TpmProvider};
use tpm_provider::requests::{Opcode, ProviderID, ResponseStatus};
use tpm_provider::tpm::{
    AsymSchemeUnion, ReadPublicKey, Sign, Signature, TpmError, Tss2ResponseCodeKind,
    VerifySignature, TPM2_ALG_SHA256,
};

type Provider = TpmProvider<(), ()>;

fn provider() -> Provider {
    TpmProvider::new((), ()).unwrap()
}

fn app() -> ApplicationName {
    ApplicationName::new("app".to_string())
}

fn attributes(key_type: KeyType) -> KeyAttributes {
    KeyAttributes {
        key_type,
        algorithm: Algorithm::Sign(SignAlgorithm::RsaPkcs1v15Sign, None),
        key_size: 1024,
    }
}

fn tpms_context(sequence: u64) -> TpmsContext {
    TpmsContext { sequence, saved_handle: 7, hierarchy: 9, context_blob: vec![4, 5, 6] }
}

fn create(
    provider: &Provider,
    store: &mut InMemoryKeyIDManager,
    key_name: &str,
    sequence: u64,
) -> Result<ResultCreateKey, ResponseStatus> {
    let op = OpCreateKey {
        key_name: key_name.to_string(),
        key_attributes: attributes(KeyType::RsaKeypair),
    };
    let call = provider.create_key(app(), op)?;
    call.finish(store, Ok((tpms_context(sequence), vec![1, 2, 3])))
}

fn destroy(
    provider: &Provider,
    store: &mut InMemoryKeyIDManager,
    key_name: &str,
) -> Result<ResultDestroyKey, ResponseStatus> {
    provider.destroy_key(store, app(), OpDestroyKey { key_name: key_name.to_string() })
}

fn sign_op(key_name: &str, len: usize) -> OpAsymSign {
    OpAsymSign { key_name: key_name.to_string(), hash: vec![0x5a; len] }
}

fn verify_op(key_name: &str, len: usize) -> OpAsymVerify {
    OpAsymVerify { key_name: key_name.to_string(), hash: vec![0x5a; len], signature: vec![8, 9] }
}

fn export_op(key_name: &str) -> OpExportPublicKey {
    OpExportPublicKey { key_name: key_name.to_string() }
}

fn failure() -> TpmError {
    TpmError { kind: Some(Tss2ResponseCodeKind::Other) }
}

fn import_op(key_data: Vec<u8>) -> OpImportKey {
    OpImportKey {
        key_name: "key".to_string(),
        key_attributes: attributes(KeyType::RsaPublicKey),
        key_data,
    }
}

fn modulus() -> Vec<u8> {
    vec![0xc3; 128]
}

fn key_data() -> Vec<u8> {
    let mut data = vec![0x30, 0x81, 0x89, 0x02, 0x81, 0x81, 0x00];
    data.extend(modulus());
    data.extend([0x02, 0x03, 0x01, 0x00, 0x01]);
    data[2] = (data.len() - 3) as u8;
    data
}

#[test]
fn lists_its_operations() {
    let listed = provider().list_opcodes(OpListOpcodes {}).unwrap();
    assert_eq!(
        listed.opcodes,
        vec![
            Opcode::CreateKey,
            Opcode::DestroyKey,
            Opcode::AsymSign,
            Opcode::AsymVerify,
            Opcode::ImportKey,
            Opcode::ExportPublicKey,
            Opcode::ListOpcodes,
        ]
    );
}

#[test]
fn describes_itself() {
    let info = provider().describe();
    let uuid = uuid::Uuid::parse_str("1e4954a4-ff21-46d3-ab0c-661eeb667e1d").unwrap();
    assert_eq!(info.uuid, uuid.as_bytes().to_vec());
    assert_eq!(
        info.uuid,
        vec![
            0x1e, 0x49, 0x54, 0xa4, 0xff, 0x21, 0x46, 0xd3, 0xab, 0x0c, 0x66, 0x1e, 0xeb, 0x66,
            0x7e, 0x1d
        ]
    );
    assert_eq!(
        info.description,
        "TPM provider, interfacing with a library implementing the TCG TSS 2.0 Enhanced System API specification."
    );
    assert_eq!(info.vendor, "Trusted Computing Group (TCG)");
    assert_eq!((info.version_maj, info.version_min, info.version_rev), (0, 1, 0));
    assert_eq!(info.id, ProviderID::TpmProvider);
}

#[test]
fn create_asks_for_a_signing_key() {
    let op = OpCreateKey {
        key_name: "key".to_string(),
        key_attributes: attributes(KeyType::RsaKeypair),
    };
    let call = provider().create_key(app(), op).unwrap();
    assert_eq!(call.key_size, 1024);
    assert_eq!(call.auth_value_len, 32);
    assert_eq!(call.key_triple.app_name.name, "app");
    assert_eq!(call.key_triple.provider_id, ProviderID::TpmProvider);
    assert_eq!(call.key_triple.key_name, "key");
}

#[test]
fn create_refuses_other_keys() {
    let pss = Algorithm::Sign(SignAlgorithm::RsaPss, None);
    let hashed = Algorithm::Sign(SignAlgorithm::RsaPkcs1v15Sign, Some(HashAlgorithm::Sha256));
    let plain = Algorithm::Sign(SignAlgorithm::RsaPkcs1v15Sign, None);
    for (key_type, algorithm) in [
        (KeyType::RsaPublicKey, plain),
        (KeyType::EccKeypair, plain),
        (KeyType::RsaKeypair, pss),
        (KeyType::RsaKeypair, hashed),
        (KeyType::RsaKeypair, Algorithm::AsymmetricEncryption),
    ] {
        let op = OpCreateKey {
            key_name: "key".to_string(),
            key_attributes: KeyAttributes { key_type, algorithm, key_size: 2048 },
        };
        assert_eq!(
            provider().create_key(app(), op).err(),
            Some(ResponseStatus::UnsupportedOperation)
        );
    }
}

#[test]
fn failed_creation_stores_nothing() {
    let mut store = InMemoryKeyIDManager::new();
    let op = OpCreateKey {
        key_name: "key".to_string(),
        key_attributes: attributes(KeyType::RsaKeypair),
    };
    let call = provider().create_key(app(), op).unwrap();
    assert_eq!(
        call.finish(&mut store, Err(failure())),
        Err(ResponseStatus::PsaErrorHardwareFailure)
    );
    let triple = KeyTriple::new(app(), ProviderID::TpmProvider, "key".to_string());
    assert_eq!(store.get(&triple), Ok(None));
}

#[test]
fn created_key_signs_with_its_context_and_its_authorisation() {
    let p = provider();
    let mut store = InMemoryKeyIDManager::new();
    assert_eq!(create(&p, &mut store, "key", 3), Ok(ResultCreateKey {}));
    let call = p.asym_sign(&store, app(), sign_op("key", 64)).unwrap();
    assert_eq!(call.context.sequence, 3);
    assert_eq!(call.context.saved_handle, 7);
    assert_eq!(call.context.hierarchy, 9);
    assert_eq!(call.context.context_blob, vec![4, 5, 6]);
    assert_eq!(call.auth_value, vec![1, 2, 3]);
    assert_eq!(call.hash, vec![0x5a; 64]);
    let signature = Signature {
        scheme: AsymSchemeUnion::RSASSA(TPM2_ALG_SHA256),
        signature: vec![0xaa, 0xbb],
    };
    assert_eq!(call.finish(Ok(signature)).unwrap().signature, vec![0xaa, 0xbb]);
}

#[test]
fn failed_signature_is_a_hardware_failure() {
    let p = provider();
    let mut store = InMemoryKeyIDManager::new();
    assert_eq!(create(&p, &mut store, "key", 3), Ok(ResultCreateKey {}));
    let call = p.asym_sign(&store, app(), sign_op("key", 32)).unwrap();
    assert_eq!(
        call.finish(Err(failure())).err(),
        Some(ResponseStatus::PsaErrorHardwareFailure)
    );
}

#[test]
fn created_key_exports_and_verifies_with_its_context() {
    let p = provider();
    let mut store = InMemoryKeyIDManager::new();
    assert_eq!(create(&p, &mut store, "key", 4), Ok(ResultCreateKey {}));
    let call = p.export_public_key(&store, app(), export_op("key")).unwrap();
    assert_eq!(call.context.sequence, 4);
    let exported = call.finish(Ok(vec![0x0a, 0x0b])).unwrap();
    assert_eq!(
        exported.key_data,
        vec![0x30, 0x09, 0x02, 0x02, 0x0a, 0x0b, 0x02, 0x03, 0x01, 0x00, 0x01]
    );
    let call = p.asym_verify(&store, app(), verify_op("key", 0)).unwrap();
    assert_eq!(call.context.sequence, 4);
    assert_eq!(call.hash, Vec::<u8>::new());
    assert_eq!(call.signature.scheme, AsymSchemeUnion::RSASSA(0x000b));
    assert_eq!(call.signature.signature, vec![8, 9]);
}

#[test]
fn failed_export_is_a_hardware_failure() {
    let p = provider();
    let mut store = InMemoryKeyIDManager::new();
    assert_eq!(create(&p, &mut store, "key", 4), Ok(ResultCreateKey {}));
    let call = p.export_public_key(&store, app(), export_op("key")).unwrap();
    assert_eq!(
        call.finish(Err(failure())).err(),
        Some(ResponseStatus::PsaErrorHardwareFailure)
    );
}

#[test]
fn verification_tells_bad_signatures_from_failures() {
    let p = provider();
    let mut store = InMemoryKeyIDManager::new();
    assert_eq!(create(&p, &mut store, "key", 4), Ok(ResultCreateKey {}));
    let verify = |reply: Result<(), TpmError>| {
        p.asym_verify(&store, app(), verify_op("key", 32)).unwrap().finish(reply)
    };
    assert_eq!(verify(Ok(())), Ok(ResultAsymVerify {}));
    let bad = TpmError { kind: Some(Tss2ResponseCodeKind::Signature) };
    assert_eq!(verify(Err(bad)), Err(ResponseStatus::PsaErrorInvalidSignature));
    assert_eq!(verify(Err(failure())), Err(ResponseStatus::PsaErrorHardwareFailure));
    assert_eq!(
        verify(Err(TpmError { kind: None })),
        Err(ResponseStatus::PsaErrorHardwareFailure)
    );
}

#[test]
fn long_hashes_are_refused_before_the_key_is_looked_up() {
    let p = provider();
    let store = InMemoryKeyIDManager::new();
    assert_eq!(
        p.asym_sign(&store, app(), sign_op("key", 65)).err(),
        Some(ResponseStatus::PsaErrorInvalidArgument)
    );
    assert_eq!(
        p.asym_verify(&store, app(), verify_op("key", 65)).err(),
        Some(ResponseStatus::PsaErrorInvalidArgument)
    );
    assert_eq!(
        p.asym_sign(&store, app(), sign_op("key", 64)).err(),
        Some(ResponseStatus::KeyDoesNotExist)
    );
    assert_eq!(
        p.asym_verify(&store, app(), verify_op("key", 64)).err(),
        Some(ResponseStatus::KeyDoesNotExist)
    );
}

#[test]
fn second_key_of_a_name_replaces_and_is_refused() {
    let p = provider();
    let mut store = InMemoryKeyIDManager::new();
    assert_eq!(create(&p, &mut store, "key", 1), Ok(ResultCreateKey {}));
    assert_eq!(create(&p, &mut store, "key", 2), Err(ResponseStatus::KeyAlreadyExists));
    let call = p.export_public_key(&store, app(), export_op("key")).unwrap();
    assert_eq!(call.context.sequence, 2);
}

#[test]
fn destroyed_key_does_not_exist() {
    let p = provider();
    let mut store = InMemoryKeyIDManager::new();
    assert_eq!(destroy(&p, &mut store, "key"), Err(ResponseStatus::KeyDoesNotExist));
    assert_eq!(create(&p, &mut store, "key", 1), Ok(ResultCreateKey {}));
    assert_eq!(create(&p, &mut store, "other", 2), Ok(ResultCreateKey {}));
    assert_eq!(destroy(&p, &mut store, "key"), Ok(ResultDestroyKey {}));
    assert_eq!(
        p.export_public_key(&store, app(), export_op("key")).err(),
        Some(ResponseStatus::KeyDoesNotExist)
    );
    assert_eq!(
        p.asym_sign(&store, app(), sign_op("key", 1)).err(),
        Some(ResponseStatus::KeyDoesNotExist)
    );
    let other = p.export_public_key(&store, app(), export_op("other")).unwrap();
    assert_eq!(other.context.sequence, 2);
    assert_eq!(destroy(&p, &mut store, "key"), Err(ResponseStatus::KeyDoesNotExist));
    assert_eq!(create(&p, &mut store, "key", 3), Ok(ResultCreateKey {}));
}

#[test]
fn keys_of_other_applications_are_not_found() {
    let p = provider();
    let mut store = InMemoryKeyIDManager::new();
    assert_eq!(create(&p, &mut store, "key", 1), Ok(ResultCreateKey {}));
    let other = ApplicationName::new("other".to_string());
    assert_eq!(
        p.export_public_key(&store, other, export_op("key")).err(),
        Some(ResponseStatus::KeyDoesNotExist)
    );
}

#[test]
fn manager_replies_to_removals() {
    assert_eq!(removal_status(Ok(Some(vec![1]))), Ok(ResultDestroyKey {}));
    assert_eq!(removal_status(Ok(None)), Err(ResponseStatus::KeyDoesNotExist));
    assert_eq!(
        removal_status(Err("failed".to_string())),
        Err(ResponseStatus::KeyIDManagerError)
    );
}

#[test]
fn bytes_that_are_no_context_are_a_manager_error() {
    let p = provider();
    let mut store = InMemoryKeyIDManager::new();
    let triple = KeyTriple::new(app(), ProviderID::TpmProvider, "key".to_string());
    assert_eq!(store.insert(triple, vec![1, 2, 3]), Ok(None));
    assert_eq!(
        p.asym_sign(&store, app(), sign_op("key", 1)).err(),
        Some(ResponseStatus::KeyIDManagerError)
    );
}

#[test]
fn import_hands_the_modulus_to_the_tpm() {
    let p = provider();
    let mut store = InMemoryKeyIDManager::new();
    let call = p.import_key(app(), import_op(key_data())).unwrap();
    assert_eq!(call.modulus, modulus());
    assert_eq!(call.key_triple.app_name.name, "app");
    assert_eq!(call.key_triple.provider_id, ProviderID::TpmProvider);
    assert_eq!(call.key_triple.key_name, "key");
    assert_eq!(call.finish(&mut store, Ok(tpms_context(11))), Ok(ResultImportKey {}));
    let call = p.asym_sign(&store, app(), sign_op("key", 1)).unwrap();
    assert_eq!(call.context.sequence, 11);
    assert_eq!(call.auth_value, Vec::<u8>::new());
    let again = p.import_key(app(), import_op(key_data())).unwrap();
    assert_eq!(
        again.finish(&mut store, Ok(tpms_context(12))),
        Err(ResponseStatus::KeyAlreadyExists)
    );
}

#[test]
fn failed_import_stores_nothing() {
    let mut store = InMemoryKeyIDManager::new();
    let call = provider().import_key(app(), import_op(key_data())).unwrap();
    assert_eq!(
        call.finish(&mut store, Err(failure())),
        Err(ResponseStatus::PsaErrorHardwareFailure)
    );
    let triple = KeyTriple::new(app(), ProviderID::TpmProvider, "key".to_string());
    assert_eq!(store.get(&triple), Ok(None));
}

#[test]
fn import_refuses_what_it_does_not_handle() {
    let p = provider();
    let mut op = import_op(key_data());
    op.key_attributes.key_type = KeyType::RsaKeypair;
    assert_eq!(p.import_key(app(), op).err(), Some(ResponseStatus::UnsupportedOperation));
    let mut op = import_op(key_data());
    op.key_attributes.algorithm = Algorithm::Sign(SignAlgorithm::Ecdsa, None);
    assert_eq!(p.import_key(app(), op).err(), Some(ResponseStatus::UnsupportedOperation));
    assert_eq!(
        p.import_key(app(), import_op(vec![0x01, 0x02])).err(),
        Some(ResponseStatus::PsaErrorCommunicationFailure)
    );
    let mut data = key_data();
    let last = data.len() - 1;
    data[last] = 0x03;
    assert_eq!(
        p.import_key(app(), import_op(data)).err(),
        Some(ResponseStatus::UnsupportedOperation)
    );
}

#[test]
fn import_refuses_a_key_that_overruns_its_sequence() {
    let mut data = key_data();
    data[2] -= 1;
    assert_eq!(
        provider().import_key(app(), import_op(data)).err(),
        Some(ResponseStatus::PsaErrorCommunicationFailure)
    );
}

#[test]
fn exported_key_can_be_imported() {
    let p = provider();
    let mut store = InMemoryKeyIDManager::new();
    assert_eq!(create(&p, &mut store, "first", 1), Ok(ResultCreateKey {}));
    let call = p.export_public_key(&store, app(), export_op("first")).unwrap();
    let exported = call.finish(Ok(modulus())).unwrap();
    let call = p.import_key(app(), import_op(exported.key_data)).unwrap();
    assert_eq!(call.modulus, modulus());
}

#[test]
fn builder_keeps_what_it_is_given() {
    let builder = TpmProviderBuilder::<u8>::new();
    assert_eq!(builder.key_id_store, None);
    assert_eq!(builder.tcti, None);
    let builder = builder.with_key_id_store(5).with_tcti("device");
    assert_eq!(builder.tcti, Some(Tcti::Device));
    let call = builder.with_tcti("mssim").build();
    assert_eq!(call.key_id_store, 5);
    assert_eq!(call.tcti, Tcti::Mssim);
    assert_eq!(call.root_key_size, 2048);
    assert_eq!(call.root_key_auth_size, 32);
    assert_eq!(call.owner_hierarchy_auth, Vec::<u8>::new());
    let provider = call.finish('c');
    assert_eq!(provider.key_id_store, 5);
    assert_eq!(provider.esapi_context, 'c');
}

#[test]
fn builder_knows_two_ways_to_reach_a_tpm() {
    for name in ["", "Device", "device ", "tabrmd", "mssim:host=localhost"] {
        let builder = TpmProviderBuilder::<u8>::default().with_tcti("device").with_tcti(name);
        assert_eq!(builder.tcti, None);
    }
}

#[test]
fn exported_modulus_of_a_stored_key_is_positive() {
    let p = provider();
    let mut store = InMemoryKeyIDManager::new();
    assert_eq!(create(&p, &mut store, "key", 1), Ok(ResultCreateKey {}));
    let call = p.export_public_key(&store, app(), export_op("key")).unwrap();
    assert_eq!(
        call.finish(Ok(vec![0x80])).unwrap().key_data,
        vec![0x30, 0x09, 0x02, 0x02, 0x00, 0x80, 0x02, 0x03, 0x01, 0x00, 0x01]
    );
}

#[test]
fn importing_and_exporting_gives_the_same_data() {
    let p = provider();
    let mut store = InMemoryKeyIDManager::new();
    let call = p.import_key(app(), import_op(key_data())).unwrap();
    let modulus = call.modulus.clone();
    assert_eq!(call.finish(&mut store, Ok(tpms_context(1))), Ok(ResultImportKey {}));
    let call = p.export_public_key(&store, app(), export_op("key")).unwrap();
    assert_eq!(call.finish(Ok(modulus)).unwrap().key_data, key_data());
}

#[test]
fn signing_and_verifying_use_one_context() {
    let p = provider();
    let mut store = InMemoryKeyIDManager::new();
    assert_eq!(create(&p, &mut store, "key", 9), Ok(ResultCreateKey {}));
    let signing = p.asym_sign(&store, app(), sign_op("key", 32)).unwrap();
    let verifying = p.asym_verify(&store, app(), verify_op("key", 32)).unwrap();
    assert_eq!(signing.context.sequence, verifying.context.sequence);
    assert_eq!(signing.context.context_blob, verifying.context.context_blob);
}

#[test]
fn lookups_decide_the_calls() {
    let found = || {
        Ok(PasswordContext { context: tpms_context(2), auth_value: vec![1, 2] })
    };
    let failed = || Err(ResponseStatus::KeyIDManagerError);
    let call = Sign::with(found(), vec![3]).unwrap();
    assert_eq!((call.context.sequence, call.auth_value, call.hash), (2, vec![1, 2], vec![3]));
    assert_eq!(Sign::with(failed(), vec![3]).err(), Some(ResponseStatus::KeyIDManagerError));
    let call = VerifySignature::with(found(), vec![3], vec![4]).unwrap();
    assert_eq!((call.context.sequence, call.hash), (2, vec![3]));
    assert_eq!(call.signature.scheme, AsymSchemeUnion::RSASSA(TPM2_ALG_SHA256));
    assert_eq!(call.signature.signature, vec![4]);
    assert_eq!(
        VerifySignature::with(failed(), vec![3], vec![4]).err(),
        Some(ResponseStatus::KeyIDManagerError)
    );
    assert_eq!(ReadPublicKey::with(found()).unwrap().context.sequence, 2);
    assert_eq!(ReadPublicKey::with(failed()).err(), Some(ResponseStatus::KeyIDManagerError));
}
