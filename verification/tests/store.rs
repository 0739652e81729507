//! The Key ID Manager as the provider uses it, and the bytes it keeps.

use tpm_provider::in_memory::InMemoryKeyIDManager;
use tpm_provider::key_id_managers::{ApplicationName, KeyTriple, ManageKeyIDs};
use tpm_provider::password_context::{
    found_password_context, get_password_context, insert_password_context, insertion_status,
    PasswordContext, TpmsContext,
};
use tpm_provider::requests::{ProviderID, ResponseStatus};

fn triple(app_name: &str, key_name: &str) -> KeyTriple {
    KeyTriple::new(
        ApplicationName::new(app_name.to_string()),
        ProviderID::TpmProvider,
        key_name.to_string(),
    )
}

fn context(sequence: u64) -> PasswordContext {
    PasswordContext {
        context: TpmsContext {
            sequence,
            saved_handle: 0x8000_0001,
            hierarchy: 0x4000_0007,
            context_blob: vec![0xaa, 0xbb, 0xcc],
        },
        auth_value: vec![0x11, 0x22],
    }
}

const STORED: [u8; 37] = [
    0x08, 0x07, 0x06, 0x05, 0x04, 0x03, 0x02, 0x01, // sequence
    0x01, 0x00, 0x00, 0x80, // saved handle
    0x07, 0x00, 0x00, 0x40, // hierarchy
    0x03, 0x00, 0x00, 0x00, 0x00, 0x00, 0x00, 0x00, 0xaa, 0xbb, 0xcc, // context blob
    0x02, 0x00, 0x00, 0x00, 0x00, 0x00, 0x00, 0x00, 0x11, 0x22, // authorisation value
];

fn assert_is_context(c: &PasswordContext, sequence: u64) {
    let expected = context(sequence);
    assert_eq!(c.context.sequence, expected.context.sequence);
    assert_eq!(c.context.saved_handle, expected.context.saved_handle);
    assert_eq!(c.context.hierarchy, expected.context.hierarchy);
    assert_eq!(c.context.context_blob, expected.context.context_blob);
    assert_eq!(c.auth_value, expected.auth_value);
}

#[test]
fn stored_bytes_are_the_fields_in_order() {
    let mut store = InMemoryKeyIDManager::new();
    let r = insert_password_context(&mut store, triple("app", "key"), context(0x0102030405060708));
    assert_eq!(r, Ok(()));
    assert_eq!(store.get(&triple("app", "key")), Ok(Some(&STORED[..])));
}

#[test]
fn stored_context_reads_back() {
    let mut store = InMemoryKeyIDManager::new();
    assert_eq!(insert_password_context(&mut store, triple("app", "key"), context(5)), Ok(()));
    let c = get_password_context(&store, triple("app", "key")).unwrap();
    assert_is_context(&c, 5);
}

#[test]
fn empty_context_reads_back() {
    let mut store = InMemoryKeyIDManager::new();
    let empty = PasswordContext {
        context: TpmsContext {
            sequence: 0,
            saved_handle: 0,
            hierarchy: 0,
            context_blob: Vec::new(),
        },
        auth_value: Vec::new(),
    };
    assert_eq!(insert_password_context(&mut store, triple("", ""), empty), Ok(()));
    assert_eq!(store.get(&triple("", "")), Ok(Some(&[0u8; 32][..])));
    let c = get_password_context(&store, triple("", "")).unwrap();
    assert_eq!(c.context.sequence, 0);
    assert_eq!(c.context.context_blob, Vec::<u8>::new());
    assert_eq!(c.auth_value, Vec::<u8>::new());
}

#[test]
fn works_through_a_trait_object() {
    let mut store = InMemoryKeyIDManager::new();
    let handle: &mut dyn ManageKeyIDs = &mut store;
    assert_eq!(insert_password_context(handle, triple("app", "key"), context(5)), Ok(()));
    assert_is_context(&get_password_context(&*handle, triple("app", "key")).unwrap(), 5);
}

#[test]
fn second_insertion_replaces_and_is_refused() {
    let mut store = InMemoryKeyIDManager::new();
    assert_eq!(insert_password_context(&mut store, triple("app", "key"), context(1)), Ok(()));
    assert_eq!(
        insert_password_context(&mut store, triple("app", "key"), context(2)),
        Err(ResponseStatus::KeyAlreadyExists)
    );
    assert_is_context(&get_password_context(&store, triple("app", "key")).unwrap(), 2);
}

#[test]
fn other_triples_are_untouched() {
    let mut store = InMemoryKeyIDManager::new();
    assert_eq!(insert_password_context(&mut store, triple("app", "key"), context(1)), Ok(()));
    assert_eq!(insert_password_context(&mut store, triple("app2", "key"), context(2)), Ok(()));
    assert_eq!(insert_password_context(&mut store, triple("app", "key2"), context(3)), Ok(()));
    assert_is_context(&get_password_context(&store, triple("app", "key")).unwrap(), 1);
    assert_is_context(&get_password_context(&store, triple("app2", "key")).unwrap(), 2);
    assert_is_context(&get_password_context(&store, triple("app", "key2")).unwrap(), 3);
}

#[test]
fn missing_key_does_not_exist() {
    let store = InMemoryKeyIDManager::new();
    assert_eq!(
        get_password_context(&store, triple("app", "key")).err(),
        Some(ResponseStatus::KeyDoesNotExist)
    );
}

#[test]
fn bytes_that_are_cut_off_are_refused() {
    for len in 0..STORED.len() {
        assert_eq!(
            found_password_context(Ok(Some(&STORED[..len]))).err(),
            Some(ResponseStatus::KeyIDManagerError)
        );
    }
    assert_is_context(&found_password_context(Ok(Some(&STORED[..]))).unwrap(), 0x0102030405060708);
}

#[test]
fn bytes_behind_a_context_are_ignored() {
    let mut bytes = STORED.to_vec();
    bytes.push(0xff);
    bytes.push(0x00);
    assert_is_context(&found_password_context(Ok(Some(&bytes))).unwrap(), 0x0102030405060708);
}

#[test]
fn length_beyond_the_bytes_is_refused() {
    for place in 17..24 {
        let mut bytes = STORED.to_vec();
        bytes[place] = 0xff;
        assert_eq!(
            found_password_context(Ok(Some(&bytes))).err(),
            Some(ResponseStatus::KeyIDManagerError)
        );
    }
}

#[test]
fn manager_replies_to_lookups() {
    assert_eq!(
        found_password_context(Err("failed".to_string())).err(),
        Some(ResponseStatus::KeyIDManagerError)
    );
    assert_eq!(found_password_context(Ok(None)).err(), Some(ResponseStatus::KeyDoesNotExist));
}

#[test]
fn manager_replies_to_insertions() {
    assert_eq!(insertion_status(Ok(None)), Ok(()));
    assert_eq!(insertion_status(Ok(Some(vec![1]))), Err(ResponseStatus::KeyAlreadyExists));
    assert_eq!(
        insertion_status(Err("failed".to_string())),
        Err(ResponseStatus::KeyIDManagerError)
    );
}

#[test]
fn stored_bytes_are_read_by_bincode() {
    type Fields = ((u64, u32, u32, Vec<u8>), Vec<u8>);
    let fields: Fields = bincode::deserialize(&STORED).unwrap();
    let expected: Fields = (
        (0x0102030405060708, 0x8000_0001, 0x4000_0007, vec![0xaa, 0xbb, 0xcc]),
        vec![0x11, 0x22],
    );
    assert_eq!(fields, expected);
}

#[test]
fn in_memory_manager_is_a_map() {
    let mut store = InMemoryKeyIDManager::new();
    assert_eq!(store.get(&triple("app", "a")), Ok(None));
    assert_eq!(store.remove(&triple("app", "a")), Ok(None));
    assert_eq!(store.insert(triple("app", "a"), vec![1]), Ok(None));
    assert_eq!(store.insert(triple("app", "b"), vec![2]), Ok(None));
    assert_eq!(store.insert(triple("app", "a"), vec![3]), Ok(Some(vec![1])));
    assert_eq!(store.get(&triple("app", "a")), Ok(Some(&[3u8][..])));
    assert_eq!(store.get(&triple("app", "b")), Ok(Some(&[2u8][..])));
    assert_eq!(store.remove(&triple("app", "a")), Ok(Some(vec![3])));
    assert_eq!(store.get(&triple("app", "a")), Ok(None));
    assert_eq!(store.remove(&triple("app", "a")), Ok(None));
    assert_eq!(store.get(&triple("app", "b")), Ok(Some(&[2u8][..])));
}

#[test]
fn in_memory_manager_tells_providers_apart() {
    let mut store = InMemoryKeyIDManager::new();
    assert_eq!(store.insert(triple("app", "a"), vec![1]), Ok(None));
    let other = KeyTriple::new(
        ApplicationName::new("app".to_string()),
        ProviderID::MbedProvider,
        "a".to_string(),
    );
    assert_eq!(store.get(&other), Ok(None));
}
