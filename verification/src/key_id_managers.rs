//! Key triples, and the Key ID Manager that maps each of them to the bytes by
//! which a provider finds its key again.

use vstd::prelude::*;

use crate::requests::ProviderID;

verus! {

/// The name that an application goes by after authentication.
#[derive(Debug)]
pub struct ApplicationName {
    pub name: String,
}

impl View for ApplicationName {
    type V = Seq<char>;

    open spec fn view(&self) -> Seq<char> {
        self.name@
    }
}

impl ApplicationName {
    /// The application name spelt `name`.
    pub fn new(name: String) -> (r: ApplicationName)
        ensures
            r@ == name@,
    {
        ApplicationName { name }
    }
}

/// The application, the provider and the key name that together identify a key.
#[derive(Debug)]
pub struct KeyTriple {
    pub app_name: ApplicationName,
    pub provider_id: ProviderID,
    pub key_name: String,
}

/// A key triple, its names taken as sequences of characters.
pub struct KeyTripleView {
    pub app_name: Seq<char>,
    pub provider_id: ProviderID,
    pub key_name: Seq<char>,
}

impl View for KeyTriple {
    type V = KeyTripleView;

    open spec fn view(&self) -> KeyTripleView {
        KeyTripleView {
            app_name: self.app_name@,
            provider_id: self.provider_id,
            key_name: self.key_name@,
        }
    }
}

impl KeyTriple {
    /// The triple of the given application, provider and key name.
    pub fn new(app_name: ApplicationName, provider_id: ProviderID, key_name: String) -> (r:
        KeyTriple)
        ensures
            r@ == (KeyTripleView { app_name: app_name@, provider_id, key_name: key_name@ }),
    {
        KeyTriple { app_name, provider_id, key_name }
    }
}

/// What a Key ID Manager holds.
pub type Mappings = Map<KeyTripleView, Seq<u8>>;

/// The bytes that `triple` is mapped to, if it is mapped.
pub open spec fn mapped(mappings: Mappings, triple: KeyTripleView) -> Option<Seq<u8>> {
    if mappings.contains_key(triple) {
        Some(mappings[triple])
    } else {
        None
    }
}

/// The bytes of an optional slice.
pub open spec fn bytes_found(found: Option<&[u8]>) -> Option<Seq<u8>> {
    match found {
        Some(bytes) => Some(bytes@),
        None => None,
    }
}

/// The bytes of an optional vector.
pub open spec fn bytes_replaced(replaced: Option<Vec<u8>>) -> Option<Seq<u8>> {
    match replaced {
        Some(bytes) => Some(bytes@),
        None => None,
    }
}

/// A map from key triples to bytes.
///
/// A method may fail, with a message that says why. Each manager says itself when
/// that may be, and what may be left of its mappings.
pub trait ManageKeyIDs {
    /// The mappings held at present.
    spec fn mappings(&self) -> Mappings;

    /// The next method that is called may fail.
    spec fn may_fail(&self) -> bool;

    /// The next insertion or removal, if it fails, may leave the mappings `after`
    /// behind.
    spec fn may_leave(&self, after: Mappings) -> bool;

    /// Gets the bytes that `key_triple` is mapped to, `None` if it is not mapped.
    fn get(&self, key_triple: &KeyTriple) -> (r: core::result::Result<Option<&[u8]>, String>)
        ensures
            r matches Ok(found) ==> bytes_found(found) == mapped(self.mappings(), key_triple@),
            r is Err ==> self.may_fail(),
    ;

    /// Maps `key_triple` to `key_id`, and returns the bytes that it was mapped to
    /// before.
    fn insert(&mut self, key_triple: KeyTriple, key_id: Vec<u8>) -> (r: core::result::Result<
        Option<Vec<u8>>,
        String,
    >)
        ensures
            r matches Ok(replaced) ==> {
                &&& bytes_replaced(replaced) == mapped(old(self).mappings(), key_triple@)
                &&& final(self).mappings() == old(self).mappings().insert(key_triple@, key_id@)
            },
            r is Err ==> old(self).may_fail() && old(self).may_leave(final(self).mappings()),
    ;

    /// Removes the mapping of `key_triple`, and returns the bytes that it was mapped
    /// to.
    fn remove(&mut self, key_triple: &KeyTriple) -> (r: core::result::Result<
        Option<Vec<u8>>,
        String,
    >)
        ensures
            r matches Ok(removed) ==> {
                &&& bytes_replaced(removed) == mapped(old(self).mappings(), key_triple@)
                &&& final(self).mappings() == old(self).mappings().remove(key_triple@)
            },
            r is Err ==> old(self).may_fail() && old(self).may_leave(final(self).mappings()),
    ;
}

/// An insertion into `before`, or a removal from it, that leaves `after` behind
/// may have failed.
pub open spec fn may_have_failed<K: ManageKeyIDs + ?Sized>(before: &K, after: &K) -> bool {
    before.may_fail() && before.may_leave(after.mappings())
}

/// An insertion or a removal that fails leaves the mappings of `manager` as they
/// are.
pub open spec fn keeps_on_failure<K: ManageKeyIDs + ?Sized>(manager: &K) -> bool {
    forall|after: Mappings| #[trigger] manager.may_leave(after) ==> after == manager.mappings()
}

} // verus!
