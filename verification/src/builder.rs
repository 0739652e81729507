//! Construction of the TPM provider.

use vstd::prelude::*;

use crate::provider::TpmProvider;

verus! {

/// Size in bits of the root key, under which the keys of the provider stand.
pub const ROOT_KEY_SIZE: usize = 2048;

/// Number of octets of the authorisation value of the root key.
pub const ROOT_KEY_AUTH_SIZE: usize = 32;

/// Ways to reach a TPM.
#[derive(Clone, Copy, Debug, PartialEq, Eq, Structural)]
pub enum Tcti {
    /// A TPM device.
    Device,
    /// A simulator.
    Mssim,
}

/// The way to reach a TPM that `name` stands for.
pub open spec fn tcti_named(name: Seq<char>) -> Option<Tcti> {
    if name == "device"@ {
        Some(Tcti::Device)
    } else if name == "mssim"@ {
        Some(Tcti::Mssim)
    } else {
        None
    }
}

/// Builder of a `TpmProvider` with the Key ID Manager `S`.
pub struct TpmProviderBuilder<S> {
    pub key_id_store: Option<S>,
    pub tcti: Option<Tcti>,
}

impl<S> Default for TpmProviderBuilder<S> {
    fn default() -> (r: TpmProviderBuilder<S>)
        ensures
            r == (TpmProviderBuilder::<S> { key_id_store: None, tcti: None }),
    {
        TpmProviderBuilder { key_id_store: None, tcti: None }
    }
}

impl<S> TpmProviderBuilder<S> {
    /// A builder to which nothing has been given.
    pub fn new() -> (r: TpmProviderBuilder<S>)
        ensures
            r == (TpmProviderBuilder::<S> { key_id_store: None, tcti: None }),
    {
        TpmProviderBuilder { key_id_store: None, tcti: None }
    }

    /// Gives the Key ID Manager.
    pub fn with_key_id_store(self, key_id_store: S) -> (r: TpmProviderBuilder<S>)
        ensures
            r == (TpmProviderBuilder { key_id_store: Some(key_id_store), tcti: self.tcti }),
    {
        TpmProviderBuilder { key_id_store: Some(key_id_store), tcti: self.tcti }
    }

    /// Gives the way to reach the TPM by its name. A name that stands for none
    /// takes back what was given before.
    pub fn with_tcti(self, tcti: &str) -> (r: TpmProviderBuilder<S>)
        ensures
            r == (TpmProviderBuilder { key_id_store: self.key_id_store, tcti: tcti_named(tcti@) }),
    {
        let name = tcti.to_owned();
        let tcti: Option<Tcti> = if name == "device".to_owned() {
            Some(Tcti::Device)
        } else if name == "mssim".to_owned() {
            Some(Tcti::Mssim)
        } else {
            None
        };
        TpmProviderBuilder { key_id_store: self.key_id_store, tcti }
    }

    /// Begins to build the provider.
    pub fn build(self) -> (r: CreateTransientObjectContext<S>)
        requires
            self.key_id_store is Some,
            self.tcti is Some,
        ensures
            Some(r.key_id_store) == self.key_id_store,
            Some(r.tcti) == self.tcti,
            r.root_key_size == ROOT_KEY_SIZE,
            r.root_key_auth_size == ROOT_KEY_AUTH_SIZE,
            r.owner_hierarchy_auth@ == Seq::<u8>::empty(),
    {
        CreateTransientObjectContext {
            key_id_store: self.key_id_store.unwrap(),
            tcti: self.tcti.unwrap(),
            root_key_size: ROOT_KEY_SIZE,
            root_key_auth_size: ROOT_KEY_AUTH_SIZE,
            owner_hierarchy_auth: Vec::new(),
        }
    }
}

/// Call to open a connection to the TPM.
pub struct CreateTransientObjectContext<S> {
    /// The Key ID Manager of the provider that will use the connection.
    pub key_id_store: S,
    pub tcti: Tcti,
    /// Size of the root key in bits.
    pub root_key_size: usize,
    /// Number of octets of the authorisation value to make for the root key.
    pub root_key_auth_size: usize,
    /// Authorisation value of the owner hierarchy.
    pub owner_hierarchy_auth: Vec<u8>,
}

impl<S> CreateTransientObjectContext<S> {
    /// The provider that uses the connection.
    pub fn finish<C>(self, esapi_context: C) -> (r: TpmProvider<S, C>)
        ensures
            r == (TpmProvider { esapi_context, key_id_store: self.key_id_store }),
    {
        TpmProvider::new(self.key_id_store, esapi_context).unwrap()
    }
}

} // verus!
