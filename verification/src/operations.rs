//! What the operations of the provider take and give.

use vstd::prelude::*;

use crate::requests::{Opcode, ProviderID};

verus! {

/// The types of keys.
#[derive(Clone, Copy, Debug, PartialEq, Eq, Structural)]
pub enum KeyType {
    HmacKey,
    DeriveKey,
    AesKey,
    DesKey,
    CamelliaKey,
    Arc4Key,
    RsaPublicKey,
    RsaKeypair,
    DsaPublicKey,
    DsaKeypair,
    EccPublicKey,
    EccKeypair,
}

/// Asymmetric signing algorithms.
#[derive(Clone, Copy, Debug, PartialEq, Eq, Structural)]
pub enum SignAlgorithm {
    RsaPkcs1v15Sign,
    RsaPss,
    Dsa,
    DeterministicDsa,
    Ecdsa,
    DeterministicEcdsa,
}

/// Hash algorithms.
#[derive(Clone, Copy, Debug, PartialEq, Eq, Structural)]
pub enum HashAlgorithm {
    Md2,
    Md4,
    Md5,
    Ripemd160,
    Sha1,
    Sha224,
    Sha256,
    Sha384,
    Sha512,
    Sha512224,
    Sha512256,
    Sha3224,
    Sha3256,
    Sha3384,
    Sha3512,
}

/// The algorithm that a key is for.
///
/// The provider handles signing keys only, so the other families carry no
/// parameters.
#[derive(Clone, Copy, Debug, PartialEq, Eq)]
pub enum Algorithm {
    Cipher,
    AsymmetricEncryption,
    Mac,
    Aead,
    Sign(SignAlgorithm, Option<HashAlgorithm>),
    KeyAgreement,
    KeyDerivation,
    Hash,
}

/// The attributes of a key that the provider reads.
#[derive(Clone, Copy, Debug)]
pub struct KeyAttributes {
    pub key_type: KeyType,
    pub algorithm: Algorithm,
    /// Size of the key in bits.
    pub key_size: u32,
}

impl KeyAttributes {
    /// The key is of type `key_type` and for RSA PKCS #1 v1.5 signatures with no
    /// hash named.
    pub open spec fn is_rsa_signing_key(self, key_type: KeyType) -> bool {
        &&& self.key_type == key_type
        &&& self.algorithm == Algorithm::Sign(SignAlgorithm::RsaPkcs1v15Sign, None)
    }

    /// Whether the key is of type `key_type` and for RSA PKCS #1 v1.5 signatures
    /// with no hash named.
    pub fn is_for_rsa_signing(&self, key_type: KeyType) -> (r: bool)
        ensures
            r == self.is_rsa_signing_key(key_type),
    {
        let algorithm_matches = match self.algorithm {
            Algorithm::Sign(SignAlgorithm::RsaPkcs1v15Sign, None) => true,
            _ => false,
        };
        self.key_type == key_type && algorithm_matches
    }
}

/// Request to create a key in the provider.
#[derive(Debug)]
pub struct OpCreateKey {
    pub key_name: String,
    pub key_attributes: KeyAttributes,
}

/// A key has been created.
#[derive(Clone, Copy, Debug, PartialEq, Eq, Structural)]
pub struct ResultCreateKey {}

/// Request to import a key into the provider.
#[derive(Debug)]
pub struct OpImportKey {
    pub key_name: String,
    pub key_attributes: KeyAttributes,
    /// The public key, DER encoded.
    pub key_data: Vec<u8>,
}

/// A key has been imported.
#[derive(Clone, Copy, Debug, PartialEq, Eq, Structural)]
pub struct ResultImportKey {}

/// Request for the public part of a key.
#[derive(Debug)]
pub struct OpExportPublicKey {
    pub key_name: String,
}

/// The public part of a key.
#[derive(Debug)]
pub struct ResultExportPublicKey {
    /// The public key, DER encoded.
    pub key_data: Vec<u8>,
}

/// Request to destroy a key.
#[derive(Debug)]
pub struct OpDestroyKey {
    pub key_name: String,
}

/// A key has been destroyed.
#[derive(Clone, Copy, Debug, PartialEq, Eq, Structural)]
pub struct ResultDestroyKey {}

/// Request to sign a hash.
#[derive(Debug)]
pub struct OpAsymSign {
    pub key_name: String,
    pub hash: Vec<u8>,
}

/// A signature.
#[derive(Debug)]
pub struct ResultAsymSign {
    pub signature: Vec<u8>,
}

/// Request to verify the signature of a hash.
#[derive(Debug)]
pub struct OpAsymVerify {
    pub key_name: String,
    pub hash: Vec<u8>,
    pub signature: Vec<u8>,
}

/// A signature has been found valid.
#[derive(Clone, Copy, Debug, PartialEq, Eq, Structural)]
pub struct ResultAsymVerify {}

/// Request for the operations of a provider.
#[derive(Clone, Copy, Debug)]
pub struct OpListOpcodes {}

/// The operations of a provider, each once.
#[derive(Debug)]
pub struct ResultListOpcodes {
    pub opcodes: Vec<Opcode>,
}

/// What a provider says of itself.
#[derive(Debug)]
pub struct ProviderInfo {
    /// The sixteen octets of the provider's UUID, first octet first.
    pub uuid: Vec<u8>,
    pub description: String,
    pub vendor: String,
    pub version_maj: u32,
    pub version_min: u32,
    pub version_rev: u32,
    pub id: ProviderID,
}

} // verus!
