//! RSA public keys and their DER encoding.
//!
//! RSAPublicKey ::= SEQUENCE {
//!     modulus            INTEGER,  -- n
//!     publicExponent     INTEGER   -- e
//! }

use picky_asn1::wrapper::IntegerAsn1;
use vstd::prelude::*;

use crate::radix::{
    be_octets, be_value, lemma_be_octets_len, lemma_be_round_trip, lemma_be_value_bound,
    lemma_pow256_increases, lemma_pow256_values, pow256,
};
use crate::requests::{ResponseStatus, Result};

verus! {

/// An RSA public key: the contents octets of its two INTEGERs.
#[derive(Debug)]
pub struct RsaPublicKey {
    pub modulus: Vec<u8>,
    pub public_exponent: Vec<u8>,
}

/// An RSA public key, its numbers taken as sequences of octets.
pub struct RsaPublicKeyView {
    pub modulus: Seq<u8>,
    pub public_exponent: Seq<u8>,
}

impl View for RsaPublicKey {
    type V = RsaPublicKeyView;

    open spec fn view(&self) -> RsaPublicKeyView {
        RsaPublicKeyView { modulus: self.modulus@, public_exponent: self.public_exponent@ }
    }
}

/// The tag of an INTEGER.
pub const INTEGER: u8 = 0x02;

/// The tag of a SEQUENCE.
pub const SEQUENCE: u8 = 0x30;

/// The tag of a SET.
pub const SET: u8 = 0x31;

/// The length octets for `n` octets of contents.
pub open spec fn der_length(n: nat) -> Seq<u8> {
    if n < 128 {
        seq![n as u8]
    } else {
        seq![(128 + be_octets(n).len()) as u8] + be_octets(n)
    }
}

/// The object with the given tag and contents.
pub open spec fn der_object(tag: u8, contents: Seq<u8>) -> Seq<u8> {
    seq![tag] + der_length(contents.len()) + contents
}

/// The DER encoding of `key`.
pub open spec fn der_key(key: RsaPublicKeyView) -> Seq<u8> {
    der_object(
        SEQUENCE,
        der_object(INTEGER, key.modulus) + der_object(INTEGER, key.public_exponent),
    )
}

/// The tag is one of a context-specific object.
pub open spec fn is_context_tag(tag: u8) -> bool {
    0x80 <= tag <= 0x8f
}

/// An object with this tag is read as a sequence of objects.
pub open spec fn holds_objects(tag: u8) -> bool {
    tag == SEQUENCE || tag == SET || is_context_tag(tag)
}

/// An object with this tag is read as a string of octets: INTEGER, BIT STRING,
/// OCTET STRING, UTF8String, NumericString, PrintableString, IA5String, and those
/// that are context-specific.
pub open spec fn holds_octets(tag: u8) -> bool {
    ||| tag == INTEGER
    ||| tag == 0x03
    ||| tag == 0x04
    ||| tag == 0x0c
    ||| tag == 0x12
    ||| tag == 0x13
    ||| tag == 0x16
    ||| is_context_tag(tag)
}

/// The number of octets of a `usize`.
pub open spec fn usize_octets() -> nat {
    (usize::BITS / 8) as nat
}

/// Where the contents of an object start and end by the length octets at `at`.
/// `None` if `bytes` end before them, or if there are more than a `usize` holds.
pub open spec fn contents_at(bytes: Seq<u8>, at: int) -> Option<(int, int)> {
    if !(0 <= at < bytes.len()) {
        None
    } else if bytes[at] < 128 {
        Some((at + 1, at + 1 + bytes[at]))
    } else {
        let start = at + 1 + (bytes[at] - 128);
        if bytes[at] - 128 > usize_octets() || start > bytes.len() {
            None
        } else {
            Some((start, start + be_value(bytes.subrange(at + 1, start))))
        }
    }
}

/// The contents of the sequence that `bytes` start with.
pub open spec fn sequence_contents(bytes: Seq<u8>) -> Option<(int, int)> {
    if bytes.len() > 0 && holds_objects(bytes[0]) {
        contents_at(bytes, 1)
    } else {
        None
    }
}

/// The contents of the string of octets at `at`.
pub open spec fn octets_contents(bytes: Seq<u8>, at: int) -> Option<(int, int)> {
    if 0 <= at < bytes.len() && holds_octets(bytes[at]) {
        contents_at(bytes, at + 1)
    } else {
        None
    }
}

/// The key that `bytes` decode to: the first two strings of octets in the
/// sequence that `bytes` start with. What follows them does not count.
pub open spec fn decoded_key(bytes: Seq<u8>) -> Option<RsaPublicKeyView> {
    match sequence_contents(bytes) {
        Some((at1, limit)) if at1 < limit => match octets_contents(bytes, at1) {
            Some((start1, at2)) if at2 <= bytes.len() && at2 < limit => match octets_contents(
                bytes,
                at2,
            ) {
                Some((start2, end2)) if end2 <= bytes.len() => Some(
                    RsaPublicKeyView {
                        modulus: bytes.subrange(start1, at2),
                        public_exponent: bytes.subrange(start2, end2),
                    },
                ),
                _ => None,
            },
            _ => None,
        },
        _ => None,
    }
}

/// The string of octets at `at` ends where the sequence around it ends, at
/// `limit`, or before. One that is cut off by the end of `bytes` need not, but
/// its length is still one that memory can have.
pub open spec fn nested(bytes: Seq<u8>, at: int, limit: int) -> bool {
    octets_contents(bytes, at) matches Some((start, end)) ==> {
        &&& end - start <= isize::MAX
        &&& end <= bytes.len() ==> end <= limit
    }
}

/// The first two strings of octets in the sequence that `bytes` start with end
/// within that sequence.
pub open spec fn well_nested(bytes: Seq<u8>) -> bool {
    sequence_contents(bytes) matches Some((at1, limit)) ==> at1 < limit ==> {
        &&& nested(bytes, at1, limit)
        &&& octets_contents(bytes, at1) matches Some((_, at2)) ==> at2 <= bytes.len() && at2 < limit
            ==> nested(bytes, at2, limit)
    }
}

/// The octets of the magnitude of the INTEGER with the contents `integer`, if it
/// is not negative: without the zero octet that keeps the sign, and never none.
pub open spec fn magnitude(integer: Seq<u8>) -> Seq<u8> {
    if integer.len() == 0 {
        seq![0u8]
    } else if integer.len() > 1 && integer[0] == 0 {
        integer.skip(1)
    } else {
        integer
    }
}

/// The contents of the INTEGER whose magnitude has the octets `magnitude`: behind
/// a zero octet where they would be read as a negative number without it.
pub open spec fn positive(magnitude: Seq<u8>) -> Seq<u8> {
    if magnitude.len() > 0 && magnitude[0] >= 128 {
        seq![0u8] + magnitude
    } else {
        magnitude
    }
}

/// Why picky-asn1-der failed.
#[verifier::external_type_specification]
#[verifier::external_body]
pub struct ExAsn1DerError(picky_asn1_der::Asn1DerError);

/// Calls `picky_asn1_der::from_bytes` for a pair of `IntegerAsn1`, which it reads
/// like a struct with these two fields. Of `from_bytes` this claims that it takes
/// an object with the tag of a sequence, a set or a context-specific object for
/// the struct, and one with the tag of a string of octets for an `IntegerAsn1`;
/// that it ignores what follows the second one, in the sequence and behind it;
/// and that it fails if and only if there are no two such objects. It panics
/// where an object overruns the sequence, or where its length is one that no
/// `Vec` can have.
#[verifier::external_body]
fn from_bytes(key_data: &[u8]) -> (r: core::result::Result<
    RsaPublicKey,
    picky_asn1_der::Asn1DerError,
>)
    requires
        well_nested(key_data@),
    ensures
        match r {
            Ok(key) => decoded_key(key_data@) == Some(key@),
            Err(_) => decoded_key(key_data@) is None,
        },
{
    let (modulus, public_exponent): (IntegerAsn1, IntegerAsn1) = picky_asn1_der::from_bytes(
        key_data,
    )?;
    Ok(RsaPublicKey { modulus: modulus.0, public_exponent: public_exponent.0 })
}

/// Calls `picky_asn1_der::to_vec` on a pair of `IntegerAsn1` made by
/// `IntegerAsn1::from_signed_bytes_be`, which takes the octets as they are. Of
/// `to_vec` this claims that it writes such a pair, like a struct with these two
/// fields, as a SEQUENCE of two INTEGERs in DER, with lengths in the shortest
/// form, and that writing to a `Vec` does not fail. It panics where its buffer,
/// which may be twice as long as the encoding, is too long for a `Vec`.
#[verifier::external_body]
fn to_vec(key: RsaPublicKey) -> (r: core::result::Result<Vec<u8>, picky_asn1_der::Asn1DerError>)
    requires
        der_key(key@).len() <= isize::MAX / 2,
    ensures
        r is Ok,
        r->Ok_0@ == der_key(key@),
{
    let modulus = IntegerAsn1::from_signed_bytes_be(key.modulus);
    let public_exponent = IntegerAsn1::from_signed_bytes_be(key.public_exponent);
    picky_asn1_der::to_vec(&(modulus, public_exponent))
}

/// Calls `IntegerAsn1::as_bytes_be` on the INTEGER with the contents `integer`.
/// Of it this claims that it leaves out one leading zero octet that is not the
/// only octet, and gives a zero octet where there is none.
#[verifier::external_body]
fn as_bytes_be(integer: Vec<u8>) -> (r: Vec<u8>)
    ensures
        r@ == magnitude(integer@),
{
    IntegerAsn1::from(integer).as_bytes_be().to_vec()
}

/// A `usize` holds the numbers of `usize_octets` octets.
proof fn lemma_usize_octets()
    ensures
        pow256(usize_octets()) == usize::MAX + 1,
{
    lemma_pow256_values();
    assert(usize::BITS == 32 || usize::BITS == 64);
}

/// Where the contents start by the length octets at `at`, and how many octets
/// they have.
fn read_length(bytes: &[u8], at: usize) -> (r: Option<(usize, usize)>)
    ensures
        contents_at(bytes@, at as int) == match r {
            Some((start, len)) => Some((start as int, start + len)),
            None => None,
        },
        r matches Some((start, _)) ==> start <= bytes@.len(),
{
    if at >= bytes.len() {
        return None;
    }
    let first: u8 = bytes[at];
    if first < 128 {
        return Some((at + 1, first as usize));
    }
    let count: usize = (first - 128) as usize;
    if count > (usize::BITS / 8) as usize || count > bytes.len() - at - 1 {
        return None;
    }
    let mut len: usize = 0;
    for i in 0..count
        invariant
            at + 1 + count <= bytes@.len() <= usize::MAX,
            count <= usize_octets(),
            len == be_value(bytes@.subrange(at + 1, at + 1 + i)),
    {
        let ghost read = bytes@.subrange(at + 1, at + 1 + i);
        let ghost next = bytes@.subrange(at + 1, at + 1 + i + 1);
        proof {
            lemma_be_value_bound(next);
            lemma_pow256_increases(next.len(), usize_octets());
            lemma_usize_octets();
            assert(next.drop_last() =~= read);
            assert(next.last() == bytes@[at + 1 + i]);
        }
        len = len * 256 + bytes[at + 1 + i] as usize;
    }
    Some((at + 1 + count, len))
}

/// Whether the tag is one of an object that is read as a string of octets.
fn is_octets_tag(tag: u8) -> (r: bool)
    ensures
        r == holds_octets(tag),
{
    tag == INTEGER || tag == 0x03 || tag == 0x04 || tag == 0x0c || tag == 0x12 || tag == 0x13
        || tag == 0x16 || (0x80 <= tag && tag <= 0x8f)
}

/// Whether decoding `bytes` meets only objects that end within the sequence they
/// stand in.
pub fn is_well_nested(bytes: &[u8]) -> (r: bool)
    ensures
        r == well_nested(bytes@),
{
    if bytes.len() == 0 {
        return true;
    }
    let tag: u8 = bytes[0];
    if !(tag == SEQUENCE || tag == SET || (0x80 <= tag && tag <= 0x8f)) {
        return true;
    }
    let (at1, total) = match read_length(bytes, 1) {
        Some(contents) => contents,
        None => {
            return true;
        },
    };
    if at1 >= bytes.len() || total == 0 || !is_octets_tag(bytes[at1]) {
        return true;
    }
    let (start1, len1) = match read_length(bytes, at1 + 1) {
        Some(contents) => contents,
        None => {
            return true;
        },
    };
    if len1 > isize::MAX as usize {
        return false;
    }
    if len1 > bytes.len() - start1 {
        return true;
    }
    let at2: usize = start1 + len1;
    if at2 - at1 > total {
        return false;
    }
    if at2 - at1 == total || at2 >= bytes.len() || !is_octets_tag(bytes[at2]) {
        return true;
    }
    let (start2, len2) = match read_length(bytes, at2 + 1) {
        Some(contents) => contents,
        None => {
            return true;
        },
    };
    if len2 > isize::MAX as usize {
        return false;
    }
    len2 > bytes.len() - start2 || start2 + len2 - at1 <= total
}

/// Public exponent of all RSA keys of the provider.
pub const PUBLIC_EXPONENT: [u8; 3] = [0x01, 0x00, 0x01];

/// The least number of octets that the modulus of an imported key may have.
pub const MIN_MODULUS_LEN: usize = 128;

/// The modulus that importing `key_data` hands to the TPM, or why they are
/// refused: they are not a public key, or one with an object that overruns the
/// sequence around it; its exponent is not the one exponent of the provider; or
/// its modulus has less than 1024 bits.
pub open spec fn importable_modulus(key_data: Seq<u8>) -> Result<Seq<u8>> {
    if !well_nested(key_data) {
        Err(ResponseStatus::PsaErrorCommunicationFailure)
    } else {
        match decoded_key(key_data) {
            None => Err(ResponseStatus::PsaErrorCommunicationFailure),
            Some(key) => if magnitude(key.public_exponent) != PUBLIC_EXPONENT@ || magnitude(
                key.modulus,
            ).len() < MIN_MODULUS_LEN {
                Err(ResponseStatus::UnsupportedOperation)
            } else {
                Ok(magnitude(key.modulus))
            },
        }
    }
}

/// The exported form of the key with the given modulus, a positive number with
/// the most significant octet first.
pub open spec fn exported_key(modulus: Seq<u8>) -> Seq<u8> {
    der_key(RsaPublicKeyView { modulus: positive(modulus), public_exponent: PUBLIC_EXPONENT@ })
}

/// The modulus of the public key that `key_data` encode, if the provider handles
/// that key.
pub fn import_modulus(key_data: &[u8]) -> (r: Result<Vec<u8>>)
    ensures
        importable_modulus(key_data@) == match r {
            Ok(modulus) => Ok(modulus@),
            Err(status) => Err(status),
        },
{
    if !is_well_nested(key_data) {
        return Err(ResponseStatus::PsaErrorCommunicationFailure);
    }
    let public_key = match from_bytes(key_data) {
        Ok(public_key) => public_key,
        Err(_) => {
            return Err(ResponseStatus::PsaErrorCommunicationFailure);
        },
    };
    let exponent = as_bytes_be(public_key.public_exponent);
    if !(exponent.len() == 3 && exponent[0] == PUBLIC_EXPONENT[0] && exponent[1]
        == PUBLIC_EXPONENT[1] && exponent[2] == PUBLIC_EXPONENT[2]) {
        return Err(ResponseStatus::UnsupportedOperation);
    }
    assert(exponent@ =~= PUBLIC_EXPONENT@);
    let modulus = as_bytes_be(public_key.modulus);
    if modulus.len() < MIN_MODULUS_LEN {
        return Err(ResponseStatus::UnsupportedOperation);
    }
    Ok(modulus)
}

/// The length octets of a length that a `usize` holds are few.
proof fn lemma_der_length_len(n: nat)
    requires
        n <= usize::MAX,
    ensures
        1 <= der_length(n).len() <= 9,
        n >= 128 ==> der_length(n).len() == 1 + be_octets(n).len() && be_octets(n).len()
            <= usize_octets() && der_length(n)[0] == 128 + be_octets(n).len(),
{
    lemma_usize_octets();
    lemma_be_octets_len(n, usize_octets());
}

/// The DER encoding of the public key with the given modulus.
pub fn export_key(modulus: Vec<u8>) -> (r: Result<Vec<u8>>)
    requires
        modulus@.len() + 32 <= isize::MAX / 2,
    ensures
        r is Ok,
        r->Ok_0@ == exported_key(modulus@),
{
    let ghost given = modulus@;
    let mut modulus = modulus;
    if modulus.len() > 0 && modulus[0] >= 128 {
        modulus.insert(0, 0);
        assert(modulus@ =~= seq![0u8] + given);
    }
    let mut public_exponent: Vec<u8> = Vec::new();
    public_exponent.push(PUBLIC_EXPONENT[0]);
    public_exponent.push(PUBLIC_EXPONENT[1]);
    public_exponent.push(PUBLIC_EXPONENT[2]);
    let key = RsaPublicKey { modulus, public_exponent };
    proof {
        assert(key.public_exponent@ =~= PUBLIC_EXPONENT@);
        let objects = der_object(INTEGER, key.modulus@) + der_object(
            INTEGER,
            key.public_exponent@,
        );
        lemma_der_length_len(key.modulus@.len());
        lemma_der_length_len(objects.len());
    }
    match to_vec(key) {
        Ok(key_data) => Ok(key_data),
        Err(_) => Err(ResponseStatus::PsaErrorCommunicationFailure),
    }
}

/// The parts of an exported key.
pub proof fn lemma_exported_parts(modulus: Seq<u8>)
    requires
        modulus.len() + 32 <= isize::MAX / 2,
    ensures
        ({
            let n = positive(modulus);
            let objects = seq![INTEGER] + der_length(n.len()) + n + seq![
                0x02u8,
                0x03,
                0x01,
                0x00,
                0x01,
            ];
            &&& exported_key(modulus) == seq![SEQUENCE] + der_length(objects.len()) + objects
            &&& exported_key(modulus).len() <= modulus.len() + 26
        }),
{
    let n = positive(modulus);
    let objects = der_object(INTEGER, n) + der_object(INTEGER, PUBLIC_EXPONENT@);
    lemma_der_length_len(n.len());
    lemma_der_length_len(objects.len());
    assert(der_object(INTEGER, PUBLIC_EXPONENT@) =~= seq![0x02u8, 0x03, 0x01, 0x00, 0x01]);
}

/// Length octets are read back.
proof fn lemma_contents_at(bytes: Seq<u8>, at: int, n: nat)
    requires
        n <= usize::MAX,
        0 <= at,
        at + der_length(n).len() <= bytes.len(),
        bytes.subrange(at, at + der_length(n).len()) == der_length(n),
    ensures
        contents_at(bytes, at) == Some(
            (at + der_length(n).len(), at + der_length(n).len() + n),
        ),
{
    lemma_der_length_len(n);
    let length = der_length(n);
    assert(bytes[at] == bytes.subrange(at, at + length.len())[0]);
    if n >= 128 {
        assert(bytes.subrange(at + 1, at + length.len()) =~= length.skip(1));
        assert(length.skip(1) =~= be_octets(n));
        lemma_be_round_trip(n);
    }
}

/// Decoding reads back what encoding wrote: a DER encoded key is well nested and
/// decodes to that key.
pub proof fn decoding_reads_back_key(key: RsaPublicKeyView)
    requires
        der_key(key).len() <= isize::MAX,
    ensures
        well_nested(der_key(key)),
        decoded_key(der_key(key)) == Some(key),
{
    let bytes = der_key(key);
    let first = der_object(INTEGER, key.modulus);
    let second = der_object(INTEGER, key.public_exponent);
    let objects = first + second;
    let at1 = 1 + der_length(objects.len()).len() as int;
    let at2 = at1 + first.len();
    assert(bytes.subrange(1, at1) =~= der_length(objects.len()));
    lemma_contents_at(bytes, 1, objects.len());
    let start1 = at1 + 1 + der_length(key.modulus.len()).len();
    assert(bytes[at1] == INTEGER);
    assert(bytes.subrange(at1 + 1, start1) =~= der_length(key.modulus.len()));
    lemma_contents_at(bytes, at1 + 1, key.modulus.len());
    assert(bytes.subrange(start1, at2) =~= key.modulus);
    let start2 = at2 + 1 + der_length(key.public_exponent.len()).len();
    assert(bytes[at2] == INTEGER);
    assert(bytes.subrange(at2 + 1, start2) =~= der_length(key.public_exponent.len()));
    lemma_contents_at(bytes, at2 + 1, key.public_exponent.len());
    assert(bytes.subrange(start2, bytes.len() as int) =~= key.public_exponent);
}

/// A DER encoded key is never mistaken for something else: it is imported with
/// the magnitude of its modulus, or refused for its exponent or its size.
pub proof fn encoded_key_imports(key: RsaPublicKeyView)
    requires
        der_key(key).len() <= isize::MAX,
    ensures
        well_nested(der_key(key)),
        importable_modulus(der_key(key)) == if magnitude(key.public_exponent)
            == PUBLIC_EXPONENT@ && magnitude(key.modulus).len() >= MIN_MODULUS_LEN {
            Ok(magnitude(key.modulus))
        } else {
            Err(ResponseStatus::UnsupportedOperation)
        },
{
    decoding_reads_back_key(key);
}

/// A DER encoded key whose modulus stands behind the zero octet that keeps its
/// sign gives the TPM the modulus without that octet.
pub proof fn signed_modulus_imports(modulus: Seq<u8>)
    requires
        ({
            let key = RsaPublicKeyView {
                modulus: seq![0u8] + modulus,
                public_exponent: PUBLIC_EXPONENT@,
            };
            der_key(key).len() <= isize::MAX
        }),
        modulus.len() >= MIN_MODULUS_LEN,
    ensures
        ({
            let key = RsaPublicKeyView {
                modulus: seq![0u8] + modulus,
                public_exponent: PUBLIC_EXPONENT@,
            };
            &&& well_nested(der_key(key))
            &&& importable_modulus(der_key(key)) == Ok::<Seq<u8>, ResponseStatus>(modulus)
        }),
{
    encoded_key_imports(
        RsaPublicKeyView { modulus: seq![0u8] + modulus, public_exponent: PUBLIC_EXPONENT@ },
    );
    assert((seq![0u8] + modulus).skip(1) =~= modulus);
}

/// An exported key can be imported again, and gives the TPM the modulus that it
/// was exported with. (The modulus of an RSA key starts with an octet that is not
/// zero.)
pub proof fn exported_key_imports_back(modulus: Seq<u8>)
    requires
        exported_key(modulus).len() <= isize::MAX,
        modulus.len() >= MIN_MODULUS_LEN,
        modulus[0] != 0,
    ensures
        well_nested(exported_key(modulus)),
        importable_modulus(exported_key(modulus)) == Ok::<Seq<u8>, ResponseStatus>(modulus),
{
    encoded_key_imports(
        RsaPublicKeyView { modulus: positive(modulus), public_exponent: PUBLIC_EXPONENT@ },
    );
    assert((seq![0u8] + modulus).skip(1) =~= modulus);
}

/// The contents are those of an INTEGER that is not negative, in the shortest
/// form.
pub open spec fn is_minimal(integer: Seq<u8>) -> bool {
    &&& integer.len() > 0
    &&& integer[0] < 128
    &&& integer.len() > 1 && integer[0] == 0 ==> integer[1] >= 128
}

/// `bytes` are the DER encoding of `key`, whose numbers are not negative.
pub open spec fn encodes(bytes: Seq<u8>, key: RsaPublicKeyView) -> bool {
    &&& bytes == der_key(key)
    &&& is_minimal(key.modulus)
    &&& is_minimal(key.public_exponent)
}

/// `bytes` are the one DER encoding of an RSA public key.
pub open spec fn is_canonical(bytes: Seq<u8>) -> bool {
    exists|key: RsaPublicKeyView| encodes(bytes, key)
}

/// An exported key is in DER, with a modulus that is not negative. (The modulus of
/// an RSA key starts with an octet that is not zero.)
pub proof fn exported_key_is_canonical(modulus: Seq<u8>)
    requires
        modulus.len() > 0,
        modulus[0] != 0,
    ensures
        is_canonical(exported_key(modulus)),
        magnitude(positive(modulus)) == modulus,
{
    assert((seq![0u8] + modulus).skip(1) =~= modulus);
    assert(encodes(
        exported_key(modulus),
        RsaPublicKeyView { modulus: positive(modulus), public_exponent: PUBLIC_EXPONENT@ },
    ));
}

/// A key that is imported in DER is exported as the same bytes, when the TPM gives
/// its modulus back.
pub proof fn imported_key_exports_back(key_data: Seq<u8>)
    requires
        key_data.len() <= isize::MAX,
        is_canonical(key_data),
    ensures
        importable_modulus(key_data) matches Ok(modulus) ==> exported_key(modulus) == key_data,
{
    let key = choose|key: RsaPublicKeyView| encodes(key_data, key);
    encoded_key_imports(key);
    let (n, e) = (key.modulus, key.public_exponent);
    if magnitude(e) == PUBLIC_EXPONENT@ && magnitude(n).len() >= MIN_MODULUS_LEN {
        if e[0] == 0 {
            assert(e.skip(1)[0] == e[1]);
        }
        if n[0] == 0 {
            assert(n.skip(1)[0] == n[1]);
            assert(seq![0u8] + n.skip(1) =~= n);
        }
        assert(positive(magnitude(n)) == n);
    }
}

/// Whatever data are imported, the modulus that the TPM is given has 1024 bits or
/// more.
pub proof fn imported_modulus_is_long_enough(key_data: Seq<u8>)
    ensures
        importable_modulus(key_data) matches Ok(modulus) ==> modulus.len() * 8 >= 1024,
{
}

} // verus!
