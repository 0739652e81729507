//! The value that the provider keeps in the Key ID Manager for each of its keys.

use vstd::prelude::*;

use crate::key_id_managers::{
    bytes_found, mapped, may_have_failed, KeyTriple, KeyTripleView, ManageKeyIDs, Mappings,
};
use crate::radix::{
    le_octets, lemma_le_octets_injective, lemma_le_octets_len, lemma_pow256_values,
};
use crate::requests::{ResponseStatus, Result};

verus! {

/// A key context that a TPM has saved, with the fields of a `TPMS_CONTEXT`.
#[derive(Debug)]
pub struct TpmsContext {
    pub sequence: u64,
    pub saved_handle: u32,
    pub hierarchy: u32,
    pub context_blob: Vec<u8>,
}

/// A saved key context, its blob taken as a sequence.
pub struct TpmsContextView {
    pub sequence: u64,
    pub saved_handle: u32,
    pub hierarchy: u32,
    pub context_blob: Seq<u8>,
}

impl View for TpmsContext {
    type V = TpmsContextView;

    open spec fn view(&self) -> TpmsContextView {
        TpmsContextView {
            sequence: self.sequence,
            saved_handle: self.saved_handle,
            hierarchy: self.hierarchy,
            context_blob: self.context_blob@,
        }
    }
}

/// A key context together with the authorisation value of the key.
pub struct PasswordContext {
    pub context: TpmsContext,
    pub auth_value: Vec<u8>,
}

/// A password context, its authorisation value taken as a sequence.
pub struct PasswordContextView {
    pub context: TpmsContextView,
    pub auth_value: Seq<u8>,
}

impl View for PasswordContext {
    type V = PasswordContextView;

    open spec fn view(&self) -> PasswordContextView {
        PasswordContextView { context: self.context@, auth_value: self.auth_value@ }
    }
}

/// `bytes` behind their number, which takes eight octets.
pub open spec fn counted(bytes: Seq<u8>) -> Seq<u8> {
    le_octets(bytes.len(), 8) + bytes
}

/// The bytes that stand for `c` in the Key ID Manager: the fields one after the
/// other, integers with the least significant octet first.
pub open spec fn encoded(c: PasswordContextView) -> Seq<u8> {
    le_octets(c.context.sequence as nat, 8) + le_octets(c.context.saved_handle as nat, 4)
        + le_octets(c.context.hierarchy as nat, 4) + counted(c.context.context_blob) + counted(
        c.auth_value,
    )
}

/// The encoding of `c` has a length that a `Vec` can have.
pub open spec fn storable(c: PasswordContextView) -> bool {
    32 + c.context.context_blob.len() + c.auth_value.len() <= isize::MAX
}

/// `bytes` start with the encoding of `c`.
pub open spec fn starts_with_context(bytes: Seq<u8>, c: PasswordContextView) -> bool {
    encoded(c).is_prefix_of(bytes)
}

/// The password context that `bytes` start with, if they start with one. What
/// follows it does not count.
pub open spec fn decoded(bytes: Seq<u8>) -> Option<PasswordContextView> {
    if exists|c: PasswordContextView| starts_with_context(bytes, c) {
        Some(choose|c: PasswordContextView| starts_with_context(bytes, c))
    } else {
        None
    }
}

/// What a reader of `triple` is told by a Key ID Manager that answers.
pub open spec fn lookup_outcome(
    mappings: Mappings,
    triple: KeyTripleView,
) -> Result<PasswordContextView> {
    found_outcome(mapped(mappings, triple))
}

/// What a reader is told when `found` are the bytes that the triple is mapped to.
pub open spec fn found_outcome(found: Option<Seq<u8>>) -> Result<PasswordContextView> {
    match found {
        None => Err(ResponseStatus::KeyDoesNotExist),
        Some(bytes) => match decoded(bytes) {
            None => Err(ResponseStatus::KeyIDManagerError),
            Some(c) => Ok(c),
        },
    }
}

/// The mappings and the result that storing `c` under `triple` leaves behind,
/// when `before` were the mappings and the Key ID Manager answers: it holds `c`
/// now, and the result tells whether the triple was free.
pub open spec fn insertion_outcome(
    before: Mappings,
    triple: KeyTripleView,
    c: PasswordContextView,
    after: Mappings,
    r: Result<()>,
) -> bool {
    &&& after == before.insert(triple, encoded(c))
    &&& r == if before.contains_key(triple) {
        Err(ResponseStatus::KeyAlreadyExists)
    } else {
        Ok(())
    }
}

/// What storing `c` under `triple` does to the Key ID Manager `before`, and what
/// it results in: the manager answers, or it may fail and did.
pub open spec fn insertion_result<K: ManageKeyIDs + ?Sized>(
    before: &K,
    triple: KeyTripleView,
    c: PasswordContextView,
    after: &K,
    r: Result<()>,
) -> bool {
    ||| insertion_outcome(before.mappings(), triple, c, after.mappings(), r)
    ||| {
        &&& may_have_failed(before, after)
        &&& r == Err::<(), _>(ResponseStatus::KeyIDManagerError)
    }
}

/// A result, the password context in it taken by its view.
pub open spec fn context_result(r: Result<PasswordContext>) -> Result<PasswordContextView> {
    match r {
        Ok(c) => Ok(c@),
        Err(status) => Err(status),
    }
}

/// Why bincode failed.
#[verifier::external_type_specification]
#[verifier::external_body]
pub struct ExErrorKind(bincode::ErrorKind);

/// Calls `bincode::serialize` on the fields of `password_context`, as nested
/// tuples: bincode writes the fields of a tuple, like those of a struct, one
/// after the other with nothing between them. Of `bincode::serialize` this
/// claims that it writes integers in fixed width with the least significant
/// octet first, a `Vec` behind its length as a `u64`, and that with no size
/// limit it does not fail. It panics where the encoding is too long for a `Vec`.
#[verifier::external_body]
fn serialize(password_context: &PasswordContext) -> (r: core::result::Result<
    Vec<u8>,
    Box<bincode::ErrorKind>,
>)
    requires
        storable(password_context@),
    ensures
        r is Ok,
        r->Ok_0@ == encoded(password_context@),
{
    let c = &password_context.context;
    let context = (c.sequence, c.saved_handle, c.hierarchy, &c.context_blob);
    bincode::serialize(&(context, &password_context.auth_value))
}

/// Calls `bincode::deserialize` for the fields of a `PasswordContext`, as nested
/// tuples. Of `bincode::deserialize` this claims that it reads the encoding that
/// `bincode::serialize` writes from the front of `bytes`, ignores what follows,
/// and fails if and only if `bytes` start with no such encoding.
#[verifier::external_body]
fn deserialize(bytes: &[u8]) -> (r: core::result::Result<PasswordContext, Box<bincode::ErrorKind>>)
    ensures
        match r {
            Ok(c) => starts_with_context(bytes@, c@),
            Err(_) => forall|c: PasswordContextView| !#[trigger] starts_with_context(bytes@, c),
        },
{
    let ((sequence, saved_handle, hierarchy, context_blob), auth_value) = bincode::deserialize(
        bytes,
    )?;
    let context = TpmsContext { sequence, saved_handle, hierarchy, context_blob };
    Ok(PasswordContext { context, auth_value })
}

/// The length of the encoding of `c`.
pub proof fn lemma_encoded_len(c: PasswordContextView)
    ensures
        encoded(c).len() == 32 + c.context.context_blob.len() + c.auth_value.len(),
{
    lemma_le_octets_len(c.context.sequence as nat, 8);
    lemma_le_octets_len(c.context.saved_handle as nat, 4);
    lemma_le_octets_len(c.context.hierarchy as nat, 4);
    lemma_le_octets_len(c.context.context_blob.len(), 8);
    lemma_le_octets_len(c.auth_value.len(), 8);
}

/// The parts of the encoding of `c`, found by their places in `bytes`.
pub proof fn lemma_layout(bytes: Seq<u8>, c: PasswordContextView)
    requires
        starts_with_context(bytes, c),
    ensures
        ({
            let blob = c.context.context_blob.len() as int;
            let auth = c.auth_value.len() as int;
            &&& encoded(c).len() == 32 + blob + auth
            &&& 32 + blob + auth <= bytes.len()
            &&& bytes.subrange(0, 8) == le_octets(c.context.sequence as nat, 8)
            &&& bytes.subrange(8, 12) == le_octets(c.context.saved_handle as nat, 4)
            &&& bytes.subrange(12, 16) == le_octets(c.context.hierarchy as nat, 4)
            &&& bytes.subrange(16, 24) == le_octets(blob as nat, 8)
            &&& bytes.subrange(24, 24 + blob) == c.context.context_blob
            &&& bytes.subrange(24 + blob, 32 + blob) == le_octets(auth as nat, 8)
            &&& bytes.subrange(32 + blob, 32 + blob + auth) == c.auth_value
        }),
{
    let blob = c.context.context_blob.len() as int;
    let auth = c.auth_value.len() as int;
    lemma_le_octets_len(c.context.sequence as nat, 8);
    lemma_le_octets_len(c.context.saved_handle as nat, 4);
    lemma_le_octets_len(c.context.hierarchy as nat, 4);
    lemma_le_octets_len(blob as nat, 8);
    lemma_le_octets_len(auth as nat, 8);
    let e = encoded(c);
    assert(e =~= bytes.subrange(0, e.len() as int));
    assert(e.subrange(0, 8) =~= le_octets(c.context.sequence as nat, 8));
    assert(e.subrange(8, 12) =~= le_octets(c.context.saved_handle as nat, 4));
    assert(e.subrange(12, 16) =~= le_octets(c.context.hierarchy as nat, 4));
    assert(e.subrange(16, 24) =~= le_octets(blob as nat, 8));
    assert(e.subrange(24, 24 + blob) =~= c.context.context_blob);
    assert(e.subrange(24 + blob, 32 + blob) =~= le_octets(auth as nat, 8));
    assert(e.subrange(32 + blob, 32 + blob + auth) =~= c.auth_value);
    assert forall|i: int, j: int| 0 <= i <= j <= e.len() implies e.subrange(i, j)
        == #[trigger] bytes.subrange(i, j) by {
        assert(e.subrange(i, j) =~= bytes.subrange(i, j));
    }
}

/// Bytes start with at most one password context: the encoding of one is never
/// the beginning of the encoding of another.
pub proof fn encoding_is_prefix_free(
    bytes: Seq<u8>,
    c: PasswordContextView,
    d: PasswordContextView,
)
    requires
        bytes.len() <= u64::MAX,
        starts_with_context(bytes, c),
        starts_with_context(bytes, d),
    ensures
        c == d,
{
    lemma_layout(bytes, c);
    lemma_layout(bytes, d);
    lemma_pow256_values();
    lemma_le_octets_injective(c.context.sequence as nat, d.context.sequence as nat, 8);
    lemma_le_octets_injective(c.context.saved_handle as nat, d.context.saved_handle as nat, 4);
    lemma_le_octets_injective(c.context.hierarchy as nat, d.context.hierarchy as nat, 4);
    lemma_le_octets_injective(c.context.context_blob.len(), d.context.context_blob.len(), 8);
    lemma_le_octets_injective(c.auth_value.len(), d.auth_value.len(), 8);
}

/// Reading gives back what was written: bytes that start with the encoding of a
/// password context, whatever follows it, are decoded to that password context.
pub proof fn decoding_reads_back_encoding(c: PasswordContextView, rest: Seq<u8>)
    requires
        (encoded(c) + rest).len() <= u64::MAX,
    ensures
        decoded(encoded(c) + rest) == Some(c),
{
    let bytes = encoded(c) + rest;
    assert(starts_with_context(bytes, c));
    encoding_is_prefix_free(bytes, c, choose|d: PasswordContextView| starts_with_context(bytes, d));
}

/// What the reply of a Key ID Manager to an insertion means for the request.
pub fn insertion_status(reply: core::result::Result<Option<Vec<u8>>, String>) -> (r: Result<()>)
    ensures
        r == match reply {
            Err(_) => Err(ResponseStatus::KeyIDManagerError),
            Ok(Some(_)) => Err(ResponseStatus::KeyAlreadyExists),
            Ok(None) => Ok(()),
        },
{
    match reply {
        Err(_) => Err(ResponseStatus::KeyIDManagerError),
        Ok(Some(_)) => Err(ResponseStatus::KeyAlreadyExists),
        Ok(None) => Ok(()),
    }
}

/// Inserts a new mapping in the Key ID Manager that stores the password context.
///
/// A mapping of the triple that was there before is replaced all the same, and
/// the result says that the key already exists.
pub fn insert_password_context<K: ManageKeyIDs + ?Sized>(
    store_handle: &mut K,
    key_triple: KeyTriple,
    password_context: PasswordContext,
) -> (r: Result<()>)
    requires
        storable(password_context@),
    ensures
        insertion_result(
            &*old(store_handle),
            key_triple@,
            password_context@,
            &*final(store_handle),
            r,
        ),
{
    match serialize(&password_context) {
        Err(_) => Err(ResponseStatus::KeyIDManagerError),
        Ok(bytes) => insertion_status(store_handle.insert(key_triple, bytes)),
    }
}

/// What the reply of a Key ID Manager to a lookup means for the request.
pub fn found_password_context(reply: core::result::Result<Option<&[u8]>, String>) -> (r: Result<
    PasswordContext,
>)
    ensures
        context_result(r) == match reply {
            Err(_) => Err(ResponseStatus::KeyIDManagerError),
            Ok(found) => found_outcome(bytes_found(found)),
        },
{
    match reply {
        Err(_) => Err(ResponseStatus::KeyIDManagerError),
        Ok(None) => Err(ResponseStatus::KeyDoesNotExist),
        Ok(Some(bytes)) => match deserialize(bytes) {
            Err(_) => Err(ResponseStatus::KeyIDManagerError),
            Ok(password_context) => {
                proof {
                    assert(bytes@.len() == bytes.len());
                    let d = choose|d: PasswordContextView| starts_with_context(bytes@, d);
                    encoding_is_prefix_free(bytes@, password_context@, d);
                }
                Ok(password_context)
            },
        },
    }
}

/// Gets the password context that the key triple is mapped to.
pub fn get_password_context<K: ManageKeyIDs + ?Sized>(
    store_handle: &K,
    key_triple: KeyTriple,
) -> (r: Result<PasswordContext>)
    ensures
        (store_handle.may_fail() && r matches Err(ResponseStatus::KeyIDManagerError))
            || context_result(r) == lookup_outcome(store_handle.mappings(), key_triple@),
{
    found_password_context(store_handle.get(&key_triple))
}

} // verus!
