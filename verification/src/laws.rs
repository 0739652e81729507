//! What holds of several operations of the provider together.
//!
//! Where a law speaks of an outcome, the Key ID Manager answers. One that may fail
//! can answer otherwise only with `KeyIDManagerError`.

use vstd::prelude::*;

use crate::key_id_managers::{
    keeps_on_failure, mapped, KeyTripleView, ManageKeyIDs, Mappings,
};
use crate::operations::{ResultAsymVerify, ResultDestroyKey};
use crate::password_context::{
    decoding_reads_back_encoding, encoded, insertion_outcome, insertion_result,
    lemma_encoded_len, lookup_outcome, storable, PasswordContextView,
};
use crate::provider::{
    export_outcome, removal_outcome, removal_result, sign_outcome, supported_opcodes, tpm_triple,
    verify_outcome, MAX_HASH_LEN,
};
use crate::requests::{Opcode, ProviderID, ResponseStatus, Result};
use crate::tpm::{verdict, TpmReply, Tss2ResponseCodeKind};

verus! {

/// A key that has been stored, newly or in place of another, is found again with
/// the context and the authorisation value that were stored.
pub proof fn stored_key_is_found(
    before: Mappings,
    triple: KeyTripleView,
    c: PasswordContextView,
    after: Mappings,
    r: Result<()>,
)
    requires
        storable(c),
        insertion_outcome(before, triple, c, after, r),
    ensures
        lookup_outcome(after, triple) == Ok::<PasswordContextView, ResponseStatus>(c),
{
    lemma_encoded_len(c);
    decoding_reads_back_encoding(c, seq![]);
    assert(encoded(c) + seq![] =~= encoded(c));
}

/// What is stored for a key is what the TPM is handed afterwards: its context to
/// export it and to verify with it, and its context and its authorisation value to
/// sign with it.
pub proof fn stored_key_is_used(
    before: Mappings,
    triple: KeyTripleView,
    c: PasswordContextView,
    after: Mappings,
    r: Result<()>,
    hash: Seq<u8>,
)
    requires
        storable(c),
        insertion_outcome(before, triple, c, after, r),
        hash.len() <= MAX_HASH_LEN,
    ensures
        export_outcome(after, triple) == Ok::<_, ResponseStatus>(c.context),
        sign_outcome(after, triple, hash) == Ok::<_, ResponseStatus>((c.context, c.auth_value)),
        verify_outcome(after, triple, hash) == Ok::<_, ResponseStatus>(c.context),
{
    stored_key_is_found(before, triple, c, after, r);
}

/// The TPM decides whether a signature by a stored key is valid: verifying gets as
/// far as the TPM, and each of its answers has a result of its own.
pub proof fn tpm_decides_verification(
    before: Mappings,
    triple: KeyTripleView,
    c: PasswordContextView,
    after: Mappings,
    r: Result<()>,
    hash: Seq<u8>,
    reply: TpmReply<()>,
)
    requires
        storable(c),
        insertion_outcome(before, triple, c, after, r),
        hash.len() <= MAX_HASH_LEN,
    ensures
        verify_outcome(after, triple, hash) is Ok,
        verdict(reply) is Ok <==> reply is Ok,
        verdict(reply) == Err::<ResultAsymVerify, _>(ResponseStatus::PsaErrorInvalidSignature)
            <==> reply is Err && reply->Err_0.kind == Some(Tss2ResponseCodeKind::Signature),
        verdict(reply) == Err::<ResultAsymVerify, _>(ResponseStatus::PsaErrorHardwareFailure)
            <==> reply is Err && reply->Err_0.kind != Some(Tss2ResponseCodeKind::Signature),
{
    stored_key_is_used(before, triple, c, after, r, hash);
}

/// Storing a key changes what is found under no other triple.
pub proof fn storing_keeps_other_keys(
    before: Mappings,
    triple: KeyTripleView,
    c: PasswordContextView,
    after: Mappings,
    r: Result<()>,
    other: KeyTripleView,
)
    requires
        insertion_outcome(before, triple, c, after, r),
        other != triple,
    ensures
        mapped(after, other) == mapped(before, other),
        lookup_outcome(after, other) == lookup_outcome(before, other),
{
}

/// A key that has been stored is in the way of the next one: storing a second key
/// under its triple is told that it already exists.
pub proof fn stored_key_already_exists(
    before: Mappings,
    triple: KeyTripleView,
    c: PasswordContextView,
    between: Mappings,
    r: Result<()>,
    d: PasswordContextView,
    after: Mappings,
    s: Result<()>,
)
    requires
        insertion_outcome(before, triple, c, between, r),
        insertion_outcome(between, triple, d, after, s),
    ensures
        s == Err::<(), _>(ResponseStatus::KeyAlreadyExists),
{
}

/// A key that has been destroyed is not found, and no key is where there was none
/// to destroy: exporting, signing and verifying with it are refused.
pub proof fn destroyed_key_does_not_exist(
    before: Mappings,
    triple: KeyTripleView,
    after: Mappings,
    r: Result<ResultDestroyKey>,
    hash: Seq<u8>,
)
    requires
        removal_outcome(before, triple, after, r),
        hash.len() <= MAX_HASH_LEN,
    ensures
        export_outcome(after, triple) is Err,
        export_outcome(after, triple)->Err_0 == ResponseStatus::KeyDoesNotExist,
        sign_outcome(after, triple, hash) is Err,
        sign_outcome(after, triple, hash)->Err_0 == ResponseStatus::KeyDoesNotExist,
        verify_outcome(after, triple, hash) is Err,
        verify_outcome(after, triple, hash)->Err_0 == ResponseStatus::KeyDoesNotExist,
{
}

/// A key is destroyed once: destroying it again is told that it does not exist, and
/// changes nothing.
pub proof fn destroyed_key_is_not_destroyed_again(
    before: Mappings,
    triple: KeyTripleView,
    between: Mappings,
    r: Result<ResultDestroyKey>,
    after: Mappings,
    s: Result<ResultDestroyKey>,
)
    requires
        removal_outcome(before, triple, between, r),
        removal_outcome(between, triple, after, s),
    ensures
        s == Err::<ResultDestroyKey, _>(ResponseStatus::KeyDoesNotExist),
        after == between,
{
    assert(after =~= between);
}

/// A stored key can be destroyed, and destroying it undoes storing it where the
/// triple was free before.
pub proof fn destroying_undoes_storing(
    before: Mappings,
    triple: KeyTripleView,
    c: PasswordContextView,
    between: Mappings,
    after: Mappings,
    s: Result<ResultDestroyKey>,
)
    requires
        insertion_outcome(before, triple, c, between, Ok(())),
        removal_outcome(between, triple, after, s),
    ensures
        s is Ok,
        after == before,
{
    assert(after =~= before);
}

/// The triple of a destroyed key is free: the next key can be stored under it.
pub proof fn destroying_frees_the_triple(
    before: Mappings,
    triple: KeyTripleView,
    between: Mappings,
    r: Result<ResultDestroyKey>,
    c: PasswordContextView,
    after: Mappings,
    s: Result<()>,
)
    requires
        removal_outcome(before, triple, between, r),
        insertion_outcome(between, triple, c, after, s),
    ensures
        s is Ok,
{
}

/// Destroying a key changes what is found under no other triple.
pub proof fn destroying_keeps_other_keys(
    before: Mappings,
    triple: KeyTripleView,
    after: Mappings,
    r: Result<ResultDestroyKey>,
    other: KeyTripleView,
)
    requires
        removal_outcome(before, triple, after, r),
        other != triple,
    ensures
        mapped(after, other) == mapped(before, other),
        lookup_outcome(after, other) == lookup_outcome(before, other),
{
}

/// A hash that is too long is refused for every key, whether it exists or not.
pub proof fn long_hash_is_refused(mappings: Mappings, triple: KeyTripleView, hash: Seq<u8>)
    requires
        hash.len() > MAX_HASH_LEN,
    ensures
        sign_outcome(mappings, triple, hash) is Err,
        sign_outcome(mappings, triple, hash)->Err_0 == ResponseStatus::PsaErrorInvalidArgument,
        verify_outcome(mappings, triple, hash) is Err,
        verify_outcome(mappings, triple, hash)->Err_0 == ResponseStatus::PsaErrorInvalidArgument,
{
}

/// Signing and verifying with a key hand the TPM the same context, or are refused
/// alike; exporting the key reads that context too.
pub proof fn signing_and_verifying_use_one_context(
    mappings: Mappings,
    triple: KeyTripleView,
    hash: Seq<u8>,
)
    ensures
        sign_outcome(mappings, triple, hash) matches Ok((c, _)) ==> {
            &&& verify_outcome(mappings, triple, hash) == Ok::<_, ResponseStatus>(c)
            &&& export_outcome(mappings, triple) == Ok::<_, ResponseStatus>(c)
        },
        sign_outcome(mappings, triple, hash) matches Err(status) ==> {
            &&& verify_outcome(mappings, triple, hash) is Err
            &&& verify_outcome(mappings, triple, hash)->Err_0 == status
        },
{
}

/// `bytes` are the encoding of `c`.
pub open spec fn encodes_context(bytes: Seq<u8>, c: PasswordContextView) -> bool {
    storable(c) && bytes == encoded(c)
}

/// `bytes` are the encoding of some password context.
pub open spec fn is_context_encoding(bytes: Seq<u8>) -> bool {
    exists|c: PasswordContextView| encodes_context(bytes, c)
}

/// Every key of the provider is mapped to the encoding of a password context.
pub open spec fn holds_contexts(mappings: Mappings) -> bool {
    forall|triple: KeyTripleView| #[trigger]
        mappings.contains_key(triple) && triple.provider_id == ProviderID::TpmProvider
            ==> is_context_encoding(mappings[triple])
}

/// The provider has no keys, whatever keys others have.
pub open spec fn has_no_keys(mappings: Mappings) -> bool {
    forall|triple: KeyTripleView| #[trigger]
        mappings.contains_key(triple) ==> triple.provider_id != ProviderID::TpmProvider
}

/// At first, when the provider has no keys, every key of it is mapped to an
/// encoding.
pub proof fn no_keys_hold_contexts(mappings: Mappings)
    requires
        has_no_keys(mappings),
    ensures
        holds_contexts(mappings),
{
}

/// Storing a key keeps every key of the provider mapped to an encoding.
pub proof fn storing_holds_contexts(
    before: Mappings,
    triple: KeyTripleView,
    c: PasswordContextView,
    after: Mappings,
    r: Result<()>,
)
    requires
        storable(c),
        insertion_outcome(before, triple, c, after, r),
        holds_contexts(before),
    ensures
        holds_contexts(after),
{
    assert(encodes_context(encoded(c), c));
    assert forall|t: KeyTripleView| #[trigger]
        after.contains_key(t) && t.provider_id
            == ProviderID::TpmProvider implies is_context_encoding(after[t]) by {
        if t != triple {
            assert(before.contains_key(t) && before[t] == after[t]);
        }
    }
}

/// Destroying a key keeps every key of the provider mapped to an encoding.
pub proof fn destroying_holds_contexts(
    before: Mappings,
    triple: KeyTripleView,
    after: Mappings,
    r: Result<ResultDestroyKey>,
)
    requires
        removal_outcome(before, triple, after, r),
        holds_contexts(before),
    ensures
        holds_contexts(after),
{
    assert forall|t: KeyTripleView| #[trigger]
        after.contains_key(t) && t.provider_id
            == ProviderID::TpmProvider implies is_context_encoding(after[t]) by {
        assert(before.contains_key(t) && before[t] == after[t]);
    }
}

/// A change that is made on behalf of others: what the provider's triples are
/// mapped to stays.
pub open spec fn keeps_keys(before: Mappings, after: Mappings) -> bool {
    forall|triple: KeyTripleView|
        triple.provider_id == ProviderID::TpmProvider ==> #[trigger] mapped(after, triple)
            == mapped(before, triple)
}

/// The mappings change from `before` to `after` in one step: the provider stores a
/// key or destroys one, or others make a change, or none is made.
pub open spec fn is_step(before: Mappings, after: Mappings) -> bool {
    ||| exists|triple: KeyTripleView, c: PasswordContextView, r: Result<()>|
        storable(c) && #[trigger] insertion_outcome(before, triple, c, after, r)
    ||| exists|triple: KeyTripleView, r: Result<ResultDestroyKey>| #[trigger]
        removal_outcome(before, triple, after, r)
    ||| keeps_keys(before, after)
}

/// The mappings number `i` and the next ones are one step apart.
pub open spec fn is_step_at(states: Seq<Mappings>, i: int) -> bool {
    is_step(states[i], states[i + 1])
}

/// Each step keeps every key of the provider mapped to an encoding.
proof fn lemma_step_holds_contexts(before: Mappings, after: Mappings)
    requires
        is_step(before, after),
        holds_contexts(before),
    ensures
        holds_contexts(after),
{
    if exists|triple: KeyTripleView, c: PasswordContextView, r: Result<()>|
        storable(c) && #[trigger] insertion_outcome(before, triple, c, after, r) {
        let (triple, c, r) = choose|
            triple: KeyTripleView,
            c: PasswordContextView,
            r: Result<()>,
        | storable(c) && #[trigger] insertion_outcome(before, triple, c, after, r);
        storing_holds_contexts(before, triple, c, after, r);
    } else if exists|triple: KeyTripleView, r: Result<ResultDestroyKey>| #[trigger]
        removal_outcome(before, triple, after, r) {
        let (triple, r) = choose|triple: KeyTripleView, r: Result<ResultDestroyKey>| #[trigger]
            removal_outcome(before, triple, after, r);
        destroying_holds_contexts(before, triple, after, r);
    } else {
        assert forall|t: KeyTripleView| #[trigger]
            after.contains_key(t) && t.provider_id
                == ProviderID::TpmProvider implies is_context_encoding(after[t]) by {
            assert(mapped(after, t) == mapped(before, t));
            assert(before.contains_key(t) && before[t] == after[t]);
        }
    }
}

/// However many steps are made from mappings in which the provider has no keys,
/// every key of it is mapped to an encoding after each of them.
pub proof fn contexts_are_always_held(states: Seq<Mappings>, n: int)
    requires
        0 <= n < states.len(),
        has_no_keys(states[0]),
        forall|i: int| 0 <= i < states.len() - 1 ==> #[trigger] is_step_at(states, i),
    ensures
        holds_contexts(states[n]),
    decreases n,
{
    if n == 0 {
        no_keys_hold_contexts(states[0]);
    } else {
        contexts_are_always_held(states, n - 1);
        assert(is_step_at(states, n - 1));
        lemma_step_holds_contexts(states[n - 1], states[n]);
    }
}

/// Where every key of the provider is mapped to an encoding, a key is found if and
/// only if its triple is mapped, and none is refused for the bytes that are kept of
/// it.
pub proof fn mapped_key_is_found(
    mappings: Mappings,
    app_name: Seq<char>,
    key_name: Seq<char>,
)
    requires
        holds_contexts(mappings),
    ensures
        ({
            let triple = tpm_triple(app_name, key_name);
            match lookup_outcome(mappings, triple) {
                Ok(c) => mappings.contains_key(triple) && encodes_context(mappings[triple], c),
                Err(status) => {
                    &&& !mappings.contains_key(triple)
                    &&& status == ResponseStatus::KeyDoesNotExist
                },
            }
        }),
{
    let triple = tpm_triple(app_name, key_name);
    if mappings.contains_key(triple) {
        let c = choose|c: PasswordContextView| encodes_context(mappings[triple], c);
        lemma_encoded_len(c);
        decoding_reads_back_encoding(c, seq![]);
        assert(encoded(c) + seq![] =~= encoded(c));
    }
}

/// A key that is refused for another reason than that it already exists leaves the
/// mappings as they were, in a Key ID Manager whose failures do.
pub proof fn refused_key_is_not_stored<K: ManageKeyIDs>(
    before: K,
    triple: KeyTripleView,
    c: PasswordContextView,
    after: K,
    r: Result<()>,
)
    requires
        keeps_on_failure(&before),
        insertion_result(&before, triple, c, &after, r),
        r is Err,
        r != Err::<(), _>(ResponseStatus::KeyAlreadyExists),
    ensures
        after.mappings() == before.mappings(),
{
}

/// A key that is not destroyed leaves the mappings as they were, in a Key ID
/// Manager whose failures do.
pub proof fn refused_destruction_keeps_keys<K: ManageKeyIDs>(
    before: K,
    triple: KeyTripleView,
    after: K,
    r: Result<ResultDestroyKey>,
)
    requires
        keeps_on_failure(&before),
        removal_result(&before, triple, &after, r),
        r is Err,
    ensures
        after.mappings() == before.mappings(),
{
    if r != Err::<ResultDestroyKey, _>(ResponseStatus::KeyIDManagerError) {
        assert(after.mappings() =~= before.mappings());
    }
}

/// Keys of different applications, keys of different names and keys of other
/// providers have different triples.
pub proof fn triples_are_distinct(
    app_name: Seq<char>,
    key_name: Seq<char>,
    other: KeyTripleView,
)
    ensures
        tpm_triple(app_name, key_name) == other <==> {
            &&& other.app_name == app_name
            &&& other.key_name == key_name
            &&& other.provider_id == ProviderID::TpmProvider
        },
{
}

/// The provider lists each of its operations once, and neither of the two that
/// concern the service as a whole.
pub proof fn opcodes_are_listed_once()
    ensures
        supported_opcodes().no_duplicates(),
        forall|opcode: Opcode|
            supported_opcodes().contains(opcode) <==> opcode != Opcode::Ping && opcode
                != Opcode::ListProviders,
{
    let s = supported_opcodes();
    assert forall|opcode: Opcode| opcode != Opcode::Ping && opcode
        != Opcode::ListProviders implies s.contains(opcode) by {
        assert(s[0] == Opcode::CreateKey && s[1] == Opcode::DestroyKey && s[2] == Opcode::AsymSign
            && s[3] == Opcode::AsymVerify && s[4] == Opcode::ImportKey && s[5]
            == Opcode::ExportPublicKey && s[6] == Opcode::ListOpcodes);
    }
}

} // verus!
