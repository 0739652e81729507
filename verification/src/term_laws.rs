//! What the terms that the contracts use mean, each said of the values that it is
//! given.

use vstd::arithmetic::power::pow;
use vstd::prelude::*;

use crate::builder::{tcti_named, Tcti};
use crate::hyphenated_uuid::{digit_place, hex_value, is_hyphenated, uuid_octets};
use crate::key_id_managers::{
    bytes_found, bytes_replaced, keeps_on_failure, mapped, may_have_failed, ApplicationName,
    KeyTriple, KeyTripleView, ManageKeyIDs, Mappings,
};
use crate::operations::{Algorithm, KeyAttributes, KeyType, ResultDestroyKey, SignAlgorithm};
use crate::password_context::{
    context_result, decoded, decoding_reads_back_encoding, encoded, encoding_is_prefix_free,
    found_outcome, insertion_outcome, insertion_result, lemma_encoded_len, lemma_layout,
    lookup_outcome, starts_with_context, storable, PasswordContext, PasswordContextView,
    TpmsContext, TpmsContextView,
};
use crate::provider::{
    export_outcome, removal_outcome, removal_result, sign_outcome, tpm_triple, verify_outcome,
};
use crate::radix::{
    be_octets, be_value, le_octets, lemma_be_octets_len, lemma_be_round_trip, lemma_le_octets_len,
    lemma_pow256_values,
};
use crate::requests::{ProviderID, ResponseStatus, Result};
use crate::rsa_public_key::{
    contents_at, decoded_key, der_key, der_length, der_object, exported_key, holds_objects,
    holds_octets, importable_modulus, magnitude, octets_contents, positive, sequence_contents,
    well_nested, RsaPublicKey, RsaPublicKeyView, PUBLIC_EXPONENT,
};
use crate::tpm::status_of;

verus! {

/// A key is told to be an RSA signing key by its type and its algorithm.
pub proof fn signing_key_is_told_by_type_and_algorithm(attributes: KeyAttributes, key_type: KeyType)
    ensures
        attributes.is_rsa_signing_key(key_type) <==> attributes.key_type == key_type
            && attributes.algorithm == Algorithm::Sign(SignAlgorithm::RsaPkcs1v15Sign, None),
{
}

/// The size of a key does not decide whether it is an RSA signing key.
pub proof fn signing_key_has_any_size(
    attributes: KeyAttributes,
    other: KeyAttributes,
    key_type: KeyType,
)
    requires
        attributes.key_type == other.key_type,
        attributes.algorithm == other.algorithm,
    ensures
        attributes.is_rsa_signing_key(key_type) <==> other.is_rsa_signing_key(key_type),
{
}

/// A triple is known by its three names.
pub proof fn triple_has_three_names(app_name: ApplicationName, triple: KeyTriple)
    ensures
        app_name@ == app_name.name@,
        triple@.app_name == triple.app_name.name@,
        triple@.provider_id == triple.provider_id,
        triple@.key_name == triple.key_name@,
        tpm_triple(app_name.name@, triple.key_name@) == (KeyTripleView {
            app_name: app_name.name@,
            provider_id: ProviderID::TpmProvider,
            key_name: triple.key_name@,
        }),
{
}

/// `mapped` is the lookup in a map.
pub proof fn mapped_is_a_lookup(mappings: Mappings, triple: KeyTripleView, bytes: Seq<u8>)
    ensures
        mapped(mappings, triple) == Some(bytes) <==> mappings.contains_key(triple)
            && mappings[triple] == bytes,
        mapped(mappings, triple) is None <==> !mappings.contains_key(triple),
{
}

/// Optional slices and vectors stand for all their bytes.
pub proof fn optional_bytes_are_kept(slice: &[u8], vector: Vec<u8>)
    ensures
        bytes_found(Some(slice)) == Some(slice@),
        bytes_found(None) is None,
        bytes_replaced(Some(vector)) == Some(vector@),
        bytes_replaced(None) is None,
{
}

/// Only a Key ID Manager that may fail has failed, and it leaves behind what it may
/// leave.
pub proof fn failures_are_those_of_the_manager<K: ManageKeyIDs>(before: K, after: K)
    ensures
        may_have_failed(&before, &after) <==> before.may_fail() && before.may_leave(
            after.mappings(),
        ),
        keeps_on_failure(&before) && may_have_failed(&before, &after) ==> after.mappings()
            == before.mappings(),
{
}

/// The octets of a number with the least significant one first: octet `i` counts
/// how often 256 to the power of `i` goes into it.
pub proof fn little_endian_octets_are_digits(n: nat, count: nat, i: nat)
    requires
        i < count,
    ensures
        le_octets(n, count).len() == count,
        le_octets(n, count)[i as int] as int == (n as int / pow(256, i)) % 256,
    decreases count,
{
    lemma_le_octets_len(n, count);
    vstd::arithmetic::power::lemma_pow0(256);
    if i > 0 {
        let (j, rest) = ((i - 1) as nat, (count - 1) as nat);
        little_endian_octets_are_digits(n / 256, rest, j);
        assert(le_octets(n, count)[i as int] == le_octets(n / 256, rest)[j as int]);
        vstd::arithmetic::power::lemma_pow_positive(256, j);
        vstd::arithmetic::div_mod::lemma_div_denominator(n as int, 256, pow(256, j));
        reveal(pow);
    }
}

/// The value of octets with the most significant one first: each further octet
/// makes the value 256 times as large, and counts once.
pub proof fn big_endian_value_grows_by_digits(octets: Seq<u8>, octet: u8)
    ensures
        be_value(seq![]) == 0,
        be_value(octets.push(octet)) == 256 * be_value(octets) + octet,
{
    assert(octets.push(octet).drop_last() =~= octets);
}

/// The octets of a number with the most significant one first have that number as
/// their value, and do not start with zero.
pub proof fn big_endian_octets_are_shortest(n: nat)
    ensures
        be_value(be_octets(n)) == n,
        be_octets(n).len() > 0 ==> be_octets(n)[0] != 0,
        be_octets(0).len() == 0,
    decreases n,
{
    lemma_be_round_trip(n);
    if n > 0 {
        big_endian_octets_are_shortest(n / 256);
        if n >= 256 {
            assert(be_octets(n)[0] == be_octets(n / 256)[0]) by {
                assert(n / 256 > 0);
                assert(be_octets(n / 256).len() > 0);
            }
        } else {
            assert(be_octets(n / 256).len() == 0);
        }
    }
}

/// A leading zero octet does not change a value.
proof fn lemma_leading_zero(octets: Seq<u8>)
    ensures
        be_value(seq![0u8] + octets) == be_value(octets),
    decreases octets.len(),
{
    let more = seq![0u8] + octets;
    if octets.len() == 0 {
        assert(more.drop_last() =~= seq![]);
        assert(be_value(seq![]) == 0);
    } else {
        assert(more.drop_last() =~= seq![0u8] + octets.drop_last());
        lemma_leading_zero(octets.drop_last());
    }
}

/// A password context and a public key stand for all that they hold.
pub proof fn views_leave_nothing_out(c: PasswordContext, context: TpmsContext, key: RsaPublicKey)
    ensures
        context@ == (TpmsContextView {
            sequence: context.sequence,
            saved_handle: context.saved_handle,
            hierarchy: context.hierarchy,
            context_blob: context.context_blob@,
        }),
        c@ == (PasswordContextView { context: c.context@, auth_value: c.auth_value@ }),
        key@ == (RsaPublicKeyView {
            modulus: key.modulus@,
            public_exponent: key.public_exponent@,
        }),
{
}

/// The bytes that stand for a password context: each integer in its octets, the
/// least significant one first, and each vector behind its length.
pub proof fn encoding_has_a_fixed_layout(c: PasswordContextView, i: int)
    requires
        storable(c),
        0 <= i < encoded(c).len(),
    ensures
        ({
            let blob = c.context.context_blob.len() as int;
            let auth = c.auth_value.len() as int;
            let octet = encoded(c)[i] as int;
            &&& encoded(c).len() == 32 + blob + auth
            &&& i < 8 ==> octet == (c.context.sequence as int / pow(256, i as nat)) % 256
            &&& 8 <= i < 12 ==> octet == (c.context.saved_handle as int / pow(
                256,
                (i - 8) as nat,
            )) % 256
            &&& 12 <= i < 16 ==> octet == (c.context.hierarchy as int / pow(
                256,
                (i - 12) as nat,
            )) % 256
            &&& 16 <= i < 24 ==> octet == (blob / pow(256, (i - 16) as nat)) % 256
            &&& 24 <= i < 24 + blob ==> octet == c.context.context_blob[i - 24]
            &&& 24 + blob <= i < 32 + blob ==> octet == (auth / pow(
                256,
                (i - 24 - blob) as nat,
            )) % 256
            &&& 32 + blob <= i ==> octet == c.auth_value[i - 32 - blob]
        }),
{
    let e = encoded(c);
    let blob = c.context.context_blob.len() as int;
    let auth = c.auth_value.len() as int;
    assert(starts_with_context(e, c));
    lemma_layout(e, c);
    if i < 8 {
        little_endian_octets_are_digits(c.context.sequence as nat, 8, i as nat);
        assert(e.subrange(0, 8)[i] == e[i]);
    } else if i < 12 {
        little_endian_octets_are_digits(c.context.saved_handle as nat, 4, (i - 8) as nat);
        assert(e.subrange(8, 12)[i - 8] == e[i]);
    } else if i < 16 {
        little_endian_octets_are_digits(c.context.hierarchy as nat, 4, (i - 12) as nat);
        assert(e.subrange(12, 16)[i - 12] == e[i]);
    } else if i < 24 {
        little_endian_octets_are_digits(blob as nat, 8, (i - 16) as nat);
        assert(e.subrange(16, 24)[i - 16] == e[i]);
    } else if i < 24 + blob {
        assert(e.subrange(24, 24 + blob)[i - 24] == e[i]);
    } else if i < 32 + blob {
        little_endian_octets_are_digits(auth as nat, 8, (i - 24 - blob) as nat);
        assert(e.subrange(24 + blob, 32 + blob)[i - 24 - blob] == e[i]);
    } else {
        assert(e.subrange(32 + blob, 32 + blob + auth)[i - 32 - blob] == e[i]);
    }
}

/// Whatever fits into memory can be stored.
pub proof fn storable_contexts_fit(c: PasswordContextView)
    ensures
        storable(c) <==> 32 + c.context.context_blob.len() + c.auth_value.len() <= isize::MAX,
        storable(c) <==> encoded(c).len() <= isize::MAX,
{
    lemma_encoded_len(c);
}

/// Bytes are decoded to a password context if and only if they start with its
/// encoding, and to none if they start with none.
pub proof fn decoding_inverts_encoding(bytes: Seq<u8>, c: PasswordContextView)
    requires
        bytes.len() <= u64::MAX,
    ensures
        decoded(bytes) == Some(c) <==> encoded(c).is_prefix_of(bytes),
        decoded(bytes) is None ==> !encoded(c).is_prefix_of(bytes),
{
    assert(starts_with_context(bytes, c) <==> encoded(c).is_prefix_of(bytes));
    if starts_with_context(bytes, c) {
        let d = choose|d: PasswordContextView| starts_with_context(bytes, d);
        encoding_is_prefix_free(bytes, c, d);
    }
}

/// A lookup tells that there is no key if and only if the triple is not mapped, and
/// gives a context if and only if the triple is mapped to bytes that start with its
/// encoding. Otherwise the Key ID Manager is at fault.
pub proof fn lookup_follows_the_mapping(
    mappings: Mappings,
    triple: KeyTripleView,
    c: PasswordContextView,
)
    requires
        mappings.contains_key(triple) ==> mappings[triple].len() <= u64::MAX,
    ensures
        lookup_outcome(mappings, triple) == Ok::<_, ResponseStatus>(c) <==> mappings.contains_key(
            triple,
        ) && encoded(c).is_prefix_of(mappings[triple]),
        lookup_outcome(mappings, triple) is Err ==> lookup_outcome(mappings, triple)->Err_0 == if
            mappings.contains_key(triple) {
            ResponseStatus::KeyIDManagerError
        } else {
            ResponseStatus::KeyDoesNotExist
        },
        lookup_outcome(mappings, triple) == found_outcome(
            if mappings.contains_key(triple) {
                Some(mappings[triple])
            } else {
                None
            },
        ),
{
    if mappings.contains_key(triple) {
        decoding_inverts_encoding(mappings[triple], c);
    }
}

/// A result of a lookup stands for the context in it, or for its status.
pub proof fn context_results_are_kept(r: Result<PasswordContext>, status: ResponseStatus)
    ensures
        context_result(r) is Ok <==> r is Ok,
        r is Ok ==> context_result(r)->Ok_0.auth_value == r->Ok_0.auth_value@,
        r is Ok ==> context_result(r)->Ok_0.context == r->Ok_0.context@,
        r is Err ==> context_result(r)->Err_0 == r->Err_0,
{
}

/// A status is that of its result.
pub proof fn status_is_that_of_the_result<T>(r: Result<T>, status: ResponseStatus)
    ensures
        status_of(r) == Ok::<(), ResponseStatus>(()) <==> r is Ok,
        status_of(r) == Err::<(), _>(status) <==> r == Err::<T, _>(status),
{
}

/// Storing succeeds only where the triple was free, and whenever it succeeds the
/// triple maps to the new context, which a lookup finds; no other mapping changes.
/// A Key ID Manager that does not fail stores in any case.
pub proof fn storing_changes_one_mapping<K: ManageKeyIDs>(
    before: K,
    triple: KeyTripleView,
    c: PasswordContextView,
    after: K,
    r: Result<()>,
)
    requires
        insertion_result(&before, triple, c, &after, r),
    ensures
        r is Ok ==> !before.mappings().contains_key(triple) && after.mappings()
            == before.mappings().insert(triple, encoded(c)),
        r is Ok && storable(c) ==> lookup_outcome(after.mappings(), triple) == Ok::<
            _,
            ResponseStatus,
        >(c),
        !before.may_fail() ==> after.mappings() == before.mappings().insert(triple, encoded(c)),
        !before.may_fail() ==> (r is Ok <==> !before.mappings().contains_key(triple)),
        r is Err ==> r->Err_0 == ResponseStatus::KeyAlreadyExists || r->Err_0
            == ResponseStatus::KeyIDManagerError,
        r is Err && r->Err_0 == ResponseStatus::KeyIDManagerError ==> before.may_fail()
            && before.may_leave(after.mappings()),
        r is Err && r->Err_0 == ResponseStatus::KeyAlreadyExists ==> before.mappings().contains_key(
            triple,
        ) && after.mappings() == before.mappings().insert(triple, encoded(c)),
{
    if r is Ok && storable(c) {
        lemma_encoded_len(c);
        decoding_reads_back_encoding(c, seq![]);
        assert(encoded(c) + seq![] =~= encoded(c));
    }
}

/// The outcomes of storing are those of a map: there is one for every map, triple
/// and context.
pub proof fn storing_has_one_outcome(
    before: Mappings,
    triple: KeyTripleView,
    c: PasswordContextView,
    after: Mappings,
    r: Result<()>,
)
    ensures
        insertion_outcome(before, triple, c, after, r) <==> after == before.insert(
            triple,
            encoded(c),
        ) && (before.contains_key(triple) ==> r == Err::<(), _>(ResponseStatus::KeyAlreadyExists))
            && (!before.contains_key(triple) ==> r == Ok::<_, ResponseStatus>(())),
{
}

/// Destroying succeeds only where the triple was mapped, and whenever it succeeds
/// the triple is mapped no more, and a lookup tells that there is no key; no other
/// mapping changes. A Key ID Manager that does not fail removes in any case.
pub proof fn destroying_changes_one_mapping<K: ManageKeyIDs>(
    before: K,
    triple: KeyTripleView,
    after: K,
    r: Result<ResultDestroyKey>,
)
    requires
        removal_result(&before, triple, &after, r),
    ensures
        r is Ok ==> before.mappings().contains_key(triple) && after.mappings()
            == before.mappings().remove(triple),
        r is Ok ==> lookup_outcome(after.mappings(), triple) is Err && lookup_outcome(
            after.mappings(),
            triple,
        )->Err_0 == ResponseStatus::KeyDoesNotExist,
        !before.may_fail() ==> after.mappings() == before.mappings().remove(triple),
        !before.may_fail() ==> (r is Ok <==> before.mappings().contains_key(triple)),
        r is Err ==> r->Err_0 == ResponseStatus::KeyDoesNotExist || r->Err_0
            == ResponseStatus::KeyIDManagerError,
        r is Err && r->Err_0 == ResponseStatus::KeyIDManagerError ==> before.may_fail()
            && before.may_leave(after.mappings()),
        r is Err && r->Err_0 == ResponseStatus::KeyDoesNotExist ==> !before.mappings().contains_key(
            triple,
        ) && after.mappings() == before.mappings(),
{
    if !before.mappings().contains_key(triple) {
        assert(before.mappings().remove(triple) =~= before.mappings());
    }
}

/// The outcomes of destroying are those of a map: there is one for every map and
/// triple.
pub proof fn destroying_has_one_outcome(
    before: Mappings,
    triple: KeyTripleView,
    after: Mappings,
    r: Result<ResultDestroyKey>,
)
    ensures
        removal_outcome(before, triple, after, r) <==> after == before.remove(triple) && (
        before.contains_key(triple) ==> r == Ok::<_, ResponseStatus>(ResultDestroyKey {  })) && (
        !before.contains_key(triple) ==> r == Err::<ResultDestroyKey, _>(
            ResponseStatus::KeyDoesNotExist,
        )),
{
}

/// Signing, verifying and exporting use the context that the triple is mapped to,
/// and are refused as the lookup is; but hashes of more than 64 octets are refused
/// first.
pub proof fn outcomes_follow_the_lookup(
    mappings: Mappings,
    triple: KeyTripleView,
    hash: Seq<u8>,
    c: PasswordContextView,
)
    requires
        mappings.contains_key(triple) ==> mappings[triple].len() <= u64::MAX,
    ensures
        ({
            let mapped_to_c = mappings.contains_key(triple) && encoded(c).is_prefix_of(
                mappings[triple],
            );
            let export = export_outcome(mappings, triple);
            let sign = sign_outcome(mappings, triple, hash);
            let verify = verify_outcome(mappings, triple, hash);
            &&& mapped_to_c ==> export == Ok::<_, ResponseStatus>(c.context)
            &&& mapped_to_c && hash.len() <= 64 ==> sign == Ok::<_, ResponseStatus>(
                (c.context, c.auth_value),
            ) && verify == Ok::<_, ResponseStatus>(c.context)
            &&& hash.len() > 64 ==> sign is Err && sign->Err_0
                == ResponseStatus::PsaErrorInvalidArgument && verify is Err && verify->Err_0
                == ResponseStatus::PsaErrorInvalidArgument
            &&& export is Err ==> export->Err_0 == if mappings.contains_key(triple) {
                ResponseStatus::KeyIDManagerError
            } else {
                ResponseStatus::KeyDoesNotExist
            }
            &&& hash.len() <= 64 ==> (sign is Err <==> export is Err) && (verify is Err
                <==> export is Err)
            &&& hash.len() <= 64 && export is Err ==> sign->Err_0 == export->Err_0 && verify->Err_0
                == export->Err_0
            &&& !mappings.contains_key(triple) ==> export is Err
            &&& export is Ok ==> exists|d: PasswordContextView| #[trigger]
                encoded(d).is_prefix_of(mappings[triple]) && d.context == export->Ok_0
        }),
{
    lookup_follows_the_mapping(mappings, triple, c);
    if lookup_outcome(mappings, triple) is Ok {
        let d = lookup_outcome(mappings, triple)->Ok_0;
        lookup_follows_the_mapping(mappings, triple, d);
        assert(encoded(d).is_prefix_of(mappings[triple]));
    }
}

/// The length octets of DER: a length below 128 is its own octet; a longer one
/// stands in as many octets as it needs, behind an octet that counts them.
pub proof fn der_length_is_shortest(n: nat)
    requires
        n <= usize::MAX,
    ensures
        n < 128 ==> der_length(n) == seq![n as u8],
        n >= 128 ==> {
            &&& 2 <= der_length(n).len() <= 9
            &&& der_length(n)[0] == 127 + der_length(n).len()
            &&& der_length(n)[1] != 0
            &&& be_value(der_length(n).skip(1)) == n
        },
{
    if n >= 128 {
        big_endian_octets_are_shortest(n);
        lemma_pow256_values();
        lemma_be_octets_len(n, 8);
        assert(der_length(n).skip(1) =~= be_octets(n));
    }
}

/// An object is its tag, its length octets and its contents; a public key is the
/// SEQUENCE of two INTEGERs.
pub proof fn objects_are_made_of_their_parts(
    tag: u8,
    contents: Seq<u8>,
    key: RsaPublicKeyView,
    modulus: Seq<u8>,
)
    ensures
        der_object(tag, contents) == seq![tag] + der_length(contents.len()) + contents,
        ({
            let objects = seq![0x02u8] + der_length(key.modulus.len()) + key.modulus + (seq![0x02u8]
                + der_length(key.public_exponent.len()) + key.public_exponent);
            der_key(key) == seq![0x30u8] + der_length(objects.len()) + objects
        }),
        exported_key(modulus) == der_key(
            RsaPublicKeyView {
                modulus: if modulus.len() > 0 && modulus[0] >= 128 {
                    seq![0u8] + modulus
                } else {
                    modulus
                },
                public_exponent: seq![0x01u8, 0x00, 0x01],
            },
        ),
{
    assert(PUBLIC_EXPONENT@ =~= seq![0x01u8, 0x00, 0x01]);
}

/// A modulus is written as the positive number that it is, and read back as its
/// octets.
pub proof fn positive_keeps_the_number(modulus: Seq<u8>)
    ensures
        be_value(positive(modulus)) == be_value(modulus),
        positive(modulus).len() > 0 ==> positive(modulus)[0] < 128,
        modulus.len() > 0 && modulus[0] != 0 ==> magnitude(positive(modulus)) == modulus,
        modulus.len() > 0 && modulus[0] < 128 ==> positive(modulus) == modulus,
        positive(modulus).len() <= modulus.len() + 1,
{
    lemma_leading_zero(modulus);
    assert((seq![0u8] + modulus).skip(1) =~= modulus);
}

/// The magnitude of a number has the same value, and leaves out one zero octet at
/// most.
pub proof fn magnitude_keeps_the_number(integer: Seq<u8>)
    ensures
        be_value(magnitude(integer)) == be_value(integer),
        magnitude(integer).len() > 0,
        integer.len() == 1 || (integer.len() > 1 && integer[0] != 0) ==> magnitude(integer)
            == integer,
        integer.len() > 1 && integer[0] == 0 ==> magnitude(integer) == integer.skip(1),
        integer.len() == 0 ==> magnitude(integer) == seq![0u8],
{
    if integer.len() > 1 && integer[0] == 0 {
        assert(seq![0u8] + integer.skip(1) =~= integer);
        lemma_leading_zero(integer.skip(1));
    } else if integer.len() == 0 {
        lemma_leading_zero(integer);
        assert(seq![0u8] + integer =~= seq![0u8]);
    }
}

/// Length octets of any form are read: one octet below 128, or as many octets as
/// the first one counts, if the data hold them and a `usize` can hold the number.
pub proof fn length_octets_are_read(bytes: Seq<u8>, at: int)
    requires
        0 <= at,
    ensures
        at >= bytes.len() ==> contents_at(bytes, at) is None,
        at < bytes.len() && bytes[at] < 128 ==> contents_at(bytes, at) == Some(
            (at + 1, at + 1 + bytes[at] as int),
        ),
        at < bytes.len() && bytes[at] >= 128 ==> {
            let start = at + 1 + (bytes[at] - 128);
            if start <= bytes.len() && 8 * (bytes[at] - 128) <= usize::BITS {
                contents_at(bytes, at) == Some(
                    (start, start + be_value(bytes.subrange(at + 1, start))),
                )
            } else {
                contents_at(bytes, at) is None
            }
        },
{
}

/// Which tags are taken for those of a sequence, and which for those of a string
/// of octets.
pub proof fn tags_are_those_of_the_decoder(tag: u8)
    ensures
        holds_objects(tag) <==> tag == 0x30 || tag == 0x31 || 0x80 <= tag <= 0x8f,
        holds_octets(tag) <==> tag == 0x02 || tag == 0x03 || tag == 0x04 || tag == 0x0c || tag
            == 0x12 || tag == 0x13 || tag == 0x16 || 0x80 <= tag <= 0x8f,
{
}

/// A key is decoded where a sequence is followed within it by two strings of
/// octets that the data hold; these are its modulus and its exponent.
pub proof fn decoded_key_is_in_the_data(bytes: Seq<u8>)
    ensures
        sequence_contents(bytes) == if bytes.len() > 0 && holds_objects(bytes[0]) {
            contents_at(bytes, 1)
        } else {
            None
        },
        forall|at: int|
            0 <= at ==> #[trigger] octets_contents(bytes, at) == if at < bytes.len()
                && holds_octets(bytes[at]) {
                contents_at(bytes, at + 1)
            } else {
                None
            },
        ({
            let (at1, limit) = sequence_contents(bytes)->Some_0;
            let (start1, at2) = octets_contents(bytes, at1)->Some_0;
            let (start2, end2) = octets_contents(bytes, at2)->Some_0;
            &&& decoded_key(bytes) is Some <==> {
                &&& sequence_contents(bytes) is Some
                &&& octets_contents(bytes, at1) is Some
                &&& octets_contents(bytes, at2) is Some
                &&& at1 < limit && at2 < limit
                &&& at2 <= bytes.len() && end2 <= bytes.len()
            }
            &&& decoded_key(bytes) matches Some(key) ==> {
                &&& key.modulus == bytes.subrange(start1, at2)
                &&& key.public_exponent == bytes.subrange(start2, end2)
            }
        }),
{
}

/// Data are well nested where no string of octets that decoding reads ends behind
/// its sequence, or has a length that memory cannot have.
pub proof fn well_nested_data_stay_in_their_sequence(bytes: Seq<u8>)
    ensures
        ({
            let (at1, limit) = sequence_contents(bytes)->Some_0;
            let (start1, at2) = octets_contents(bytes, at1)->Some_0;
            let (start2, end2) = octets_contents(bytes, at2)->Some_0;
            let first = sequence_contents(bytes) is Some && at1 < limit && octets_contents(
                bytes,
                at1,
            ) is Some;
            let second = first && at2 <= bytes.len() && at2 < limit && octets_contents(
                bytes,
                at2,
            ) is Some;
            well_nested(bytes) <==> {
                &&& first ==> at2 - start1 <= isize::MAX
                &&& first && at2 <= bytes.len() ==> at2 <= limit
                &&& second ==> end2 - start2 <= isize::MAX
                &&& second && end2 <= bytes.len() ==> end2 <= limit
            }
        }),
{
}

/// Data that are no key are refused as such, and a modulus is imported only out of
/// data that decode to a key with it and with the exponent 65537; a decoded key is
/// refused only for its exponent or its size.
pub proof fn imported_modulus_is_decoded(key_data: Seq<u8>)
    ensures
        decoded_key(key_data) is None || !well_nested(key_data) <==> importable_modulus(
            key_data,
        ) is Err && importable_modulus(key_data)->Err_0
            == ResponseStatus::PsaErrorCommunicationFailure,
        importable_modulus(key_data) matches Ok(modulus) ==> {
            &&& decoded_key(key_data) is Some
            &&& magnitude(decoded_key(key_data)->Some_0.public_exponent) == seq![
                0x01u8,
                0x00,
                0x01,
            ]
            &&& modulus == magnitude(decoded_key(key_data)->Some_0.modulus)
            &&& modulus.len() >= 128
        },
        importable_modulus(key_data) is Err && importable_modulus(key_data)->Err_0
            != ResponseStatus::PsaErrorCommunicationFailure ==> {
            &&& importable_modulus(key_data)->Err_0 == ResponseStatus::UnsupportedOperation
            &&& decoded_key(key_data) is Some
            &&& magnitude(decoded_key(key_data)->Some_0.public_exponent) != seq![
                0x01u8,
                0x00,
                0x01,
            ] || magnitude(decoded_key(key_data)->Some_0.modulus).len() < 128
        },
{
    assert(PUBLIC_EXPONENT@ =~= seq![0x01u8, 0x00, 0x01]);
}

/// A hyphenated UUID has hyphens behind its 8th, 12th, 16th and 20th digit, and
/// hexadecimal digits, in either case, everywhere else.
pub proof fn hyphenated_uuids_have_their_shape(s: Seq<char>, c: char)
    ensures
        hex_value(c) is Some <==> '0' <= c <= '9' || 'a' <= c <= 'f' || 'A' <= c <= 'F',
        is_hyphenated(s) <==> s.len() == 36 && s[8] == '-' && s[13] == '-' && s[18] == '-' && s[23]
            == '-' && forall|i: int|
            0 <= i < 36 && i != 8 && i != 13 && i != 18 && i != 23 ==> hex_value(
                #[trigger] s[i],
            ) is Some,
{
}

/// The octets of a hyphenated UUID are its pairs of digits, in order.
pub proof fn uuid_octets_are_pairs_of_digits(s: Seq<char>, k: int)
    requires
        is_hyphenated(s),
        0 <= k < 16,
    ensures
        uuid_octets(s).len() == 16,
        ({
            let hyphens: int = if k < 4 {
                0
            } else if k < 6 {
                1
            } else if k < 8 {
                2
            } else if k < 10 {
                3
            } else {
                4
            };
            let (high, low) = (s[2 * k + hyphens], s[2 * k + hyphens + 1]);
            uuid_octets(s)[k] == 16 * hex_value(high)->Some_0 + hex_value(low)->Some_0
        }),
        forall|c: char|
            #![trigger hex_value(c)]
            hex_value(c) matches Some(v) ==> 0 <= v < 16 && c as int == v + if c <= '9' {
                48int
            } else if c <= 'F' {
                55
            } else {
                87
            },
{
    let place = digit_place(k);
    assert(hex_value(s[place]) is Some);
    assert(hex_value(s[place + 1]) is Some);
}

/// Two names stand for a way to reach a TPM, each for its own.
pub proof fn two_names_reach_a_tpm(name: Seq<char>)
    ensures
        tcti_named(name) == Some(Tcti::Device) <==> name == seq!['d', 'e', 'v', 'i', 'c', 'e'],
        tcti_named(name) == Some(Tcti::Mssim) <==> name == seq!['m', 's', 's', 'i', 'm'],
        tcti_named(name) is None <==> name != seq!['d', 'e', 'v', 'i', 'c', 'e'] && name != seq![
            'm',
            's',
            's',
            'i',
            'm',
        ],
{
    reveal_strlit("device");
    reveal_strlit("mssim");
    assert("device"@ =~= seq!['d', 'e', 'v', 'i', 'c', 'e']);
    assert("mssim"@ =~= seq!['m', 's', 's', 'i', 'm']);
    assert("device"@.len() != "mssim"@.len());
}

} // verus!
