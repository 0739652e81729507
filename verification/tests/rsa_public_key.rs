//! RSA public keys in DER.

use picky_asn1::wrapper::IntegerAsn1;
use tpm_provider::requests::ResponseStatus;
use tpm_provider::rsa_public_key::{
    export_key, import_modulus, is_well_nested, MIN_MODULUS_LEN, PUBLIC_EXPONENT,
};

fn modulus(len: usize) -> Vec<u8> {
    (0..len).map(|i| (i % 251) as u8 + 1).collect()
}

fn length(n: usize) -> Vec<u8> {
    if n < 0x80 {
        vec![n as u8]
    } else if n < 0x100 {
        vec![0x81, n as u8]
    } else {
        vec![0x82, (n / 0x100) as u8, (n % 0x100) as u8]
    }
}

fn object(tag: u8, contents: &[u8]) -> Vec<u8> {
    let mut bytes = vec![tag];
    bytes.extend(length(contents.len()));
    bytes.extend(contents);
    bytes
}

fn key(tag: u8, modulus_tag: u8, modulus: &[u8], exponent: &[u8]) -> Vec<u8> {
    let mut contents = object(modulus_tag, modulus);
    contents.extend(object(0x02, exponent));
    object(tag, &contents)
}

#[test]
fn exported_key_is_a_sequence_of_two_integers() {
    assert_eq!(
        export_key(vec![0x0a, 0x0b]),
        Ok(vec![0x30, 0x09, 0x02, 0x02, 0x0a, 0x0b, 0x02, 0x03, 0x01, 0x00, 0x01])
    );
    assert_eq!(
        export_key(Vec::new()),
        Ok(vec![0x30, 0x07, 0x02, 0x00, 0x02, 0x03, 0x01, 0x00, 0x01])
    );
}

#[test]
fn exported_modulus_is_positive() {
    assert_eq!(
        export_key(vec![0x80]),
        Ok(vec![0x30, 0x09, 0x02, 0x02, 0x00, 0x80, 0x02, 0x03, 0x01, 0x00, 0x01])
    );
    assert_eq!(
        export_key(vec![0x7f, 0xff]),
        Ok(vec![0x30, 0x09, 0x02, 0x02, 0x7f, 0xff, 0x02, 0x03, 0x01, 0x00, 0x01])
    );
    let mut signed = vec![0x00];
    signed.extend([0xff; 256]);
    assert_eq!(export_key(vec![0xff; 256]), Ok(key(0x30, 0x02, &signed, &PUBLIC_EXPONENT)));
}

#[test]
fn imported_key_exports_back() {
    for first in [0x01, 0x7f, 0x80, 0xff] {
        let mut contents = vec![first; 256];
        if first >= 0x80 {
            contents.insert(0, 0x00);
        }
        let data = key(0x30, 0x02, &contents, &[0x01, 0x00, 0x01]);
        assert_eq!(export_key(import_modulus(&data).unwrap()), Ok(data));
    }
}

#[test]
fn exported_lengths_take_the_shortest_form() {
    for len in [1, 116, 117, 118, 126, 127, 128, 129, 244, 250, 255, 256, 257, 512, 60000] {
        assert_eq!(
            export_key(modulus(len)),
            Ok(key(0x30, 0x02, &modulus(len), &PUBLIC_EXPONENT))
        );
    }
    let exported = export_key(modulus(256)).unwrap();
    assert_eq!(exported[..8], [0x30, 0x82, 0x01, 0x09, 0x02, 0x82, 0x01, 0x00]);
    let long = export_key(modulus(0x10000)).unwrap();
    assert_eq!(long[..10], [0x30, 0x83, 0x01, 0x00, 0x0a, 0x02, 0x83, 0x01, 0x00, 0x00]);
}

#[test]
fn exported_key_imports_back() {
    for len in [128, 129, 255, 256, 512] {
        let exported = export_key(modulus(len)).unwrap();
        assert!(is_well_nested(&exported));
        assert_eq!(import_modulus(&exported), Ok(modulus(len)));
    }
}

#[test]
fn sign_octet_of_the_modulus_is_left_out() {
    let mut signed = vec![0x00];
    signed.extend(modulus(256));
    let data = key(0x30, 0x02, &signed, &[0x01, 0x00, 0x01]);
    assert_eq!(import_modulus(&data), Ok(modulus(256)));
    let mut twice = vec![0x00];
    twice.extend(&signed);
    let data = key(0x30, 0x02, &twice, &[0x01, 0x00, 0x01]);
    assert_eq!(import_modulus(&data), Ok(signed));
}

#[test]
fn exponent_must_be_that_of_the_provider() {
    for exponent in [
        &[0x03u8][..],
        &[0x01, 0x01],
        &[0x01, 0x00],
        &[0x01, 0x00, 0x02],
        &[0x01, 0x00, 0x01, 0x00],
        &[0x00, 0x00, 0x01, 0x00, 0x01],
        &[],
    ] {
        let data = key(0x30, 0x02, &modulus(256), exponent);
        assert!(is_well_nested(&data));
        assert_eq!(import_modulus(&data), Err(ResponseStatus::UnsupportedOperation));
    }
    let data = key(0x30, 0x02, &modulus(256), &[0x00, 0x01, 0x00, 0x01]);
    assert_eq!(import_modulus(&data), Ok(modulus(256)));
}

#[test]
fn modulus_must_have_1024_bits() {
    assert_eq!(MIN_MODULUS_LEN, 128);
    let data = key(0x30, 0x02, &modulus(127), &[0x01, 0x00, 0x01]);
    assert_eq!(import_modulus(&data), Err(ResponseStatus::UnsupportedOperation));
    let mut signed = vec![0x00];
    signed.extend(modulus(127));
    let data = key(0x30, 0x02, &signed, &[0x01, 0x00, 0x01]);
    assert_eq!(import_modulus(&data), Err(ResponseStatus::UnsupportedOperation));
    let data = key(0x30, 0x02, &modulus(128), &[0x01, 0x00, 0x01]);
    assert_eq!(import_modulus(&data), Ok(modulus(128)));
    let data = key(0x30, 0x02, &[], &[0x01, 0x00, 0x01]);
    assert_eq!(import_modulus(&data), Err(ResponseStatus::UnsupportedOperation));
}

#[test]
fn data_that_is_no_key_is_refused() {
    for data in [
        &[][..],
        &[0x30],
        &[0x30, 0x00],
        &[0x30, 0x80],
        &[0x30, 0x89, 0, 0, 0, 0, 0, 0, 0, 0, 0],
        &[0x30, 0x05, 0x02, 0x03, 0x01, 0x00, 0x01],
        &[0x02, 0x03, 0x01, 0x00, 0x01],
        &[0x30, 0x03, 0x01, 0x01, 0xff],
        &[0x30, 0x20, 0x02, 0x10, 0x01],
    ] {
        assert!(is_well_nested(data));
        assert_eq!(import_modulus(data), Err(ResponseStatus::PsaErrorCommunicationFailure));
    }
}

#[test]
fn cut_off_key_is_refused() {
    let data = key(0x30, 0x02, &modulus(128), &[0x01, 0x00, 0x01]);
    for len in 0..data.len() {
        assert!(is_well_nested(&data[..len]));
        assert_eq!(
            import_modulus(&data[..len]),
            Err(ResponseStatus::PsaErrorCommunicationFailure)
        );
    }
    assert_eq!(import_modulus(&data), Ok(modulus(128)));
}

#[test]
fn tags_are_taken_loosely() {
    for tag in [0x30, 0x31, 0x80, 0x8f] {
        let data = key(tag, 0x02, &modulus(128), &[0x01, 0x00, 0x01]);
        assert_eq!(import_modulus(&data), Ok(modulus(128)));
    }
    for tag in [0x02, 0x03, 0x04, 0x0c, 0x12, 0x13, 0x16, 0x80, 0x8f] {
        let data = key(0x30, tag, &modulus(128), &[0x01, 0x00, 0x01]);
        assert_eq!(import_modulus(&data), Ok(modulus(128)));
    }
    for tag in [0x01, 0x05, 0x06, 0x17, 0x18, 0x30, 0x31, 0x7f, 0x90, 0xa0] {
        let data = key(0x30, tag, &modulus(128), &[0x01, 0x00, 0x01]);
        assert_eq!(import_modulus(&data), Err(ResponseStatus::PsaErrorCommunicationFailure));
    }
}

#[test]
fn what_follows_the_exponent_is_ignored() {
    let mut contents = object(0x02, &modulus(128));
    contents.extend(object(0x02, &[0x01, 0x00, 0x01]));
    contents.extend([0x05, 0x00]);
    let mut data = object(0x30, &contents);
    data.push(0xff);
    assert!(is_well_nested(&data));
    assert_eq!(import_modulus(&data), Ok(modulus(128)));
}

#[test]
fn objects_that_overrun_are_not_well_nested() {
    let mut data = key(0x30, 0x02, &modulus(64), &[0x01, 0x00, 0x01]);
    assert_eq!(data[1], 71);
    data[1] = 72;
    assert!(is_well_nested(&data));
    data[1] = 70;
    assert!(!is_well_nested(&data));
    data[1] = 66;
    assert!(is_well_nested(&data));
    data[1] = 65;
    assert!(!is_well_nested(&data));
    data[0] = 0x04;
    assert!(is_well_nested(&data));
    let huge = [0x30, 0x20, 0x02, 0x88, 0x80, 0, 0, 0, 0, 0, 0, 0];
    assert!(!is_well_nested(&huge));
}

#[test]
fn objects_that_overrun_are_refused() {
    let mut data = key(0x30, 0x02, &modulus(100), &[0x01, 0x00, 0x01]);
    assert_eq!(data[1], 107);
    for total in [1, 50, 101, 103, 106] {
        data[1] = total;
        assert!(!is_well_nested(&data));
        assert_eq!(import_modulus(&data), Err(ResponseStatus::PsaErrorCommunicationFailure));
    }
    let huge = [0x30, 0x20, 0x02, 0x88, 0x80, 0, 0, 0, 0, 0, 0, 0];
    assert_eq!(import_modulus(&huge), Err(ResponseStatus::PsaErrorCommunicationFailure));
    let mut data = key(0x30, 0x02, &modulus(128), &[0x01, 0x00, 0x01]);
    assert_eq!(data[1..3], [0x81, 0x88]);
    assert_eq!(import_modulus(&data), Ok(modulus(128)));
    data[2] = 0x87;
    assert_eq!(import_modulus(&data), Err(ResponseStatus::PsaErrorCommunicationFailure));
}

/// Where the contents start and how many octets they have.
fn contents_at(bytes: &[u8], at: usize) -> Option<(usize, u128)> {
    let first = *bytes.get(at)?;
    if first < 0x80 {
        return Some((at + 1, first as u128));
    }
    let count = (first - 0x80) as usize;
    if count > 8 || at + 1 + count > bytes.len() {
        return None;
    }
    let digits = &bytes[at + 1..at + 1 + count];
    Some((at + 1 + count, digits.iter().fold(0, |n, d| n * 256 + *d as u128)))
}

/// The two strings of octets that `bytes` are expected to decode to.
fn expected(bytes: &[u8]) -> Option<(Vec<u8>, Vec<u8>)> {
    let tag = *bytes.first()?;
    if !(tag == 0x30 || tag == 0x31 || (0x80..=0x8f).contains(&tag)) {
        return None;
    }
    let (start, len) = contents_at(bytes, 1)?;
    let limit = start as u128 + len;
    let mut at = start as u128;
    let mut found = Vec::new();
    while found.len() < 2 {
        if at >= limit || at >= bytes.len() as u128 {
            return None;
        }
        let tag = bytes[at as usize];
        let octets = [0x02, 0x03, 0x04, 0x0c, 0x12, 0x13, 0x16].contains(&tag);
        if !(octets || (0x80..=0x8f).contains(&tag)) {
            return None;
        }
        let (start, len) = contents_at(bytes, at as usize + 1)?;
        let end = start as u128 + len;
        if end > bytes.len() as u128 {
            return None;
        }
        found.push(bytes[start..end as usize].to_vec());
        at = end;
    }
    let second = found.pop()?;
    Some((found.pop()?, second))
}

/// Compares the decoder with `expected` where it does not panic.
fn compare(bytes: &[u8]) -> bool {
    if !is_well_nested(bytes) {
        return false;
    }
    let r: Result<(IntegerAsn1, IntegerAsn1), picky_asn1_der::Asn1DerError> =
        picky_asn1_der::from_bytes(bytes);
    let found = r.ok().map(|(m, e)| (m.0, e.0));
    assert_eq!(found, expected(bytes), "{:?}", bytes);
    let refused = import_modulus(bytes) == Err(ResponseStatus::PsaErrorCommunicationFailure);
    assert_eq!(refused, found.is_none(), "{:?}", bytes);
    found.is_some()
}

#[test]
fn short_data_decode_as_expected() {
    let alphabet = [0x00, 0x01, 0x02, 0x03, 0x05, 0x30, 0x80, 0x81, 0x89];
    let mut decoded = 0;
    for len in 0..=6 {
        let mut digits = vec![0usize; len];
        loop {
            let bytes: Vec<u8> = digits.iter().map(|d| alphabet[*d]).collect();
            if compare(&bytes) {
                decoded += 1;
            }
            let mut i = 0;
            while i < len && digits[i] == alphabet.len() - 1 {
                digits[i] = 0;
                i += 1;
            }
            if i == len {
                break;
            }
            digits[i] += 1;
        }
    }
    assert!(decoded > 100);
}

#[test]
fn changed_keys_decode_as_expected() {
    let data = key(0x30, 0x02, &modulus(130), &[0x01, 0x00, 0x01]);
    for place in 0..data.len() {
        for value in 0..=255 {
            let mut changed = data.clone();
            changed[place] = value;
            // Lengths in the gigabytes are left out: they only cost memory.
            let long = place == 4 && (0x84..=0x88).contains(&value);
            if !long {
                compare(&changed);
            }
        }
    }
}
