use sha2::{Digest, Sha256};
use transfers::key::{canonical_string, generate_idempotency_key, join_serials};

fn serials(values: &[&str]) -> Vec<String> {
    values.iter().map(|s| s.to_string()).collect()
}

fn sample_key(serial_numbers: &[String]) -> String {
    generate_idempotency_key("2024-01-01", "T1", "T2", "TRK1", "PO1", "INV1", serial_numbers)
}

#[test]
fn key_equals_precomputed_digest() {
    let key = sample_key(&serials(&["S1", "S2"]));
    assert_eq!(key, "925d1aaea40d62099c910cdbfa5a794f71541e91ae6ee6b992b581aa3559c9d6");
}

#[test]
fn key_is_the_sha256_of_the_canonical_text() {
    let expected = format!("{:x}", Sha256::digest("2024-01-01\nT1\nT2\nTRK1\nPO1\nINV1\nS1\nS2".as_bytes()));
    assert_eq!(sample_key(&serials(&["S1", "S2"])), expected);
}

#[test]
fn key_is_the_same_on_every_call() {
    let list = serials(&["S1", "S2"]);
    let first = sample_key(&list);
    for _ in 0..5 {
        assert_eq!(sample_key(&list), first);
    }
}

#[test]
fn key_has_64_lowercase_hex_characters() {
    for list in [serials(&[]), serials(&["S1"]), serials(&["S1", "S2", "S3"])] {
        let key = sample_key(&list);
        assert_eq!(key.chars().count(), 64);
        assert!(key.chars().all(|c| matches!(c, '0'..='9' | 'a'..='f')));
    }
}

#[test]
fn key_changes_with_each_field() {
    let list = serials(&["S1", "S2"]);
    let base = sample_key(&list);
    let changed = [
        generate_idempotency_key("2024-01-02", "T1", "T2", "TRK1", "PO1", "INV1", &list),
        generate_idempotency_key("2024-01-01", "T9", "T2", "TRK1", "PO1", "INV1", &list),
        generate_idempotency_key("2024-01-01", "T1", "T9", "TRK1", "PO1", "INV1", &list),
        generate_idempotency_key("2024-01-01", "T1", "T2", "TRK9", "PO1", "INV1", &list),
        generate_idempotency_key("2024-01-01", "T1", "T2", "TRK1", "PO9", "INV1", &list),
        generate_idempotency_key("2024-01-01", "T1", "T2", "TRK1", "PO1", "INV9", &list),
        sample_key(&serials(&["S1", "S3"])),
        sample_key(&serials(&["S1"])),
        sample_key(&serials(&["S1", "S2", "S3"])),
    ];
    for key in changed.iter() {
        assert_ne!(*key, base);
    }
}

#[test]
fn key_depends_on_the_order_of_serials() {
    let forward = sample_key(&serials(&["S1", "S2"]));
    let backward = sample_key(&serials(&["S2", "S1"]));
    assert_eq!(backward, "43571c71feb37674b3ddbe126b3b0118fb6df56a4105d93bf0a12d92f82b4277");
    assert_ne!(forward, backward);
}

#[test]
fn key_without_serials() {
    let key = sample_key(&serials(&[]));
    assert_eq!(key, "f5dd56b4557851662ade879545dcb34d2ec73b05a5a6816f25f3876a8f727c3a");
}

#[test]
fn key_of_empty_fields() {
    let key = generate_idempotency_key("", "", "", "", "", "", &[]);
    assert_eq!(key, "d088784b7ecb87f1ea17e6f982fa968ffefcc07b79de6ecc548fc00242868da6");
}

#[test]
fn key_hashes_text_as_utf8() {
    let key = generate_idempotency_key("Zürich", "T1", "T2", "TRK1", "PO1", "INV1", &serials(&["S1"]));
    assert_eq!(key, "b10f6ffc9aabf25118f0c031281bf6c5e748471a38e15e879174a7c41bf4fa29");
}

#[test]
fn key_of_a_full_shipment() {
    let key = generate_idempotency_key(
        "2025-03-14",
        "1-23-456-78-9A-12345",
        "1-23-456-78-9B-54321",
        "1Z999AA10123456784",
        "PO123456",
        "INV98765",
        &serials(&["ABC123456", "XYZ987654"]),
    );
    assert_eq!(key, "a2ac1e15a3d6817da487e43d472e82ba817fa2954cdf7542e65985bf258e7cb7");
}

#[test]
fn canonical_text_puts_each_value_on_its_own_line() {
    let text = canonical_string("2024-01-01", "T1", "T2", "TRK1", "PO1", "INV1", &serials(&["S1", "S2"]));
    assert_eq!(text, "2024-01-01\nT1\nT2\nTRK1\nPO1\nINV1\nS1\nS2");
}

#[test]
fn canonical_text_without_serials_ends_with_a_line_feed() {
    let text = canonical_string("2024-01-01", "T1", "T2", "TRK1", "PO1", "INV1", &[]);
    assert_eq!(text, "2024-01-01\nT1\nT2\nTRK1\nPO1\nINV1\n");
}

#[test]
fn canonical_text_cannot_tell_no_serial_from_one_empty_serial() {
    let none = canonical_string("d", "a", "b", "t", "p", "i", &[]);
    let blank = canonical_string("d", "a", "b", "t", "p", "i", &serials(&[""]));
    assert_eq!(none, blank);
    let two_blank = canonical_string("d", "a", "b", "t", "p", "i", &serials(&["", ""]));
    assert_ne!(none, two_blank);
}

#[test]
fn canonical_text_cannot_tell_fields_with_line_feeds_apart() {
    let list = serials(&["S1"]);
    let split = canonical_string("d", "a\nb", "c", "t", "p", "i", &list);
    let shifted = canonical_string("d", "a", "b\nc", "t", "p", "i", &list);
    assert_eq!(split, shifted);
    let one = canonical_string("d", "a", "b", "t", "p", "i\nS1", &serials(&["S2"]));
    let other = canonical_string("d", "a", "b", "t", "p", "i", &serials(&["S1", "S2"]));
    assert_eq!(one, other);
}

#[test]
fn serials_are_joined_by_line_feeds() {
    assert_eq!(join_serials(&[]), "");
    assert_eq!(join_serials(&serials(&["S1"])), "S1");
    assert_eq!(join_serials(&serials(&["S1", "S2"])), "S1\nS2");
    assert_eq!(join_serials(&serials(&["S1", "", "S3"])), "S1\n\nS3");
}
