//! The wire form of encrypted records: exact layout, round trips, and each
//! way a buffer can be rejected.

use enveloperb::errors::FormatError;
use enveloperb::record::EncryptedRecord;

fn sample_record() -> EncryptedRecord {
    EncryptedRecord {
        wrapped_key: vec![0xAA, 0xBB],
        nonce: vec![0x01; 12],
        ciphertext: vec![0xCC],
    }
}

#[test]
fn serialized_layout_is_exact() {
    let bytes = sample_record().to_vec().unwrap();
    let mut expected: Vec<u8> = Vec::new();
    expected.push(1); // format version
    expected.extend_from_slice(&[2, 0]); // wrapped-key length, little endian
    expected.extend_from_slice(&[0xAA, 0xBB]);
    expected.extend_from_slice(&[0x01; 12]);
    expected.extend_from_slice(&[1, 0, 0, 0, 0, 0, 0, 0]); // ciphertext length
    expected.push(0xCC);
    assert_eq!(bytes, expected);
}

#[test]
fn serialization_round_trip() {
    let record = sample_record();
    let revived = EncryptedRecord::from_vec(record.to_vec().unwrap()).unwrap();
    assert_eq!(revived, record);

    let empty_ct = EncryptedRecord {
        wrapped_key: vec![5; 61],
        nonce: vec![9; 12],
        ciphertext: Vec::new(),
    };
    let revived = EncryptedRecord::from_vec(empty_ct.to_vec().unwrap()).unwrap();
    assert_eq!(revived, empty_ct);
}

#[test]
fn unknown_version_is_rejected() {
    let mut bytes = sample_record().to_vec().unwrap();
    bytes[0] = 9;
    assert_eq!(
        EncryptedRecord::from_vec(bytes),
        Err(FormatError::UnknownVersion)
    );
}

#[test]
fn truncated_buffers_are_rejected() {
    let bytes = sample_record().to_vec().unwrap();
    assert_eq!(
        EncryptedRecord::from_vec(Vec::new()),
        Err(FormatError::Truncated)
    );
    for cut in 1..bytes.len() {
        assert_eq!(
            EncryptedRecord::from_vec(bytes[..cut].to_vec()),
            Err(FormatError::Truncated)
        );
    }
}

#[test]
fn trailing_data_is_rejected() {
    let mut bytes = sample_record().to_vec().unwrap();
    bytes.push(0);
    assert_eq!(
        EncryptedRecord::from_vec(bytes),
        Err(FormatError::TrailingData)
    );
}

#[test]
fn records_that_do_not_fit_the_format_are_unencodable() {
    let bad_nonce = EncryptedRecord {
        wrapped_key: vec![1, 2, 3],
        nonce: vec![0; 11],
        ciphertext: vec![4],
    };
    assert_eq!(bad_nonce.to_vec(), Err(FormatError::Unencodable));

    let oversized_key = EncryptedRecord {
        wrapped_key: vec![0; 65536],
        nonce: vec![0; 12],
        ciphertext: vec![4],
    };
    assert_eq!(oversized_key.to_vec(), Err(FormatError::Unencodable));
}
