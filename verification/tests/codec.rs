use geyser_ingest::codec::{
    account_keys_from_bytes, check_payload, decode, signature_of_hash, CanonicalRecord,
    TransactionMeta, TransactionPayload,
};
use geyser_ingest::error::{DecodeError, PersistError};
use geyser_ingest::sink::{insert_params, insert_statement};
use solana_pubkey::Pubkey;
use solana_signature::Signature;

fn payload(keys: &[&str], fee: Option<u64>, signature: Vec<u8>) -> TransactionPayload {
    TransactionPayload {
        account_keys: Some(keys.iter().map(|k| k.to_string()).collect()),
        meta: fee.map(|fee| TransactionMeta { fee }),
        signature,
    }
}

fn counting_signature() -> Vec<u8> {
    (0u8..64).collect()
}

#[test]
fn zero_signature_decodes_to_sixty_four_ones() {
    let record = decode(&payload(&["Sig1Pubkey", "Other"], Some(5000), vec![0u8; 64]), 1_700_000_000)
        .unwrap();
    assert_eq!(record.txn_hash, "1".repeat(64));
    assert_eq!(record.signer, "Sig1Pubkey");
    assert_eq!(record.fee, 5000);
    assert_eq!(record.observed_at, 1_700_000_000);
}

#[test]
fn decode_builds_the_whole_record() {
    let record = decode(&payload(&["Sig1Pubkey", "Other"], Some(5000), vec![0u8; 64]), 42).unwrap();
    assert_eq!(
        record,
        CanonicalRecord {
            txn_hash: "1".repeat(64),
            signer: "Sig1Pubkey".to_string(),
            fee: 5000,
            observed_at: 42,
        }
    );
}

#[test]
fn signer_is_the_first_account_key() {
    let record = decode(&payload(&["first", "second", "third"], Some(1), counting_signature()), 0)
        .unwrap();
    assert_eq!(record.signer, "first");
    let record = decode(&payload(&["only"], Some(1), counting_signature()), 0).unwrap();
    assert_eq!(record.signer, "only");
}

#[test]
fn txn_hash_is_what_the_signature_displays() {
    let bytes = counting_signature();
    let record = decode(&payload(&["signer"], Some(0), bytes.clone()), 7).unwrap();
    let signature = Signature::try_from(bytes.as_slice()).unwrap();
    assert_eq!(record.txn_hash, signature.to_string());
    assert_ne!(record.txn_hash.as_bytes(), bytes.as_slice());
}

#[test]
fn txn_hash_reads_back_to_the_signature() {
    for bytes in [vec![0u8; 64], vec![255u8; 64], counting_signature()] {
        let record = decode(&payload(&["signer"], Some(0), bytes.clone()), 7).unwrap();
        assert_eq!(signature_of_hash(&record.txn_hash), Some(bytes));
    }
}

#[test]
fn signature_of_hash_rejects_what_is_no_signature() {
    assert_eq!(signature_of_hash(""), None);
    assert_eq!(signature_of_hash("0OIl"), None);
    assert_eq!(signature_of_hash("not a hash"), None);
    assert_eq!(signature_of_hash(&"1".repeat(63)), None);
    assert_eq!(signature_of_hash(&"1".repeat(65)), None);
    assert_eq!(signature_of_hash(&"z".repeat(89)), None);
    assert_eq!(signature_of_hash(&"1".repeat(64)), Some(vec![0u8; 64]));
}

#[test]
fn missing_account_keys_are_reported() {
    let absent = TransactionPayload {
        account_keys: None,
        meta: Some(TransactionMeta { fee: 1 }),
        signature: vec![0u8; 64],
    };
    assert_eq!(decode(&absent, 0), Err(DecodeError::MissingAccountKeys));
    let empty = payload(&[], Some(1), vec![0u8; 64]);
    assert_eq!(decode(&empty, 0), Err(DecodeError::MissingAccountKeys));
}

#[test]
fn missing_account_keys_come_before_every_other_failure() {
    let nothing_right = TransactionPayload { account_keys: None, meta: None, signature: vec![1, 2, 3] };
    assert_eq!(decode(&nothing_right, 0), Err(DecodeError::MissingAccountKeys));
    assert_eq!(check_payload(&nothing_right), Some(DecodeError::MissingAccountKeys));
    assert_eq!(decode(&TransactionPayload::absent(), 0), Err(DecodeError::MissingAccountKeys));
}

#[test]
fn missing_metadata_is_reported() {
    assert_eq!(
        decode(&payload(&["signer"], None, vec![0u8; 64]), 0),
        Err(DecodeError::MissingMetadata)
    );
    assert_eq!(
        decode(&payload(&["signer"], None, vec![0u8; 3]), 0),
        Err(DecodeError::MissingMetadata)
    );
}

#[test]
fn signature_of_wrong_length_is_reported() {
    for length in [0usize, 1, 32, 63, 65, 128] {
        assert_eq!(
            decode(&payload(&["signer"], Some(1), vec![7u8; length]), 0),
            Err(DecodeError::InvalidSignature)
        );
    }
}

#[test]
fn check_payload_accepts_what_decodes() {
    assert_eq!(check_payload(&payload(&["signer"], Some(1), vec![0u8; 64])), None);
    assert_eq!(
        check_payload(&payload(&["signer"], Some(1), vec![0u8; 63])),
        Some(DecodeError::InvalidSignature)
    );
}

#[test]
fn assemble_takes_the_hash_as_given() {
    let record = CanonicalRecord::assemble(
        &payload(&["signer", "other"], Some(9), vec![0u8; 64]),
        "hash".to_string(),
        3,
    );
    assert_eq!(
        record,
        CanonicalRecord {
            txn_hash: "hash".to_string(),
            signer: "signer".to_string(),
            fee: 9,
            observed_at: 3,
        }
    );
    assert_eq!(record.duplicate(), record);
}

#[test]
fn account_keys_are_written_in_base58() {
    let key = vec![
        24u8, 243, 6, 223, 230, 153, 210, 8, 92, 137, 123, 67, 164, 197, 79, 196, 125, 43, 183, 85,
        103, 91, 232, 167, 73, 131, 104, 131, 0, 101, 214, 231,
    ];
    let texts = account_keys_from_bytes(&vec![key.clone(), vec![0u8; 32]]).unwrap();
    assert_eq!(
        texts,
        vec![
            "2gPihUTjt3FJqf1VpidgrY5cZ6PuyMccGVwQHRfjMPZG".to_string(),
            "1".repeat(32),
        ]
    );
    assert_eq!(texts[0], Pubkey::try_from(key.as_slice()).unwrap().to_string());
}

#[test]
fn account_keys_of_wrong_length_name_no_account() {
    assert_eq!(account_keys_from_bytes(&vec![vec![0u8; 31]]), None);
    assert_eq!(account_keys_from_bytes(&vec![vec![0u8; 32], vec![0u8; 33]]), None);
    assert_eq!(account_keys_from_bytes(&vec![vec![]]), None);
    assert_eq!(account_keys_from_bytes(&vec![]), Some(vec![]));
}

#[test]
fn payload_from_wire_fields() {
    let built = TransactionPayload::from_wire(vec![0u8; 64], Some(vec![vec![0u8; 32]]), Some(5000));
    assert_eq!(
        built,
        TransactionPayload {
            account_keys: Some(vec!["1".repeat(32)]),
            meta: Some(TransactionMeta { fee: 5000 }),
            signature: vec![0u8; 64],
        }
    );
    let record = decode(&built, 10).unwrap();
    assert_eq!(record.signer, "1".repeat(32));
    assert_eq!(record.fee, 5000);
}

#[test]
fn payload_from_wire_without_usable_keys() {
    let malformed = TransactionPayload::from_wire(vec![0u8; 64], Some(vec![vec![0u8; 5]]), Some(1));
    assert_eq!(malformed.account_keys, None);
    assert_eq!(decode(&malformed, 0), Err(DecodeError::MissingAccountKeys));
    let absent = TransactionPayload::from_wire(vec![0u8; 64], None, None);
    assert_eq!(absent.account_keys, None);
    assert_eq!(absent.meta, None);
    let empty = TransactionPayload::from_wire(vec![0u8; 64], Some(vec![]), Some(1));
    assert_eq!(decode(&empty, 0), Err(DecodeError::MissingAccountKeys));
}

#[test]
fn decoding_twice_gives_the_same_record() {
    let input = payload(&["signer"], Some(12), counting_signature());
    assert_eq!(decode(&input, 99), decode(&input, 99));
}

#[test]
fn insert_params_carry_the_record() {
    let record = CanonicalRecord {
        txn_hash: "hash".to_string(),
        signer: "signer".to_string(),
        fee: 5000,
        observed_at: 1_700_000_000,
    };
    let params = insert_params(&record).unwrap();
    assert_eq!(params.txn_hash, "hash");
    assert_eq!(params.unix_epoch, 1_700_000_000);
    assert_eq!(params.signer, "signer");
    assert_eq!(params.fee, 5000);
    assert_eq!(params.duplicate(), params);
}

#[test]
fn insert_params_at_the_limits() {
    let mut record = CanonicalRecord {
        txn_hash: "hash".to_string(),
        signer: "signer".to_string(),
        fee: i64::MAX as u64,
        observed_at: i64::MAX as u64,
    };
    let params = insert_params(&record).unwrap();
    assert_eq!(params.fee, i64::MAX);
    assert_eq!(params.unix_epoch, i64::MAX);
    record.fee = i64::MAX as u64 + 1;
    assert_eq!(insert_params(&record), Err(PersistError::ValueOutOfRange));
    record.fee = 0;
    record.observed_at = u64::MAX;
    assert_eq!(insert_params(&record), Err(PersistError::ValueOutOfRange));
}

#[test]
fn insert_statement_binds_and_ignores_duplicates() {
    let sql = insert_statement();
    assert_eq!(
        sql,
        "INSERT INTO txns (txn_hash, unix_epoch, signer, fee) VALUES ($1, $2, $3, $4) ON CONFLICT (txn_hash) DO NOTHING"
    );
    assert!(!sql.contains('\''));
}
