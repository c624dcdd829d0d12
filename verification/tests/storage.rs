use nixie_clock::codec::{decode_config, encode_config};
use nixie_clock::config::InternalConfig;
use nixie_clock::storage::{InMemoryStorage, Storage};

#[test]
fn test_in_memory_storage() {
    let mut storage = InMemoryStorage::new();

    let value: [u8; 3] = [1, 2, 3];

    storage.set_raw("test", &value).unwrap();

    assert_eq!(storage.get_raw("test").unwrap().unwrap(), value.to_vec());
}

#[test]
fn missing_key_reads_as_none() {
    let mut storage = InMemoryStorage::new();
    assert_eq!(storage.get_raw("test").unwrap(), None);
}

#[test]
fn later_write_overrides_earlier() {
    let mut storage = InMemoryStorage::new();
    storage.set_raw("test", &[1, 2]).unwrap();
    storage.set_raw("test", &[3]).unwrap();
    assert_eq!(storage.get_raw("test").unwrap().unwrap(), vec![3u8]);
}

#[test]
fn record_roundtrips_through_codec() {
    let config = InternalConfig::new("smíšené üñïçødé", "p@ss", "Europe/Prague", 0xabcdef);

    let record = encode_config(&config);
    let decoded = decode_config(&record).unwrap();

    assert_eq!(decoded, config);
}

#[test]
fn malformed_record_is_rejected() {
    // Too short for even one length prefix.
    assert!(decode_config(&[1, 2, 3]).is_none());

    // A length running past the end of the record.
    let mut record = encode_config(&InternalConfig::default());
    record[0] = record[0].wrapping_add(1);
    assert!(decode_config(&record).is_none());

    // Trailing garbage after the colour bytes.
    let mut record = encode_config(&InternalConfig::default());
    record.push(0);
    assert!(decode_config(&record).is_none());
}
