use nixie_clock::codec::encode_config;
use nixie_clock::config::{Config, ConfigField, ConfigStorage, InternalConfig, UpdateError};
use nixie_clock::sim::{CountingStorage, FailingStorage};
use nixie_clock::storage::{InMemoryStorage, Storage, StorageError};

#[test]
fn it_returns_default_if_no_value_stored() {
    let storage = InMemoryStorage::new();
    let mut config_storage = ConfigStorage::new(storage);

    let config = config_storage.load().unwrap();

    assert_eq!(config, InternalConfig::default());
}

#[test]
fn it_loads_previously_saved_config() {
    let storage = InMemoryStorage::new();
    let mut config_storage = ConfigStorage::new(storage);

    let config = InternalConfig::new("ssid", "pass", "US/Central", 0x123456);
    config_storage.save(&config).unwrap();

    assert_eq!(config, config_storage.load().unwrap());
}

#[test]
fn it_updates_cache_on_save() {
    let storage = InMemoryStorage::new();
    let mut config_storage = ConfigStorage::new(storage);

    let config = config_storage.load().unwrap();
    assert_eq!(config, InternalConfig::default());

    let config = InternalConfig::new("ssid", "pass", "US/Central", 0x123456);
    config_storage.save(&config).unwrap();

    assert_eq!(config, config_storage.load().unwrap());
}

#[test]
fn convert_internal_config_to_config() {
    let config = InternalConfig::new("ssid", "pass", "US/Central", 0x123456);

    let expected = Config::new("ssid", "pass", "US/Central", "#123456");

    assert_eq!(expected, Config::from_internal(config));
}

#[test]
fn convert_config_to_internal_config() {
    let expected = InternalConfig::new("ssid", "pass", "US/Central", 0x123456);

    let config = Config::new("ssid", "pass", "US/Central", "#123456");

    assert_eq!(expected, InternalConfig::from_config(config));
}

#[test]
fn convert_uppercase_color_normalizes_to_lowercase() {
    let config = Config::new("ssid", "pass", "US/Central", "#ABCDEF");

    let internal = InternalConfig::from_config(config);
    assert_eq!(internal.led_color(), 0xabcdef);

    let back = Config::from_internal(internal);
    assert_eq!(back, Config::new("ssid", "pass", "US/Central", "#abcdef"));
}

#[test]
fn convert_malformed_color_degrades_to_zero() {
    let config = Config::new("ssid", "pass", "US/Central", "123456");

    let internal = InternalConfig::from_config(config);

    assert_eq!(internal.led_color(), 0);
}

#[test]
fn valid_config() {
    let config: Config = Config::new("ssid", "pass", "US/Central", "#123456");

    assert!(config.validate().is_ok());
}

#[test]
fn validate_wifi_ssid_is_not_blank() {
    let config: Config = Config::new(
        "", // Missing SSID
        "pass",
        "US/Central",
        "#123456",
    );

    let result = config.validate();
    assert!(result.is_err());
    assert!(result.unwrap_err().has_field(ConfigField::WifiSsid));
}

#[test]
fn validate_time_zone_is_not_blank() {
    let config: Config = Config::new(
        "ssid", "pass", "", // Missing time zone
        "#123456",
    );

    let result = config.validate();
    assert!(result.is_err());
    assert!(result.unwrap_err().has_field(ConfigField::TimeZone));
}

#[test]
fn validate_color_starts_with_hash() {
    let config: Config = Config::new(
        "ssid",
        "pass",
        "US/Central",
        "123456", // Missing #
    );

    let result = config.validate();
    assert!(result.is_err());
    assert!(result.unwrap_err().has_field(ConfigField::LedColor));
}

#[test]
fn validate_color_is_hex_color() {
    let config: Config = Config::new(
        "ssid",
        "pass",
        "US/Central",
        "#abcdeg", // Invalid hex color
    );

    let result = config.validate();
    assert!(result.is_err());
    let error = result.unwrap_err();
    assert!(error.has_field(ConfigField::LedColor));
}

#[test]
fn validate_reports_every_violation_together() {
    let config = Config::new("", "pass", "", "#12345x");

    let error = config.validate().unwrap_err();
    assert!(error.has_field(ConfigField::WifiSsid));
    assert!(error.has_field(ConfigField::TimeZone));
    assert!(error.has_field(ConfigField::LedColor));
    assert_eq!(error.fields().len(), 3);
    assert_eq!(error.fields()[0].name(), "wifi_ssid");
    assert_eq!(error.fields()[1].name(), "time_zone");
    assert_eq!(error.fields()[2].name(), "led_color");
}

#[test]
fn validate_color_wrong_length() {
    let config = Config::new("ssid", "pass", "US/Central", "#12345");
    assert!(config.validate().unwrap_err().has_field(ConfigField::LedColor));

    let config = Config::new("ssid", "pass", "US/Central", "#1234567");
    assert!(config.validate().unwrap_err().has_field(ConfigField::LedColor));
}

#[test]
fn second_load_makes_no_backing_store_access() {
    let mut config_storage = ConfigStorage::new(CountingStorage::new());

    let first = config_storage.load().unwrap();
    assert_eq!(config_storage.storage_ref().reads(), 1);

    let second = config_storage.load().unwrap();
    assert_eq!(first, second);
    assert_eq!(config_storage.storage_ref().reads(), 1);
    assert_eq!(config_storage.storage_ref().writes(), 0);
}

#[test]
fn load_reads_persisted_record_on_cold_start() {
    let saved = InternalConfig::new("attic", "hunter2", "Europe/Prague", 0x00ff88);
    let mut storage = InMemoryStorage::new();
    storage.set_raw("config", &encode_config(&saved)).unwrap();

    let mut config_storage = ConfigStorage::new(storage);
    assert_eq!(config_storage.load().unwrap(), saved);
}

#[test]
fn failing_storage_reports_distinct_errors() {
    let mut storage = FailingStorage::new();
    assert_eq!(storage.get_raw("config"), Err(StorageError::ReadError));
    assert_eq!(storage.set_raw("config", &[1]), Err(StorageError::WriteError));
    assert_eq!(StorageError::ReadError.message(), "error reading from storage");
    assert_eq!(StorageError::WriteError.message(), "error writing to storage");
}

#[test]
fn load_masks_read_error_with_default() {
    let mut config_storage = ConfigStorage::new(FailingStorage::new());

    let config = config_storage.load().unwrap();

    assert_eq!(config, InternalConfig::default());
}

#[test]
fn save_propagates_write_error_and_keeps_cache() {
    let mut config_storage = ConfigStorage::new(FailingStorage::new());
    let cached = config_storage.load().unwrap();

    let next = InternalConfig::new("ssid", "pass", "US/Central", 0x123456);
    assert_eq!(config_storage.save(&next), Err(StorageError::WriteError));

    // The failed save left the cache as it was.
    assert_eq!(config_storage.load().unwrap(), cached);
}

#[test]
fn apply_update_saves_validated_config() {
    let mut config_storage = ConfigStorage::new(InMemoryStorage::new());

    let update = Config::new("ssid", "pass", "US/Central", "#123456");
    let applied = config_storage.apply_update(update).unwrap();

    assert_eq!(applied, InternalConfig::new("ssid", "pass", "US/Central", 0x123456));
    assert_eq!(config_storage.load().unwrap(), applied);
}

#[test]
fn apply_update_rejects_invalid_config_before_store() {
    let mut config_storage = ConfigStorage::new(CountingStorage::new());

    let update = Config::new("", "pass", "US/Central", "#123456");
    match config_storage.apply_update(update) {
        Err(UpdateError::Validation(errors)) => {
            assert!(errors.has_field(ConfigField::WifiSsid));
        },
        other => panic!("expected a validation error, got {:?}", other),
    }
    assert_eq!(config_storage.storage_ref().writes(), 0);
}

#[test]
fn apply_update_reports_storage_failure_distinctly() {
    let mut config_storage = ConfigStorage::new(FailingStorage::new());

    let update = Config::new("ssid", "pass", "US/Central", "#123456");
    match config_storage.apply_update(update) {
        Err(UpdateError::Storage(e)) => assert_eq!(e, StorageError::WriteError),
        other => panic!("expected a storage error, got {:?}", other),
    }
}
