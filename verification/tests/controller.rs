use nixie_clock::color::{format_color, parse_color, rgb_channels};
use nixie_clock::config::InternalConfig;
use nixie_clock::controller::{button_step, needs_wifi_restart};

#[test]
fn held_button_advances_once_per_cycle() {
    let mut counter: u8 = 0;
    let mut advances = 0;
    for _ in 0..11 {
        let (next, advance) = button_step(counter, true);
        counter = next;
        if advance {
            advances += 1;
        }
    }
    // One advance on the first pressed poll, then one per full cycle of 5.
    assert_eq!(advances, 3);
}

#[test]
fn releasing_button_resets_counter() {
    let (counter, advance) = button_step(3, false);
    assert_eq!(counter, 0);
    assert!(!advance);

    // The next press starts a fresh streak and advances again.
    let (counter, advance) = button_step(counter, true);
    assert_eq!(counter, 1);
    assert!(advance);
}

#[test]
fn wifi_restarts_only_on_credential_change() {
    let same = InternalConfig::new("attic", "hunter2", "US/Central", 0x123456);
    assert!(!needs_wifi_restart("attic", "hunter2", &same));

    let new_ssid = InternalConfig::new("cellar", "hunter2", "US/Central", 0x123456);
    assert!(needs_wifi_restart("attic", "hunter2", &new_ssid));

    let new_pass = InternalConfig::new("attic", "hunter3", "US/Central", 0x123456);
    assert!(needs_wifi_restart("attic", "hunter2", &new_pass));
}

#[test]
fn parse_color_reads_hex_digits() {
    assert_eq!(parse_color("#123456"), 0x123456);
    assert_eq!(parse_color("#AbCdEf"), 0xabcdef);
    assert_eq!(parse_color("#000000"), 0);
    assert_eq!(parse_color("#ffffff"), 0xffffff);

    // Anything malformed degrades to 0.
    assert_eq!(parse_color("123456"), 0);
    assert_eq!(parse_color("#12345"), 0);
    assert_eq!(parse_color("#12345g"), 0);
    assert_eq!(parse_color(""), 0);
}

#[test]
fn format_color_writes_lowercase_hex() {
    assert_eq!(format_color(0x123456), "#123456");
    assert_eq!(format_color(0xABCDEF), "#abcdef");
    assert_eq!(format_color(0x000088), "#000088");
    assert_eq!(format_color(0), "#000000");
}

#[test]
fn rgb_channels_split_the_colour_code() {
    assert_eq!(rgb_channels(0xFF8040), (0xFF, 0x80, 0x40));
    assert_eq!(rgb_channels(0x000000), (0, 0, 0));
    assert_eq!(rgb_channels(0xFFFFFF), (0xFF, 0xFF, 0xFF));
}
