use nixie_clock::nixie_display::{DisplayMode, HourFormat, NixieDisplay, Timestamp};
use nixie_clock::sim::{FakePin, RecordingShift};

fn new_display() -> NixieDisplay<RecordingShift, FakePin, FakePin> {
    NixieDisplay::new(RecordingShift::new(), FakePin::new(), FakePin::new())
}

#[test]
fn it_displays_time() {
    let mut display = new_display();

    let datetime = Timestamp::new(2024, 1, 2, 12, 34, 0);
    display.display(datetime).unwrap();

    let value = &display.shift_register.values()[0];

    assert_eq!(value[0], 4 * 16 + 3);
    assert_eq!(value[1], 2 * 16 + 1);
}

#[test]
fn it_turns_on_seperator_on_even_seconds() {
    let mut display = new_display();

    let datetime = Timestamp::new(2024, 1, 2, 0, 0, 0);
    display.display(datetime).unwrap();

    assert_eq!(display.separator1.states()[0], true);
    assert_eq!(display.separator2.states()[0], true);
}

#[test]
fn it_turns_off_seperator_on_odd_seconds() {
    let mut display = new_display();

    let datetime = Timestamp::new(2024, 1, 2, 0, 0, 1);
    display.display(datetime).unwrap();

    assert_eq!(display.separator1.states()[0], false);
    assert_eq!(display.separator2.states()[0], false);
}

#[test]
fn it_displays_date() {
    let mut display = new_display();

    let datetime = Timestamp::new(2024, 12, 23, 12, 34, 0);
    display.set_mode(DisplayMode::Date);
    display.display(datetime).unwrap();

    let value = &display.shift_register.values()[0];

    assert_eq!(value[0], 3 * 16 + 2);
    assert_eq!(value[1], 2 * 16 + 1);
    assert_eq!(display.separator1.states()[0], false);
    assert_eq!(display.separator2.states()[0], true);
}

#[test]
fn it_displays_year() {
    let mut display = new_display();

    let datetime = Timestamp::new(2024, 12, 23, 12, 34, 0);
    display.set_mode(DisplayMode::Year);
    display.display(datetime).unwrap();

    let value = &display.shift_register.values()[0];

    assert_eq!(value[0], 4 * 16 + 2);
    assert_eq!(value[1], 0 * 16 + 2);
    assert_eq!(display.separator1.states()[0], false);
    assert_eq!(display.separator2.states()[0], false);
}

#[test]
fn encodes_digit_quad_reverse_paired() {
    let mut display = new_display();

    display.show_digits(&[1, 2, 3, 4]).unwrap();

    let frame = &display.shift_register.values()[0];
    assert_eq!(frame.len(), 2);
    assert_eq!(frame[0], 4 * 16 + 3);
    assert_eq!(frame[1], 2 * 16 + 1);
}

#[test]
fn midnight_in_24_hour_format_shows_zeros_and_blinks() {
    let mut display = new_display();
    display.set_hour_format(HourFormat::TwentyFourHour);

    display.display(Timestamp::new(2024, 1, 2, 0, 0, 0)).unwrap();
    let frame = &display.shift_register.values()[0];
    assert_eq!(frame[0], 0);
    assert_eq!(frame[1], 0);
    assert_eq!(display.separator1.states()[0], true);
    assert_eq!(display.separator2.states()[0], true);

    display.display(Timestamp::new(2024, 1, 2, 0, 0, 1)).unwrap();
    assert_eq!(display.separator1.states()[1], false);
    assert_eq!(display.separator2.states()[1], false);
}

#[test]
fn midnight_in_12_hour_format_shows_twelve() {
    let mut display = new_display();

    display.display(Timestamp::new(2024, 1, 2, 0, 7, 0)).unwrap();

    // Hour 0 renders as 12 on a 12-hour face.
    let frame = &display.shift_register.values()[0];
    assert_eq!(frame[0], 7 * 16 + 0);
    assert_eq!(frame[1], 2 * 16 + 1);
}

#[test]
fn date_rendering_ignores_time_of_day() {
    let mut morning = new_display();
    morning.set_mode(DisplayMode::Date);
    morning.display(Timestamp::new(2024, 12, 23, 3, 4, 5)).unwrap();

    let mut evening = new_display();
    evening.set_mode(DisplayMode::Date);
    evening.display(Timestamp::new(2024, 12, 23, 21, 42, 58)).unwrap();

    assert_eq!(morning.shift_register.values(), evening.shift_register.values());
    assert_eq!(morning.separator1.states(), evening.separator1.states());
    assert_eq!(morning.separator2.states(), evening.separator2.states());
}

#[test]
fn mode_cycles_time_date_year() {
    let mut display = new_display();
    assert_eq!(display.mode, DisplayMode::Time);
    display.next_mode();
    assert_eq!(display.mode, DisplayMode::Date);
    display.next_mode();
    assert_eq!(display.mode, DisplayMode::Year);
    display.next_mode();
    assert_eq!(display.mode, DisplayMode::Time);
}
