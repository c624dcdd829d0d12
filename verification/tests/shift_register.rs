use nixie_clock::shift_register::{Shift, ShiftRegister};
use nixie_clock::sim::FakePin;

#[test]
fn it_works() {
    let mut r = ShiftRegister::new(FakePin::new(), FakePin::new(), FakePin::new());

    r.shift(5).unwrap();
    r.shift(10).unwrap();
    r.store().unwrap();

    // 5 = 00000101 and 10 = 00001010, most significant bit first.
    assert_eq!(
        *r.data_pin().states(),
        vec![
            false, false, false, false, false, true, false, true,
            false, false, false, false, true, false, true, false,
        ]
    );

    let mut clock_expected: Vec<bool> = Vec::new();
    for _ in 0..16 {
        clock_expected.push(true);
        clock_expected.push(false);
    }
    assert_eq!(*r.clock_pin().states(), clock_expected);

    assert_eq!(*r.latch_pin().states(), vec![true, false]);
}
