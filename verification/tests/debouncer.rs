use nixie_clock::debouncer::Debouncer;
use nixie_clock::sim::ScriptedInput;

fn scripted(bits: &str) -> ScriptedInput {
    ScriptedInput::new(bits.chars().map(|c| c == '1').collect())
}

#[test]
fn it_debounces() {
    let input = "0100111011011001000011011010001001011100101111000100010111011100010";
    let integator = "0100123233233212100012123232101001012321212333210100010123233321010";
    let output = "0000001111111111100000001111100000000111111111110000000001111111000";

    let mut debouncer = Debouncer::new(300, 10, scripted(input));

    for i in 0..input.len() {
        debouncer.update().unwrap();

        let expected_state = output.as_bytes()[i] == b'1';
        assert!(
            debouncer.is_high() == expected_state,
            "Failed at index {} - expected: {:?}, got: {:?} - integrator: {}",
            i,
            expected_state,
            debouncer.is_high(),
            debouncer.integrator()
        );
        assert!(
            debouncer.integrator() == integator.as_bytes()[i] - b'0',
            "Failed at index {} - expected: {}, got: {}",
            i,
            integator.as_bytes()[i] - b'0',
            debouncer.integrator()
        );
    }
}

#[test]
fn output_rises_only_after_maximum_high_samples() {
    // maximum = 3: two high samples keep the output low, the third raises it.
    let mut debouncer = Debouncer::new(300, 10, scripted("111"));
    debouncer.update().unwrap();
    assert!(debouncer.is_low());
    debouncer.update().unwrap();
    assert!(debouncer.is_low());
    debouncer.update().unwrap();
    assert!(debouncer.is_high());
}

#[test]
fn output_falls_only_after_maximum_low_samples() {
    let mut debouncer = Debouncer::new(300, 10, scripted("111000"));
    for _ in 0..3 {
        debouncer.update().unwrap();
    }
    assert!(debouncer.is_high());
    debouncer.update().unwrap();
    assert!(debouncer.is_high());
    debouncer.update().unwrap();
    assert!(debouncer.is_high());
    debouncer.update().unwrap();
    assert!(debouncer.is_low());
}

#[test]
fn read_failure_leaves_filter_untouched() {
    // The script holds a single sample: the second update hits an exhausted
    // source, fails, and changes nothing.
    let mut debouncer = Debouncer::new(300, 10, scripted("1"));
    debouncer.update().unwrap();
    let integrator_before = debouncer.integrator();
    let high_before = debouncer.is_high();
    assert!(debouncer.update().is_err());
    assert_eq!(debouncer.integrator(), integrator_before);
    assert_eq!(debouncer.is_high(), high_before);
}
