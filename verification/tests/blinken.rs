use oro_link::blinken::{
    blink_cycle, config_duties, duty_steps, pattern_for, Cmd, LedChange, Pattern, TimedStep,
};

#[test]
fn blink_cycle_without_delay() {
    let c = blink_cycle(None);
    assert_eq!(c.len(), 15);
    assert_eq!(c[0], TimedStep { change: LedChange::One { led: 0, lit: true }, wait_ms: 10 });
    assert_eq!(c[1], TimedStep { change: LedChange::One { led: 0, lit: false }, wait_ms: 20 });
    assert_eq!(c[4], TimedStep { change: LedChange::Nothing, wait_ms: 30 });
    assert_eq!(c[5], TimedStep { change: LedChange::One { led: 1, lit: true }, wait_ms: 10 });
    assert_eq!(c[14], TimedStep { change: LedChange::Nothing, wait_ms: 30 });
}

#[test]
fn blink_cycle_with_delay() {
    let c = blink_cycle(Some(10_000));
    assert_eq!(c.len(), 16);
    assert_eq!(c[15], TimedStep { change: LedChange::AllOff, wait_ms: 10_000 });
}

#[test]
fn breathing_waveform() {
    assert_eq!(config_duties(0), [0, 333, 666]);
    assert_eq!(config_duties(999), [999, 667, 334]);
    assert_eq!(config_duties(1000), [999, 666, 333]);
    assert_eq!(config_duties(1999), [0, 0, 0]);
    assert_eq!(config_duties(2500), [0, 0, 166]);
    assert_eq!(config_duties(2999), [0, 332, 665]);
    assert_eq!(config_duties(3000), config_duties(0));
    assert_eq!(config_duties(u64::MAX), config_duties(u64::MAX % 3000));
}

#[test]
fn duty_step_timing() {
    assert_eq!(
        duty_steps(1, 250),
        vec![
            (LedChange::One { led: 1, lit: true }, 250),
            (LedChange::One { led: 1, lit: false }, 750)
        ]
    );
    assert_eq!(duty_steps(2, 0), vec![(LedChange::One { led: 2, lit: false }, 1000)]);
}

#[test]
fn patterns_of_commands() {
    assert!(matches!(pattern_for(Cmd::On), Pattern::Blink { delay_ms: None }));
    assert!(matches!(pattern_for(Cmd::Idle), Pattern::Blink { delay_ms: Some(10_000) }));
    assert!(matches!(pattern_for(Cmd::Config), Pattern::Breathe));
    assert!(matches!(pattern_for(Cmd::Off), Pattern::Fixed { lit: [false, false, false] }));
    assert!(matches!(
        pattern_for(Cmd::Manual { states: [true, false, true] }),
        Pattern::Fixed { lit: [true, false, true] }
    ));
}
