use adc_pwm::pwm::{
    active_level, inactive_level, pwm_timing, DriverStep, Level, Phase, Polarity, PwmDriver,
    PWM_PERIOD_MICROS,
};

#[test]
fn timing_fills_period_for_every_duty() {
    let mut prev_on = 0u64;
    for duty in 0..=255u8 {
        let (on, off) = pwm_timing(PWM_PERIOD_MICROS, duty);
        assert_eq!(on + off, PWM_PERIOD_MICROS);
        assert_eq!(on == 0, duty == 0);
        assert_eq!(on == PWM_PERIOD_MICROS, duty == 255);
        assert!(on >= prev_on);
        prev_on = on;
    }
}

#[test]
fn timing_exact_values() {
    assert_eq!(pwm_timing(1000, 128), (501, 499));
    assert_eq!(pwm_timing(1000, 1), (3, 997));
    assert_eq!(pwm_timing(1000, 254), (996, 4));
    assert_eq!(pwm_timing(10000, 51), (2000, 8000));
}

#[test]
fn short_period_rounds_small_duty_to_zero() {
    assert_eq!(pwm_timing(100, 1), (0, 100));
}

#[test]
fn polarity_levels() {
    assert_eq!(active_level(Polarity::ActiveHigh), Level::High);
    assert_eq!(inactive_level(Polarity::ActiveHigh), Level::Low);
    assert_eq!(active_level(Polarity::ActiveLow), Level::Low);
    assert_eq!(inactive_level(Polarity::ActiveLow), Level::High);
}

#[test]
fn cycle_at_zero_duty_holds_inactive() {
    let d = PwmDriver::new(1000, Polarity::ActiveHigh);
    assert_eq!(d.cycle(0), vec![Phase { level: Level::Low, micros: 1000 }]);
}

#[test]
fn cycle_at_full_duty_holds_active() {
    let d = PwmDriver::new(1000, Polarity::ActiveLow);
    assert_eq!(d.cycle(255), vec![Phase { level: Level::Low, micros: 1000 }]);
}

#[test]
fn cycle_in_between_has_two_phases() {
    let d = PwmDriver::new(1000, Polarity::ActiveHigh);
    assert_eq!(
        d.cycle(128),
        vec![
            Phase { level: Level::High, micros: 501 },
            Phase { level: Level::Low, micros: 499 },
        ]
    );
}

#[test]
fn cycle_skips_empty_off_phase() {
    let d = PwmDriver::new(0, Polarity::ActiveHigh);
    assert_eq!(d.cycle(10), vec![Phase { level: Level::High, micros: 0 }]);
}

#[test]
fn every_cycle_lasts_one_period() {
    let d = PwmDriver::new(1000, Polarity::ActiveLow);
    for duty in 0..=255u8 {
        let total: u64 = d.cycle(duty).iter().map(|p| p.micros).sum();
        assert_eq!(total, 1000);
    }
}

#[test]
fn stopped_driver_deactivates_pin() {
    let high = PwmDriver::new(1000, Polarity::ActiveHigh);
    let low = PwmDriver::new(10000, Polarity::ActiveLow);
    for duty in [0u8, 1, 128, 255] {
        assert_eq!(high.step(false, duty), DriverStep::Stop(Level::Low));
        assert_eq!(low.step(false, duty), DriverStep::Stop(Level::High));
    }
}

#[test]
fn running_driver_plays_one_cycle() {
    let d = PwmDriver::new(1000, Polarity::ActiveHigh);
    assert_eq!(d.step(true, 128), DriverStep::Cycle(d.cycle(128)));
}
