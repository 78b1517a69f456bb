use adc_pwm::panel::{
    alertor_action, breath_step, button_pressed, follow_button, percent_to_duty, random_color,
    sweep_order, toggle, AlertorAction,
};
use adc_pwm::pwm::Level;

#[test]
fn button_reads_low_when_pressed() {
    assert!(button_pressed(Level::Low));
    assert!(!button_pressed(Level::High));
}

#[test]
fn output_follows_button() {
    assert_eq!(follow_button(true), Level::High);
    assert_eq!(follow_button(false), Level::Low);
}

#[test]
fn alertor_sounds_while_pressed() {
    assert_eq!(alertor_action(true), AlertorAction::Sound);
    assert_eq!(alertor_action(false), AlertorAction::Silence);
}

#[test]
fn toggle_flips_level() {
    assert_eq!(toggle(Level::Low), Level::High);
    assert_eq!(toggle(Level::High), Level::Low);
}

#[test]
fn sweep_goes_up_then_down() {
    assert_eq!(sweep_order(4), vec![0, 1, 2, 3, 3, 2, 1, 0]);
    assert_eq!(sweep_order(0), Vec::<usize>::new());
}

#[test]
fn breathing_rises_and_falls() {
    assert_eq!(breath_step(0, true), (1, true));
    assert_eq!(breath_step(98, true), (99, true));
    assert_eq!(breath_step(99, true), (100, false));
    assert_eq!(breath_step(100, false), (99, false));
    assert_eq!(breath_step(1, false), (0, true));
    assert_eq!(breath_step(0, false), (0, true));
}

#[test]
fn percent_scales_to_duty() {
    assert_eq!(percent_to_duty(0), 0);
    assert_eq!(percent_to_duty(50), 127);
    assert_eq!(percent_to_duty(100), 255);
}

#[test]
fn random_color_levels_in_range() {
    for _ in 0..200 {
        let c = random_color();
        assert!(c.iter().all(|&v| v <= 100));
    }
}
