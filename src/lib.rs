//! Control logic for analog-driven software PWM on a small board: detection
//! of which of two ADC converters sits on an I2C bus, the per-channel command
//! framing and read sequences of each, the timing of bit-banged PWM outputs,
//! and the button and light decisions of the simpler panels. The caller
//! performs the bus, pin and sleep operations that these functions plan.
pub mod adc;
pub mod panel;
pub mod probe;
pub mod pwm;
