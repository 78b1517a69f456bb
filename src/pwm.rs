use vstd::prelude::*;

verus! {

/// Default length of one software PWM period in microseconds (about 1 kHz).
pub const PWM_PERIOD_MICROS: u64 = 1000;

/// Largest duty value: the output is active for the whole period.
pub const DUTY_FULL: u8 = 255;

/// Largest period accepted, so that `period * duty` fits in a `u64`.
pub const MAX_PERIOD_MICROS: u64 = 0x00ff_ffff_ffff_ffff;

/// Electrical level of an output line.
#[derive(Clone, Copy, Debug, PartialEq, Eq, Structural)]
pub enum Level {
    Low,
    High,
}

/// Which level lights the output: common-cathode wiring is active high,
/// common-anode wiring is active low.
#[derive(Clone, Copy, Debug, PartialEq, Eq, Structural)]
pub enum Polarity {
    ActiveHigh,
    ActiveLow,
}

pub open spec fn active_level_spec(p: Polarity) -> Level {
    match p {
        Polarity::ActiveHigh => Level::High,
        Polarity::ActiveLow => Level::Low,
    }
}

pub open spec fn inactive_level_spec(p: Polarity) -> Level {
    match p {
        Polarity::ActiveHigh => Level::Low,
        Polarity::ActiveLow => Level::High,
    }
}

/// The level that turns the output on.
pub fn active_level(p: Polarity) -> (r: Level)
    ensures
        r == active_level_spec(p),
{
    match p {
        Polarity::ActiveHigh => Level::High,
        Polarity::ActiveLow => Level::Low,
    }
}

/// The level that turns the output off.
pub fn inactive_level(p: Polarity) -> (r: Level)
    ensures
        r == inactive_level_spec(p),
        r != active_level_spec(p),
{
    match p {
        Polarity::ActiveHigh => Level::Low,
        Polarity::ActiveLow => Level::High,
    }
}

/// Active part of a period: `period * duty / 255`, truncated.
pub open spec fn on_time_spec(period: int, duty: int) -> int {
    period * duty / 255
}

/// Splits one period into its active and inactive parts for a duty value.
pub fn pwm_timing(period: u64, duty: u8) -> (r: (u64, u64))
    requires
        period <= MAX_PERIOD_MICROS,
    ensures
        r.0 == on_time_spec(period as int, duty as int),
        r.1 == period - r.0,
        r.0 <= period,
{
    assert(period * duty <= MAX_PERIOD_MICROS * 255) by (nonlinear_arith)
        requires
            period <= MAX_PERIOD_MICROS,
            duty <= 255,
    ;
    assert(period * duty / 255 <= period) by (nonlinear_arith)
        requires
            duty <= 255,
            period >= 0,
    ;
    let on = period * (duty as u64) / 255;
    (on, period - on)
}

/// The timing law of one period: the two parts fill it, the output is never
/// on only at duty 0 and always on only at full duty, and a larger duty never
/// gives a shorter active part. The two equivalences need a period of at
/// least 255 microseconds; below that a small duty rounds down to nothing.
pub proof fn lemma_timing_law(period: int, duty: int, duty2: int)
    requires
        0 <= duty <= 255,
        0 <= duty2 <= 255,
        255 <= period,
    ensures
        0 <= on_time_spec(period, duty) <= period,
        on_time_spec(period, duty) + (period - on_time_spec(period, duty)) == period,
        on_time_spec(period, duty) == 0 <==> duty == 0,
        on_time_spec(period, duty) == period <==> duty == 255,
        duty <= duty2 ==> on_time_spec(period, duty) <= on_time_spec(period, duty2),
{
    assert(0 <= period * duty / 255 <= period) by (nonlinear_arith)
        requires
            0 <= duty <= 255,
            0 <= period,
    ;
    assert(duty > 0 ==> period * duty / 255 > 0) by (nonlinear_arith)
        requires
            0 <= duty,
            255 <= period,
    ;
    assert(duty < 255 ==> period * duty / 255 < period) by (nonlinear_arith)
        requires
            0 <= duty,
            255 <= period,
    ;
    assert(duty <= duty2 ==> period * duty / 255 <= period * duty2 / 255) by (nonlinear_arith)
        requires
            0 <= duty,
            0 <= period,
    ;
}

/// One timed part of a PWM cycle: hold `level` for `micros` microseconds.
#[derive(Clone, Copy, Debug, PartialEq, Eq, Structural)]
pub struct Phase {
    pub level: Level,
    pub micros: u64,
}

/// The phases of one period. Duty 0 and full duty hold a single level for the
/// whole period; any other duty is active for the on-time, then inactive for
/// the rest unless the rest is zero.
pub open spec fn cycle_spec(period: u64, duty: u8, p: Polarity) -> Seq<Phase> {
    let on = on_time_spec(period as int, duty as int);
    let off = period - on;
    if duty == 0 {
        seq![Phase { level: inactive_level_spec(p), micros: period }]
    } else if duty == DUTY_FULL {
        seq![Phase { level: active_level_spec(p), micros: period }]
    } else if off > 0 {
        seq![
            Phase { level: active_level_spec(p), micros: on as u64 },
            Phase { level: inactive_level_spec(p), micros: off as u64 },
        ]
    } else {
        seq![Phase { level: active_level_spec(p), micros: on as u64 }]
    }
}

/// Total time of a sequence of phases.
pub open spec fn total_micros(s: Seq<Phase>) -> int
    decreases s.len(),
{
    if s.len() == 0 {
        0
    } else {
        s[0].micros + total_micros(s.drop_first())
    }
}

/// Settings of one software PWM output.
#[derive(Clone, Copy, Debug, PartialEq, Eq, Structural)]
pub struct PwmDriver {
    pub period_micros: u64,
    pub polarity: Polarity,
}

/// What a driver does after reading the run flag and its duty value.
#[derive(Debug, PartialEq, Eq)]
pub enum DriverStep {
    /// Play these phases in order, then read the flag again.
    Cycle(Vec<Phase>),
    /// Set the pin to this level once and end.
    Stop(Level),
}

impl PwmDriver {
    pub open spec fn wf(self) -> bool {
        self.period_micros <= MAX_PERIOD_MICROS
    }

    pub fn new(period_micros: u64, polarity: Polarity) -> (r: PwmDriver)
        requires
            period_micros <= MAX_PERIOD_MICROS,
        ensures
            r.wf(),
            r.period_micros == period_micros,
            r.polarity == polarity,
    {
        PwmDriver { period_micros, polarity }
    }

    /// The phases of one period at this duty value.
    pub fn cycle(&self, duty: u8) -> (r: Vec<Phase>)
        requires
            self.wf(),
        ensures
            r@ == cycle_spec(self.period_micros, duty, self.polarity),
    {
        let period = self.period_micros;
        let (on, off) = pwm_timing(period, duty);
        let mut r: Vec<Phase> = Vec::new();
        if duty == 0 {
            r.push(Phase { level: inactive_level(self.polarity), micros: period });
        } else if duty == DUTY_FULL {
            r.push(Phase { level: active_level(self.polarity), micros: period });
        } else {
            r.push(Phase { level: active_level(self.polarity), micros: on });
            if off > 0 {
                r.push(Phase { level: inactive_level(self.polarity), micros: off });
            }
        }
        r
    }

    /// One turn of the driver loop: while the flag is up, play one period at
    /// the duty value just read; once it is down, deactivate the pin and stop.
    pub fn step(&self, running: bool, duty: u8) -> (r: DriverStep)
        requires
            self.wf(),
        ensures
            running ==> (r matches DriverStep::Cycle(ph) && ph@ == cycle_spec(
                self.period_micros,
                duty,
                self.polarity,
            )),
            !running ==> r == DriverStep::Stop(inactive_level_spec(self.polarity)),
    {
        if running {
            DriverStep::Cycle(self.cycle(duty))
        } else {
            DriverStep::Stop(inactive_level(self.polarity))
        }
    }
}

/// Every cycle lasts exactly one period and ends with the run flag read again,
/// and a driver that reads the flag down sets its pin inactive. So once the
/// flag falls, each pin is inactive after at most one more period, whatever
/// phase it was in.
pub proof fn lemma_stop_within_period(d: PwmDriver, duty: u8)
    requires
        d.wf(),
    ensures
        total_micros(cycle_spec(d.period_micros, duty, d.polarity)) == d.period_micros,
        forall|i: int|
            0 <= i < cycle_spec(d.period_micros, duty, d.polarity).len() ==> cycle_spec(
                d.period_micros,
                duty,
                d.polarity,
            )[i].micros <= d.period_micros,
        inactive_level_spec(d.polarity) != active_level_spec(d.polarity),
{
    let s = cycle_spec(d.period_micros, duty, d.polarity);
    lemma_timing_bounds(d.period_micros as int, duty as int);
    reveal_with_fuel(total_micros, 3);
    assert(s.drop_first().len() <= 1);
    if s.len() == 2 {
        assert(s.drop_first().drop_first().len() == 0);
    }
}

proof fn lemma_timing_bounds(period: int, duty: int)
    requires
        0 <= period,
        0 <= duty <= 255,
    ensures
        0 <= on_time_spec(period, duty) <= period,
{
    assert(0 <= period * duty / 255 <= period) by (nonlinear_arith)
        requires
            0 <= duty <= 255,
            0 <= period,
    ;
}

} // verus!
