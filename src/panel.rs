use vstd::prelude::*;
use rand::Rng;
use crate::pwm::Level;

verus! {

/// Largest brightness or color level, in percent.
pub const LEVEL_MAX: u8 = 100;

/// What the alarm does after one look at its button.
#[derive(Clone, Copy, Debug, PartialEq, Eq, Structural)]
pub enum AlertorAction {
    /// Sound the tone for one burst.
    Sound,
    /// Stop the tone and hold the buzzer low.
    Silence,
}

/// A button wired to ground with a pull-up reads low while pressed.
pub fn button_pressed(level: Level) -> (r: bool)
    ensures
        r == (level == Level::Low),
{
    level == Level::Low
}

/// Level of an output that follows its button (a buzzer, a lamp): high while
/// the button is pressed.
pub fn follow_button(pressed: bool) -> (r: Level)
    ensures
        pressed ==> r == Level::High,
        !pressed ==> r == Level::Low,
{
    if pressed {
        Level::High
    } else {
        Level::Low
    }
}

/// An alarm sounds while its button is held and is silent otherwise.
pub fn alertor_action(pressed: bool) -> (r: AlertorAction)
    ensures
        pressed ==> r == AlertorAction::Sound,
        !pressed ==> r == AlertorAction::Silence,
{
    if pressed {
        AlertorAction::Sound
    } else {
        AlertorAction::Silence
    }
}

/// A lamp toggled by a button press goes to the other level.
pub fn toggle(level: Level) -> (r: Level)
    ensures
        r != level,
{
    match level {
        Level::Low => Level::High,
        Level::High => Level::Low,
    }
}

/// Order in which a bar of `n` lights is lit one at a time: up the bar,
/// then back down.
pub fn sweep_order(n: usize) -> (r: Vec<usize>)
    requires
        n <= usize::MAX / 2,
    ensures
        r@.len() == 2 * n,
        forall|i: int| 0 <= i < n ==> r@[i] == i,
        forall|i: int| n <= i < 2 * n ==> r@[i] == 2 * n - 1 - i,
{
    let mut r: Vec<usize> = Vec::new();
    let mut i: usize = 0;
    while i < n
        invariant
            i <= n,
            r@.len() == i,
            forall|k: int| 0 <= k < i ==> r@[k] == k,
        decreases n - i,
    {
        r.push(i);
        i = i + 1;
    }
    let mut j: usize = 0;
    while j < n
        invariant
            j <= n,
            r@.len() == n + j,
            forall|k: int| 0 <= k < n ==> r@[k] == k,
            forall|k: int| n <= k < n + j ==> r@[k] == 2 * n - 1 - k,
        decreases n - j,
    {
        r.push(n - 1 - j);
        j = j + 1;
    }
    r
}

/// One step of a breathing light, in percent: rise by one to full
/// brightness, then fall by one to dark, and so on.
pub fn breath_step(level: u8, rising: bool) -> (r: (u8, bool))
    requires
        level <= LEVEL_MAX,
    ensures
        r.0 <= LEVEL_MAX,
        rising && level + 1 < LEVEL_MAX ==> r == (((level + 1) as u8, true)),
        rising && level + 1 >= LEVEL_MAX ==> r == ((LEVEL_MAX, false)),
        !rising && level > 1 ==> r == (((level - 1) as u8, false)),
        !rising && level <= 1 ==> r == ((0u8, true)),
{
    if rising {
        if level + 1 >= LEVEL_MAX {
            (LEVEL_MAX, false)
        } else {
            (level + 1, true)
        }
    } else {
        if level <= 1 {
            (0, true)
        } else {
            (level - 1, false)
        }
    }
}

/// A level in percent as a duty value: `percent * 255 / 100`, truncated.
pub fn percent_to_duty(percent: u8) -> (r: u8)
    requires
        percent <= LEVEL_MAX,
    ensures
        r == percent * 255 / 100,
{
    assert(percent * 255 / 100 <= 255) by (nonlinear_arith)
        requires
            percent <= 100,
    ;
    ((percent as u32) * 255 / 100) as u8
}

/// Relies on rand's `thread_rng().gen_range(0..=100)`: a level drawn
/// uniformly from the inclusive range, so never above 100.
#[verifier::external_body]
fn random_percent() -> (r: u8)
    ensures
        r <= LEVEL_MAX,
{
    rand::thread_rng().gen_range(0..=100u8)
}

/// A random color: one level in percent for each of red, green and blue.
pub fn random_color() -> (r: [u8; 3])
    ensures
        forall|i: int| 0 <= i < 3 ==> r@[i] <= LEVEL_MAX,
{
    let red = random_percent();
    let green = random_percent();
    let blue = random_percent();
    [red, green, blue]
}

} // verus!
