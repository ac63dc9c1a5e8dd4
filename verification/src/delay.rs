//! The selected delay and the controls that move it.
use vstd::prelude::*;

use crate::config::{DELAY_STEP_FRAMES, FPS, INITIAL_DELAY_FRAMES, MAX_DELAY_FRAMES};
use crate::text::{decimal_text, digit_char, digit_str, push_decimal};

verus! {

/// The delay after one press of "+": one step more, but never beyond the maximum.
pub open spec fn increased(frames: nat) -> nat {
    if frames + DELAY_STEP_FRAMES <= MAX_DELAY_FRAMES {
        (frames + DELAY_STEP_FRAMES) as nat
    } else {
        MAX_DELAY_FRAMES as nat
    }
}

/// The delay after one press of "-": one step less, but never below zero.
pub open spec fn decreased(frames: nat) -> nat {
    if frames >= DELAY_STEP_FRAMES {
        (frames - DELAY_STEP_FRAMES) as nat
    } else {
        0
    }
}

/// A delay that the controls can reach: within the maximum, and a whole number of steps.
pub open spec fn reachable_delay(frames: nat) -> bool {
    &&& frames <= MAX_DELAY_FRAMES
    &&& frames % (DELAY_STEP_FRAMES as nat) == 0
}

/// The delay in seconds, written with one decimal and the unit: "2.0 s", "14.5 s".
///
/// The tenths digit is the whole number of tenths of a second in `frames`; for every delay
/// that the controls can reach (a whole number of half seconds) this is the exact value, so
/// the text is the one-decimal rendering of `frames / FPS` with no rounding involved.
pub open spec fn seconds_text(frames: nat) -> Seq<char> {
    decimal_text(frames / (FPS as nat)) + seq![
        '.',
        digit_char((frames % (FPS as nat)) * 10 / (FPS as nat)),
        ' ',
        's',
    ]
}

/// The currently selected delay, counted in frames.
///
/// This is the delay value itself, owned by one holder. The touchscreen buttons and the
/// streaming thread must see one and the same delay, so the application shares a single
/// controller between them (its `SharedDelay`, a controller behind a lock) rather than
/// copying it; the type has no `Clone` so that no second, diverging delay can be made.
#[derive(Debug)]
pub struct DelayController {
    frames: usize,
}

impl View for DelayController {
    type V = nat;

    closed spec fn view(&self) -> nat {
        self.frames as nat
    }
}

impl DelayController {
    #[verifier::type_invariant]
    closed spec fn inv(self) -> bool {
        reachable_delay(self.frames as nat)
    }

    /// A controller at the initial delay of two seconds.
    pub fn new() -> (res: Self)
        ensures
            res@ == INITIAL_DELAY_FRAMES,
    {
        DelayController { frames: INITIAL_DELAY_FRAMES }
    }

    /// The selected delay in frames.
    pub fn frames(&self) -> (res: usize)
        ensures
            res == self@,
            reachable_delay(res as nat),
    {
        proof {
            use_type_invariant(self);
        }
        self.frames
    }

    /// One step longer, up to the maximum.
    pub fn increase(&mut self)
        ensures
            final(self)@ == increased(old(self)@),
            reachable_delay(final(self)@),
    {
        proof {
            use_type_invariant(&*self);
        }
        let current = self.frames;
        let new_value = if current + DELAY_STEP_FRAMES <= MAX_DELAY_FRAMES {
            current + DELAY_STEP_FRAMES
        } else {
            MAX_DELAY_FRAMES
        };
        self.frames = new_value;
    }

    /// One step shorter, down to zero.
    pub fn decrease(&mut self)
        ensures
            final(self)@ == decreased(old(self)@),
            reachable_delay(final(self)@),
    {
        proof {
            use_type_invariant(&*self);
        }
        let current = self.frames;
        let new_value = current.saturating_sub(DELAY_STEP_FRAMES);
        self.frames = new_value;
    }

    /// The selected delay as the interface shows it, such as "2.0 s".
    pub fn display_text(&self) -> (res: String)
        ensures
            res@ == seconds_text(self@),
    {
        proof {
            use_type_invariant(self);
        }
        let frames = self.frames;
        let mut text = String::new();
        push_decimal(&mut text, frames / FPS);
        proof {
            reveal_strlit(".");
            reveal_strlit(" s");
        }
        text.append(".");
        text.append(digit_str(frames % FPS * 10 / FPS));
        text.append(" s");
        text
    }
}

/// The delay after `presses` presses of "+".
pub open spec fn after_increases(frames: nat, presses: nat) -> nat
    decreases presses,
{
    if presses == 0 {
        frames
    } else {
        increased(after_increases(frames, (presses - 1) as nat))
    }
}

/// The delay after `presses` presses of "-".
pub open spec fn after_decreases(frames: nat, presses: nat) -> nat
    decreases presses,
{
    if presses == 0 {
        frames
    } else {
        decreased(after_decreases(frames, (presses - 1) as nat))
    }
}

/// The controls keep every reachable delay reachable: between zero and the maximum, a whole
/// number of steps; "+" never shortens the delay and "-" never lengthens it.
pub proof fn law_controls_keep_delay_reachable(frames: nat)
    requires
        reachable_delay(frames),
    ensures
        reachable_delay(increased(frames)),
        reachable_delay(decreased(frames)),
        frames <= increased(frames),
        decreased(frames) <= frames,
{
}

/// Below the maximum, "-" undoes "+".
pub proof fn law_decrease_undoes_increase(frames: nat)
    requires
        reachable_delay(frames),
        frames < MAX_DELAY_FRAMES,
    ensures
        decreased(increased(frames)) == frames,
{
}

/// Above zero, "+" undoes "-".
pub proof fn law_increase_undoes_decrease(frames: nat)
    requires
        reachable_delay(frames),
        frames > 0,
    ensures
        increased(decreased(frames)) == frames,
{
}

/// At the maximum "+" changes nothing, and at zero "-" changes nothing.
pub proof fn law_limits_are_fixed()
    ensures
        increased(MAX_DELAY_FRAMES as nat) == MAX_DELAY_FRAMES,
        decreased(0) == 0,
{
}

/// Each press of "+" adds one step until the maximum is reached.
pub proof fn law_increases_add_steps(frames: nat, presses: nat)
    requires
        reachable_delay(frames),
    ensures
        after_increases(frames, presses) == if frames + presses * DELAY_STEP_FRAMES
            <= MAX_DELAY_FRAMES {
            frames + presses * DELAY_STEP_FRAMES
        } else {
            MAX_DELAY_FRAMES as int
        },
    decreases presses,
{
    if presses > 0 {
        law_increases_add_steps(frames, (presses - 1) as nat);
    }
}

/// Each press of "-" takes one step away until zero is reached.
pub proof fn law_decreases_remove_steps(frames: nat, presses: nat)
    requires
        reachable_delay(frames),
    ensures
        after_decreases(frames, presses) == if frames >= presses * DELAY_STEP_FRAMES {
            frames - presses * DELAY_STEP_FRAMES
        } else {
            0
        },
    decreases presses,
{
    if presses > 0 {
        law_decreases_remove_steps(frames, (presses - 1) as nat);
    }
}

/// From any reachable delay, thirty presses of "+" reach the maximum and thirty presses of
/// "-" reach zero.
pub proof fn law_whole_range_in_thirty_presses(frames: nat)
    requires
        reachable_delay(frames),
    ensures
        after_increases(frames, 30) == MAX_DELAY_FRAMES,
        after_decreases(frames, 30) == 0,
{
    law_increases_add_steps(frames, 30);
    law_decreases_remove_steps(frames, 30);
}

/// A reachable delay is shown in whole half seconds: the tenths digit is "0" or "5".
pub proof fn law_display_in_half_seconds(frames: nat)
    requires
        reachable_delay(frames),
    ensures
        seconds_text(frames) == decimal_text(frames / (FPS as nat)) + seq![
            '.',
            if frames % (FPS as nat) == 0 {
                '0'
            } else {
                '5'
            },
            ' ',
            's',
        ],
{
    assert(frames % 60 == 0 || frames % 60 == 30) by (nonlinear_arith)
        requires
            frames % 30 == 0,
    ;
}

} // verus!
