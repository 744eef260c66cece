//! The status LEDs of the board: which are lit, and what switches them.
use vstd::prelude::*;

verus! {

/// One of the three status LEDs.
#[derive(Debug, Clone, Copy, PartialEq, Eq, Structural)]
pub enum Led {
    Green,
    Red,
    Yellow,
}

/// How long one pulse keeps an LED lit, in milliseconds.
pub const PULSE_DURATION_MS: u64 = 100;

/// What the LED task is asked to do.
#[derive(Debug, Clone, Copy, PartialEq, Eq, Structural)]
pub enum LedCommand {
    /// Light the LED for `PULSE_DURATION_MS`, then return it to its level.
    Pulse(Led),
    /// Switch the LED over for good.
    Toggle(Led),
}

/// Which LEDs are lit, as the toggle commands have left them.
#[derive(Debug, Clone, Copy, PartialEq, Eq, Structural)]
pub struct LedLevels {
    pub green: bool,
    pub red: bool,
    pub yellow: bool,
}

impl LedLevels {
    /// Whether `led` is lit.
    pub open spec fn spec_is_lit(self, led: Led) -> bool {
        match led {
            Led::Green => self.green,
            Led::Red => self.red,
            Led::Yellow => self.yellow,
        }
    }

    /// The levels after `led` is switched over.
    pub open spec fn spec_toggled(self, led: Led) -> LedLevels {
        match led {
            Led::Green => LedLevels { green: !self.green, ..self },
            Led::Red => LedLevels { red: !self.red, ..self },
            Led::Yellow => LedLevels { yellow: !self.yellow, ..self },
        }
    }

    /// All LEDs dark.
    pub fn new() -> (l: LedLevels)
        ensures
            !l.spec_is_lit(Led::Green),
            !l.spec_is_lit(Led::Red),
            !l.spec_is_lit(Led::Yellow),
    {
        LedLevels { green: false, red: false, yellow: false }
    }

    /// Whether `led` is lit.
    pub fn is_lit(&self, led: Led) -> (lit: bool)
        ensures
            lit == self.spec_is_lit(led),
    {
        match led {
            Led::Green => self.green,
            Led::Red => self.red,
            Led::Yellow => self.yellow,
        }
    }

    /// Switches `led` over: it is lit afterwards exactly when it was dark
    /// before, and every other LED keeps its level. Returns the new level.
    pub fn toggle(&mut self, led: Led) -> (lit: bool)
        ensures
            *final(self) == old(self).spec_toggled(led),
            final(self).spec_is_lit(led) == !old(self).spec_is_lit(led),
            forall|other: Led| other != led ==> final(self).spec_is_lit(other) == old(self).spec_is_lit(other),
            lit == final(self).spec_is_lit(led),
    {
        match led {
            Led::Green => {
                self.green = !self.green;
                self.green
            },
            Led::Red => {
                self.red = !self.red;
                self.red
            },
            Led::Yellow => {
                self.yellow = !self.yellow;
                self.yellow
            },
        }
    }
}

/// Switching the same LED over twice leaves every LED as it was.
pub proof fn lemma_toggle_twice(levels: LedLevels, led: Led)
    ensures
        levels.spec_toggled(led).spec_toggled(led) == levels,
{
}

} // verus!
