//! The settings of the applet.

use vstd::prelude::*;

verus! {

/// What the user can set.
#[derive(Debug, Clone, Copy, PartialEq, Eq, Structural)]
pub struct AppletConfig {
    pub max_title_chars: usize,
    pub middle_click_closes: bool,
    pub show_app_icons: bool,
}

/// The least and the most characters that a title may be limited to.
#[derive(Debug, Clone, Copy, PartialEq, Eq, Structural)]
pub struct TitleLimits {
    pub min: usize,
    pub max: usize,
}

impl TitleLimits {
    /// Whether there is a number between the limits.
    pub open spec fn wf(self) -> bool {
        self.min <= self.max
    }

    /// The number between the limits that is nearest to `value`.
    pub open spec fn nearest(self, value: usize) -> usize {
        if value < self.min {
            self.min
        } else if value > self.max {
            self.max
        } else {
            value
        }
    }

    /// The number between the limits that is nearest to `value`.
    pub fn clamp(&self, value: usize) -> (r: usize)
        requires
            self.wf(),
        ensures
            r == self.nearest(value),
    {
        if value < self.min {
            self.min
        } else if value > self.max {
            self.max
        } else {
            value
        }
    }
}

} // verus!
