//! The steps of a scale between two colors.
//!
//! A [`ColorRange`] holds the two ends of a scale, the number of colors on
//! it, and how many of them have been handed out. It decides which step is
//! due and when the scale is exhausted; blending the two ends at a step is
//! left to the caller.

use crate::color::Color;
use vstd::prelude::*;

verus! {

/// A scale of `total_steps` colors from `start` to `end`, of which the
/// first `position` have been handed out.
#[derive(Debug)]
pub struct ColorRange {
    start: Color,
    end: Color,
    total_steps: usize,
    current_step: usize,
}

impl ColorRange {
    #[verifier::type_invariant]
    spec fn well_formed(self) -> bool {
        1 <= self.total_steps && self.current_step <= self.total_steps
    }

    /// The color at the first step of the scale.
    pub closed spec fn spec_start(self) -> Color {
        self.start
    }

    /// The color at the last step of the scale.
    pub closed spec fn spec_end(self) -> Color {
        self.end
    }

    /// The number of colors on the scale.
    pub closed spec fn spec_total_steps(self) -> nat {
        self.total_steps as nat
    }

    /// The number of steps handed out so far.
    pub closed spec fn spec_position(self) -> nat {
        self.current_step as nat
    }

    /// The number of steps still to come.
    pub open spec fn spec_remaining(self) -> int {
        self.spec_total_steps() - self.spec_position()
    }

    /// The step that is due: the number of steps handed out so far, while
    /// that is below the number of steps, and none after that.
    pub open spec fn step_due(self) -> Option<usize> {
        if self.spec_position() < self.spec_total_steps() {
            Some(self.spec_position() as usize)
        } else {
            None
        }
    }

    /// The color at the first step of the scale.
    pub fn start(&self) -> (c: Color)
        ensures
            c == self.spec_start(),
    {
        self.start
    }

    /// The color at the last step of the scale.
    pub fn end(&self) -> (c: Color)
        ensures
            c == self.spec_end(),
    {
        self.end
    }

    /// The number of colors on the scale, at least 1.
    pub fn total_steps(&self) -> (n: usize)
        ensures
            n == self.spec_total_steps(),
            n >= 1,
    {
        proof {
            use_type_invariant(self);
        }
        self.total_steps
    }

    /// The number of intervals between neighbouring steps: one less than the
    /// number of steps. It is 0 for a scale of a single color, on which
    /// every step is the start.
    pub fn intervals(&self) -> (n: usize)
        ensures
            n == self.spec_total_steps() - 1,
    {
        proof {
            use_type_invariant(self);
        }
        self.total_steps - 1
    }

    /// The number of steps still to come.
    pub fn remaining(&self) -> (n: usize)
        ensures
            n == self.spec_remaining(),
    {
        proof {
            use_type_invariant(self);
        }
        self.total_steps - self.current_step
    }

    /// Hands out the next step of the scale. While steps remain, the result
    /// is the index of the step that is due, counted from 0, and one step
    /// fewer remains. Once all steps are out the result is `None` and the
    /// range stays as it is.
    pub fn next_step(&mut self) -> (step: Option<usize>)
        ensures
            final(self).spec_start() == old(self).spec_start(),
            final(self).spec_end() == old(self).spec_end(),
            final(self).spec_total_steps() == old(self).spec_total_steps(),
            step == old(self).step_due(),
            step.is_some() ==> final(self).spec_position() == old(self).spec_position() + 1,
            step.is_none() ==> *final(self) == *old(self),
            final(self).spec_position() <= final(self).spec_total_steps(),
    {
        proof {
            use_type_invariant(&*self);
        }
        if self.current_step == self.total_steps {
            return None;
        }
        let index: usize = self.current_step;
        self.current_step = index + 1;
        Some(index)
    }
}

impl Clone for ColorRange {
    /// A second range at the same step of the same scale.
    fn clone(&self) -> (copy: ColorRange)
        ensures
            copy == *self,
    {
        proof {
            use_type_invariant(self);
        }
        ColorRange {
            start: self.start,
            end: self.end,
            total_steps: self.total_steps,
            current_step: self.current_step,
        }
    }
}

impl Color {
    /// Starts a scale of `steps` colors that runs from this color to
    /// `value`, with no step handed out yet. There is no scale of zero
    /// colors.
    pub fn range_to(&self, value: Color, steps: usize) -> (range: ColorRange)
        requires
            steps > 0,
        ensures
            range.spec_start() == *self,
            range.spec_end() == value,
            range.spec_total_steps() == steps,
            range.spec_position() == 0,
    {
        ColorRange { start: *self, end: value, total_steps: steps, current_step: 0 }
    }
}

} // verus!
