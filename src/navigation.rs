use vstd::prelude::*;
use crate::screen::{Screen, SCREEN_COUNT};

verus! {

/// Horizontal offset, in logical pixels, from which a slide enters.
pub const SLIDE_OFFSET: i32 = 60;

/// Whether a slide transition is running, and in which direction.
#[derive(Clone, Copy, Debug, PartialEq, Eq, Structural)]
pub enum Phase {
    Settled,
    TransitioningForward,
    TransitioningBackward,
}

/// A slide transition to start: the slide's offset begins at `from` and is
/// animated towards zero.
#[derive(Clone, Copy, Debug, PartialEq, Eq, Structural)]
pub struct SlideStart {
    pub from: i32,
}

/// The deck cursor together with the state of the slide transition.
#[derive(Clone, Copy, Debug, PartialEq, Eq, Structural)]
pub struct Navigator {
    pub screen: Screen,
    pub phase: Phase,
}

impl Navigator {
    /// The navigator after a forward request.
    pub open spec fn after_forward(self) -> Navigator {
        if self.screen.pos() < SCREEN_COUNT - 1 {
            Navigator { screen: self.screen.next(), phase: Phase::TransitioningForward }
        } else {
            self
        }
    }

    /// The navigator after a backward request.
    pub open spec fn after_backward(self) -> Navigator {
        if self.screen.pos() > 0 {
            Navigator { screen: self.screen.prev(), phase: Phase::TransitioningBackward }
        } else {
            self
        }
    }

    /// The navigator after a tick whose animation step left the offset
    /// `settled` or not.
    pub open spec fn after_tick(self, settled: bool) -> Navigator {
        if settled {
            Navigator { phase: Phase::Settled, ..self }
        } else {
            self
        }
    }

    /// A settled navigator on the first slide.
    pub fn new() -> (r: Navigator)
        ensures
            r.screen.pos() == 0,
            r.phase == Phase::Settled,
    {
        Navigator { screen: Screen::first(), phase: Phase::Settled }
    }

    /// Handles a request for the next slide. Away from the last slide the
    /// cursor advances and a transition entering from the right is returned;
    /// on the last slide nothing changes and no transition starts.
    pub fn forward(&mut self) -> (r: Option<SlideStart>)
        ensures
            *final(self) == old(self).after_forward(),
            r == if old(self).screen.pos() < SCREEN_COUNT - 1 {
                Some(SlideStart { from: SLIDE_OFFSET })
            } else {
                None::<SlideStart>
            },
    {
        if self.screen.is_last() {
            None
        } else {
            self.screen.forward();
            self.phase = Phase::TransitioningForward;
            Some(SlideStart { from: SLIDE_OFFSET })
        }
    }

    /// Handles a request for the previous slide. Away from the first slide
    /// the cursor moves back and a transition entering from the left is
    /// returned; on the first slide nothing changes and no transition starts.
    pub fn backward(&mut self) -> (r: Option<SlideStart>)
        ensures
            *final(self) == old(self).after_backward(),
            r == if old(self).screen.pos() > 0 {
                Some(SlideStart { from: (-SLIDE_OFFSET) as i32 })
            } else {
                None::<SlideStart>
            },
    {
        if self.screen.is_first() {
            None
        } else {
            self.screen.backward();
            self.phase = Phase::TransitioningBackward;
            Some(SlideStart { from: -SLIDE_OFFSET })
        }
    }

    /// Records one animation step; `settled` tells whether the animated
    /// offset has come to rest. A settled navigator stays settled.
    pub fn tick(&mut self, settled: bool)
        ensures
            *final(self) == old(self).after_tick(settled),
    {
        if settled {
            self.phase = Phase::Settled;
        }
    }

    /// Whether animation ticks are needed: exactly while a transition runs.
    pub fn wants_ticks(&self) -> (r: bool)
        ensures
            r == (self.phase != Phase::Settled),
    {
        match self.phase {
            Phase::Settled => false,
            _ => true,
        }
    }

    /// One-based position of the current slide, for an "n / total" indicator.
    pub fn position(&self) -> (r: usize)
        ensures
            r == self.screen.pos() + 1,
            1 <= r <= SCREEN_COUNT,
    {
        self.screen.index() + 1
    }

    /// Number of slides in the deck.
    pub fn total(&self) -> (r: usize)
        ensures
            r == SCREEN_COUNT,
    {
        SCREEN_COUNT
    }
}

/// A request that fails the boundary check changes nothing: forward on the
/// last slide and backward on the first leave the navigator as it was.
pub proof fn lemma_refused_moves_change_nothing(n: Navigator)
    ensures
        n.screen.pos() == SCREEN_COUNT - 1 ==> n.after_forward() == n,
        n.screen.pos() == 0 ==> n.after_backward() == n,
{
}

} // verus!
