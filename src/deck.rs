use vstd::prelude::*;

verus! {

/// A cursor over an ordered deck of `len` slides that stops at both ends.
#[derive(Clone, Copy, Debug, PartialEq, Eq, Structural)]
pub struct ScreenDeck {
    current: usize,
    len: usize,
}

impl ScreenDeck {
    /// The deck has at least one slide and the cursor is on one of them.
    pub open spec fn wf(self) -> bool {
        0 <= self.spec_current() < self.spec_len()
    }

    pub closed spec fn spec_current(self) -> nat {
        self.current as nat
    }

    pub closed spec fn spec_len(self) -> nat {
        self.len as nat
    }

    /// A deck of `len` slides with the cursor on the first.
    pub fn new(len: usize) -> (r: ScreenDeck)
        requires
            len >= 1,
        ensures
            r.wf(),
            r.spec_current() == 0,
            r.spec_len() == len,
    {
        ScreenDeck { current: 0, len }
    }

    /// Position of the cursor, from zero.
    pub fn current(&self) -> (r: usize)
        ensures
            r == self.spec_current(),
    {
        self.current
    }

    /// Number of slides.
    pub fn len(&self) -> (r: usize)
        ensures
            r == self.spec_len(),
    {
        self.len
    }

    /// Whether the cursor is on the first slide.
    pub fn is_first(&self) -> (r: bool)
        ensures
            r == (self.spec_current() == 0),
    {
        self.current == 0
    }

    /// Whether the cursor is on the last slide.
    pub fn is_last(&self) -> (r: bool)
        requires
            self.wf(),
        ensures
            r == (self.spec_current() == self.spec_len() - 1),
    {
        self.current == self.len - 1
    }

    /// Moves the cursor one slide on, unless it is on the last slide.
    pub fn forward(&mut self)
        requires
            old(self).wf(),
        ensures
            final(self).wf(),
            final(self).spec_len() == old(self).spec_len(),
            final(self).spec_current() == if old(self).spec_current() + 1 < old(self).spec_len() {
                old(self).spec_current() + 1
            } else {
                old(self).spec_current()
            },
    {
        if self.current + 1 < self.len {
            self.current = self.current + 1;
        }
    }

    /// Moves the cursor one slide back, unless it is on the first slide.
    pub fn backward(&mut self)
        requires
            old(self).wf(),
        ensures
            final(self).wf(),
            final(self).spec_len() == old(self).spec_len(),
            final(self).spec_current() == if old(self).spec_current() > 0 {
                old(self).spec_current() - 1
            } else {
                old(self).spec_current() as int
            },
            old(self).spec_current() == 0 ==> *final(self) == *old(self),
    {
        if self.current > 0 {
            self.current = self.current - 1;
        }
    }
}

/// Cursor position after `n` forward moves from position `c` in a deck of
/// `len` slides.
pub open spec fn deck_forward_times(c: nat, len: nat, n: nat) -> nat
    decreases n,
{
    if n == 0 {
        c
    } else {
        let p = deck_forward_times(c, len, (n - 1) as nat);
        if p + 1 < len {
            p + 1
        } else {
            p
        }
    }
}

/// Along any run of forward moves from the first slide the cursor never
/// moves back and never passes the last slide.
pub proof fn lemma_deck_forward_run_monotone(len: nat, i: nat, j: nat)
    requires
        len >= 1,
        i <= j,
    ensures
        deck_forward_times(0, len, i) <= deck_forward_times(0, len, j),
        deck_forward_times(0, len, j) <= len - 1,
    decreases j,
{
    if j > 0 {
        lemma_deck_forward_run_monotone(len, 0, (j - 1) as nat);
        if i < j {
            lemma_deck_forward_run_monotone(len, i, (j - 1) as nat);
        }
    }
}

} // verus!
