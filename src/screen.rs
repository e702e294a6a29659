use vstd::prelude::*;

verus! {

/// Number of slides in the deck.
pub const SCREEN_COUNT: usize = 11;

/// One slide of the tutorial, in deck order.
#[derive(Clone, Copy, Debug, PartialEq, Eq, Structural)]
pub enum Screen {
    Title,
    Intro,
    Model,
    View,
    Message,
    Update,
    Button,
    TextInput,
    Tasks,
    Interactive,
    Quiz,
}

/// The slide at a position of the deck (positions past the end give the last slide).
pub open spec fn screen_at(i: int) -> Screen {
    if i <= 0 {
        Screen::Title
    } else if i == 1 {
        Screen::Intro
    } else if i == 2 {
        Screen::Model
    } else if i == 3 {
        Screen::View
    } else if i == 4 {
        Screen::Message
    } else if i == 5 {
        Screen::Update
    } else if i == 6 {
        Screen::Button
    } else if i == 7 {
        Screen::TextInput
    } else if i == 8 {
        Screen::Tasks
    } else if i == 9 {
        Screen::Interactive
    } else {
        Screen::Quiz
    }
}

impl Screen {
    /// Position of the slide in the deck, from zero.
    pub open spec fn pos(self) -> int {
        match self {
            Screen::Title => 0,
            Screen::Intro => 1,
            Screen::Model => 2,
            Screen::View => 3,
            Screen::Message => 4,
            Screen::Update => 5,
            Screen::Button => 6,
            Screen::TextInput => 7,
            Screen::Tasks => 8,
            Screen::Interactive => 9,
            Screen::Quiz => 10,
        }
    }

    /// The slide after this one, or this one at the end of the deck.
    pub open spec fn next(self) -> Screen {
        if self.pos() < SCREEN_COUNT - 1 {
            screen_at(self.pos() + 1)
        } else {
            self
        }
    }

    /// The slide before this one, or this one at the start of the deck.
    pub open spec fn prev(self) -> Screen {
        if self.pos() > 0 {
            screen_at(self.pos() - 1)
        } else {
            self
        }
    }

    /// The slide that opens the deck.
    pub fn first() -> (r: Screen)
        ensures
            r.pos() == 0,
    {
        Screen::Title
    }

    /// Position of the slide in the deck, from zero.
    pub fn index(&self) -> (r: usize)
        ensures
            r == self.pos(),
            r < SCREEN_COUNT,
    {
        match self {
            Screen::Title => 0,
            Screen::Intro => 1,
            Screen::Model => 2,
            Screen::View => 3,
            Screen::Message => 4,
            Screen::Update => 5,
            Screen::Button => 6,
            Screen::TextInput => 7,
            Screen::Tasks => 8,
            Screen::Interactive => 9,
            Screen::Quiz => 10,
        }
    }

    /// Whether this is the first slide of the deck.
    pub fn is_first(&self) -> (r: bool)
        ensures
            r == (self.pos() == 0),
    {
        match self {
            Screen::Title => true,
            _ => false,
        }
    }

    /// Whether this is the last slide of the deck.
    pub fn is_last(&self) -> (r: bool)
        ensures
            r == (self.pos() == SCREEN_COUNT - 1),
    {
        match self {
            Screen::Quiz => true,
            _ => false,
        }
    }
}

impl Screen {
    /// Moves to the next slide; on the last slide nothing changes.
    pub fn forward(&mut self)
        ensures
            *final(self) == old(self).next(),
            final(self).pos() == if old(self).pos() < SCREEN_COUNT - 1 {
                old(self).pos() + 1
            } else {
                old(self).pos()
            },
    {
        *self = match *self {
            Screen::Title => Screen::Intro,
            Screen::Intro => Screen::Model,
            Screen::Model => Screen::View,
            Screen::View => Screen::Message,
            Screen::Message => Screen::Update,
            Screen::Update => Screen::Button,
            Screen::Button => Screen::TextInput,
            Screen::TextInput => Screen::Tasks,
            Screen::Tasks => Screen::Interactive,
            Screen::Interactive => Screen::Quiz,
            Screen::Quiz => Screen::Quiz,
        };
    }

    /// Moves to the previous slide; on the first slide nothing changes.
    pub fn backward(&mut self)
        ensures
            *final(self) == old(self).prev(),
            final(self).pos() == if old(self).pos() > 0 {
                old(self).pos() - 1
            } else {
                old(self).pos()
            },
    {
        *self = match *self {
            Screen::Title => Screen::Title,
            Screen::Intro => Screen::Title,
            Screen::Model => Screen::Intro,
            Screen::View => Screen::Model,
            Screen::Message => Screen::View,
            Screen::Update => Screen::Message,
            Screen::Button => Screen::Update,
            Screen::TextInput => Screen::Button,
            Screen::Tasks => Screen::TextInput,
            Screen::Interactive => Screen::Tasks,
            Screen::Quiz => Screen::Interactive,
        };
    }

    /// Heading shown above the slide.
    pub open spec fn title_text(self) -> Seq<char> {
        match self {
            Screen::Title => ""@,
            Screen::Intro => "0. The Elm Architecture"@,
            Screen::Model => "1. Model"@,
            Screen::View => "2. View"@,
            Screen::Message => "3. Message"@,
            Screen::Update => "4. Update"@,
            Screen::Button => "5. Widget: Button"@,
            Screen::TextInput => "6. Widget: Text Input"@,
            Screen::Tasks => "7. Tasks"@,
            Screen::Interactive => "8. Try It Out"@,
            Screen::Quiz => "9. Quiz"@,
        }
    }

    /// Heading shown above the slide.
    pub fn title(&self) -> (r: &'static str)
        ensures
            r@ == self.title_text(),
    {
        match self {
            Screen::Title => "",
            Screen::Intro => "0. The Elm Architecture",
            Screen::Model => "1. Model",
            Screen::View => "2. View",
            Screen::Message => "3. Message",
            Screen::Update => "4. Update",
            Screen::Button => "5. Widget: Button",
            Screen::TextInput => "6. Widget: Text Input",
            Screen::Tasks => "7. Tasks",
            Screen::Interactive => "8. Try It Out",
            Screen::Quiz => "9. Quiz",
        }
    }
}

/// Every slide sits at a position inside the deck, and each position holds one slide.
pub proof fn lemma_position_in_deck(s: Screen)
    ensures
        0 <= s.pos() < SCREEN_COUNT,
        screen_at(s.pos()) == s,
{
}

/// The slide reached from `s` by `n` forward moves.
pub open spec fn forward_times(s: Screen, n: nat) -> Screen
    decreases n,
{
    if n == 0 {
        s
    } else {
        forward_times(s, (n - 1) as nat).next()
    }
}

/// Along any run of forward moves the position never decreases and never
/// passes the last slide.
pub proof fn lemma_forward_run_monotone(s: Screen, i: nat, j: nat)
    requires
        i <= j,
    ensures
        forward_times(s, i).pos() <= forward_times(s, j).pos(),
        forward_times(s, j).pos() <= SCREEN_COUNT - 1,
    decreases j,
{
    let t = forward_times(s, j);
    lemma_position_in_deck(t);
    if j > 0 {
        let u = forward_times(s, (j - 1) as nat);
        lemma_position_in_deck(u);
        if i < j {
            lemma_forward_run_monotone(s, i, (j - 1) as nat);
        }
    }
}

/// Moving backward from the first slide leaves the deck exactly as it was.
pub proof fn lemma_backward_at_first_is_noop(s: Screen)
    requires
        s.pos() == 0,
    ensures
        s.prev() == s,
{
}

} // verus!
