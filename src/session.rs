use vstd::prelude::*;
use crate::analyzer::{Mode, UrlAnalyzer};
use crate::navigation::{Navigator, Phase, SlideStart, SLIDE_OFFSET};
use crate::particles::{ChaosCircle, ParticleField, SpawnDraw};
use crate::screen::{Screen, SCREEN_COUNT};
use crate::text::{append_decimal, decimal};

verus! {

/// An input to the tutorial: navigation, edits of the URL analyzer form, the
/// analyzer's fetch result, the live widget demos, the quiz, the steps of
/// the slide animation, and the ticks, spawns and resizes of the circle
/// overlay.
#[derive(Clone, Debug)]
pub enum Message {
    NextScreen,
    PrevScreen,
    UrlChanged(String),
    SecureChanged(bool),
    ModeChanged(Mode),
    Action,
    Result(String),
    ButtonClicked,
    DemoInputChanged(String),
    DemoInputSubmitted,
    CtrlPressed,
    CtrlReleased,
    QuizAnswer(u8),
    /// One animation step of the slide offset; the flag tells whether the
    /// offset has come to rest.
    SlideStep(bool),
    /// One tick of the circle overlay.
    Tick,
    /// A new overlay circle, made from draws of a random source.
    SpawnParticle(SpawnDraw),
    /// The window's new size; negative sizes count as zero.
    Resize(i32, i32),
}

/// A key that the tutorial reacts to.
#[derive(Clone, Copy, Debug, PartialEq, Eq, Structural)]
pub enum Key {
    Control,
    ArrowLeft,
    ArrowRight,
    Other,
}

/// Follow-up work the host performs after an update.
#[derive(Clone, Debug)]
pub enum Command {
    /// Nothing to do.
    Idle,
    /// Start a slide transition.
    Slide(SlideStart),
    /// Fetch `url` and report on it in `mode`, then send `Message::Result`.
    Fetch { url: String, secure: bool, mode: Mode },
}

/// The tutorial's state.
pub struct App {
    pub nav: Navigator,
    pub model: UrlAnalyzer,
    pub ctrl_held: bool,
    pub button_clicks: u32,
    pub input_changes: u32,
    pub input_submits: u32,
    pub demo_input: String,
    pub quiz_answer: Option<u8>,
    pub chaos: ParticleField,
}

/// The tutorial's state as plain values.
pub struct AppView {
    pub nav: Navigator,
    pub url: Seq<char>,
    pub secure: bool,
    pub mode: Mode,
    pub result: Seq<char>,
    pub loading: bool,
    pub ctrl_held: bool,
    pub button_clicks: u32,
    pub input_changes: u32,
    pub input_submits: u32,
    pub demo_input: Seq<char>,
    pub quiz_answer: Option<u8>,
    pub circles: Seq<ChaosCircle>,
    pub width: i32,
    pub height: i32,
}

impl View for App {
    type V = AppView;

    open spec fn view(&self) -> AppView {
        AppView {
            nav: self.nav,
            url: self.model.url@,
            secure: self.model.secure,
            mode: self.model.mode,
            result: self.model.result@,
            loading: self.model.loading,
            ctrl_held: self.ctrl_held,
            button_clicks: self.button_clicks,
            input_changes: self.input_changes,
            input_submits: self.input_submits,
            demo_input: self.demo_input@,
            quiz_answer: self.quiz_answer,
            circles: self.chaos.circles@,
            width: self.chaos.width,
            height: self.chaos.height,
        }
    }
}

/// A window size as a rectangle side: negative sizes count as zero.
pub open spec fn side(n: i32) -> i32 {
    if n < 0 {
        0
    } else {
        n
    }
}

/// A counter after one more event; it stops at its largest value.
pub open spec fn bumped(n: u32) -> u32 {
    if n == u32::MAX {
        n
    } else {
        (n + 1) as u32
    }
}

/// The state after handling `m` in state `v`.
pub open spec fn next_view(v: AppView, m: &Message) -> AppView {
    match m {
        Message::NextScreen => AppView { nav: v.nav.after_forward(), ..v },
        Message::PrevScreen => AppView { nav: v.nav.after_backward(), ..v },
        Message::UrlChanged(url) => AppView { url: url@, ..v },
        Message::SecureChanged(secure) => AppView { secure: *secure, ..v },
        Message::ModeChanged(mode) => AppView { mode: *mode, ..v },
        Message::Action => if v.url.len() == 0 {
            AppView { result: "Please enter a URL"@, ..v }
        } else {
            AppView { loading: true, result: Seq::empty(), ..v }
        },
        Message::Result(result) => AppView { loading: false, result: result@, ..v },
        Message::ButtonClicked => AppView { button_clicks: bumped(v.button_clicks), ..v },
        Message::DemoInputChanged(value) => AppView {
            demo_input: value@,
            input_changes: bumped(v.input_changes),
            ..v
        },
        Message::DemoInputSubmitted => AppView { input_submits: bumped(v.input_submits), ..v },
        Message::CtrlPressed => AppView { ctrl_held: true, ..v },
        Message::CtrlReleased => AppView { ctrl_held: false, ..v },
        Message::QuizAnswer(answer) => AppView { quiz_answer: Some(*answer), ..v },
        Message::SlideStep(settled) => AppView { nav: v.nav.after_tick(*settled), ..v },
        Message::Tick => AppView {
            circles: Seq::new(
                v.circles.len(),
                |i: int| v.circles[i].stepped(v.width as int, v.height as int),
            ),
            ..v
        },
        Message::SpawnParticle(d) => AppView {
            circles: v.circles.push(crate::particles::spawned(*d, v.width as int, v.height as int)),
            ..v
        },
        Message::Resize(w, h) => AppView { width: side(*w), height: side(*h), ..v },
    }
}

/// The message a key event maps to: Control pressed and released toggle
/// the theme picker, the arrow keys navigate when pressed.
pub open spec fn key_message_of(key: Key, pressed: bool) -> Option<Message> {
    match key {
        Key::Control => if pressed {
            Some(Message::CtrlPressed)
        } else {
            Some(Message::CtrlReleased)
        },
        Key::ArrowLeft => if pressed {
            Some(Message::PrevScreen)
        } else {
            None
        },
        Key::ArrowRight => if pressed {
            Some(Message::NextScreen)
        } else {
            None
        },
        Key::Other => None,
    }
}

/// The message a key event maps to: Control pressed and released toggle
/// the theme picker, the arrow keys navigate when pressed; other keys are
/// ignored.
pub fn key_message(key: Key, pressed: bool) -> (r: Option<Message>)
    ensures
        r == key_message_of(key, pressed),
{
    match key {
        Key::Control => if pressed {
            Some(Message::CtrlPressed)
        } else {
            Some(Message::CtrlReleased)
        },
        Key::ArrowLeft => if pressed {
            Some(Message::PrevScreen)
        } else {
            None
        },
        Key::ArrowRight => if pressed {
            Some(Message::NextScreen)
        } else {
            None
        },
        Key::Other => None,
    }
}

/// Caption beside the demo button after `clicks` clicks.
pub open spec fn click_caption_of(clicks: u32) -> Seq<char> {
    if clicks == 0 {
        "Click the button!"@
    } else if clicks == 1 {
        "Clicked "@ + decimal(clicks as nat) + " time"@
    } else {
        "Clicked "@ + decimal(clicks as nat) + " times"@
    }
}

/// Whether `c` is the follow-up work owed after handling `m` in state `v`:
/// a slide transition after a navigation that moved, a fetch of the form's
/// URL after a submit with a URL, and nothing otherwise.
pub open spec fn command_for(v: AppView, m: &Message, c: &Command) -> bool {
    match m {
        Message::NextScreen => if v.nav.screen.pos() < SCREEN_COUNT - 1 {
            *c == Command::Slide(SlideStart { from: SLIDE_OFFSET })
        } else {
            *c is Idle
        },
        Message::PrevScreen => if v.nav.screen.pos() > 0 {
            *c == Command::Slide(SlideStart { from: (-SLIDE_OFFSET) as i32 })
        } else {
            *c is Idle
        },
        Message::Action => if v.url.len() == 0 {
            *c is Idle
        } else {
            &&& *c matches Command::Fetch { url, secure, mode }
            &&& url@ == v.url
            &&& secure == v.secure
            &&& mode == v.mode
        },
        _ => *c is Idle,
    }
}

fn bump(n: u32) -> (r: u32)
    ensures
        r == bumped(n),
{
    n.saturating_add(1)
}

impl App {
    /// The overlay's rectangle and circles are well formed.
    pub open spec fn wf(&self) -> bool {
        self.chaos.wf()
    }

    /// The tutorial at its start.
    pub fn new() -> (r: App)
        ensures
            r.is_fresh(),
            r.wf(),
    {
        App {
            nav: Navigator::new(),
            model: UrlAnalyzer::new(),
            ctrl_held: false,
            button_clicks: 0,
            input_changes: 0,
            input_submits: 0,
            demo_input: String::new(),
            quiz_answer: None,
            chaos: ParticleField::new(0, 0),
        }
    }

    /// Whether the host should deliver animation ticks: while a slide
    /// transition runs.
    pub fn wants_ticks(&self) -> (r: bool)
        ensures
            r == (self.nav.phase != Phase::Settled),
    {
        self.nav.wants_ticks()
    }

    /// The state at start: first slide, settled, an empty form, no clicks or
    /// edits counted, no quiz answer, no circles in an empty rectangle.
    pub open spec fn is_fresh(&self) -> bool {
        &&& self@.nav.screen.pos() == 0
        &&& self@.nav.phase == Phase::Settled
        &&& self@.url.len() == 0
        &&& !self@.secure
        &&& self@.mode == Mode::Title
        &&& self@.result.len() == 0
        &&& !self@.loading
        &&& !self@.ctrl_held
        &&& self@.button_clicks == 0
        &&& self@.input_changes == 0
        &&& self@.input_submits == 0
        &&& self@.demo_input.len() == 0
        &&& self@.quiz_answer is None
        &&& self@.circles.len() == 0
        &&& self@.width == 0
        &&& self@.height == 0
    }

    /// Caption beside the demo button: a prompt before the first click,
    /// then the click count with the noun in singular or plural.
    pub fn click_caption(&self) -> (r: String)
        ensures
            r@ == click_caption_of(self.button_clicks),
    {
        let n = self.button_clicks;
        if n == 0 {
            String::from_str("Click the button!")
        } else if n == 1 {
            append_decimal(String::from_str("Clicked "), n).concat(" time")
        } else {
            append_decimal(String::from_str("Clicked "), n).concat(" times")
        }
    }

    /// The current slide.
    pub fn screen(&self) -> (r: Screen)
        ensures
            r == self.nav.screen,
    {
        self.nav.screen
    }

    /// Handles one message and returns the follow-up work for the host.
    pub fn update(&mut self, msg: Message) -> (r: Command)
        requires
            old(self).wf(),
        ensures
            final(self).wf(),
            final(self)@ == next_view(old(self)@, &msg),
            command_for(old(self)@, &msg, &r),
    {
        match msg {
            Message::NextScreen => match self.nav.forward() {
                Some(start) => Command::Slide(start),
                None => Command::Idle,
            },
            Message::PrevScreen => match self.nav.backward() {
                Some(start) => Command::Slide(start),
                None => Command::Idle,
            },
            Message::UrlChanged(url) => {
                self.model.url = url;
                Command::Idle
            },
            Message::SecureChanged(secure) => {
                self.model.secure = secure;
                Command::Idle
            },
            Message::ModeChanged(mode) => {
                self.model.mode = mode;
                Command::Idle
            },
            Message::Action => {
                if self.model.url.as_str().unicode_len() == 0 {
                    self.model.result = String::from_str("Please enter a URL");
                    Command::Idle
                } else {
                    self.model.loading = true;
                    self.model.result = String::new();
                    Command::Fetch {
                        url: self.model.url.clone(),
                        secure: self.model.secure,
                        mode: self.model.mode,
                    }
                }
            },
            Message::Result(result) => {
                self.model.loading = false;
                self.model.result = result;
                Command::Idle
            },
            Message::ButtonClicked => {
                self.button_clicks = bump(self.button_clicks);
                Command::Idle
            },
            Message::DemoInputChanged(value) => {
                self.demo_input = value;
                self.input_changes = bump(self.input_changes);
                Command::Idle
            },
            Message::DemoInputSubmitted => {
                self.input_submits = bump(self.input_submits);
                Command::Idle
            },
            Message::CtrlPressed => {
                self.ctrl_held = true;
                Command::Idle
            },
            Message::CtrlReleased => {
                self.ctrl_held = false;
                Command::Idle
            },
            Message::QuizAnswer(answer) => {
                self.quiz_answer = Some(answer);
                Command::Idle
            },
            Message::SlideStep(settled) => {
                self.nav.tick(settled);
                Command::Idle
            },
            Message::Tick => {
                self.chaos.update_all();
                proof {
                    assert(self@.circles =~= next_view(old(self)@, &msg).circles);
                }
                Command::Idle
            },
            Message::SpawnParticle(d) => {
                self.chaos.spawn(d);
                Command::Idle
            },
            Message::Resize(w, h) => {
                let w = if w < 0 { 0 } else { w };
                let h = if h < 0 { 0 } else { h };
                self.chaos.resize(w, h);
                Command::Idle
            },
        }
    }
}

impl Default for App {
    fn default() -> (r: App)
        ensures
            r.is_fresh(),
            r.wf(),
    {
        App::new()
    }
}

} // verus!
