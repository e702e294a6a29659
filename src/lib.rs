//! Core logic of a slide-based tutorial application: the bounded slide deck,
//! the navigation reducer, the URL analyzer model and its reports, quiz
//! feedback and the bouncing-circle overlay, each with a verified contract.

pub mod analyzer;
pub mod deck;
pub mod navigation;
pub mod particles;
pub mod quiz;
pub mod screen;
pub mod session;
pub mod text;

pub use analyzer::{
    find_title, full_url, size_line, size_report, title_line, title_report, Mode, UrlAnalyzer,
};
pub use deck::ScreenDeck;
pub use navigation::{Navigator, Phase, SlideStart, SLIDE_OFFSET};
pub use particles::{
    spawn_circle, ChaosCircle, ParticleField, SpawnDraw, COLOR_COUNT, MAX_RADIUS, MAX_SPEED,
    MIN_RADIUS,
};
pub use quiz::{
    button_quiz, error_display_quiz, http_quiz, validation_quiz, FeedbackEntry, Quiz, QuizOption,
    Verdict,
};
pub use screen::{Screen, SCREEN_COUNT};
pub use session::{key_message, App, AppView, Command, Key, Message};
