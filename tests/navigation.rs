use iced_tutorial::{Navigator, Phase, Screen, SlideStart, SLIDE_OFFSET};

#[test]
fn forward_starts_a_transition_from_the_right() {
    let mut nav = Navigator::new();
    assert_eq!(nav.screen, Screen::Title);
    assert!(!nav.wants_ticks());
    let start = nav.forward();
    assert_eq!(start, Some(SlideStart { from: 60 }));
    assert_eq!(nav.screen, Screen::Intro);
    assert_eq!(nav.phase, Phase::TransitioningForward);
    assert!(nav.wants_ticks());
}

#[test]
fn backward_starts_a_transition_from_the_left() {
    let mut nav = Navigator::new();
    nav.forward();
    nav.tick(true);
    let start = nav.backward();
    assert_eq!(start, Some(SlideStart { from: -SLIDE_OFFSET }));
    assert_eq!(nav.screen, Screen::Title);
    assert_eq!(nav.phase, Phase::TransitioningBackward);
}

#[test]
fn refused_moves_are_complete_noops() {
    let mut nav = Navigator::new();
    let before = nav;
    assert_eq!(nav.backward(), None);
    assert_eq!(nav, before);
    let mut end = Navigator { screen: Screen::Quiz, phase: Phase::Settled };
    let before_end = end;
    assert_eq!(end.forward(), None);
    assert_eq!(end, before_end);
}

#[test]
fn ticks_settle_the_transition() {
    let mut nav = Navigator::new();
    nav.forward();
    nav.tick(false);
    assert_eq!(nav.phase, Phase::TransitioningForward);
    nav.tick(true);
    assert_eq!(nav.phase, Phase::Settled);
    assert!(!nav.wants_ticks());
    nav.tick(false);
    assert_eq!(nav.phase, Phase::Settled);
}

#[test]
fn position_indicator() {
    let mut nav = Navigator::new();
    assert_eq!(nav.position(), 1);
    assert_eq!(nav.total(), 11);
    for _ in 0..15 {
        nav.forward();
    }
    assert_eq!(nav.position(), 11);
}
