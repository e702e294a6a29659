use iced_tutorial::{Screen, ScreenDeck, SCREEN_COUNT};

#[test]
fn three_slide_deck_walk() {
    let mut deck = ScreenDeck::new(3);
    assert_eq!(deck.current(), 0);
    assert!(deck.is_first());
    deck.forward();
    assert_eq!(deck.current(), 1);
    deck.forward();
    assert_eq!(deck.current(), 2);
    assert!(deck.is_last());
    deck.forward();
    assert_eq!(deck.current(), 2);
    assert!(deck.is_last());
    deck.backward();
    assert_eq!(deck.current(), 1);
}

#[test]
fn deck_forward_run_is_monotone_and_bounded() {
    let mut deck = ScreenDeck::new(4);
    let mut last = deck.current();
    for _ in 0..10 {
        deck.forward();
        assert!(deck.current() >= last);
        assert!(deck.current() <= deck.len() - 1);
        last = deck.current();
    }
    assert_eq!(deck.current(), 3);
}

#[test]
fn deck_backward_at_first_changes_nothing() {
    let mut deck = ScreenDeck::new(5);
    let before = deck;
    deck.backward();
    assert_eq!(deck, before);
}

#[test]
fn single_slide_deck_is_first_and_last() {
    let mut deck = ScreenDeck::new(1);
    assert!(deck.is_first());
    assert!(deck.is_last());
    deck.forward();
    assert_eq!(deck.current(), 0);
}

#[test]
fn screen_bounds() {
    assert!(Screen::Title.is_first());
    assert!(!Screen::Title.is_last());
    assert!(Screen::Quiz.is_last());
    assert!(!Screen::Quiz.is_first());
    assert!(!Screen::Tasks.is_first());
    assert!(!Screen::Tasks.is_last());
    assert_eq!(Screen::first(), Screen::Title);
}

#[test]
fn screen_forward_walks_the_whole_deck() {
    let mut s = Screen::first();
    let mut last = s.index();
    for _ in 0..20 {
        s.forward();
        assert!(s.index() >= last);
        assert!(s.index() < SCREEN_COUNT);
        last = s.index();
    }
    assert_eq!(s, Screen::Quiz);
    assert_eq!(s.index(), SCREEN_COUNT - 1);
}

#[test]
fn screen_backward_at_first_changes_nothing() {
    let mut s = Screen::Title;
    s.backward();
    assert_eq!(s, Screen::Title);
    let mut q = Screen::Quiz;
    q.backward();
    assert_eq!(q, Screen::Interactive);
    q.forward();
    q.forward();
    assert_eq!(q, Screen::Quiz);
}

#[test]
fn screen_titles() {
    assert_eq!(Screen::Title.title(), "");
    assert_eq!(Screen::Intro.title(), "0. The Elm Architecture");
    assert_eq!(Screen::TextInput.title(), "6. Widget: Text Input");
    assert_eq!(Screen::Quiz.title(), "9. Quiz");
}
