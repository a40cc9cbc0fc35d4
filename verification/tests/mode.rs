use dotz::{Mode, DEFAULT_CHAR, DEFAULT_SEPARATOR, DEFAULT_SPACES};

#[test]
fn modes_are_named_as_they_are_selected() {
    assert_eq!(Mode::FillScreen.name(), "fill-screen");
    assert_eq!(Mode::Infinite.name(), "infinite");
    assert_eq!(Mode::Random.name(), "random");
    assert_eq!(Mode::Spaced { separator: '*', spaces: 3 }.name(), "spaced");
    assert_eq!(Mode::Spaced { separator: '-', spaces: 1 }.name(), "spaced");
}

#[test]
fn the_default_mode_fills_the_screen() {
    assert_eq!(Mode::default(), Mode::FillScreen);
}

#[test]
fn defaults_of_the_arguments() {
    assert_eq!(DEFAULT_CHAR, '.');
    assert_eq!(DEFAULT_SPACES, 3);
    assert_ne!(DEFAULT_SEPARATOR, DEFAULT_CHAR);
}
