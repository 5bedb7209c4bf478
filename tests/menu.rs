use bambu_launcher::menu::{menu_action, MenuAction};

fn profiles() -> Vec<String> {
    vec![String::from("home"), String::from("work")]
}

#[test]
fn menu_zero_selects_current() {
    assert_eq!(menu_action('0', "home", &profiles()), MenuAction::Select(String::from("home")));
}

#[test]
fn menu_digit_selects_listed() {
    assert_eq!(menu_action('1', "", &profiles()), MenuAction::Select(String::from("home")));
    assert_eq!(menu_action('2', "", &profiles()), MenuAction::Select(String::from("work")));
    assert_eq!(menu_action('3', "", &profiles()), MenuAction::Ignore);
    assert_eq!(menu_action('9', "", &profiles()), MenuAction::Ignore);
}

#[test]
fn menu_letters() {
    assert_eq!(menu_action('n', "", &profiles()), MenuAction::CreateProfile);
    assert_eq!(menu_action('q', "", &profiles()), MenuAction::Quit);
    assert_eq!(menu_action('r', "", &profiles()), MenuAction::Ignore);
    assert_eq!(menu_action('x', "", &profiles()), MenuAction::Ignore);
}
