//! The profile menu: what a key pressed at the menu asks for.
use vstd::prelude::*;

verus! {

/// What the user asked for at the profile menu.
#[derive(PartialEq, Eq, Debug)]
pub enum MenuAction {
    /// Switch to this profile, then launch the application.
    Select(String),
    /// Create a new profile, then show the menu again.
    CreateProfile,
    /// Leave without changing anything.
    Quit,
    /// The key means nothing here: read another.
    Ignore,
}

/// The menu's answer to `key`: `0` selects the current profile, `1` to `9`
/// the listed profile of that number (counted from 1), `n` creates a
/// profile and `q` quits.
pub fn menu_action(key: char, current: &str, profiles: &Vec<String>) -> (r: MenuAction)
    ensures
        key == '0' ==> (r matches MenuAction::Select(p) && p@ == current@),
        '1' <= key <= '9' && (key as int) - ('1' as int) < profiles.len() ==> (r matches MenuAction::Select(p)
            && p@ == profiles@[(key as int) - ('1' as int)]@),
        '1' <= key <= '9' && (key as int) - ('1' as int) >= profiles.len() ==> r is Ignore,
        key == 'n' ==> r is CreateProfile,
        key == 'q' ==> r is Quit,
        !('0' <= key <= '9' || key == 'n' || key == 'q') ==> r is Ignore,
{
    if key == '0' {
        MenuAction::Select(current.to_owned())
    } else if '1' <= key && key <= '9' {
        let index = (key as u32 - '1' as u32) as usize;
        if index < profiles.len() {
            MenuAction::Select(profiles[index].clone())
        } else {
            MenuAction::Ignore
        }
    } else if key == 'n' {
        MenuAction::CreateProfile
    } else if key == 'q' {
        MenuAction::Quit
    } else {
        MenuAction::Ignore
    }
}

} // verus!
