//! The main menu: its buttons, how they are laid out, and what a click on
//! one of them asks for.

use vstd::prelude::*;

verus! {

/// Marks the entity that holds the main menu.
#[derive(Clone, Copy, Debug, Default, PartialEq, Eq, Structural)]
pub struct MainMenuRoute;

/// The buttons of the main menu, from top to bottom.
#[derive(Clone, Copy, Debug, PartialEq, Eq, Structural)]
pub enum MainMenuButton {
    Continue,
    NewGame,
    Settings,
    QuitGame,
}

/// What a click on a button of the main menu asks the game to do.
#[derive(Clone, Copy, Debug, PartialEq, Eq, Structural)]
pub enum MenuAction {
    Nothing,
    Exit,
}

/// One row of the main menu: its button, the text on it, where it starts and
/// how high it is in billionths of a hundredth of the list's height, and
/// whether a click on it closes the menu.
pub struct MenuRow {
    pub button: MainMenuButton,
    pub text: String,
    pub offset: i64,
    pub size: i64,
    pub closes_menu: bool,
}

/// The space between two rows, in billionths of a hundredth of the list.
pub const ROW_GAP: i64 = 3_000_000_000;

/// The height of a row, in billionths of a hundredth of the list.
pub const ROW_SIZE: i64 = 14_000_000_000;

/// The text on a button.
pub open spec fn label(button: MainMenuButton) -> Seq<char> {
    match button {
        MainMenuButton::Continue => "CONTINUE"@,
        MainMenuButton::NewGame => "NEW GAME"@,
        MainMenuButton::Settings => "SETTINGS"@,
        MainMenuButton::QuitGame => "QUIT GAME"@,
    }
}

/// The button in row `index` of the menu, counted from the top; past the
/// last row it is the last button.
pub open spec fn button_in_row(index: int) -> MainMenuButton {
    if index == 0 {
        MainMenuButton::Continue
    } else if index == 1 {
        MainMenuButton::NewGame
    } else if index == 2 {
        MainMenuButton::Settings
    } else {
        MainMenuButton::QuitGame
    }
}

/// `row` is row `index` of the menu: it holds that row's button with its
/// text, starts where the rows and gaps above it end (a row and a gap take
/// seventeen hundredths of the list), and closes the menu
/// only if it is the button to continue.
pub open spec fn is_row(row: MenuRow, index: int) -> bool {
    &&& row.button == button_in_row(index)
    &&& row.text@ == label(row.button)
    &&& row.offset == index * 17_000_000_000
    &&& row.size == ROW_SIZE
    &&& row.closes_menu == (row.button == MainMenuButton::Continue)
}

impl MainMenuButton {
    /// The text on the button.
    pub fn str(&self) -> (text: String)
        ensures
            text@ == label(*self),
    {
        match self {
            MainMenuButton::Continue => "CONTINUE".to_owned(),
            MainMenuButton::NewGame => "NEW GAME".to_owned(),
            MainMenuButton::Settings => "SETTINGS".to_owned(),
            MainMenuButton::QuitGame => "QUIT GAME".to_owned(),
        }
    }

    /// The button in row `index`, counted from the top; past the last row
    /// it is the last button.
    pub fn in_row(index: usize) -> (button: MainMenuButton)
        ensures
            button == button_in_row(index as int),
    {
        match index {
            0 => MainMenuButton::Continue,
            1 => MainMenuButton::NewGame,
            2 => MainMenuButton::Settings,
            _ => MainMenuButton::QuitGame,
        }
    }
}

/// Lays out the main menu: its four rows from top to bottom.
pub fn build_route() -> (rows: Vec<MenuRow>)
    ensures
        rows.len() == 4,
        forall|i: int| 0 <= i < 4 ==> is_row(#[trigger] rows[i], i),
{
    let mut rows: Vec<MenuRow> = Vec::new();
    let mut offset: i64 = 0;
    let mut index: usize = 0;
    while index < 4
        invariant
            index <= 4,
            rows.len() == index,
            offset == index * 17_000_000_000,
            forall|i: int| 0 <= i < index ==> is_row(#[trigger] rows[i], i),
        decreases 4 - index,
    {
        let button_type = MainMenuButton::in_row(index);
        let closes_menu = match button_type {
            MainMenuButton::Continue => true,
            _ => false,
        };
        rows.push(
            MenuRow { button: button_type, text: button_type.str(), offset, size: ROW_SIZE, closes_menu },
        );
        offset = offset + (ROW_GAP + ROW_SIZE);
        index = index + 1;
    }
    rows
}

/// Decides what a click on `button` asks for: the button to quit asks the
/// game to exit, the others ask for nothing.
pub fn main_menu_button_clicked_system(button: &MainMenuButton) -> (action: MenuAction)
    ensures
        action == if *button == MainMenuButton::QuitGame {
            MenuAction::Exit
        } else {
            MenuAction::Nothing
        },
{
    match button {
        MainMenuButton::QuitGame => MenuAction::Exit,
        _ => MenuAction::Nothing,
    }
}

} // verus!
