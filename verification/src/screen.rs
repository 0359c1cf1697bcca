//! Representation of different screens of the app.

use vstd::prelude::*;

verus! {

/// The main screen of the interactive app.
#[derive(Debug, Clone)]
pub struct MainScreen {
    pub opened: bool,
}

impl MainScreen {
    pub fn new() -> (s: MainScreen)
        ensures
            s.opened,
    {
        MainScreen { opened: true }
    }
}

/// The screens the app can show. Rendering to a terminal stays with the app;
/// the library only decides what each screen says.
#[derive(Debug, Clone)]
pub enum Screen {
    MainScreen(MainScreen),
}

impl Default for Screen {
    fn default() -> (s: Screen)
        ensures
            s is MainScreen,
    {
        Screen::MainScreen(MainScreen::new())
    }
}

impl Screen {
    /// The text the screen shows.
    pub fn body_text(&self) -> (r: &'static str)
        ensures
            r@ == "This is a main screen"@,
    {
        match self {
            Screen::MainScreen(_) => "This is a main screen",
        }
    }
}

} // verus!
