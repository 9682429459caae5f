//! Store for the coarse application state: which screen is shown and
//! whether the main loop keeps running.

use vstd::prelude::*;

use crate::actions::AppStateAction;

verus! {

/// The screen the application is currently on.
#[derive(Clone, Copy, PartialEq, Eq, Structural, Debug)]
pub enum CurrentScreen {
    Main,
    Exiting,
}

/// Holds the running flag and the current screen.
pub struct AppStateStore {
    current_screen: CurrentScreen,
    running: bool,
}

impl AppStateStore {
    /// The screen field, as the contracts speak of it.
    pub closed spec fn spec_screen(&self) -> CurrentScreen {
        self.current_screen
    }

    /// The running flag, as the contracts speak of it.
    pub closed spec fn spec_running(&self) -> bool {
        self.running
    }

    /// A fresh store: on the main screen, running.
    pub fn default() -> (r: Self)
        ensures
            r.spec_screen() == CurrentScreen::Main,
            r.spec_running(),
    {
        Self { current_screen: CurrentScreen::Main, running: true }
    }

    /// The screen the store currently points at.
    pub fn get_current_screen(&self) -> (r: CurrentScreen)
        ensures
            r == self.spec_screen(),
    {
        self.current_screen
    }

    /// Whether the application is still running.
    pub fn is_running(&self) -> (r: bool)
        ensures
            r == self.spec_running(),
    {
        self.running
    }

    /// Applies an action: `Exit` moves to the exiting screen, `StopApp`
    /// clears the running flag. Neither touches the other field.
    pub fn update(&mut self, action: AppStateAction) -> (r: Result<(), String>)
        ensures
            r is Ok,
            action == AppStateAction::Exit ==> final(self).spec_screen()
                == CurrentScreen::Exiting,
            action == AppStateAction::Exit ==> final(self).spec_running() == old(self).spec_running(),
            action == AppStateAction::StopApp ==> !final(self).spec_running(),
            action == AppStateAction::StopApp ==> final(self).spec_screen() == old(self).spec_screen(),
    {
        match action {
            AppStateAction::Exit => {
                self.current_screen = CurrentScreen::Exiting;
            },
            AppStateAction::StopApp => {
                self.running = false;
            },
        }
        Ok(())
    }
}

} // verus!
