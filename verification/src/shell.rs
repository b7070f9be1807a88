//! The demo shell: a model, the events it takes and the screen it shows.

use vstd::prelude::*;

verus! {

/// State of the demo shell.
#[derive(Debug)]
pub struct Model {
    count: u64,
}

/// The screen that the shell shows.
#[derive(Clone, Copy, Debug, PartialEq, Eq, Structural)]
pub enum Screen {
    Red,
    Black,
}

/// What the shell renders from a [`Model`].
#[derive(Clone, Copy, Debug, PartialEq, Eq, Structural)]
pub struct ViewModel {
    pub screen: Screen,
}

/// Events that the shell accepts.
#[derive(Clone, Copy, Debug, PartialEq, Eq, Structural)]
pub enum Event {
    Noop,
}

/// The demo application: it keeps its model as it is and always shows red.
#[derive(Clone, Copy, Debug)]
pub struct App;

impl Model {
    /// The counter that the model holds.
    pub closed spec fn count_spec(&self) -> u64 {
        self.count
    }

    /// The counter that the model holds.
    pub fn count(&self) -> (n: u64)
        ensures
            n == self.count_spec(),
    {
        self.count
    }
}

impl Default for Model {
    fn default() -> (model: Model)
        ensures
            model.count_spec() == 0,
    {
        Model { count: 0 }
    }
}

impl Default for App {
    fn default() -> (app: App) {
        App
    }
}

impl App {
    /// Handles an event.  No event changes the model.
    pub fn update(&self, msg: Event, model: &mut Model)
        ensures
            *final(model) == *old(model),
    {
    }

    /// Renders the model: the red screen, whatever the model holds.
    pub fn view(&self, model: &Model) -> (shown: ViewModel)
        ensures
            shown.screen == Screen::Red,
    {
        ViewModel { screen: Screen::Red }
    }
}

} // verus!
