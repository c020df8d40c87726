//! The view pages behind the navigation entries.

use crate::app::{AppMessage, Effect};
use vstd::prelude::*;

verus! {

/// The home view page.
#[derive(Debug, Default)]
pub struct Home;

/// The configuration view page.
#[derive(Debug, Default)]
pub struct Config;

impl Home {
    /// The text the page shows.
    pub fn view_text(&self) -> (s: String)
        ensures
            s@ == "This is the home page!"@,
    {
        "This is the home page!".to_owned()
    }

    /// Responds to an application message; the page reacts to none of
    /// them and asks for no effects.
    pub fn update(&mut self, message: &AppMessage) -> (effects: Vec<Effect>)
        ensures
            effects@.len() == 0,
    {
        Vec::new()
    }
}

impl Config {
    /// The text the page shows.
    pub fn view_text(&self) -> (s: String)
        ensures
            s@ == "This is the config page!"@,
    {
        "This is the config page!".to_owned()
    }

    /// Responds to an application message; the page reacts to none of
    /// them and asks for no effects.
    pub fn update(&mut self, message: &AppMessage) -> (effects: Vec<Effect>)
        ensures
            effects@.len() == 0,
    {
        Vec::new()
    }
}

} // verus!
