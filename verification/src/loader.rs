//! What is made ready before the first search.

pub mod icon_loader;

use vstd::prelude::*;

verus! {

/// Something that went wrong while the session was set up.
#[derive(Clone, Debug)]
pub struct SherlockError {
    pub name: String,
    pub message: String,
    pub traceback: String,
}

/// The steps that make a session ready.
#[derive(Clone, Copy, Debug)]
pub struct Loader {}

/// The page that is shown first.
#[derive(Clone, Copy, Debug, PartialEq, Eq, Structural)]
pub enum StartPage {
    /// The search.
    Search,
    /// What went wrong while the session was set up.
    Errors,
}

impl Loader {
    /// Takes what a step of the setup gave. A step that failed does not stop
    /// the setup: its error is put behind those noted so far, and the step
    /// gives nothing.
    pub fn note<T>(loaded: Result<T, SherlockError>, errors: &mut Vec<SherlockError>) -> (value: Option<T>)
        ensures
            match loaded {
                Ok(v) => value == Some(v) && final(errors)@ == old(errors)@,
                Err(e) => value is None && final(errors)@ == old(errors)@.push(e),
            },
    {
        match loaded {
            Ok(v) => Some(v),
            Err(e) => {
                errors.push(e);
                None
            },
        }
    }

    /// The page to begin with: the search, unless something went wrong
    /// during the setup.
    pub fn start_page(errors: &Vec<SherlockError>) -> (page: StartPage)
        ensures
            page == if errors@.len() == 0 {
                StartPage::Search
            } else {
                StartPage::Errors
            },
    {
        if errors.len() == 0 {
            StartPage::Search
        } else {
            StartPage::Errors
        }
    }
}

} // verus!
