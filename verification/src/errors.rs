//! The errors of the session engine.

use vstd::prelude::*;

verus! {

/// What can go wrong on a path that must not guess.
#[derive(Debug)]
pub enum SessionError {
    /// The persistent backend could not be reached or refused the request;
    /// the text is the backend's own.
    Backend(String),
}

impl SessionError {
    /// The text of the error.
    pub fn message(&self) -> (text: &String)
        ensures
            match self {
                SessionError::Backend(reason) => text == reason,
            },
    {
        match self {
            SessionError::Backend(reason) => reason,
        }
    }
}

} // verus!
