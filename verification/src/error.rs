//! Failures of the display host's bookkeeping.

use vstd::prelude::*;
use vstd::string::*;
use crate::text::{join, join3};

verus! {

/// Why a display-host operation was refused.
#[derive(Debug, Clone, PartialEq, Eq)]
pub enum SDLError {
    /// The name is already registered; the running instance was left alone.
    AlreadyRunning(String),
    /// The name is not registered.
    NotFound(String),
    /// The display host itself failed; the text says how.
    SDLError(String),
}

/// An error with its string taken as characters.
pub enum ErrorView {
    AlreadyRunning(Seq<char>),
    NotFound(Seq<char>),
    SDLError(Seq<char>),
}

impl View for SDLError {
    type V = ErrorView;

    open spec fn view(&self) -> ErrorView {
        match self {
            SDLError::AlreadyRunning(name) => ErrorView::AlreadyRunning(name@),
            SDLError::NotFound(name) => ErrorView::NotFound(name@),
            SDLError::SDLError(detail) => ErrorView::SDLError(detail@),
        }
    }
}

impl ErrorView {
    /// The sentence shown for the error.
    pub open spec fn message(self) -> Seq<char> {
        match self {
            ErrorView::AlreadyRunning(name) => "Application "@ + name + " is already running"@,
            ErrorView::NotFound(name) => "Application "@ + name + " not found"@,
            ErrorView::SDLError(detail) => "SDL error: "@ + detail,
        }
    }
}

impl SDLError {
    /// The sentence shown for the error.
    pub fn message(&self) -> (text: String)
        ensures
            text@ == self@.message(),
    {
        match self {
            SDLError::AlreadyRunning(name) => join3("Application ", name.as_str(), " is already running"),
            SDLError::NotFound(name) => join3("Application ", name.as_str(), " not found"),
            SDLError::SDLError(detail) => join("SDL error: ", detail.as_str()),
        }
    }
}

} // verus!
