//! The errors that the library reports.

use crate::text::{from_chars, push_str};
use vstd::prelude::*;

verus! {

/// What can go wrong while a project is planned or extended.
#[derive(Debug)]
pub enum BootsError {
    /// A file that was to be added is already there; holds its path.
    AlreadyExists(String),
    /// The directory of the new project is already there; holds the project's
    /// name.
    DirectoryExists(String),
    /// An option keyword that is not known; holds the keyword.
    InvalidOption(String),
    /// Reading or writing failed; holds the system's message.
    IoError(String),
    /// A template is missing or cannot be used; holds what is wrong.
    TemplateError(String),
    /// Anything else; holds the whole message.
    Other(String),
}

/// A [`BootsError`] with its text as a sequence of characters.
pub enum ErrorView {
    AlreadyExists(Seq<char>),
    DirectoryExists(Seq<char>),
    InvalidOption(Seq<char>),
    IoError(Seq<char>),
    TemplateError(Seq<char>),
    Other(Seq<char>),
}

impl View for BootsError {
    type V = ErrorView;

    open spec fn view(&self) -> ErrorView {
        match self {
            BootsError::AlreadyExists(s) => ErrorView::AlreadyExists(s@),
            BootsError::DirectoryExists(s) => ErrorView::DirectoryExists(s@),
            BootsError::InvalidOption(s) => ErrorView::InvalidOption(s@),
            BootsError::IoError(s) => ErrorView::IoError(s@),
            BootsError::TemplateError(s) => ErrorView::TemplateError(s@),
            BootsError::Other(s) => ErrorView::Other(s@),
        }
    }
}

/// The message that an error shows to the user.
pub open spec fn message_of(e: ErrorView) -> Seq<char> {
    match e {
        ErrorView::AlreadyExists(s) => "Already exists: "@ + s,
        ErrorView::DirectoryExists(s) => "Directory already exists: "@ + s,
        ErrorView::InvalidOption(s) => "Invalid option: "@ + s,
        ErrorView::IoError(s) => "IO error: "@ + s,
        ErrorView::TemplateError(s) => "Template error: "@ + s,
        ErrorView::Other(s) => s,
    }
}

impl BootsError {
    /// The message that this error shows to the user.
    pub fn message(&self) -> (r: String)
        ensures
            r@ == message_of(self@),
    {
        let mut out: Vec<char> = Vec::new();
        match self {
            BootsError::AlreadyExists(s) => {
                push_str(&mut out, "Already exists: ");
                push_str(&mut out, s.as_str());
            },
            BootsError::DirectoryExists(s) => {
                push_str(&mut out, "Directory already exists: ");
                push_str(&mut out, s.as_str());
            },
            BootsError::InvalidOption(s) => {
                push_str(&mut out, "Invalid option: ");
                push_str(&mut out, s.as_str());
            },
            BootsError::IoError(s) => {
                push_str(&mut out, "IO error: ");
                push_str(&mut out, s.as_str());
            },
            BootsError::TemplateError(s) => {
                push_str(&mut out, "Template error: ");
                push_str(&mut out, s.as_str());
            },
            BootsError::Other(s) => {
                push_str(&mut out, s.as_str());
            },
        }
        from_chars(&out)
    }
}

} // verus!
