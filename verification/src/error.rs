//! The errors that operations end with.
use vstd::prelude::*;
use vstd::string::*;

use crate::text;

verus! {

/// Why an operation failed. The texts of the first two come from outside.
#[derive(Debug)]
pub enum AppError {
    Git(String),
    Io(String),
    General(String),
}

pub type AppResult<T> = Result<T, AppError>;

/// What an error holds.
pub enum AppErrorView {
    Git(Seq<char>),
    Io(Seq<char>),
    General(Seq<char>),
}

impl View for AppError {
    type V = AppErrorView;

    open spec fn view(&self) -> AppErrorView {
        match self {
            AppError::Git(s) => AppErrorView::Git(s@),
            AppError::Io(s) => AppErrorView::Io(s@),
            AppError::General(s) => AppErrorView::General(s@),
        }
    }
}

impl AppErrorView {
    /// The text that the user is shown.
    pub open spec fn text(self) -> Seq<char> {
        match self {
            AppErrorView::Git(s) => "Git error: "@ + s,
            AppErrorView::Io(s) => "IO error: "@ + s,
            AppErrorView::General(s) => s,
        }
    }

    /// The text that a command fails with: an error from outside is followed
    /// by its cause.
    pub open spec fn report(self) -> Seq<char> {
        match self {
            AppErrorView::Git(s) => self.text() + ": "@ + s,
            AppErrorView::Io(s) => self.text() + ": "@ + s,
            AppErrorView::General(s) => s,
        }
    }
}

impl AppError {
    /// An error of the library's own, with the given text.
    pub fn msg(s: &str) -> (r: Self)
        ensures
            r@ == AppErrorView::General(s@),
    {
        AppError::General(text::copy(s))
    }

    /// The text that the user is shown.
    pub fn text(&self) -> (r: String)
        ensures
            r@ == self@.text(),
    {
        match self {
            AppError::Git(s) => text::copy("Git error: ").concat(s.as_str()),
            AppError::Io(s) => text::copy("IO error: ").concat(s.as_str()),
            AppError::General(s) => s.clone(),
        }
    }

    /// The text that a command fails with.
    pub fn report(&self) -> (r: String)
        ensures
            r@ == self@.report(),
    {
        match self {
            AppError::Git(s) => self.text().concat(": ").concat(s.as_str()),
            AppError::Io(s) => self.text().concat(": ").concat(s.as_str()),
            AppError::General(s) => s.clone(),
        }
    }
}

} // verus!
