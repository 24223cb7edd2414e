//! The error type of the tool and the text each error is shown with.

use vstd::prelude::*;
use vstd::string::to_string_from_display_ensures;

verus! {

/// An I/O error of the standard library, carried as it came.
#[verifier::external_type_specification]
#[verifier::external_body]
pub struct ExIoError(std::io::Error);

/// What can go wrong while the tool runs.
#[derive(Debug)]
pub enum AppError {
    IoError(std::io::Error),
    GitError(String),
    EnvError(String),
    HttpError(String),
    Timeout,
}

/// The text shown for an error whose payload is a message.
pub open spec fn message_text(err: &AppError) -> Seq<char> {
    match err {
        AppError::GitError(msg) => "Erreur Git: "@ + msg@,
        AppError::EnvError(msg) => "Erreur environnement: "@ + msg@,
        AppError::HttpError(msg) => "Erreur HTTP: "@ + msg@,
        AppError::Timeout => "Timeout"@,
        AppError::IoError(_) => "Erreur I/O: "@,
    }
}

impl AppError {
    /// The text the error is displayed with.
    pub fn message(&self) -> (res: String)
        ensures
            !(self is IoError) ==> res@ == message_text(self),
            self is IoError ==> exists|t: String|
                to_string_from_display_ensures::<std::io::Error>(&self->IoError_0, t)
                && res@ == message_text(self) + t@,
    {
        match self {
            AppError::IoError(e) => {
                let t = e.to_string();
                let mut s = String::from_str("Erreur I/O: ");
                s.append(t.as_str());
                s
            },
            AppError::GitError(msg) => {
                let mut s = String::from_str("Erreur Git: ");
                s.append(msg.as_str());
                s
            },
            AppError::EnvError(msg) => {
                let mut s = String::from_str("Erreur environnement: ");
                s.append(msg.as_str());
                s
            },
            AppError::HttpError(msg) => {
                let mut s = String::from_str("Erreur HTTP: ");
                s.append(msg.as_str());
                s
            },
            AppError::Timeout => String::from_str("Timeout"),
        }
    }
}

impl From<std::io::Error> for AppError {
    fn from(err: std::io::Error) -> (res: Self) {
        AppError::IoError(err)
    }
}

impl vstd::std_specs::convert::FromSpecImpl<std::io::Error> for AppError {
    open spec fn obeys_from_spec() -> bool {
        true
    }

    open spec fn from_spec(err: std::io::Error) -> Self {
        AppError::IoError(err)
    }
}

} // verus!
