//! The ways in which navigating or listing can fail.
use vstd::prelude::*;

verus! {

/// A failed operation. Where a variant holds a string, it is the path
/// concerned, or the reason the system gave.
#[derive(Debug)]
pub enum NavError {
    /// The working directory could not be determined at startup.
    EnvironmentError(String),
    /// The target path does not exist.
    NotFound(String),
    /// The target path exists and is not a directory.
    NotADirectory(String),
    /// No previous directory is recorded.
    NoHistory,
    /// The current directory could not be read.
    ReadError(String),
}

/// The human-readable text of an error.
pub open spec fn message_of(e: NavError) -> Seq<char> {
    match e {
        NavError::EnvironmentError(why) => "cannot determine the working directory: "@ + why@,
        NavError::NotFound(p) => p@ + ": No such file or directory"@,
        NavError::NotADirectory(p) => p@ + ": Not a directory"@,
        NavError::NoHistory => "Already at root directory"@,
        NavError::ReadError(why) => "cannot read the directory: "@ + why@,
    }
}

impl NavError {
    /// The human-readable text of this error.
    pub fn message(&self) -> (r: String)
        ensures
            r@ == message_of(*self),
    {
        match self {
            NavError::EnvironmentError(why) => {
                let mut s = String::from_str("cannot determine the working directory: ");
                s.append(why.as_str());
                s
            },
            NavError::NotFound(p) => {
                let mut s = p.clone();
                s.append(": No such file or directory");
                s
            },
            NavError::NotADirectory(p) => {
                let mut s = p.clone();
                s.append(": Not a directory");
                s
            },
            NavError::NoHistory => String::from_str("Already at root directory"),
            NavError::ReadError(why) => {
                let mut s = String::from_str("cannot read the directory: ");
                s.append(why.as_str());
                s
            },
        }
    }
}

} // verus!
