//! The library error.

use vstd::prelude::*;
use vstd::string::StringExecFns;

verus! {

/// Error returned by the fallible menu operations.
#[derive(Debug, Clone, PartialEq, Eq)]
pub enum Error {
    /// The menu tree holds no entry with the requested id; carries that id.
    NotFoundMenu(String),
}

impl Error {
    /// Human-readable description of the error.
    pub fn message(&self) -> (r: String)
        ensures
            self matches Error::NotFoundMenu(id) ==> r@ =~= "not found menu id: "@ + id@,
    {
        match self {
            Error::NotFoundMenu(id) => {
                let mut s = "not found menu id: ".to_owned();
                s.append(id.as_str());
                s
            },
        }
    }
}

} // verus!
