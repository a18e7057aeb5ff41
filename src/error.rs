use vstd::prelude::*;
use vstd::string::StringExecFns;

verus! {

/// Failure of the tile store: opening it or running a query.
#[derive(Debug)]
pub enum Error {
    DbError { message: String, source: Option<String> },
}

/// Text shown for a storage error with the given message.
pub open spec fn error_text(message: Seq<char>) -> Seq<char> {
    "Database error: "@ + message
}

impl Error {
    /// Human-readable description of the error.
    pub fn to_string(&self) -> (r: String)
        ensures
            match self {
                Error::DbError { message, .. } => r@ == error_text(message@),
            },
    {
        match self {
            Error::DbError { message, .. } => {
                let mut r = String::from_str("Database error: ");
                r.append(message.as_str());
                r
            },
        }
    }

    /// Description of the underlying cause, where one was recorded.
    pub fn source(&self) -> (r: Option<&String>)
        ensures
            match self {
                Error::DbError { source, .. } => match r {
                    Some(e) => *source == Some(*e),
                    None => source is None,
                },
            },
    {
        match self {
            Error::DbError { source, .. } => source.as_ref(),
        }
    }
}

} // verus!
