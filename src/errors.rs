//! Errors reported by the audio device layer.

use vstd::prelude::*;

verus! {

/// A failure reported by the audio device layer: a numeric code and, where the
/// layer gave one, a message.
#[derive(Debug)]
pub struct Error {
    code: i32,
    message: Option<String>,
}

impl Error {
    /// The numeric code of this error.
    pub closed spec fn spec_code(&self) -> i32 {
        self.code
    }

    /// The message of this error, if any.
    pub closed spec fn spec_message(&self) -> Option<Seq<char>> {
        match self.message {
            Some(m) => Some(m@),
            None => None,
        }
    }

    pub fn new(code: i32, message: Option<String>) -> (r: Self)
        ensures
            r.spec_code() == code,
            r.spec_message() == (match message {
                Some(m) => Some(m@),
                None => None::<Seq<char>>,
            }),
    {
        Error { code, message }
    }

    pub fn code(&self) -> (r: i32)
        ensures
            r == self.spec_code(),
    {
        self.code
    }

    pub fn message(&self) -> (r: Option<&str>)
        ensures
            r matches Some(m) ==> self.spec_message() == Some(m@),
            r is None ==> self.spec_message() is None,
    {
        match &self.message {
            Some(m) => Some(m.as_str()),
            None => None,
        }
    }
}

} // verus!
