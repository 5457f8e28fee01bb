use vstd::prelude::*;

verus! {

/// What a use case reports when it fails.
#[derive(Debug, Clone, Copy, PartialEq, Eq, Structural)]
pub enum TodoException {
    AlreadyExists,
    NotFound,
    Unknown,
}

impl TodoException {
    /// The message of the exception: the HTTP status it stands for, in square
    /// brackets, and a sentence.
    pub open spec fn message(self) -> Seq<char> {
        match self {
            TodoException::AlreadyExists => "[409] Todo already exists"@,
            TodoException::NotFound => "[422] Todo not exists"@,
            TodoException::Unknown => "[500] Unknown error"@,
        }
    }

    pub fn to_string(&self) -> (text: String)
        ensures
            text@ == self.message(),
    {
        match self {
            TodoException::AlreadyExists => String::from_str("[409] Todo already exists"),
            TodoException::NotFound => String::from_str("[422] Todo not exists"),
            TodoException::Unknown => String::from_str("[500] Unknown error"),
        }
    }
}

} // verus!
