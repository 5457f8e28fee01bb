use vstd::prelude::*;

verus! {

/// The filter that a status word asks for: `done` for the todos that are
/// done, `pending` for those that are not, anything else for all.
pub open spec fn status_filter_of(status: Option<Seq<char>>) -> Option<bool> {
    match status {
        Some(word) => if word == "done"@ {
            Some(true)
        } else if word == "pending"@ {
            Some(false)
        } else {
            None
        },
        None => None,
    }
}

/// The status word as a mathematical value.
pub open spec fn status_word(status: Option<&String>) -> Option<Seq<char>> {
    match status {
        Some(word) => Some(word@),
        None => None,
    }
}

/// The status word that a query holds, as a mathematical value.
pub open spec fn asked_status(status: Option<String>) -> Option<Seq<char>> {
    match status {
        Some(word) => Some(word@),
        None => None,
    }
}

/// Whether a string holds exactly the given text.
pub fn is_text(value: &String, text: &str) -> (same: bool)
    ensures
        same == (value@ == text@),
{
    let other = String::from_str(text);
    *value == other
}

pub fn status_filter(status: Option<&String>) -> (done: Option<bool>)
    ensures
        done == status_filter_of(status_word(status)),
{
    match status {
        Some(word) => {
            if is_text(word, "done") {
                Some(true)
            } else if is_text(word, "pending") {
                Some(false)
            } else {
                None
            }
        },
        None => None,
    }
}

} // verus!
