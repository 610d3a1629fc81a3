use vstd::prelude::*;

verus! {

broadcast use vstd::string::group_string_axioms;

/// Error text returned when a display name is empty.
pub open spec fn empty_name_text() -> Seq<char> {
    "Names must not be empty"@
}

/// Error text returned when a message body is empty.
pub open spec fn empty_message_text() -> Seq<char> {
    "Messages must not be empty"@
}

/// What validating a display name yields: the name itself when it is not empty.
pub open spec fn validated_name(name: Seq<char>) -> Result<Seq<char>, Seq<char>> {
    if name.len() == 0 {
        Err(empty_name_text())
    } else {
        Ok(name)
    }
}

/// What validating a message body yields: the text itself when it is not empty.
pub open spec fn validated_message(text: Seq<char>) -> Result<Seq<char>, Seq<char>> {
    if text.len() == 0 {
        Err(empty_message_text())
    } else {
        Ok(text)
    }
}

/// The view of a validation result.
pub open spec fn result_view(r: Result<String, String>) -> Result<Seq<char>, Seq<char>> {
    match r {
        Ok(s) => Ok(s@),
        Err(e) => Err(e@),
    }
}

/// Accepts a display name unchanged unless it is empty; no trimming is done.
pub fn validate_name(name: String) -> (r: Result<String, String>)
    ensures
        result_view(r) == validated_name(name@),
        name@.len() != 0 ==> r == Ok::<String, String>(name),
{
    if name.as_str().is_empty() {
        Err("Names must not be empty".to_string())
    } else {
        Ok(name)
    }
}

/// Accepts a message body unchanged unless it is empty; no trimming is done.
pub fn validate_message(text: String) -> (r: Result<String, String>)
    ensures
        result_view(r) == validated_message(text@),
        text@.len() != 0 ==> r == Ok::<String, String>(text),
{
    if text.as_str().is_empty() {
        Err("Messages must not be empty".to_string())
    } else {
        Ok(text)
    }
}

} // verus!
