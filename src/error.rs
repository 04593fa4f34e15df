use vstd::prelude::*;

verus! {

/// Failures of an operation on one mixer.
#[derive(Debug)]
pub enum Error {
    /// A node of this kind with this name is already there.
    Exists(String, String),
    /// A failure that fits no other variant.
    Unknown,
    /// No node of this kind with this name is there.
    NotFound(String, String),
    /// The media engine failed; the text names the failing element or step.
    Gstreamer(String),
}

/// `e` is `Exists` for the given kind and name.
pub open spec fn is_exists(e: Error, kind: Seq<char>, name: Seq<char>) -> bool {
    match e {
        Error::Exists(k, n) => k@ == kind && n@ == name,
        _ => false,
    }
}

/// `e` is `NotFound` for the given kind and name.
pub open spec fn is_not_found(e: Error, kind: Seq<char>, name: Seq<char>) -> bool {
    match e {
        Error::NotFound(k, n) => k@ == kind && n@ == name,
        _ => false,
    }
}

/// The text of the error that reports a failed element construction.
pub open spec fn create_failure_text(name: Seq<char>) -> Seq<char> {
    "Failed to create element: "@ + name
}

/// Builds `Exists(kind, name)`.
pub fn exists_error(kind: &str, name: &str) -> (e: Error)
    ensures
        is_exists(e, kind@, name@),
{
    Error::Exists(String::from_str(kind), String::from_str(name))
}

/// Builds `NotFound(kind, name)`.
pub fn not_found_error(kind: &str, name: &str) -> (e: Error)
    ensures
        is_not_found(e, kind@, name@),
{
    Error::NotFound(String::from_str(kind), String::from_str(name))
}

/// Turns the outcome of constructing the media element `name` into the
/// library's result: the element itself, or an engine error naming it.
pub fn gst_create_element<E>(name: &str, made: Option<E>) -> (r: Result<E, Error>)
    ensures
        made.is_some() ==> r == Ok::<E, Error>(made.unwrap()),
        made.is_none() ==> (r matches Err(Error::Gstreamer(t)) && t@ == create_failure_text(name@)),
{
    match made {
        Some(e) => Ok(e),
        None => {
            let mut text = String::from_str("Failed to create element: ");
            text.append(name);
            Err(Error::Gstreamer(text))
        },
    }
}

} // verus!
