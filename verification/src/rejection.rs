//! What a refused request is answered with.
use vstd::prelude::*;

verus! {

/// The error that a rejected promise carries.
#[derive(Debug, PartialEq, Eq)]
pub struct Rejection {
    /// Machine-readable class of the failure.
    pub kind: String,
    /// Text for people.
    pub message: String,
    /// Whether the attach that failed had been made under reset; on attach failures
    /// only.
    pub connect_under_reset: Option<bool>,
}

/// What a [`Rejection`] says.
pub struct RejectionView {
    pub kind: Seq<char>,
    pub message: Seq<char>,
    pub connect_under_reset: Option<bool>,
}

impl View for Rejection {
    type V = RejectionView;

    open spec fn view(&self) -> RejectionView {
        RejectionView {
            kind: self.kind@,
            message: self.message@,
            connect_under_reset: self.connect_under_reset,
        }
    }
}

/// A rejection that says no more than its kind and its message.
pub open spec fn plain_rejection(kind: Seq<char>, message: Seq<char>) -> RejectionView {
    RejectionView { kind, message, connect_under_reset: None }
}

/// The rejection of `kind` with `message`.
pub fn error(kind: &str, message: String) -> (rejection: Rejection)
    ensures
        rejection@ == plain_rejection(kind@, message@),
{
    Rejection { kind: kind.to_owned(), message, connect_under_reset: None }
}

/// Hand an event to its listener: it is delivered where there is a listener and the
/// event could be converted, and dropped otherwise.
pub fn deliver<V, E>(has_listener: bool, event: Result<V, E>) -> (delivered: Option<V>)
    ensures
        delivered == (match event {
            Ok(value) if has_listener => Some(value),
            _ => None,
        }),
{
    match event {
        Ok(value) if has_listener => Some(value),
        _ => None,
    }
}

} // verus!
