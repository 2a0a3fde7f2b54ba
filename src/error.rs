//! Why the expansion of a declaration or an operation stops.
use vstd::prelude::*;

verus! {

/// A diagnostic of the expansion, tied to the declaration it concerns.
#[derive(Debug)]
pub enum ExpandError {
    /// The argument list of the named annotation, on the named declaration,
    /// does not follow its grammar.
    MalformedAnnotation { annotation: String, declaration: String },
    /// The named operation declares no return type, or one that is not a named type.
    UnsupportedShape { operation: String },
    /// A slot list of the named operation has `found` entries where the type has `expected` slots.
    ArityMismatch { operation: String, expected: usize, found: usize },
    /// The named operation pins a slot to a state that the type does not declare.
    UnknownMarker { operation: String, marker: String },
}

pub enum ErrorView {
    MalformedAnnotation(Seq<char>, Seq<char>),
    UnsupportedShape(Seq<char>),
    ArityMismatch(Seq<char>, nat, nat),
    UnknownMarker(Seq<char>, Seq<char>),
}

impl View for ExpandError {
    type V = ErrorView;

    open spec fn view(&self) -> ErrorView {
        match self {
            ExpandError::MalformedAnnotation { annotation, declaration } => ErrorView::MalformedAnnotation(
                annotation@,
                declaration@,
            ),
            ExpandError::UnsupportedShape { operation } => ErrorView::UnsupportedShape(operation@),
            ExpandError::ArityMismatch { operation, expected, found } => ErrorView::ArityMismatch(
                operation@,
                *expected as nat,
                *found as nat,
            ),
            ExpandError::UnknownMarker { operation, marker } => ErrorView::UnknownMarker(
                operation@,
                marker@,
            ),
        }
    }
}

} // verus!
