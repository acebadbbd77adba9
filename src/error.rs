//! Why generation stops.
use vstd::prelude::*;

verus! {

/// The reason a declaration cannot be turned into a client method.
#[derive(Clone, Copy, Debug, PartialEq, Eq, Structural)]
pub enum GenReason {
    /// The interface body holds an item that is not a method.
    NotAMethod,
    /// A tag named `endpoint` holds no string literal.
    MissingEndpointLiteral,
    /// The endpoint template holds a lone brace or an unsupported format
    /// directive.
    MalformedTemplate,
    /// The endpoint template has a different number of placeholders than the
    /// method has named parameters.
    ArityMismatch { placeholders: usize, params: usize },
}

/// A generation failure: the position of the offending item in the interface
/// body, and the reason.
#[derive(Clone, Copy, Debug, PartialEq, Eq, Structural)]
pub struct GenError {
    pub index: usize,
    pub reason: GenReason,
}

} // verus!
