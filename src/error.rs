//! Errors reported by the component parsers and by the URI shape check.
use vstd::prelude::*;

verus! {

/// Why a single component was rejected.
#[derive(Debug, Clone, Copy, PartialEq, Eq)]
pub enum ParseError {
    /// The component text was empty where it may not be.
    Empty,
    /// The component text is longer than its grammar allows.
    TooLong,
    /// The byte at this index is not allowed at that position.
    InvalidByte(usize),
}

/// Why a set of otherwise valid parts does not form a URI.
#[derive(Debug, Clone, Copy, PartialEq, Eq)]
pub enum ShapeError {
    /// A scheme was given without an authority.
    MissingAuthority,
    /// A scheme and an authority were given without a path-and-query.
    MissingPathAndQuery,
    /// An authority and a path-and-query were given without a scheme.
    MissingScheme,
    /// A path-and-query that follows an authority must be empty or begin
    /// with `/` or `?`.
    RelativePathAfterAuthority,
}

/// The single error kind of this library: a rejected component, or a
/// rejected combination of components.
#[derive(Debug, Clone, Copy, PartialEq, Eq)]
pub enum Error {
    /// The scheme's input was rejected.
    Scheme(ParseError),
    /// The authority's input was rejected.
    Authority(ParseError),
    /// The path-and-query's input was rejected.
    PathAndQuery(ParseError),
    /// The parts do not combine into a URI.
    Shape(ShapeError),
}

} // verus!

verus! {

/// The view of a result whose success value has a view.
pub open spec fn view_result<T: View>(r: Result<T, Error>) -> Result<T::V, Error> {
    match r {
        Ok(v) => Ok(v@),
        Err(e) => Err(e),
    }
}

} // verus!
