//! The path-and-query component: a path, optionally followed by `?` and a
//! query. It may be empty.
use vstd::prelude::*;
use vstd::slice::slice_to_vec;
use vstd::string::StringSliceAdditionalSpecFns;

use crate::error::{view_result, Error, ParseError};
use crate::grammar::{first_disallowed, first_invalid, Grammar};

verus! {

/// What parsing `b` as a path-and-query gives: the bytes themselves when they
/// form a path-and-query, else the reason they do not.
pub open spec fn parse_path_and_query(b: Seq<u8>) -> Result<Seq<u8>, Error> {
    match first_disallowed(Grammar::PathAndQuery, b) {
        Some(k) => Err(Error::PathAndQuery(ParseError::InvalidByte(k as usize))),
        None => Ok(b),
    }
}

/// A validated path-and-query.
#[derive(Debug, PartialEq, Eq)]
pub struct PathAndQuery {
    bytes: Vec<u8>,
}

impl View for PathAndQuery {
    type V = Seq<u8>;

    closed spec fn view(&self) -> Seq<u8> {
        self.bytes@
    }
}

impl PathAndQuery {
    #[verifier::type_invariant]
    closed spec fn is_valid(self) -> bool {
        parse_path_and_query(self.bytes@) == Ok::<Seq<u8>, Error>(self.bytes@)
    }

    /// Parses `b` as a path-and-query.
    pub fn parse(b: &[u8]) -> (r: Result<PathAndQuery, Error>)
        ensures
            view_result(r) == parse_path_and_query(b@),
    {
        match first_invalid(Grammar::PathAndQuery, b) {
            Some(k) => Err(Error::PathAndQuery(ParseError::InvalidByte(k))),
            None => Ok(PathAndQuery { bytes: slice_to_vec(b) }),
        }
    }

    /// The path-and-query's text as bytes.
    pub fn as_bytes(&self) -> (r: &[u8])
        ensures
            r@ == self@,
    {
        self.bytes.as_slice()
    }
}

/// A value that a path-and-query can be made from.
pub trait PathAndQueryInput: Sized {
    /// What converting this value gives.
    spec fn path_and_query_outcome(&self) -> Result<Seq<u8>, Error>;

    /// Converts this value into a path-and-query.
    fn into_path_and_query(self) -> (r: Result<PathAndQuery, Error>)
        ensures
            view_result(r) == self.path_and_query_outcome(),
    ;
}

impl<'a> PathAndQueryInput for &'a str {
    open spec fn path_and_query_outcome(&self) -> Result<Seq<u8>, Error> {
        parse_path_and_query(self.spec_bytes())
    }

    fn into_path_and_query(self) -> (r: Result<PathAndQuery, Error>) {
        PathAndQuery::parse(self.as_bytes())
    }
}

impl<'a> PathAndQueryInput for &'a [u8] {
    open spec fn path_and_query_outcome(&self) -> Result<Seq<u8>, Error> {
        parse_path_and_query(self@)
    }

    fn into_path_and_query(self) -> (r: Result<PathAndQuery, Error>) {
        PathAndQuery::parse(self)
    }
}

/// An already validated path-and-query is taken as it is, without parsing again.
impl PathAndQueryInput for PathAndQuery {
    open spec fn path_and_query_outcome(&self) -> Result<Seq<u8>, Error> {
        Ok(self@)
    }

    fn into_path_and_query(self) -> (r: Result<PathAndQuery, Error>) {
        Ok(self)
    }
}

} // verus!
