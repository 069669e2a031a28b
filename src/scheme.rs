//! The scheme component: `ALPHA *( ALPHA / DIGIT / "+" / "-" / "." )`.
use vstd::prelude::*;
use vstd::slice::slice_to_vec;
use vstd::string::StringSliceAdditionalSpecFns;

use crate::error::{view_result, Error, ParseError};
use crate::grammar::{first_disallowed, first_invalid, Grammar};

verus! {

/// The longest scheme accepted, in bytes.
pub const MAX_SCHEME_LEN: usize = 64;

/// What parsing `b` as a scheme gives: the bytes themselves when they form a
/// scheme, else the reason they do not.
pub open spec fn parse_scheme(b: Seq<u8>) -> Result<Seq<u8>, Error> {
    if b.len() == 0 {
        Err(Error::Scheme(ParseError::Empty))
    } else if b.len() > MAX_SCHEME_LEN {
        Err(Error::Scheme(ParseError::TooLong))
    } else {
        match first_disallowed(Grammar::Scheme, b) {
            Some(k) => Err(Error::Scheme(ParseError::InvalidByte(k as usize))),
            None => Ok(b),
        }
    }
}

/// A validated scheme.
#[derive(Debug, PartialEq, Eq)]
pub struct Scheme {
    bytes: Vec<u8>,
}

impl View for Scheme {
    type V = Seq<u8>;

    closed spec fn view(&self) -> Seq<u8> {
        self.bytes@
    }
}

impl Scheme {
    #[verifier::type_invariant]
    closed spec fn is_valid(self) -> bool {
        parse_scheme(self.bytes@) == Ok::<Seq<u8>, Error>(self.bytes@)
    }

    /// Parses `b` as a scheme.
    pub fn parse(b: &[u8]) -> (r: Result<Scheme, Error>)
        ensures
            view_result(r) == parse_scheme(b@),
    {
        if b.len() == 0 {
            return Err(Error::Scheme(ParseError::Empty));
        }
        if b.len() > MAX_SCHEME_LEN {
            return Err(Error::Scheme(ParseError::TooLong));
        }
        match first_invalid(Grammar::Scheme, b) {
            Some(k) => Err(Error::Scheme(ParseError::InvalidByte(k))),
            None => Ok(Scheme { bytes: slice_to_vec(b) }),
        }
    }

    /// The scheme's text as bytes.
    pub fn as_bytes(&self) -> (r: &[u8])
        ensures
            r@ == self@,
    {
        self.bytes.as_slice()
    }
}

/// A value that a scheme can be made from.
pub trait SchemeInput: Sized {
    /// What converting this value gives.
    spec fn scheme_outcome(&self) -> Result<Seq<u8>, Error>;

    /// Converts this value into a scheme.
    fn into_scheme(self) -> (r: Result<Scheme, Error>)
        ensures
            view_result(r) == self.scheme_outcome(),
    ;
}

impl<'a> SchemeInput for &'a str {
    open spec fn scheme_outcome(&self) -> Result<Seq<u8>, Error> {
        parse_scheme(self.spec_bytes())
    }

    fn into_scheme(self) -> (r: Result<Scheme, Error>) {
        Scheme::parse(self.as_bytes())
    }
}

impl<'a> SchemeInput for &'a [u8] {
    open spec fn scheme_outcome(&self) -> Result<Seq<u8>, Error> {
        parse_scheme(self@)
    }

    fn into_scheme(self) -> (r: Result<Scheme, Error>) {
        Scheme::parse(self)
    }
}

/// An already validated scheme is taken as it is, without parsing again.
impl SchemeInput for Scheme {
    open spec fn scheme_outcome(&self) -> Result<Seq<u8>, Error> {
        Ok(self@)
    }

    fn into_scheme(self) -> (r: Result<Scheme, Error>) {
        Ok(self)
    }
}

} // verus!
