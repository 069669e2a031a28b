//! The authority component: `[ userinfo "@" ] host [ ":" port ]`, checked
//! byte by byte against the characters those parts may hold.
use vstd::prelude::*;
use vstd::slice::slice_to_vec;
use vstd::string::StringSliceAdditionalSpecFns;

use crate::error::{view_result, Error, ParseError};
use crate::grammar::{first_disallowed, first_invalid, Grammar};

verus! {

/// What parsing `b` as an authority gives: the bytes themselves when they form
/// an authority, else the reason they do not.
pub open spec fn parse_authority(b: Seq<u8>) -> Result<Seq<u8>, Error> {
    if b.len() == 0 {
        Err(Error::Authority(ParseError::Empty))
    } else {
        match first_disallowed(Grammar::Authority, b) {
            Some(k) => Err(Error::Authority(ParseError::InvalidByte(k as usize))),
            None => Ok(b),
        }
    }
}

/// A validated authority.
#[derive(Debug, PartialEq, Eq)]
pub struct Authority {
    bytes: Vec<u8>,
}

impl View for Authority {
    type V = Seq<u8>;

    closed spec fn view(&self) -> Seq<u8> {
        self.bytes@
    }
}

impl Authority {
    #[verifier::type_invariant]
    closed spec fn is_valid(self) -> bool {
        parse_authority(self.bytes@) == Ok::<Seq<u8>, Error>(self.bytes@)
    }

    /// Parses `b` as an authority.
    pub fn parse(b: &[u8]) -> (r: Result<Authority, Error>)
        ensures
            view_result(r) == parse_authority(b@),
    {
        if b.len() == 0 {
            return Err(Error::Authority(ParseError::Empty));
        }
        match first_invalid(Grammar::Authority, b) {
            Some(k) => Err(Error::Authority(ParseError::InvalidByte(k))),
            None => Ok(Authority { bytes: slice_to_vec(b) }),
        }
    }

    /// The authority's text as bytes.
    pub fn as_bytes(&self) -> (r: &[u8])
        ensures
            r@ == self@,
    {
        self.bytes.as_slice()
    }
}

/// A value that an authority can be made from.
pub trait AuthorityInput: Sized {
    /// What converting this value gives.
    spec fn authority_outcome(&self) -> Result<Seq<u8>, Error>;

    /// Converts this value into an authority.
    fn into_authority(self) -> (r: Result<Authority, Error>)
        ensures
            view_result(r) == self.authority_outcome(),
    ;
}

impl<'a> AuthorityInput for &'a str {
    open spec fn authority_outcome(&self) -> Result<Seq<u8>, Error> {
        parse_authority(self.spec_bytes())
    }

    fn into_authority(self) -> (r: Result<Authority, Error>) {
        Authority::parse(self.as_bytes())
    }
}

impl<'a> AuthorityInput for &'a [u8] {
    open spec fn authority_outcome(&self) -> Result<Seq<u8>, Error> {
        parse_authority(self@)
    }

    fn into_authority(self) -> (r: Result<Authority, Error>) {
        Authority::parse(self)
    }
}

/// An already validated authority is taken as it is, without parsing again.
impl AuthorityInput for Authority {
    open spec fn authority_outcome(&self) -> Result<Seq<u8>, Error> {
        Ok(self@)
    }

    fn into_authority(self) -> (r: Result<Authority, Error>) {
        Ok(self)
    }
}

} // verus!
