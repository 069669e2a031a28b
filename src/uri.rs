//! URIs, the parts they are assembled from, and the rules that decide which
//! combinations of parts form a URI.
use vstd::prelude::*;
use vstd::slice::slice_to_vec;

use crate::authority::Authority;
use crate::error::{view_result, Error, ShapeError};
use crate::path_and_query::PathAndQuery;
use crate::scheme::Scheme;

verus! {

/// What a set of parts, or a URI, holds: the bytes of each slot that is set.
pub struct Components {
    pub scheme: Option<Seq<u8>>,
    pub authority: Option<Seq<u8>>,
    pub path_and_query: Option<Seq<u8>>,
}

impl Components {
    /// No slot set.
    pub open spec fn empty() -> Components {
        Components { scheme: None, authority: None, path_and_query: None }
    }
}

/// A path-and-query may follow an authority only when it is empty or begins
/// with `/` or `?`.
pub open spec fn fits_after_authority(p: Seq<u8>) -> bool {
    p.len() == 0 || p[0] == 0x2f || p[0] == 0x3f
}

/// Why the set slots of `c` do not form a URI, if they do not.
pub open spec fn shape_error(c: Components) -> Option<ShapeError> {
    if c.scheme is Some && c.authority is None {
        Some(ShapeError::MissingAuthority)
    } else if c.scheme is Some && c.path_and_query is None {
        Some(ShapeError::MissingPathAndQuery)
    } else if c.scheme is None && c.authority is Some && c.path_and_query is Some {
        Some(ShapeError::MissingScheme)
    } else if c.authority is Some && c.path_and_query is Some && !fits_after_authority(
        c.path_and_query->0,
    ) {
        Some(ShapeError::RelativePathAfterAuthority)
    } else {
        None
    }
}

/// What turning parts with view `c` into a URI gives.
pub open spec fn finalize(c: Components) -> Result<Components, Error> {
    match shape_error(c) {
        Some(e) => Err(Error::Shape(e)),
        None => Ok(c),
    }
}

/// The text of a URI: `scheme "://"` when there is a scheme, then the
/// authority, then the path-and-query, each when set.
pub open spec fn render(c: Components) -> Seq<u8> {
    let s = match c.scheme {
        Some(s) => s + seq![0x3au8, 0x2fu8, 0x2fu8],
        None => Seq::empty(),
    };
    let a = match c.authority {
        Some(a) => a,
        None => Seq::empty(),
    };
    let p = match c.path_and_query {
        Some(p) => p,
        None => Seq::empty(),
    };
    s + a + p
}

pub open spec fn scheme_view(s: Option<Scheme>) -> Option<Seq<u8>> {
    match s {
        Some(v) => Some(v@),
        None => None,
    }
}

pub open spec fn authority_view(a: Option<Authority>) -> Option<Seq<u8>> {
    match a {
        Some(v) => Some(v@),
        None => None,
    }
}

pub open spec fn path_and_query_view(p: Option<PathAndQuery>) -> Option<Seq<u8>> {
    match p {
        Some(v) => Some(v@),
        None => None,
    }
}

/// Up to three validated components, in no particular combination.
#[derive(Debug)]
pub struct Parts {
    pub scheme: Option<Scheme>,
    pub authority: Option<Authority>,
    pub path_and_query: Option<PathAndQuery>,
}

impl View for Parts {
    type V = Components;

    open spec fn view(&self) -> Components {
        Components {
            scheme: scheme_view(self.scheme),
            authority: authority_view(self.authority),
            path_and_query: path_and_query_view(self.path_and_query),
        }
    }
}

impl Default for Parts {
    fn default() -> (r: Parts)
        ensures
            r@ == Components::empty(),
    {
        Parts { scheme: None, authority: None, path_and_query: None }
    }
}

/// A URI: parts whose combination is legal.
#[derive(Debug, PartialEq, Eq)]
pub struct Uri {
    scheme: Option<Scheme>,
    authority: Option<Authority>,
    path_and_query: Option<PathAndQuery>,
}

impl View for Uri {
    type V = Components;

    closed spec fn view(&self) -> Components {
        Components {
            scheme: scheme_view(self.scheme),
            authority: authority_view(self.authority),
            path_and_query: path_and_query_view(self.path_and_query),
        }
    }
}

impl Uri {
    #[verifier::type_invariant]
    closed spec fn is_valid(self) -> bool {
        shape_error(self@) is None
    }

    /// The parts that `into_parts` hands back.
    pub closed spec fn spec_into_parts(self) -> Parts {
        Parts { scheme: self.scheme, authority: self.authority, path_and_query: self.path_and_query }
    }

    /// Splitting a URI into parts keeps every slot.
    pub proof fn lemma_into_parts_view(u: Uri)
        ensures
            u.spec_into_parts()@ == u@,
    {
    }

    /// Turns parts into a URI when their combination is legal.
    pub fn from_parts(parts: Parts) -> (r: Result<Uri, Error>)
        ensures
            view_result(r) == finalize(parts@),
    {
        let has_scheme = parts.scheme.is_some();
        let has_authority = parts.authority.is_some();
        let has_path = parts.path_and_query.is_some();
        if has_scheme && !has_authority {
            return Err(Error::Shape(ShapeError::MissingAuthority));
        }
        if has_scheme && !has_path {
            return Err(Error::Shape(ShapeError::MissingPathAndQuery));
        }
        if !has_scheme && has_authority && has_path {
            return Err(Error::Shape(ShapeError::MissingScheme));
        }
        if has_authority {
            if let Some(p) = &parts.path_and_query {
                let b = p.as_bytes();
                if b.len() > 0 && b[0] != 0x2f && b[0] != 0x3f {
                    return Err(Error::Shape(ShapeError::RelativePathAfterAuthority));
                }
            }
        }
        Ok(Uri {
            scheme: parts.scheme,
            authority: parts.authority,
            path_and_query: parts.path_and_query,
        })
    }

    /// Splits this URI into its parts, without loss.
    pub fn into_parts(self) -> (r: Parts)
        ensures
            r == self.spec_into_parts(),
            r@ == self@,
            shape_error(r@) is None,
    {
        proof {
            use_type_invariant(&self);
        }
        Parts { scheme: self.scheme, authority: self.authority, path_and_query: self.path_and_query }
    }

    /// The scheme, if set.
    pub fn scheme(&self) -> (r: Option<&Scheme>)
        ensures
            match r {
                Some(x) => self@.scheme == Some(x@),
                None => self@.scheme is None,
            },
    {
        self.scheme.as_ref()
    }

    /// The authority, if set.
    pub fn authority(&self) -> (r: Option<&Authority>)
        ensures
            match r {
                Some(x) => self@.authority == Some(x@),
                None => self@.authority is None,
            },
    {
        self.authority.as_ref()
    }

    /// The path-and-query, if set.
    pub fn path_and_query(&self) -> (r: Option<&PathAndQuery>)
        ensures
            match r {
                Some(x) => self@.path_and_query == Some(x@),
                None => self@.path_and_query is None,
            },
    {
        self.path_and_query.as_ref()
    }

    /// The text of this URI, as bytes.
    pub fn to_bytes(&self) -> (r: Vec<u8>)
        ensures
            r@ == render(self@),
    {
        let mut out: Vec<u8> = Vec::new();
        if let Some(s) = &self.scheme {
            let mut t = slice_to_vec(s.as_bytes());
            out.append(&mut t);
            out.push(0x3a);
            out.push(0x2f);
            out.push(0x2f);
        }
        if let Some(a) = &self.authority {
            let mut t = slice_to_vec(a.as_bytes());
            out.append(&mut t);
        }
        if let Some(p) = &self.path_and_query {
            let mut t = slice_to_vec(p.as_bytes());
            out.append(&mut t);
        }
        assert(out@ =~= render(self@));
        out
    }
}

} // verus!
