//! The fail-deferred URI builder.
//!
//! A builder is either live, holding the parts set so far, or poisoned,
//! holding the first error a setter produced. Setters consume the builder and
//! hand back the next one; `build` consumes it for good.
use vstd::prelude::*;

use crate::authority::AuthorityInput;
use crate::error::{view_result, Error};
use crate::path_and_query::PathAndQueryInput;
use crate::scheme::SchemeInput;
use crate::uri::{finalize, Components, Parts, Uri};

verus! {

/// The slot of the parts that a setter writes.
#[derive(Debug, Clone, Copy, PartialEq, Eq)]
pub enum Slot {
    Scheme,
    Authority,
    PathAndQuery,
}

/// One setter call: the slot it targets, and what converting its input gave.
pub struct Step {
    pub slot: Slot,
    pub outcome: Result<Seq<u8>, Error>,
}

/// The value of one slot of `c`.
pub open spec fn get_slot(c: Components, slot: Slot) -> Option<Seq<u8>> {
    match slot {
        Slot::Scheme => c.scheme,
        Slot::Authority => c.authority,
        Slot::PathAndQuery => c.path_and_query,
    }
}

/// `c` with `slot` set to `v`, the other slots kept.
pub open spec fn set_slot(c: Components, slot: Slot, v: Seq<u8>) -> Components {
    match slot {
        Slot::Scheme => Components { scheme: Some(v), ..c },
        Slot::Authority => Components { authority: Some(v), ..c },
        Slot::PathAndQuery => Components { path_and_query: Some(v), ..c },
    }
}

/// The state after one setter call: a poisoned state stays as it is; a live
/// one takes the converted value into the slot, or becomes poisoned with the
/// conversion's error.
pub open spec fn apply(b: Result<Components, Error>, s: Step) -> Result<Components, Error> {
    match b {
        Err(e) => Err(e),
        Ok(c) => match s.outcome {
            Ok(v) => Ok(set_slot(c, s.slot, v)),
            Err(e) => Err(e),
        },
    }
}

/// The state after the setter calls `steps`, in order.
pub open spec fn run(b: Result<Components, Error>, steps: Seq<Step>) -> Result<
    Components,
    Error,
>
    decreases steps.len(),
{
    if steps.len() == 0 {
        b
    } else {
        apply(run(b, steps.drop_last()), steps.last())
    }
}

/// What `build` returns for a builder in state `b`.
pub open spec fn build_outcome(b: Result<Components, Error>) -> Result<Components, Error> {
    match b {
        Err(e) => Err(e),
        Ok(c) => finalize(c),
    }
}

/// The builder for URIs.
#[derive(Debug)]
pub struct Builder {
    parts: Result<Parts, Error>,
}

impl View for Builder {
    type V = Result<Components, Error>;

    closed spec fn view(&self) -> Result<Components, Error> {
        view_result(self.parts)
    }
}

impl Builder {
    /// The builder that `Builder::from` makes of `u`.
    pub closed spec fn spec_from_uri(u: Uri) -> Builder {
        Builder { parts: Ok(u.spec_into_parts()) }
    }

    /// A builder made from a URI holds every slot of it.
    pub proof fn lemma_from_uri_view(u: Uri)
        ensures
            Self::spec_from_uri(u)@ == Ok::<Components, Error>(u@),
    {
        Uri::lemma_into_parts_view(u);
    }

    /// A live builder with no slot set.
    pub fn new() -> (r: Builder)
        ensures
            r@ == Ok::<Components, Error>(Components::empty()),
    {
        Builder::default()
    }

    /// Sets the scheme, converting `scheme`; a poisoned builder is returned
    /// as it is.
    pub fn scheme<T: SchemeInput>(self, scheme: T) -> (r: Builder)
        ensures
            r@ == apply(self@, (Step { slot: Slot::Scheme, outcome: scheme.scheme_outcome() })),
    {
        let ghost outcome = scheme.scheme_outcome();
        let set = move |parts: Parts| -> (r: Result<Parts, Error>)
            ensures
                view_result(r) == apply(
                    Ok(parts@),
                    (Step { slot: Slot::Scheme, outcome: outcome }),
                ),
            {
                match scheme.into_scheme() {
                    Ok(s) => Ok(
                        Parts {
                            scheme: Some(s),
                            authority: parts.authority,
                            path_and_query: parts.path_and_query,
                        },
                    ),
                    Err(e) => Err(e),
                }
        };
        self.map(set)
    }

    /// Sets the authority, converting `auth`; a poisoned builder is returned
    /// as it is.
    pub fn authority<T: AuthorityInput>(self, auth: T) -> (r: Builder)
        ensures
            r@ == apply(self@, (Step { slot: Slot::Authority, outcome: auth.authority_outcome() })),
    {
        let ghost outcome = auth.authority_outcome();
        let set = move |parts: Parts| -> (r: Result<Parts, Error>)
            ensures
                view_result(r) == apply(
                    Ok(parts@),
                    (Step { slot: Slot::Authority, outcome: outcome }),
                ),
            {
                match auth.into_authority() {
                    Ok(a) => Ok(
                        Parts {
                            scheme: parts.scheme,
                            authority: Some(a),
                            path_and_query: parts.path_and_query,
                        },
                    ),
                    Err(e) => Err(e),
                }
        };
        self.map(set)
    }

    /// Sets the path-and-query, converting `p_and_q`; a poisoned builder is
    /// returned as it is.
    pub fn path_and_query<T: PathAndQueryInput>(self, p_and_q: T) -> (r: Builder)
        ensures
            r@ == apply(
                self@,
                (Step { slot: Slot::PathAndQuery, outcome: p_and_q.path_and_query_outcome() }),
            ),
    {
        let ghost outcome = p_and_q.path_and_query_outcome();
        let set = move |parts: Parts| -> (r: Result<Parts, Error>)
            ensures
                view_result(r) == apply(
                    Ok(parts@),
                    (Step { slot: Slot::PathAndQuery, outcome: outcome }),
                ),
            {
                match p_and_q.into_path_and_query() {
                    Ok(p) => Ok(
                        Parts {
                            scheme: parts.scheme,
                            authority: parts.authority,
                            path_and_query: Some(p),
                        },
                    ),
                    Err(e) => Err(e),
                }
        };
        self.map(set)
    }

    /// Consumes the builder: the latched error if it is poisoned, else what
    /// `Uri::from_parts` makes of its parts.
    pub fn build(self) -> (r: Result<Uri, Error>)
        ensures
            view_result(r) == build_outcome(self@),
    {
        match self.parts {
            Ok(parts) => Uri::from_parts(parts),
            Err(e) => Err(e),
        }
    }

    /// Runs `f` on the parts of a live builder, which stays live with the
    /// parts `f` returns or is poisoned with its error; a poisoned builder is
    /// returned as it is.
    fn map<F: FnOnce(Parts) -> Result<Parts, Error>>(self, f: F) -> (r: Builder)
        requires
            self.parts is Ok ==> f.requires((self.parts->Ok_0,)),
        ensures
            match self.parts {
                Ok(p) => exists|out: Result<Parts, Error>|
                    #[trigger] f.ensures((p,), out) && r@ == view_result(out),
                Err(e) => r@ == Err::<Components, Error>(e),
            },
    {
        match self.parts {
            Ok(parts) => {
                let res = f(parts);
                Builder { parts: res }
            },
            Err(e) => Builder { parts: Err(e) },
        }
    }
}

impl Default for Builder {
    fn default() -> (r: Builder)
        ensures
            r@ == Ok::<Components, Error>(Components::empty()),
    {
        Builder { parts: Ok(Parts::default()) }
    }
}

impl From<Uri> for Builder {
    fn from(src: Uri) -> Builder {
        Builder { parts: Ok(src.into_parts()) }
    }
}

impl vstd::std_specs::convert::FromSpecImpl<Uri> for Builder {
    open spec fn obeys_from_spec() -> bool {
        true
    }

    open spec fn from_spec(v: Uri) -> Builder {
        Builder::spec_from_uri(v)
    }
}

} // verus!
