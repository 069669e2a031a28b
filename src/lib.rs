//! A fail-deferred builder for URIs.
//!
//! A [`Builder`] collects a scheme, an authority and a path-and-query, each
//! validated as it is set. The first setter whose input is rejected latches
//! its error; [`Builder::build`] reports that error, or hands the collected
//! parts to [`Uri::from_parts`], which decides whether they form a legal URI.
pub mod authority;
pub mod builder;
pub mod error;
pub mod grammar;
pub mod laws;
pub mod path_and_query;
pub mod scheme;
pub mod uri;

pub use authority::{Authority, AuthorityInput};
pub use builder::Builder;
pub use error::{Error, ParseError, ShapeError};
pub use path_and_query::{PathAndQuery, PathAndQueryInput};
pub use scheme::{Scheme, SchemeInput};
pub use uri::{Components, Parts, Uri};
