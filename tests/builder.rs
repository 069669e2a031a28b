use uri_builder::{Authority, Builder, Error, ParseError, Parts, PathAndQuery, Scheme, ShapeError, Uri};

fn uri(scheme: &str, authority: &str, path: &str) -> Uri {
    Builder::new().scheme(scheme).authority(authority).path_and_query(path).build().unwrap()
}

#[test]
fn full_uri_from_text() {
    let u = Builder::new()
        .scheme("https")
        .authority("example.org")
        .path_and_query("/")
        .build()
        .unwrap();
    assert_eq!(u.to_bytes(), b"https://example.org/".to_vec());
    assert_eq!(u.scheme().unwrap().as_bytes(), b"https");
    assert_eq!(u.authority().unwrap().as_bytes(), b"example.org");
    assert_eq!(u.path_and_query().unwrap().as_bytes(), b"/");
}

#[test]
fn invalid_scheme_is_reported_at_build() {
    let r = Builder::new().scheme("!@#%/^").authority("example.org").build();
    assert_eq!(r, Err(Error::Scheme(ParseError::InvalidByte(0))));
}

#[test]
fn second_scheme_overwrites_first() {
    let r = Builder::new().scheme("https").scheme("http").build();
    assert_eq!(r, Err(Error::Shape(ShapeError::MissingAuthority)));
    let u = Builder::new()
        .scheme("https")
        .scheme("http")
        .authority("example.org")
        .path_and_query("/")
        .build()
        .unwrap();
    assert_eq!(u.scheme().unwrap().as_bytes(), b"http");
    assert_eq!(u.to_bytes(), b"http://example.org/".to_vec());
}

#[test]
fn modify_path_of_existing_uri() {
    let u = uri("https", "example.org", "/a?b=1");
    assert_eq!(u.to_bytes(), b"https://example.org/a?b=1".to_vec());
    let v = Builder::from(u).path_and_query("/c").build().unwrap();
    assert_eq!(v.to_bytes(), b"https://example.org/c".to_vec());
}

#[test]
fn path_and_query_alone() {
    let u = Builder::new().path_and_query("/hello?foo=bar").build().unwrap();
    assert!(u.scheme().is_none());
    assert!(u.authority().is_none());
    assert_eq!(u.path_and_query().unwrap().as_bytes(), b"/hello?foo=bar");
    assert_eq!(u.to_bytes(), b"/hello?foo=bar".to_vec());
}

#[test]
fn later_invalid_scheme_poisons_builder() {
    let r = Builder::new().scheme("https").scheme("!bad").authority("example.org").build();
    assert_eq!(r, Err(Error::Scheme(ParseError::InvalidByte(0))));
    let r = Builder::new().scheme("https").scheme("ht!p").authority("example.org").build();
    assert_eq!(r, Err(Error::Scheme(ParseError::InvalidByte(2))));
}

#[test]
fn empty_builder_builds_empty_uri() {
    let u = Builder::new().build().unwrap();
    assert!(u.scheme().is_none());
    assert!(u.authority().is_none());
    assert!(u.path_and_query().is_none());
    assert_eq!(u.to_bytes(), Vec::<u8>::new());
    let d = Builder::default().build().unwrap();
    assert_eq!(d, u);
}

#[test]
fn round_trip_through_builder() {
    let u = Builder::from(uri("https", "example.org", "/a?b=1")).build().unwrap();
    assert_eq!(u, uri("https", "example.org", "/a?b=1"));
    let only_authority = Builder::new().authority("example.org:443").build().unwrap();
    let again = Builder::from(only_authority).build().unwrap();
    assert_eq!(again.to_bytes(), b"example.org:443".to_vec());
}

#[test]
fn last_write_wins_per_slot() {
    let u = Builder::new()
        .path_and_query("/a")
        .scheme("http")
        .authority("a.example")
        .path_and_query("/b")
        .authority("b.example")
        .build()
        .unwrap();
    assert_eq!(u.to_bytes(), b"http://b.example/b".to_vec());
}

#[test]
fn first_error_wins() {
    let r = Builder::new()
        .scheme("https")
        .authority("bad host")
        .path_and_query("bad path")
        .scheme("!")
        .build();
    assert_eq!(r, Err(Error::Authority(ParseError::InvalidByte(3))));
}

#[test]
fn poisoned_builder_ignores_later_setters() {
    let r = Builder::new()
        .scheme("")
        .scheme("https")
        .authority("example.org")
        .path_and_query("/")
        .build();
    assert_eq!(r, Err(Error::Scheme(ParseError::Empty)));
}

#[test]
fn setter_order_does_not_matter() {
    let a = Builder::new()
        .scheme("https")
        .authority("example.org")
        .path_and_query("/x")
        .build()
        .unwrap();
    let b = Builder::new()
        .path_and_query("/x")
        .authority("example.org")
        .scheme("https")
        .build()
        .unwrap();
    assert_eq!(a, b);
    let e1 = Builder::new().authority("example.org").path_and_query("/x").build();
    let e2 = Builder::new().path_and_query("/x").authority("example.org").build();
    assert_eq!(e1, Err(Error::Shape(ShapeError::MissingScheme)));
    assert_eq!(e1, e2);
}

#[test]
fn validated_components_are_taken_as_they_are() {
    let s = Scheme::parse(b"https").unwrap();
    let a = Authority::parse(b"example.org").unwrap();
    let p = PathAndQuery::parse(b"/v").unwrap();
    let u = Builder::new().scheme(s).authority(a).path_and_query(p).build().unwrap();
    assert_eq!(u.to_bytes(), b"https://example.org/v".to_vec());
}

#[test]
fn byte_inputs_are_accepted() {
    let u = Builder::new()
        .scheme(&b"ftp"[..])
        .authority(&b"files.example"[..])
        .path_and_query(&b"/pub"[..])
        .build()
        .unwrap();
    assert_eq!(u.to_bytes(), b"ftp://files.example/pub".to_vec());
    let r = Builder::new().scheme(&b"f\xfftp"[..]).build();
    assert_eq!(r, Err(Error::Scheme(ParseError::InvalidByte(1))));
}

#[test]
fn failed_conversion_discards_parts() {
    let u = uri("https", "example.org", "/a");
    let r = Builder::from(u).path_and_query("/a b").build();
    assert_eq!(r, Err(Error::PathAndQuery(ParseError::InvalidByte(2))));
}

#[test]
fn scheme_length_limit() {
    let ok = "a".repeat(64);
    let long = "a".repeat(65);
    assert!(Scheme::parse(ok.as_bytes()).is_ok());
    assert_eq!(Scheme::parse(long.as_bytes()), Err(Error::Scheme(ParseError::TooLong)));
    let r = Builder::new().scheme(long.as_str()).build();
    assert_eq!(r, Err(Error::Scheme(ParseError::TooLong)));
}

#[test]
fn scheme_grammar() {
    assert!(Scheme::parse(b"svn+ssh").is_ok());
    assert!(Scheme::parse(b"a1.-").is_ok());
    assert_eq!(Scheme::parse(b"1http"), Err(Error::Scheme(ParseError::InvalidByte(0))));
    assert_eq!(Scheme::parse(b"http:"), Err(Error::Scheme(ParseError::InvalidByte(4))));
    assert_eq!(Scheme::parse(b""), Err(Error::Scheme(ParseError::Empty)));
}

#[test]
fn authority_grammar() {
    assert!(Authority::parse(b"user:pw@[::1]:8080").is_ok());
    assert_eq!(Authority::parse(b""), Err(Error::Authority(ParseError::Empty)));
    assert_eq!(Authority::parse(b"a/b"), Err(Error::Authority(ParseError::InvalidByte(1))));
    let r = Builder::new().authority("ex\u{e4}mple.org").build();
    assert_eq!(r, Err(Error::Authority(ParseError::InvalidByte(2))));
}

#[test]
fn path_and_query_grammar() {
    assert_eq!(PathAndQuery::parse(b"").unwrap().as_bytes(), b"");
    assert!(PathAndQuery::parse(b"/a/b;c=d?x=1&y=%20").is_ok());
    assert_eq!(PathAndQuery::parse(b"/a#frag"), Err(Error::PathAndQuery(ParseError::InvalidByte(2))));
}

#[test]
fn shape_errors() {
    let r = Builder::new().scheme("https").build();
    assert_eq!(r, Err(Error::Shape(ShapeError::MissingAuthority)));
    let r = Builder::new().scheme("https").authority("example.org").build();
    assert_eq!(r, Err(Error::Shape(ShapeError::MissingPathAndQuery)));
    let r = Builder::new().scheme("https").path_and_query("/").build();
    assert_eq!(r, Err(Error::Shape(ShapeError::MissingAuthority)));
    let r = Builder::new().scheme("https").authority("example.org").path_and_query("x").build();
    assert_eq!(r, Err(Error::Shape(ShapeError::RelativePathAfterAuthority)));
    let u = Builder::new().scheme("https").authority("example.org").path_and_query("?q").build().unwrap();
    assert_eq!(u.to_bytes(), b"https://example.org?q".to_vec());
    let u = Builder::new().scheme("https").authority("example.org").path_and_query("").build().unwrap();
    assert_eq!(u.to_bytes(), b"https://example.org".to_vec());
}

#[test]
fn from_parts_directly() {
    let u = Uri::from_parts(Parts::default()).unwrap();
    assert_eq!(u.to_bytes(), Vec::<u8>::new());
    let parts = Parts {
        scheme: Some(Scheme::parse(b"http").unwrap()),
        authority: None,
        path_and_query: Some(PathAndQuery::parse(b"/").unwrap()),
    };
    assert_eq!(Uri::from_parts(parts), Err(Error::Shape(ShapeError::MissingAuthority)));
    let back = uri("http", "h", "/p").into_parts();
    assert_eq!(back.scheme.unwrap().as_bytes(), b"http");
    assert_eq!(back.authority.unwrap().as_bytes(), b"h");
    assert_eq!(back.path_and_query.unwrap().as_bytes(), b"/p");
}
