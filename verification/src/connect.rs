use vstd::prelude::*;
use std::str::FromStr;
use tonic::transport::Uri;
use tonic::codegen::http::uri::InvalidUri;

verus! {

#[verifier::external_type_specification]
#[verifier::external_body]
pub struct ExUri(Uri);

#[verifier::external_type_specification]
#[verifier::external_body]
pub struct ExInvalidUri(InvalidUri);

/// Whether the URI parser of the `http` crate accepts this text.
pub uninterp spec fn uri_accepts(text: Seq<char>) -> bool;

/// The scheme that the URI parser of the `http` crate finds in this text, when it
/// accepts it.
pub uninterp spec fn uri_scheme_of(text: Seq<char>) -> Option<Seq<char>>;

/// An ASCII letter in lower case; other characters as they are.
pub open spec fn ascii_lower(c: char) -> char {
    if 'A' <= c && c <= 'Z' {
        ((c as u32) + 32) as char
    } else {
        c
    }
}

/// The text begins with `https://`, in any ASCII case.
pub open spec fn begins_with_https(text: Seq<char>) -> bool {
    &&& text.len() >= 8
    &&& forall|i: int| 0 <= i < 8 ==> ascii_lower(#[trigger] text[i]) == "https://"@[i]
}

/// A URI parsed from a text, together with that text, which only the parse sets.
pub struct ParsedUri {
    uri: Uri,
    source: Ghost<Seq<char>>,
}

impl ParsedUri {
    /// The text that this URI was parsed from.
    pub closed spec fn source(&self) -> Seq<char> {
        self.source@
    }

    /// The parsed URI itself.
    pub closed spec fn parsed(&self) -> Uri {
        self.uri
    }

    pub fn uri(&self) -> (res: &Uri)
        ensures
            *res == self.parsed(),
    {
        &self.uri
    }

    pub fn into_uri(self) -> (res: Uri)
        ensures
            res == self.parsed(),
    {
        self.uri
    }
}

/// Parses a server endpoint with `<http::Uri as FromStr>::from_str` and reads its
/// scheme with `http::Uri::scheme_str`, copied into a `String`. The claims: the parse
/// succeeds exactly on the texts that `uri_accepts` names; the URI is the parse of
/// `text`; the scheme is the one that `uri_scheme_of` names, both functions of the
/// text alone; and, as the scheme parser shows, an accepted text has the scheme
/// `https` exactly when it begins with `https://` in any ASCII case. What else the
/// parsed URI holds is not stated.
#[verifier::external_body]
fn parse_uri(text: &str) -> (res: Result<(ParsedUri, Option<String>), InvalidUri>)
    ensures
        res is Ok <==> uri_accepts(text@),
        res matches Ok(p) ==> p.0.source() == text@,
        res matches Ok(p) ==> opt_view(p.1) == uri_scheme_of(text@),
        res matches Ok(p) ==> (opt_view(p.1) == Some("https"@) <==> begins_with_https(text@)),
{
    match Uri::from_str(text) {
        Ok(uri) => {
            let scheme = match uri.scheme_str() {
                Some(s) => Some(s.to_string()),
                None => None,
            };
            Ok((ParsedUri { uri, source: Ghost(text@) }, scheme))
        },
        Err(e) => Err(e),
    }
}

/// How the client reaches the server.
#[derive(Debug, Clone, Copy, PartialEq, Eq, Structural)]
pub enum ConnectMode {
    /// A gRPC channel of its own, with TLS when `tls` holds.
    Channel { tls: bool },
    /// The HTTPS client with the shared TLS configuration, as the library build uses.
    SharedHttps,
}

pub open spec fn is_https(scheme: Option<Seq<char>>) -> bool {
    scheme == Some("https"@)
}

/// The program connects through a channel of its own, with TLS for `https`; the
/// library build does so too except for `https`, which goes through the shared client.
pub open spec fn connect_mode_spec(lib: bool, scheme: Option<Seq<char>>) -> ConnectMode {
    if !lib || !is_https(scheme) {
        ConnectMode::Channel { tls: is_https(scheme) }
    } else {
        ConnectMode::SharedHttps
    }
}

pub open spec fn opt_view(s: Option<String>) -> Option<Seq<char>> {
    match s {
        Some(t) => Some(t@),
        None => None,
    }
}

/// Whatever the build, a channel of its own uses TLS exactly for the `https`
/// scheme; the program always uses such a channel, and the library build uses the
/// shared HTTPS client exactly for `https`.
pub proof fn lemma_tls_exactly_for_https(lib: bool, scheme: Option<Seq<char>>)
    ensures
        connect_mode_spec(lib, scheme) matches ConnectMode::Channel { tls } ==> (tls <==> scheme
            == Some("https"@)),
        !lib ==> connect_mode_spec(lib, scheme) is Channel,
        lib ==> (connect_mode_spec(lib, scheme) == ConnectMode::SharedHttps <==> scheme == Some(
            "https"@,
        )),
{
}

pub fn connect_mode(lib: bool, scheme: &Option<String>) -> (res: ConnectMode)
    ensures
        res == connect_mode_spec(lib, opt_view(*scheme)),
        res matches ConnectMode::Channel { tls } ==> (tls <==> opt_view(*scheme) == Some(
            "https"@,
        )),
{
    let https = match scheme {
        Some(s) => {
            let h = "https".to_owned();
            *s == h
        },
        None => false,
    };
    if !lib || !https {
        ConnectMode::Channel { tls: https }
    } else {
        ConnectMode::SharedHttps
    }
}

/// Why no connection plan could be made.
#[derive(Debug, Clone, Copy, PartialEq, Eq, Structural)]
pub enum PlanError {
    /// The server endpoint is not a URI.
    InvalidUri,
}

/// The parsed server endpoint, its scheme, and how to connect to it.
pub struct ConnectPlan {
    pub uri: ParsedUri,
    pub scheme: Option<String>,
    pub mode: ConnectMode,
}

/// Parses the server endpoint `d_addr` and decides how to connect to it: TLS exactly
/// when its scheme is `https`, through the shared client when `lib` is set too.
pub fn plan_connection(d_addr: &str, lib: bool) -> (res: Result<ConnectPlan, PlanError>)
    ensures
        res is Ok <==> uri_accepts(d_addr@),
        res matches Err(e) ==> e == PlanError::InvalidUri,
        res matches Ok(p) ==> opt_view(p.scheme) == uri_scheme_of(d_addr@),
        res matches Ok(p) ==> p.uri.source() == d_addr@,
        res matches Ok(p) ==> p.mode == connect_mode_spec(lib, uri_scheme_of(d_addr@)),
        res matches Ok(_) ==> (is_https(uri_scheme_of(d_addr@)) <==> begins_with_https(d_addr@)),
{
    match parse_uri(d_addr) {
        Ok((uri, scheme)) => {
            let mode = connect_mode(lib, &scheme);
            Ok(ConnectPlan { uri, scheme, mode })
        },
        Err(_) => Err(PlanError::InvalidUri),
    }
}

} // verus!
