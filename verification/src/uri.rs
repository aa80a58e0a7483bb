//! Building the address a request is forwarded to, and parsing it with the
//! `http` crate's URI parser (as re-exported by `hyper`).

use vstd::prelude::*;

verus! {

#[verifier::external_type_specification]
#[verifier::external_body]
pub struct ExUri(hyper::Uri);

#[verifier::external_type_specification]
#[verifier::external_body]
pub struct ExInvalidUri(hyper::http::uri::InvalidUri);

/// Whether `hyper::Uri::from_str` accepts `text` (the text taken as its
/// characters).
pub uninterp spec fn uri_accepts(text: Seq<char>) -> bool;

/// The URI that `hyper::Uri::from_str` gives for `text`, where it accepts it.
pub uninterp spec fn parsed_uri(text: Seq<char>) -> hyper::Uri;

/// `r` is what parsing `text` gives: success exactly when the parser accepts
/// the text, and then the URI it makes of it.
pub open spec fn parse_outcome(
    r: Result<hyper::Uri, hyper::http::uri::InvalidUri>,
    text: Seq<char>,
) -> bool {
    &&& (r is Ok <==> uri_accepts(text))
    &&& (r matches Ok(u) ==> u == parsed_uri(text))
}

/// Wraps `<hyper::Uri as FromStr>::from_str` (that is, `http::Uri`): parses
/// `text` as a URI. The contract says that success and the URI made are
/// functions of the text alone, named `uri_accepts` and `parsed_uri`; what
/// the URI holds is not stated.
#[verifier::external_body]
fn parse_uri(text: &str) -> (r: Result<hyper::Uri, hyper::http::uri::InvalidUri>)
    ensures
        r is Ok <==> uri_accepts(text@),
        r matches Ok(u) ==> u == parsed_uri(text@),
{
    <hyper::Uri as std::str::FromStr>::from_str(text)
}

/// The path-and-query part as characters; empty when there is none.
pub open spec fn path_and_query_chars(path_and_query: Option<Seq<char>>) -> Seq<char> {
    match path_and_query {
        Some(p) => p,
        None => Seq::empty(),
    }
}

/// The URI a request is forwarded to: `http://`, the worker's address, then
/// the original request's path and query.
pub open spec fn forward_uri_text(worker_addr: Seq<char>, path_and_query: Option<Seq<char>>) -> Seq<
    char,
> {
    "http://"@ + worker_addr + path_and_query_chars(path_and_query)
}

/// The view of an optional string slice.
pub open spec fn opt_str_view(s: Option<&str>) -> Option<Seq<char>> {
    match s {
        Some(p) => Some(p@),
        None => None,
    }
}

/// Builds the URI text a request is forwarded to.
pub fn worker_uri(worker_addr: &str, path_and_query: Option<&str>) -> (r: String)
    ensures
        r@ == forward_uri_text(worker_addr@, opt_str_view(path_and_query)),
        path_and_query matches Some(p) ==> r@ == seq!['h', 't', 't', 'p', ':', '/', '/']
            + worker_addr@ + p@,
        path_and_query is None ==> r@ == seq!['h', 't', 't', 'p', ':', '/', '/'] + worker_addr@,
{
    let mut s = String::from_str("http://");
    s.append(worker_addr);
    match path_and_query {
        Some(p) => {
            s.append(p);
        },
        None => {},
    }
    proof {
        reveal_strlit("http://");
        assert(s@ =~= forward_uri_text(worker_addr@, opt_str_view(path_and_query)));
        match path_and_query {
            Some(p) => crate::laws::lemma_forward_uri_text(worker_addr@, p@),
            None => crate::laws::lemma_forward_uri_text(worker_addr@, Seq::empty()),
        }
    }
    s
}

/// Builds the forwarding URI for `worker_addr` and parses it; the parse
/// succeeds exactly when `hyper::Uri` accepts the text.
pub fn parse_worker_uri(worker_addr: &str, path_and_query: Option<&str>) -> (r: Result<
    hyper::Uri,
    hyper::http::uri::InvalidUri,
>)
    ensures
        parse_outcome(r, forward_uri_text(worker_addr@, opt_str_view(path_and_query))),
{
    let text = worker_uri(worker_addr, path_and_query);
    parse_uri(text.as_str())
}

} // verus!
