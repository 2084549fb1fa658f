//! The provider's two endpoints and the handle of a pending authorization.

use vstd::prelude::*;
use vstd::string::{StrSliceExecFns, StringExecFns};

verus! {

/// Path of the endpoint that starts an authorization.
pub const AUTH_PATH: &'static str = "/api/oidc/auth";

/// Path of the endpoint that is asked whether the user has authorized.
pub const AUTH_QUERY_PATH: &'static str = "/api/oidc/auth-query";

/// Longest address, in characters, that is parsed with parameters.
pub const MAX_URL_CHARS: usize = 0x0100_0000;

/// Longest parameter, in characters, that is added to an address.
pub const MAX_PARAM_CHARS: usize = 0x0040_0000;

/// Largest number of parameters that are added to an address.
pub const MAX_PARAMS: usize = 16;

/// Trusted: `url::ParseError`, the reason for which the `url` crate does not
/// parse a text. Nothing is claimed of its values.
#[verifier::external_type_specification]
#[verifier::external_body]
pub struct ExParseError(url::ParseError);

/// The serialization of the absolute URL that `input` is parsed to by the
/// `url` crate, or `None` where it is not parsed to one.
pub uninterp spec fn url_parse(input: Seq<char>) -> Option<Seq<char>>;

/// As `url_parse`, with `params` added to the URL's query, in their order.
pub uninterp spec fn url_parse_with_params(
    input: Seq<char>,
    params: Seq<(Seq<char>, Seq<char>)>,
) -> Option<Seq<char>>;

/// The names and values of `params` as texts.
pub open spec fn params_view(params: Seq<(&str, &str)>) -> Seq<(Seq<char>, Seq<char>)> {
    params.map_values(|p: (&str, &str)| (p.0@, p.1@))
}

/// Trusted: `url::Url::parse`, and the conversion of the URL to its
/// serialization. The result is a function of `input` alone, named
/// `url_parse`; nothing more is claimed of it.
#[verifier::external_body]
fn parse_url(input: &str) -> (r: Result<String, url::ParseError>)
    ensures
        match r {
            Ok(text) => url_parse(input@) == Some(text@),
            Err(_) => url_parse(input@) is None,
        },
{
    url::Url::parse(input).map(String::from)
}

/// Trusted: `url::Url::parse_with_params`, and the conversion of the URL to
/// its serialization. The result is a function of `input` and `params`
/// alone, named `url_parse_with_params`. One thing more is claimed of it,
/// which the function's body shows: it parses `input` as `url::Url::parse`
/// does and then adds the parameters, so it fails exactly where that fails.
/// The bounds keep the serialization under the 4 GiB past which the crate
/// stops with a panic: a character takes at most 4 bytes, and a byte at most
/// 3 bytes once it is escaped.
#[verifier::external_body]
fn parse_url_with_params(input: &str, params: &Vec<(&str, &str)>) -> (r: Result<
    String,
    url::ParseError,
>)
    requires
        input@.len() <= MAX_URL_CHARS,
        params.len() <= MAX_PARAMS,
        forall|i: int|
            0 <= i < params.len() ==> (#[trigger] params[i]).0@.len() <= MAX_PARAM_CHARS
                && params[i].1@.len() <= MAX_PARAM_CHARS,
    ensures
        match r {
            Ok(text) => url_parse_with_params(input@, params_view(params@)) == Some(text@),
            Err(_) => url_parse_with_params(input@, params_view(params@)) is None,
        },
        r is Ok <==> url_parse(input@) is Some,
{
    url::Url::parse_with_params(input, params.iter()).map(String::from)
}

/// A text that is not parsed to an absolute URL.
#[derive(Debug, Clone, Copy, PartialEq, Eq, Structural)]
pub struct InvalidUrl;

/// One pending authorization at the provider: the code by which it is found
/// again, and the page that the user has to visit.
#[derive(Debug)]
pub struct OidcAuthUrl {
    code: String,
    url: String,
}

pub struct OidcAuthUrlView {
    pub code: Seq<char>,
    pub url: Seq<char>,
}

impl OidcAuthUrlView {
    /// The page's address is the serialization of an absolute URL.
    pub open spec fn wf(self) -> bool {
        exists|input: Seq<char>| #[trigger] url_parse(input) == Some(self.url)
    }
}

impl View for OidcAuthUrl {
    type V = OidcAuthUrlView;

    closed spec fn view(&self) -> OidcAuthUrlView {
        OidcAuthUrlView { code: self.code@, url: self.url@ }
    }
}

impl Clone for OidcAuthUrl {
    fn clone(&self) -> (r: Self)
        ensures
            r@ == self@,
    {
        proof {
            use_type_invariant(self);
        }
        OidcAuthUrl { code: self.code.clone(), url: self.url.clone() }
    }
}

impl OidcAuthUrl {
    #[verifier::type_invariant]
    spec fn well_formed(self) -> bool {
        self@.wf()
    }

    /// The handle with this code and the page at `url`, which is kept in the
    /// form that the `url` crate writes it in. Fails exactly where `url` is
    /// not parsed to an absolute URL.
    pub fn new(code: String, url: &str) -> (r: Result<OidcAuthUrl, InvalidUrl>)
        ensures
            match r {
                Ok(handle) => url_parse(url@) == Some(handle@.url) && handle@.code == code@
                    && handle@.wf(),
                Err(_) => url_parse(url@) is None,
            },
    {
        match parse_url(url) {
            Ok(text) => Ok(OidcAuthUrl { code, url: text }),
            Err(_) => Err(InvalidUrl),
        }
    }

    /// The code by which the provider finds this authorization again.
    pub fn code(&self) -> (r: &String)
        ensures
            r@ == self@.code,
            self@.wf(),
    {
        proof {
            use_type_invariant(self);
        }
        &self.code
    }

    /// The page that the user has to visit: the serialization of an absolute
    /// URL.
    pub fn url(&self) -> (r: &String)
        ensures
            r@ == self@.url,
            self@.wf(),
    {
        proof {
            use_type_invariant(self);
        }
        &self.url
    }
}

/// The address of the endpoint that starts an authorization.
pub open spec fn auth_endpoint_text(api_server: Seq<char>) -> Seq<char> {
    api_server + AUTH_PATH@
}

/// The address, before its parameters, of the endpoint that is asked whether
/// the user has authorized.
pub open spec fn query_endpoint_text(api_server: Seq<char>) -> Seq<char> {
    api_server + AUTH_QUERY_PATH@
}

/// What is sent to start an authorization: the operation, and the device's
/// id and uuid.
pub open spec fn auth_form_view(op: Seq<char>, id: Seq<char>, uuid: Seq<char>) -> Seq<
    (Seq<char>, Seq<char>),
> {
    seq![("op"@, op), ("id"@, id), ("uuid"@, uuid)]
}

/// The parameters of the question whether the user has authorized.
pub open spec fn query_params_view(code: Seq<char>, id: Seq<char>, uuid: Seq<char>) -> Seq<
    (Seq<char>, Seq<char>),
> {
    seq![("code"@, code), ("id"@, id), ("uuid"@, uuid)]
}

/// The address to which the request that starts an authorization is posted.
pub fn auth_endpoint(api_server: &str) -> (r: String)
    ensures
        r@ == auth_endpoint_text(api_server@),
{
    String::from_str(api_server).concat(AUTH_PATH)
}

/// The fields of the request that starts an authorization.
pub fn auth_form(op: &str, id: &str, uuid: &str) -> (r: Vec<(String, String)>)
    ensures
        r.deep_view() == auth_form_view(op@, id@, uuid@),
{
    let mut r: Vec<(String, String)> = Vec::new();
    r.push((String::from_str("op"), String::from_str(op)));
    r.push((String::from_str("id"), String::from_str(id)));
    r.push((String::from_str("uuid"), String::from_str(uuid)));
    proof {
        assert(r.deep_view() =~= auth_form_view(op@, id@, uuid@));
    }
    r
}

/// Why no URL was made of an address and its parameters.
#[derive(Debug, Clone, Copy, PartialEq, Eq, Structural)]
pub enum UrlError {
    /// The address or a parameter is longer than the URL parser is known to
    /// take.
    TooLong,
    /// The address is not parsed to an absolute URL.
    Invalid,
}

/// The URL that is fetched to ask whether the user has authorized, or why
/// there is none.
pub open spec fn query_url_text(
    api_server: Seq<char>,
    code: Seq<char>,
    id: Seq<char>,
    uuid: Seq<char>,
) -> Result<Seq<char>, UrlError> {
    if api_server.len() + AUTH_QUERY_PATH@.len() > MAX_URL_CHARS || code.len() > MAX_PARAM_CHARS
        || id.len() > MAX_PARAM_CHARS || uuid.len() > MAX_PARAM_CHARS {
        Err(UrlError::TooLong)
    } else {
        match url_parse_with_params(
            query_endpoint_text(api_server),
            query_params_view(code, id, uuid),
        ) {
            Some(url) => Ok(url),
            None => Err(UrlError::Invalid),
        }
    }
}

/// A URL or the reason for its absence, as texts.
pub open spec fn url_result_view(r: Result<String, UrlError>) -> Result<Seq<char>, UrlError> {
    match r {
        Ok(url) => Ok(url@),
        Err(e) => Err(e),
    }
}

/// The URL that is fetched to ask whether the user has authorized: the
/// endpoint under `api_server` with `code`, `id` and `uuid` as its query, in
/// the form that the `url` crate writes it in.
pub fn query_url(api_server: &str, code: &str, id: &str, uuid: &str) -> (r: Result<
    String,
    UrlError,
>)
    ensures
        url_result_view(r) == query_url_text(api_server@, code@, id@, uuid@),
        r == Err::<String, UrlError>(UrlError::Invalid) ==> url_parse(
            query_endpoint_text(api_server@),
        ) is None,
        r is Ok ==> url_parse(query_endpoint_text(api_server@)) is Some,
{
    proof {
        reveal_strlit("/api/oidc/auth-query");
    }
    if api_server.unicode_len() > MAX_URL_CHARS - 20 || code.unicode_len() > MAX_PARAM_CHARS
        || id.unicode_len() > MAX_PARAM_CHARS || uuid.unicode_len() > MAX_PARAM_CHARS {
        return Err(UrlError::TooLong);
    }
    let endpoint = String::from_str(api_server).concat(AUTH_QUERY_PATH);
    let params: Vec<(&str, &str)> = vec![("code", code), ("id", id), ("uuid", uuid)];
    proof {
        reveal_strlit("code");
        reveal_strlit("id");
        reveal_strlit("uuid");
        assert(params_view(params@) =~= query_params_view(code@, id@, uuid@));
    }
    match parse_url_with_params(endpoint.as_str(), &params) {
        Ok(url) => Ok(url),
        Err(_) => Err(UrlError::Invalid),
    }
}

} // verus!
