use vstd::prelude::*;
use vstd::string::StringExecFns;
use crate::error::Error;
use crate::helper::{join, join_spec};
use crate::types::{TokenInfo, body_has_token, json_token_fields};

verus! {

/// The default base URL for an access-token request to the metadata server.
pub open spec fn default_access_token_url() -> Seq<char> {
    "http://metadata.google.internal/computeMetadata/v1/instance/service-accounts/default/token"@
}

/// The default base URL for an identity-token request to the metadata server.
pub open spec fn default_identity_token_url() -> Seq<char> {
    "http://metadata.google.internal/computeMetadata/v1/instance/service-accounts/default/identity"@
}

/// The query-parameter name for the given mode. The identity endpoint takes
/// the target audience under the same positional slot that the access-token
/// endpoint uses for scopes, so the name switches with the mode and with
/// nothing else.
pub open spec fn query_param_name(id_token: bool) -> Seq<char> {
    if id_token {
        "audience"@
    } else {
        "scopes"@
    }
}

/// The full request URL: the base URL, then `?`, the mode's parameter name,
/// `=`, and the comma-join of the scopes in their original order.
pub open spec fn token_uri_spec(base: Seq<char>, id_token: bool, scopes: Seq<Seq<char>>) -> Seq<char> {
    base + "?"@ + query_param_name(id_token) + "="@ + join_spec(scopes, ","@)
}

/// Options for the application-default-credentials flow, mostly used for testing.
#[derive(Clone, Debug)]
pub struct ApplicationDefaultCredentialsFlowOpts {
    /// Used as base to build the URL during a token request to the metadata server.
    pub metadata_url: Option<String>,
    /// If true, asks for an ID token instead of an OAuth access token.
    pub id_token: bool,
}

impl Default for ApplicationDefaultCredentialsFlowOpts {
    /// No URL override, access-token mode.
    fn default() -> (r: Self)
        ensures
            r.metadata_url is None,
            !r.id_token,
    {
        ApplicationDefaultCredentialsFlowOpts { metadata_url: None, id_token: false }
    }
}

/// One GET request to the metadata server, ready for a transport to issue:
/// the target URL, the fixed `Metadata-Flavor: Google` header, and an empty
/// body.
pub struct TokenRequest {
    /// The full target URL, query string included.
    pub url: String,
    /// The name of the one request header, always `Metadata-Flavor`.
    pub header_name: String,
    /// The value of the one request header, always `Google`.
    pub header_value: String,
    /// The request body, always empty.
    pub body: String,
}

/// What a transport hands back from a completed HTTP exchange: the status
/// code and the whole response body.
pub struct HttpResponse {
    /// The HTTP status code of the response.
    pub status: u16,
    /// The raw bytes of the response body.
    pub body: Vec<u8>,
}

/// A caller-supplied HTTP transport, able to issue a single GET request and
/// return the response, or a message describing why the exchange could not
/// complete. Connection establishment, deadlines and cancellation are the
/// transport's concern, not the flow's.
pub trait HttpTransport {
    /// Issues the request and returns the full response.
    fn get(&mut self, request: &TokenRequest) -> Result<HttpResponse, String>;
}

/// Provides tokens from a cloud instance's local metadata service, which
/// authorizes requests by network topology rather than by anything carried in
/// the request. Immutable after construction: exactly one of access-token or
/// identity-token semantics is active for the flow's whole lifetime.
pub struct ApplicationDefaultCredentialsFlow {
    metadata_url: String,
    id_token: bool,
}

impl ApplicationDefaultCredentialsFlow {
    /// The configured base URL.
    pub closed spec fn spec_metadata_url(&self) -> Seq<char> {
        self.metadata_url@
    }

    /// True when the flow asks for an identity token instead of an access token.
    pub closed spec fn spec_id_token(&self) -> bool {
        self.id_token
    }

    /// Builds a flow from the options. When no base-URL override is given, the
    /// default URL for the chosen token kind is used; an override is taken
    /// exactly as given, and the default is then ignored entirely. Never
    /// fails, and performs no I/O.
    pub fn new(opts: ApplicationDefaultCredentialsFlowOpts) -> (r: Self)
        ensures
            r.spec_id_token() == opts.id_token,
            opts.metadata_url matches Some(url) ==> r.spec_metadata_url() == url@,
            opts.metadata_url is None && !opts.id_token ==> r.spec_metadata_url()
                == default_access_token_url(),
            opts.metadata_url is None && opts.id_token ==> r.spec_metadata_url()
                == default_identity_token_url(),
    {
        let id_token = opts.id_token;
        let metadata_url = match opts.metadata_url {
            Some(url) => url,
            None => {
                if id_token {
                    "http://metadata.google.internal/computeMetadata/v1/instance/service-accounts/default/identity".to_owned()
                } else {
                    "http://metadata.google.internal/computeMetadata/v1/instance/service-accounts/default/token".to_owned()
                }
            },
        };
        ApplicationDefaultCredentialsFlow { metadata_url, id_token }
    }

    /// Builds the request for the given scopes: the configured base URL with
    /// the mode's query parameter carrying the comma-joined scopes, the fixed
    /// `Metadata-Flavor: Google` header, and an empty body. In identity-token
    /// mode the scopes are the target audience, carried under the parameter
    /// name `audience`.
    pub fn build_request(&self, scopes: &Vec<String>) -> (r: TokenRequest)
        ensures
            r.url@ == token_uri_spec(self.spec_metadata_url(), self.spec_id_token(), scopes.deep_view()),
            r.header_name@ == "Metadata-Flavor"@,
            r.header_value@ == "Google"@,
            r.body@ == Seq::<char>::empty(),
    {
        let scope = join(scopes, ",");
        let mut url = self.metadata_url.clone();
        url.append("?");
        if self.id_token {
            url.append("audience");
        } else {
            url.append("scopes");
        }
        url.append("=");
        url.append(scope.as_str());
        TokenRequest {
            url,
            header_name: "Metadata-Flavor".to_owned(),
            header_value: "Google".to_owned(),
            body: String::new(),
        }
    }

    /// Decodes a transport's response. A non-success status yields a
    /// transport error carrying that status, and the body is not parsed; a
    /// success status hands the body to the token parser and returns its
    /// verdict.
    pub fn decode_response(response: &HttpResponse) -> (r: Result<TokenInfo, Error>)
        ensures
            !(200 <= response.status < 300) ==> (r matches Err(e) && e.is_status_fault(
                response.status,
            )),
            200 <= response.status < 300 && body_has_token(response.body@) ==> (r matches Ok(t)
                && Some(t@) == json_token_fields(response.body@)),
            200 <= response.status < 300 && !body_has_token(response.body@) ==> (r matches Err(e)
                && e is MalformedResponseError),
    {
        if response.status < 200 || response.status >= 300 {
            Err(Error::TransportError(
                Some(response.status),
                "non-success status from metadata server".to_owned(),
            ))
        } else {
            TokenInfo::from_json(&response.body)
        }
    }

    /// Requests a token through the transport: builds the request for the
    /// scopes, issues one GET, and decodes the response. A transport fault
    /// yields a transport error carrying the transport's message; whatever
    /// response came back, a returned token holds at least one of the two
    /// token fields.
    pub fn token<T: HttpTransport>(&self, transport: &mut T, scopes: &Vec<String>) -> (r: Result<
        TokenInfo,
        Error,
    >)
        ensures
            r matches Ok(t) ==> (t@.access_token is Some || t@.id_token is Some),
            r matches Err(e) ==> (e is TransportError || e is MalformedResponseError),
    {
        let request = self.build_request(scopes);
        match transport.get(&request) {
            Err(message) => Err(Error::TransportError(None, message)),
            Ok(response) => Self::decode_response(&response),
        }
    }
}

/// With a base-URL override the request URL uses exactly the override as its
/// prefix, whatever the mode and scopes: the URL's first characters are the
/// base, and the character after them is `?`.
pub proof fn lemma_base_url_is_prefix(base: Seq<char>, id_token: bool, scopes: Seq<Seq<char>>)
    ensures
        token_uri_spec(base, id_token, scopes).take(base.len() as int) == base,
        token_uri_spec(base, id_token, scopes)[base.len() as int] == '?',
{
    let uri = token_uri_spec(base, id_token, scopes);
    assert(uri.take(base.len() as int) =~= base);
    reveal_strlit("?");
    assert(uri[base.len() as int] == "?"@[0]);
}

/// The query-parameter name is `audience` exactly in identity-token mode and
/// `scopes` otherwise, whatever the scope contents: the characters between
/// the `?` and the `=` of the request URL are the mode's parameter name.
pub proof fn lemma_param_name_by_mode(base: Seq<char>, id_token: bool, scopes: Seq<Seq<char>>)
    ensures
        token_uri_spec(base, id_token, scopes).subrange(
            base.len() as int + 1,
            base.len() as int + 1 + query_param_name(id_token).len() as int,
        ) == query_param_name(id_token),
        id_token ==> query_param_name(id_token) == "audience"@,
        !id_token ==> query_param_name(id_token) == "scopes"@,
{
    let uri = token_uri_spec(base, id_token, scopes);
    let name = query_param_name(id_token);
    reveal_strlit("?");
    assert(uri.subrange(base.len() as int + 1, base.len() as int + 1 + name.len() as int) =~= name);
}

/// The query string after the `=` is the comma-join of the scopes in their
/// original order, with no sorting and no deduplication.
pub proof fn lemma_query_value_is_joined_scopes(
    base: Seq<char>,
    id_token: bool,
    scopes: Seq<Seq<char>>,
)
    ensures
        token_uri_spec(base, id_token, scopes).skip(
            base.len() as int + 1 + query_param_name(id_token).len() as int + 1,
        ) == join_spec(scopes, ","@),
{
    let uri = token_uri_spec(base, id_token, scopes);
    let name = query_param_name(id_token);
    reveal_strlit("?");
    reveal_strlit("=");
    assert(uri.skip(base.len() as int + 1 + name.len() as int + 1) =~= join_spec(scopes, ","@));
}

} // verus!
