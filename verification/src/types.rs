use vstd::prelude::*;
use crate::error::Error;

verus! {

/// The mathematical content of a [`TokenInfo`]: each field as an optional
/// sequence of characters, and the expiry as an optional integer.
pub struct TokenInfoView {
    pub access_token: Option<Seq<char>>,
    pub id_token: Option<Seq<char>>,
    pub token_type: Option<Seq<char>>,
    pub expires_in: Option<int>,
}

/// A token acquired from the metadata service: an OAuth access token or an
/// OpenID Connect identity token, with the kind and expiry the service
/// reported. Created fresh on every successful call; never cached or mutated
/// by the flow.
#[derive(Clone, Debug, PartialEq, Eq)]
pub struct TokenInfo {
    /// The bearer credential, when the service issued an access token.
    pub access_token: Option<String>,
    /// The identity assertion, when the service issued an identity token.
    pub id_token: Option<String>,
    /// The token kind the service reported, usually `Bearer`.
    pub token_type: Option<String>,
    /// Seconds until the token expires, counted from when it was issued.
    pub expires_in: Option<i64>,
}

impl View for TokenInfo {
    type V = TokenInfoView;

    open spec fn view(&self) -> TokenInfoView {
        TokenInfoView {
            access_token: self.access_token.deep_view(),
            id_token: self.id_token.deep_view(),
            token_type: self.token_type.deep_view(),
            expires_in: match self.expires_in {
                Some(n) => Some(n as int),
                None => None,
            },
        }
    }
}

impl DeepView for TokenInfo {
    type V = TokenInfoView;

    open spec fn deep_view(&self) -> TokenInfoView {
        self.view()
    }
}

/// The token fields that the JSON parser reads out of a response body:
/// `None` when the bytes are not a JSON document, otherwise the values of the
/// `access_token`, `id_token`, `token_type` and `expires_in` members, each
/// absent when the document lacks it or gives it another type. A function of
/// the bytes alone.
pub uninterp spec fn json_token_fields(body: Seq<u8>) -> Option<TokenInfoView>;

/// Relies on serde_json::from_slice and serde_json::Value's `get`, `as_str`
/// and `as_i64` accessors: parses the bytes as JSON and reads the four token
/// fields; the result depends on the bytes alone.
#[verifier::external_body]
fn parse_token_fields(body: &Vec<u8>) -> (r: Option<TokenInfo>)
    ensures
        r.deep_view() == json_token_fields(body@),
{
    let v: serde_json::Value = match serde_json::from_slice(body) {
        Ok(v) => v,
        Err(_) => return None,
    };
    Some(TokenInfo {
        access_token: v.get("access_token").and_then(serde_json::Value::as_str).map(str::to_owned),
        id_token: v.get("id_token").and_then(serde_json::Value::as_str).map(str::to_owned),
        token_type: v.get("token_type").and_then(serde_json::Value::as_str).map(str::to_owned),
        expires_in: v.get("expires_in").and_then(serde_json::Value::as_i64),
    })
}

/// True when a parse of the body yields the expected token shape: a JSON
/// document carrying at least one of the two token members.
pub open spec fn body_has_token(body: Seq<u8>) -> bool {
    match json_token_fields(body) {
        Some(f) => f.access_token is Some || f.id_token is Some,
        None => false,
    }
}

impl TokenInfo {
    /// Parses a response body into a token. Returns the parsed fields exactly
    /// when the body is a JSON document holding an access token or an identity
    /// token, and `MalformedResponseError` on every other body.
    pub fn from_json(body: &Vec<u8>) -> (r: Result<TokenInfo, Error>)
        ensures
            body_has_token(body@) ==> (r matches Ok(t) && Some(t@) == json_token_fields(body@)),
            !body_has_token(body@) ==> (r matches Err(e) && e is MalformedResponseError),
    {
        match parse_token_fields(body) {
            None => Err(Error::MalformedResponseError),
            Some(t) => {
                if t.access_token.is_none() && t.id_token.is_none() {
                    Err(Error::MalformedResponseError)
                } else {
                    Ok(t)
                }
            },
        }
    }
}

} // verus!
