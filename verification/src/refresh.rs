//! The refresh-token exchange: the token-endpoint URL and the parsing of the
//! provider's response into a refresh result.

use vstd::prelude::*;
use vstd::string::StringExecFns;

use crate::error::{Error, ErrorView};
use crate::json::{fail_message, json_string_map, parse_fail_message, parse_string_object};
use crate::pairs::{lookup, lookup_pair};

verus! {

/// The provider's answer to a successful refresh-token exchange, returned
/// verbatim; refreshed identity tokens are not verified by this exchange.
pub struct RefreshIdToken {
    pub access_token: String,
    pub expires_in: String,
    pub token_type: String,
    pub refresh_token: String,
    pub id_token: String,
    pub user_id: String,
    pub project_id: String,
}

/// The mathematical shape of [`RefreshIdToken`].
pub struct RefreshIdTokenView {
    pub access_token: Seq<char>,
    pub expires_in: Seq<char>,
    pub token_type: Seq<char>,
    pub refresh_token: Seq<char>,
    pub id_token: Seq<char>,
    pub user_id: Seq<char>,
    pub project_id: Seq<char>,
}

impl View for RefreshIdToken {
    type V = RefreshIdTokenView;

    open spec fn view(&self) -> RefreshIdTokenView {
        RefreshIdTokenView {
            access_token: self.access_token@,
            expires_in: self.expires_in@,
            token_type: self.token_type@,
            refresh_token: self.refresh_token@,
            id_token: self.id_token@,
            user_id: self.user_id@,
            project_id: self.project_id@,
        }
    }
}

/// The token-endpoint URL for a given API key, at the specification level.
pub open spec fn refresh_url_spec(api_key: Seq<char>) -> Seq<char> {
    "https://securetoken.googleapis.com/v1/token?key="@ + api_key
}

/// The token-endpoint URL, parameterized by the API key.
pub fn refresh_url(api_key: &str) -> (r: String)
    ensures
        r@ == refresh_url_spec(api_key@),
{
    let mut url: String = "https://securetoken.googleapis.com/v1/token?key=".to_owned();
    url.append(api_key);
    url
}

/// The fixed endpoint publishing the provider's signing keys.
pub fn keys_url() -> (r: String)
    ensures
        r@
            == "https://www.googleapis.com/robot/v1/metadata/x509/securetoken@system.gserviceaccount.com"@,
{
    "https://www.googleapis.com/robot/v1/metadata/x509/securetoken@system.gserviceaccount.com".to_owned()
}

/// The refresh result carried by a response body that is a JSON object of
/// string values holding all seven fields, if it is one.
pub open spec fn refresh_fields(kv: Seq<(Seq<char>, Seq<char>)>) -> Option<RefreshIdTokenView> {
    match (
        lookup(kv, "access_token"@),
        lookup(kv, "expires_in"@),
        lookup(kv, "token_type"@),
        lookup(kv, "refresh_token"@),
        lookup(kv, "id_token"@),
        lookup(kv, "user_id"@),
        lookup(kv, "project_id"@),
    ) {
        (
            Some(access_token),
            Some(expires_in),
            Some(token_type),
            Some(refresh_token),
            Some(id_token),
            Some(user_id),
            Some(project_id),
        ) => Some(
            RefreshIdTokenView {
                access_token,
                expires_in,
                token_type,
                refresh_token,
                id_token,
                user_id,
                project_id,
            },
        ),
        _ => None,
    }
}

/// The outcome of the refresh exchange, given whether the provider answered
/// with a success status and which body it sent. A failure body is expected
/// to be a structured error object whose message becomes the failure reason;
/// a success body must carry the seven string fields of the refresh result.
pub open spec fn refresh_outcome(fetch_ok: bool, body: Seq<char>) -> Result<
    RefreshIdTokenView,
    ErrorView,
> {
    if !fetch_ok {
        match fail_message(body) {
            Some(m) => Err(ErrorView::Token(m)),
            None => Err(ErrorView::Network("Failed to parse error response!"@)),
        }
    } else {
        match json_string_map(body) {
            Some(kv) => match refresh_fields(kv) {
                Some(t) => Ok(t),
                None => Err(ErrorView::Network("Failed to parse token response!"@)),
            },
            None => Err(ErrorView::Network("Failed to parse token response!"@)),
        }
    }
}

/// Parses the token-endpoint response: whether the exchange returned a
/// success status, and the body it carried.
pub fn parse_refresh_response(fetch_ok: bool, body: &str) -> (r: Result<RefreshIdToken, Error>)
    ensures
        match r {
            Ok(t) => refresh_outcome(fetch_ok, body@) == Ok::<RefreshIdTokenView, ErrorView>(t@),
            Err(e) => refresh_outcome(fetch_ok, body@) == Err::<RefreshIdTokenView, ErrorView>(e@),
        },
{
    if !fetch_ok {
        return match parse_fail_message(body) {
            Some(m) => Err(Error::Token(m)),
            None => Err(Error::Network("Failed to parse error response!".to_owned())),
        };
    }
    let kv = match parse_string_object(body) {
        Some(kv) => kv,
        None => {
            return Err(Error::Network("Failed to parse token response!".to_owned()));
        },
    };
    let access_token = lookup_pair(&kv, "access_token");
    let expires_in = lookup_pair(&kv, "expires_in");
    let token_type = lookup_pair(&kv, "token_type");
    let refresh_token = lookup_pair(&kv, "refresh_token");
    let id_token = lookup_pair(&kv, "id_token");
    let user_id = lookup_pair(&kv, "user_id");
    let project_id = lookup_pair(&kv, "project_id");
    match (access_token, expires_in, token_type, refresh_token, id_token, user_id, project_id) {
        (
            Some(access_token),
            Some(expires_in),
            Some(token_type),
            Some(refresh_token),
            Some(id_token),
            Some(user_id),
            Some(project_id),
        ) => Ok(
            RefreshIdToken {
                access_token,
                expires_in,
                token_type,
                refresh_token,
                id_token,
                user_id,
                project_id,
            },
        ),
        _ => Err(Error::Network("Failed to parse token response!".to_owned())),
    }
}

} // verus!
