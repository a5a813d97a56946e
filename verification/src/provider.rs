//! The identity-provider side: the shape of the channel-info answer, the
//! status-code policy for the two outbound calls, and the issue-claim flow
//! that turns a proven channel into a signed claim.
//!
//! The outbound HTTP calls themselves live outside the library; what came
//! back (or that nothing did) is handed in as a [`ProviderResponse`], and
//! every decision taken on it is made and stated here.

use vstd::prelude::*;
use vstd::string::StringExecFns;

use crate::claim::CLAIM_VALIDITY_SECS;
use crate::claim::ClaimPermissions;
use crate::claim::MAX_UNIX_SECS;
use crate::claim::SigningKey;
use crate::claim::issue;
use crate::claim::token_of;
use crate::http::HttpReply;
use crate::text::message_body;
use crate::text::spec_message_body;

verus! {

/// The paging header of the provider's channel-list answer.
#[derive(Debug)]
pub struct PageInfo {
    pub total_results: u32,
}

/// One channel as the provider describes it: its title and its optional
/// canonical handle (empty when the channel has none).
#[derive(Debug)]
pub struct Channel {
    pub title: String,
    pub custom_url: String,
}

/// The branding section of a channel-list item.
#[derive(Debug)]
pub struct BrandingSettings {
    pub channel: Channel,
}

/// One item of the provider's channel list.
#[derive(Debug)]
pub struct Item {
    pub id: String,
    pub branding_settings: BrandingSettings,
}

/// The provider's channel-list answer: a result count and the items.
#[derive(Debug)]
pub struct ChannelsInfo {
    pub page_info: PageInfo,
    pub items: Vec<Item>,
}

/// What an outbound provider call produced: no response at all (transport
/// failure), or a status code together with the payload parsed from the
/// body, `None` when the body did not parse.
pub enum ProviderResponse<T> {
    NoResponse,
    Response(u16, Option<T>),
}

/// Failures of the issue-claim flow: the caller supplied a bad
/// authorization code (`UserError`), or the provider or the signing
/// backend misbehaved (`UnexpectedError`).
#[derive(Debug)]
pub enum GError {
    UnexpectedError(String),
    UserError(String),
}

impl GError {
    /// The status code each failure kind maps to: 400 for a caller
    /// mistake, 500 otherwise.
    pub fn status_code(&self) -> (code: u16)
        ensures
            self is UserError ==> code == 400,
            self is UnexpectedError ==> code == 500,
    {
        match self {
            GError::UnexpectedError(_) => 500,
            GError::UserError(_) => 400,
        }
    }

    /// The user-facing message: the caller's mistake is echoed, internal
    /// detail is not.
    pub fn message(&self) -> (m: &str)
        ensures
            self matches GError::UserError(s) ==> m@ == s@,
            self is UnexpectedError ==> m@ == "Unexpected error, please try again"@,
    {
        match self {
            GError::UnexpectedError(_) => "Unexpected error, please try again",
            GError::UserError(s) => s.as_str(),
        }
    }

    /// The JSON error response for this failure: its status code and a
    /// `{"message": ...}` body.
    pub fn error_response(&self) -> (r: HttpReply)
        ensures
            r.status == self.status_code_spec(),
            r.json,
            r.cache_max_age is None,
            r.last_modified is None,
            self matches GError::UserError(s) ==> r.body@ == spec_message_body(s@),
            self is UnexpectedError ==> r.body@ == spec_message_body(
                "Unexpected error, please try again"@,
            ),
    {
        let body = message_body(self.message());
        HttpReply {
            status: self.status_code(),
            json: true,
            cache_max_age: None,
            last_modified: None,
            body,
        }
    }

    /// The status code as a value, for speaking about it in contracts.
    pub open spec fn status_code_spec(&self) -> u16 {
        match self {
            GError::UnexpectedError(_) => 500,
            GError::UserError(_) => 400,
        }
    }
}

/// Applies the token-endpoint policy to what the outbound call produced:
/// HTTP 400 means the caller's code was bad, any other non-200 answer or a
/// missing or unparsable body is a provider failure, and only a parsed 200
/// answer yields the access token.
pub fn access_token_outcome(r: ProviderResponse<String>) -> (out: Result<String, GError>)
    ensures
        out is Ok <==> (r matches ProviderResponse::Response(s, p) && s == 200 && p is Some),
        r matches ProviderResponse::Response(s, p) ==> (s == 200 ==> (p matches Some(t) ==> (
        out matches Ok(tok) && tok@ == t@))),
        (r matches ProviderResponse::Response(s, _p) && s == 400) ==> (out matches Err(
            GError::UserError(m),
        ) && m@ == "Bad request"@),
        (r matches ProviderResponse::Response(s, _p) && s != 400 && s != 200) ==> (out matches Err(
            GError::UnexpectedError(m),
        ) && m@ == "Google is unhappy, unable to get access token"@),
        (r matches ProviderResponse::Response(s, p) && s == 200 && p is None) ==> (out matches Err(
            GError::UnexpectedError(m),
        ) && m@ == "unable to parse access token"@),
        r is NoResponse ==> (out matches Err(GError::UnexpectedError(m)) && m@
            == "Unable to get access token"@),
{
    match r {
        ProviderResponse::NoResponse => Err(
            GError::UnexpectedError(String::from_str("Unable to get access token")),
        ),
        ProviderResponse::Response(status, parsed) => {
            if status == 400 {
                Err(GError::UserError(String::from_str("Bad request")))
            } else if status != 200 {
                Err(
                    GError::UnexpectedError(
                        String::from_str("Google is unhappy, unable to get access token"),
                    ),
                )
            } else {
                match parsed {
                    Some(t) => Ok(t),
                    None => Err(
                        GError::UnexpectedError(String::from_str("unable to parse access token")),
                    ),
                }
            }
        },
    }
}

/// Applies the channel-info-endpoint policy to what the outbound call
/// produced, under the same status-code rules as the token endpoint.
pub fn channels_info_outcome(r: ProviderResponse<ChannelsInfo>) -> (out: Result<
    ChannelsInfo,
    GError,
>)
    ensures
        out is Ok <==> (r matches ProviderResponse::Response(s, p) && s == 200 && p is Some),
        r matches ProviderResponse::Response(s, p) ==> (s == 200 ==> (p matches Some(info) ==> (
        out matches Ok(o) && o == info))),
        (r matches ProviderResponse::Response(s, _p) && s == 400) ==> (out matches Err(
            GError::UserError(m),
        ) && m@ == "Bad request"@),
        (r matches ProviderResponse::Response(s, _p) && s != 400 && s != 200) ==> (out matches Err(
            GError::UnexpectedError(m),
        ) && m@ == "Google is unhappy, unable to get channels info"@),
        (r matches ProviderResponse::Response(s, p) && s == 200 && p is None) ==> (out matches Err(
            GError::UnexpectedError(m),
        ) && m@ == "unable to parse channels info"@),
        r is NoResponse ==> (out matches Err(GError::UnexpectedError(m)) && m@
            == "Unable to get channels information"@),
{
    match r {
        ProviderResponse::NoResponse => Err(
            GError::UnexpectedError(String::from_str("Unable to get channels information")),
        ),
        ProviderResponse::Response(status, parsed) => {
            if status == 400 {
                Err(GError::UserError(String::from_str("Bad request")))
            } else if status != 200 {
                Err(
                    GError::UnexpectedError(
                        String::from_str("Google is unhappy, unable to get channels info"),
                    ),
                )
            } else {
                match parsed {
                    Some(info) => Ok(info),
                    None => Err(
                        GError::UnexpectedError(String::from_str("unable to parse channels info")),
                    ),
                }
            }
        },
    }
}

/// The form parameters of the token-endpoint call: the caller's code, the
/// client credentials, and the fixed redirect and grant-type markers.
pub fn token_request_params(code: &str, client_id: &str, client_secret: &str) -> (r: Vec<
    (String, String),
>)
    ensures
        r@.len() == 5,
        r@[0].0@ == "code"@ && r@[0].1@ == code@,
        r@[1].0@ == "client_id"@ && r@[1].1@ == client_id@,
        r@[2].0@ == "client_secret"@ && r@[2].1@ == client_secret@,
        r@[3].0@ == "redirect_uri"@ && r@[3].1@ == "postmessage"@,
        r@[4].0@ == "grant_type"@ && r@[4].1@ == "authorization_code"@,
{
    let mut v: Vec<(String, String)> = Vec::new();
    v.push((String::from_str("code"), String::from_str(code)));
    v.push((String::from_str("client_id"), String::from_str(client_id)));
    v.push((String::from_str("client_secret"), String::from_str(client_secret)));
    v.push((String::from_str("redirect_uri"), String::from_str("postmessage")));
    v.push((String::from_str("grant_type"), String::from_str("authorization_code")));
    v
}

/// The `Authorization` header value of the channel-info call: the access
/// token as a bearer credential.
pub fn bearer_authorization(token: &str) -> (r: String)
    ensures
        r@ == "Bearer "@ + token@,
{
    let mut s = String::from_str("Bearer ");
    s.append(token);
    s
}

/// Turns a fetched channel list into a signed claim for its first channel.
///
/// An empty answer (zero reported results, or no items at all) is a
/// provider failure; otherwise the first item is the proven channel — the
/// multi-channel case is deliberately not disambiguated — and a claim for
/// it is issued, valid from `now` for [`CLAIM_VALIDITY_SECS`]. Issuance
/// itself never fails, so a non-empty answer always yields a token.
pub fn issue_for_channels(key: &SigningKey, info: &ChannelsInfo, now: u64) -> (out: Result<
    String,
    GError,
>)
    requires
        key.wf(),
        now + CLAIM_VALIDITY_SECS < MAX_UNIX_SECS,
    ensures
        out is Ok <==> info.page_info.total_results != 0 && info.items@.len() != 0,
        info.page_info.total_results == 0 || info.items@.len() == 0 ==> (out matches Err(
            GError::UnexpectedError(m),
        ) && m@ == "No channels found"@),
        out matches Ok(t) ==> info.items@.len() > 0 && t@ == token_of(
            key@,
            info.items@[0].id@,
            info.items@[0].branding_settings.channel.title@,
            info.items@[0].branding_settings.channel.custom_url@,
            now,
            (now + CLAIM_VALIDITY_SECS) as u64,
        ),
{
    if info.page_info.total_results == 0 || info.items.len() == 0 {
        return Err(GError::UnexpectedError(String::from_str("No channels found")));
    }
    let identity = ClaimPermissions::new(info);
    match issue(key, &identity, now) {
        Some(t) => Ok(t),
        None => Err(GError::UnexpectedError(String::from_str("Failed to create token"))),
    }
}

/// The success response of the issue endpoint: a JSON body carrying the
/// signed token as its `message`.
pub fn juice_reply(token: &str) -> (r: HttpReply)
    ensures
        r.status == 200,
        r.json,
        r.cache_max_age is None,
        r.last_modified is None,
        r.body@ == spec_message_body(token@),
{
    HttpReply {
        status: 200,
        json: true,
        cache_max_age: None,
        last_modified: None,
        body: message_body(token),
    }
}

} // verus!
