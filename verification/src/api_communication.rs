//! What is said to the service and to the credential issuer, what their
//! answers mean, and when a poll asks for a new credential.

use vstd::prelude::*;
use vstd::string::*;
use crate::decode::{
    FaultAt, SchemaError, SchemaFault, fault_at_field, field_path_string, member, member_of,
    read_required_text, required_text,
};
use crate::json::{
    JsonError, JsonErrorView, JsonValue, JsonView, ROOT, json_outcome, json_result_view,
    members_view, parse_json,
};
use crate::site24x7_types::Site24x7ClientInfo;
use crate::text::join;
use crate::zoho_types::{
    AccessTokenRequest, AccessTokenRequestView, AccessTokenResponse, AccessTokenResponseInner,
    AccessTokenResponseInnerView, AccessTokenResponseView, ApiError,
};

verus! {

/// The grant by which a new credential is requested.
pub const GRANT_TYPE: &'static str = "refresh_token";

/// The kind of answer that is asked of the service.
pub const ACCEPT: &'static str = "application/json; version=2.0";

/// The request for a new credential, for the client and its refresh token.
pub fn access_token_request(site24x7_client_info: &Site24x7ClientInfo, refresh_token: &str) -> (r:
    AccessTokenRequest)
    ensures
        r@ == (AccessTokenRequestView {
            client_id: site24x7_client_info.client_id@,
            client_secret: site24x7_client_info.client_secret@,
            refresh_token: refresh_token@,
            grant_type: GRANT_TYPE@,
        }),
{
    AccessTokenRequest {
        client_id: site24x7_client_info.client_id.clone(),
        client_secret: site24x7_client_info.client_secret.clone(),
        refresh_token: String::from_str(refresh_token),
        grant_type: String::from_str(GRANT_TYPE),
    }
}

impl AccessTokenRequest {
    /// The request as the fields of a form, in the order in which they are
    /// sent.
    pub fn form_fields(&self) -> (r: Vec<(String, String)>)
        ensures
            r@.len() == 4,
            r@[0].0@ == "client_id"@ && r@[0].1@ == self.client_id@,
            r@[1].0@ == "client_secret"@ && r@[1].1@ == self.client_secret@,
            r@[2].0@ == "refresh_token"@ && r@[2].1@ == self.refresh_token@,
            r@[3].0@ == "grant_type"@ && r@[3].1@ == self.grant_type@,
    {
        let mut out: Vec<(String, String)> = Vec::new();
        out.push((String::from_str("client_id"), self.client_id.clone()));
        out.push((String::from_str("client_secret"), self.client_secret.clone()));
        out.push((String::from_str("refresh_token"), self.refresh_token.clone()));
        out.push((String::from_str("grant_type"), self.grant_type.clone()));
        out
    }
}

/// Where a new credential is requested.
pub fn access_token_endpoint(site24x7_client_info: &Site24x7ClientInfo) -> (r: String)
    ensures
        r@ == site24x7_client_info.zoho_endpoint@ + "/oauth/v2/token"@,
{
    join(site24x7_client_info.zoho_endpoint.as_str(), "/oauth/v2/token")
}

/// Where the current status is requested.
pub fn current_status_endpoint(site24x7_endpoint: &str) -> (r: String)
    ensures
        r@ == site24x7_endpoint@ + "/current_status"@,
{
    join(site24x7_endpoint, "/current_status")
}

/// The authorization under which the current status is requested.
pub fn authorization(access_token: &str) -> (r: String)
    ensures
        r@ == "Zoho-oauthtoken "@ + access_token@,
{
    join("Zoho-oauthtoken ", access_token)
}

/// An unsigned integer below 2^32 that must be there.
pub open spec fn required_u32(
    members: Seq<(Seq<char>, JsonView)>,
    name: Seq<char>,
    path: Seq<char>,
) -> Result<u32, FaultAt> {
    match member_of(members, name) {
        None => Err(fault_at_field(path, name, SchemaFault::MissingField)),
        Some(JsonView::Number(Some(v))) => if v <= 0xffff_ffff {
            Ok(v as u32)
        } else {
            Err(fault_at_field(path, name, SchemaFault::NotUnsigned))
        },
        Some(_) => Err(fault_at_field(path, name, SchemaFault::NotUnsigned)),
    }
}

fn read_required_u32(members: &Vec<(String, JsonValue)>, name: &str, path: &str) -> (r: Result<
    u32,
    SchemaError,
>)
    ensures
        match r {
            Ok(v) => required_u32(members_view(members@), name@, path@) == Ok::<u32, FaultAt>(v),
            Err(e) => required_u32(members_view(members@), name@, path@) == Err::<u32, FaultAt>(
                e@,
            ),
        },
{
    match member(members, name) {
        None => Err(
            SchemaError { path: field_path_string(path, name), fault: SchemaFault::MissingField },
        ),
        Some(JsonValue::Number(Some(v))) => {
            if *v <= 0xffff_ffff {
                Ok(*v as u32)
            } else {
                Err(
                    SchemaError {
                        path: field_path_string(path, name),
                        fault: SchemaFault::NotUnsigned,
                    },
                )
            }
        },
        Some(_) => Err(
            SchemaError { path: field_path_string(path, name), fault: SchemaFault::NotUnsigned },
        ),
    }
}

/// The grant that a document stands for: the credential, its lifetime, the
/// domain it is good for and its type, all of which must be there.
pub open spec fn grant_of(root: JsonView) -> Result<AccessTokenResponseInnerView, FaultAt> {
    match root {
        JsonView::Object(members) => {
            let access_token = required_text(members, "access_token"@, ROOT@);
            let expires_in = required_u32(members, "expires_in"@, ROOT@);
            let api_domain = required_text(members, "api_domain"@, ROOT@);
            let token_type = required_text(members, "token_type"@, ROOT@);
            if access_token is Err {
                Err(access_token->Err_0)
            } else if expires_in is Err {
                Err(expires_in->Err_0)
            } else if api_domain is Err {
                Err(api_domain->Err_0)
            } else if token_type is Err {
                Err(token_type->Err_0)
            } else {
                Ok(
                    AccessTokenResponseInnerView {
                        access_token: access_token->Ok_0,
                        expires_in: expires_in->Ok_0,
                        api_domain: api_domain->Ok_0,
                        token_type: token_type->Ok_0,
                    },
                )
            }
        },
        _ => Err(FaultAt { path: ROOT@, fault: SchemaFault::NotAnObject }),
    }
}

fn decode_grant(root: &JsonValue) -> (r: Result<AccessTokenResponseInner, SchemaError>)
    ensures
        match r {
            Ok(g) => grant_of(root@) == Ok::<AccessTokenResponseInnerView, FaultAt>(g@),
            Err(e) => grant_of(root@) == Err::<AccessTokenResponseInnerView, FaultAt>(e@),
        },
{
    match root {
        JsonValue::Object(members) => {
            let access_token = match read_required_text(members, "access_token", ROOT) {
                Ok(v) => v,
                Err(e) => {
                    return Err(e);
                },
            };
            let expires_in = match read_required_u32(members, "expires_in", ROOT) {
                Ok(v) => v,
                Err(e) => {
                    return Err(e);
                },
            };
            let api_domain = match read_required_text(members, "api_domain", ROOT) {
                Ok(v) => v,
                Err(e) => {
                    return Err(e);
                },
            };
            let token_type = match read_required_text(members, "token_type", ROOT) {
                Ok(v) => v,
                Err(e) => {
                    return Err(e);
                },
            };
            Ok(AccessTokenResponseInner { access_token, expires_in, api_domain, token_type })
        },
        _ => Err(SchemaError { path: String::from_str(ROOT), fault: SchemaFault::NotAnObject }),
    }
}

/// The refusal that a document stands for, where it holds one: a text under
/// `error`.
pub open spec fn refusal_of(root: JsonView) -> Option<Seq<char>> {
    match root {
        JsonView::Object(members) => match member_of(members, "error"@) {
            Some(JsonView::Text(error)) => Some(error),
            _ => None,
        },
        _ => None,
    }
}

/// The issuer's answer that a document stands for: a grant where the
/// document holds one in full; else a refusal where it holds one; else the
/// fault that kept the grant from being read.
pub open spec fn access_token_response_of(root: JsonView) -> Result<
    AccessTokenResponseView,
    FaultAt,
> {
    match grant_of(root) {
        Ok(grant) => Ok(AccessTokenResponseView::Success(grant)),
        Err(e) => match refusal_of(root) {
            Some(error) => Ok(AccessTokenResponseView::Error(error)),
            None => Err(e),
        },
    }
}

/// Reads the issuer's answer from a document.
pub fn decode_access_token_response(root: &JsonValue) -> (r: Result<
    AccessTokenResponse,
    SchemaError,
>)
    ensures
        match r {
            Ok(response) => access_token_response_of(root@) == Ok::<
                AccessTokenResponseView,
                FaultAt,
            >(response@),
            Err(e) => access_token_response_of(root@) == Err::<AccessTokenResponseView, FaultAt>(
                e@,
            ),
        },
{
    match decode_grant(root) {
        Ok(grant) => Ok(AccessTokenResponse::Success(grant)),
        Err(e) => {
            if let JsonValue::Object(members) = root {
                if let Some(JsonValue::Text(error)) = member(members, "error") {
                    return Ok(AccessTokenResponse::Error(ApiError { error: error.clone() }));
                }
            }
            Err(e)
        },
    }
}

/// Why no new credential could be had.
#[derive(Clone, Debug, PartialEq)]
pub enum AccessTokenError {
    /// The issuer's answer could not be read. Holds the answer.
    Unreadable(String),
    /// The issuer refused. Holds its error.
    Refused(String),
    /// The request did not get through. Holds why.
    Transport(String),
}

/// The mathematical value of an [`AccessTokenError`].
pub enum AccessTokenErrorView {
    Unreadable(Seq<char>),
    Refused(Seq<char>),
    Transport(Seq<char>),
}

impl AccessTokenErrorView {
    /// The error in words.
    pub open spec fn message(self) -> Seq<char> {
        match self {
            AccessTokenErrorView::Unreadable(answer) =>
                "Couldn't parse server response while getting access token. Server replied: '"@
                + answer,
            AccessTokenErrorView::Refused(error) =>
                "Error while getting access token. Server replied '"@ + error + "'"@,
            AccessTokenErrorView::Transport(why) => why,
        }
    }
}

impl View for AccessTokenError {
    type V = AccessTokenErrorView;

    open spec fn view(&self) -> AccessTokenErrorView {
        match *self {
            AccessTokenError::Unreadable(answer) => AccessTokenErrorView::Unreadable(answer@),
            AccessTokenError::Refused(error) => AccessTokenErrorView::Refused(error@),
            AccessTokenError::Transport(why) => AccessTokenErrorView::Transport(why@),
        }
    }
}

impl AccessTokenError {
    /// The error in words.
    pub fn to_string(&self) -> (r: String)
        ensures
            r@ == self@.message(),
    {
        match self {
            AccessTokenError::Unreadable(answer) => {
                let mut out = String::from_str(
                    "Couldn't parse server response while getting access token. Server replied: '",
                );
                out.append(answer.as_str());
                out
            },
            AccessTokenError::Refused(error) => {
                let mut out = String::from_str(
                    "Error while getting access token. Server replied '",
                );
                out.append(error.as_str());
                out.append("'");
                out
            },
            AccessTokenError::Transport(why) => why.clone(),
        }
    }
}

/// What the outcome of reading the issuer's answer as JSON means: the
/// credential of a grant; a refusal; or, where the answer is no JSON or
/// neither grant nor refusal, that it could not be read.
pub open spec fn access_token_of(parsed: Result<JsonView, JsonErrorView>, answer: Seq<char>) -> Result<
    Seq<char>,
    AccessTokenErrorView,
> {
    match parsed {
        Err(_) => Err(AccessTokenErrorView::Unreadable(answer)),
        Ok(root) => match access_token_response_of(root) {
            Err(_) => Err(AccessTokenErrorView::Unreadable(answer)),
            Ok(AccessTokenResponseView::Success(grant)) => Ok(grant.access_token),
            Ok(AccessTokenResponseView::Error(error)) => Err(AccessTokenErrorView::Refused(error)),
        },
    }
}

/// Decides what the issuer's answer means, from the outcome of reading it
/// as JSON.
pub fn access_token_from_json(parsed: Result<JsonValue, JsonError>, answer: &str) -> (r: Result<
    String,
    AccessTokenError,
>)
    ensures
        match r {
            Ok(token) => access_token_of(json_result_view(parsed), answer@) == Ok::<
                Seq<char>,
                AccessTokenErrorView,
            >(token@),
            Err(e) => access_token_of(json_result_view(parsed), answer@) == Err::<
                Seq<char>,
                AccessTokenErrorView,
            >(e@),
        },
{
    match parsed {
        Err(_) => Err(AccessTokenError::Unreadable(String::from_str(answer))),
        Ok(root) => match decode_access_token_response(&root) {
            Err(_) => Err(AccessTokenError::Unreadable(String::from_str(answer))),
            Ok(AccessTokenResponse::Success(grant)) => Ok(grant.access_token),
            Ok(AccessTokenResponse::Error(e)) => Err(AccessTokenError::Refused(e.error)),
        },
    }
}

/// Reads the issuer's answer to a request for a new credential.
pub fn parse_access_token(answer: &str) -> (r: Result<String, AccessTokenError>)
    ensures
        match r {
            Ok(token) => access_token_of(json_outcome(answer@), answer@) == Ok::<
                Seq<char>,
                AccessTokenErrorView,
            >(token@),
            Err(e) => access_token_of(json_outcome(answer@), answer@) == Err::<
                Seq<char>,
                AccessTokenErrorView,
            >(e@),
        },
{
    access_token_from_json(parse_json(answer), answer)
}

} // verus!
