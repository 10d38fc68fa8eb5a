//! What is sent to and received from the issuer of credentials.

use vstd::prelude::*;

verus! {

/// The request for a new credential.
#[derive(Clone, Debug, PartialEq)]
pub struct AccessTokenRequest {
    pub client_id: String,
    pub client_secret: String,
    pub refresh_token: String,
    pub grant_type: String,
}

/// The mathematical value of an [`AccessTokenRequest`].
pub struct AccessTokenRequestView {
    pub client_id: Seq<char>,
    pub client_secret: Seq<char>,
    pub refresh_token: Seq<char>,
    pub grant_type: Seq<char>,
}

impl View for AccessTokenRequest {
    type V = AccessTokenRequestView;

    open spec fn view(&self) -> AccessTokenRequestView {
        AccessTokenRequestView {
            client_id: self.client_id@,
            client_secret: self.client_secret@,
            refresh_token: self.refresh_token@,
            grant_type: self.grant_type@,
        }
    }
}

/// The issuer's answer where it grants a credential.
#[derive(Clone, Debug, PartialEq)]
pub struct AccessTokenResponseInner {
    pub access_token: String,
    pub expires_in: u32,
    pub api_domain: String,
    pub token_type: String,
}

/// The mathematical value of an [`AccessTokenResponseInner`].
pub struct AccessTokenResponseInnerView {
    pub access_token: Seq<char>,
    pub expires_in: u32,
    pub api_domain: Seq<char>,
    pub token_type: Seq<char>,
}

impl View for AccessTokenResponseInner {
    type V = AccessTokenResponseInnerView;

    open spec fn view(&self) -> AccessTokenResponseInnerView {
        AccessTokenResponseInnerView {
            access_token: self.access_token@,
            expires_in: self.expires_in,
            api_domain: self.api_domain@,
            token_type: self.token_type@,
        }
    }
}

/// The issuer's answer where it refuses.
#[derive(Clone, Debug, PartialEq)]
pub struct ApiError {
    pub error: String,
}

/// The issuer's answer: a credential or a refusal.
#[derive(Clone, Debug, PartialEq)]
pub enum AccessTokenResponse {
    Success(AccessTokenResponseInner),
    Error(ApiError),
}

/// The mathematical value of an [`AccessTokenResponse`].
pub enum AccessTokenResponseView {
    Success(AccessTokenResponseInnerView),
    Error(Seq<char>),
}

impl View for AccessTokenResponse {
    type V = AccessTokenResponseView;

    open spec fn view(&self) -> AccessTokenResponseView {
        match *self {
            AccessTokenResponse::Success(inner) => AccessTokenResponseView::Success(inner@),
            AccessTokenResponse::Error(e) => AccessTokenResponseView::Error(e.error@),
        }
    }
}

} // verus!
