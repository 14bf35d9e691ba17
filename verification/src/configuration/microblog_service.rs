//! The endpoint to publish to and the token that authorises it.

use vstd::prelude::*;

verus! {

/// `std::io::Error`, carried through as it is. Nothing inside it is visible
/// here.
#[verifier::external_type_specification]
#[verifier::external_body]
pub struct ExIoError(std::io::Error);

/// The address of a Micropub endpoint and the bearer token for it.
pub struct MicroblogService {
    pub api_url: String,
    pub auth_token: String,
}

/// What a `MicroblogService` holds, as plain values.
pub struct MicroblogServiceView {
    pub api_url: Seq<char>,
    pub auth_token: Seq<char>,
}

impl View for MicroblogService {
    type V = MicroblogServiceView;

    open spec fn view(&self) -> MicroblogServiceView {
        MicroblogServiceView { api_url: self.api_url@, auth_token: self.auth_token@ }
    }
}

impl MicroblogServiceView {
    /// Neither the address nor the token is empty.
    pub open spec fn is_complete(self) -> bool {
        self.api_url.len() > 0 && self.auth_token.len() > 0
    }
}

/// `std::io::Error::new` with the kind `InvalidInput`: an error of that kind
/// that carries `message`. Nothing is claimed of the value.
#[verifier::external_body]
fn invalid_input(message: &str) -> std::io::Error {
    std::io::Error::new(std::io::ErrorKind::InvalidInput, message)
}

impl MicroblogService {
    /// The two values as they are, unchecked.
    pub fn new(api_url: String, auth_token: String) -> (service: MicroblogService)
        ensures
            service@ == (MicroblogServiceView { api_url: api_url@, auth_token: auth_token@ }),
    {
        MicroblogService { api_url, auth_token }
    }

    /// The two values, refused where either is empty.
    pub fn from_args(api_url: String, auth_token: String) -> (res: std::io::Result<MicroblogService>)
        ensures
            res is Err <==> api_url@.len() == 0 || auth_token@.len() == 0,
            res matches Ok(service) ==> service@ == (MicroblogServiceView {
                api_url: api_url@,
                auth_token: auth_token@,
            }) && service@.is_complete(),
    {
        if api_url.as_str().is_empty() || auth_token.as_str().is_empty() {
            return Err(invalid_input("API URL and authentication token must not be empty"));
        }
        Ok(MicroblogService::new(api_url, auth_token))
    }
}

} // verus!
