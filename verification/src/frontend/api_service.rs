//! The two backends of the application's HTTP interface: the real one, and a
//! mock that answers from a fixed table. The requests themselves are made
//! outside this library; the mock's answers are decided here.

use vstd::prelude::*;
use vstd::std_specs::cmp::PartialEqSpecImpl;

verus! {

/// The key under which the access token is kept in the browser's storage.
pub const TOKEN_KEY: &'static str = "hudwiz_token";

/// The backend that answers from a fixed table.
#[derive(Debug, Clone, Copy)]
pub struct MockApiService;

/// The backend that asks the server.
#[derive(Debug, Clone, Copy)]
pub struct RealApiService;

/// The JSON text that the mock answers a `GET` of `endpoint` with: the mock
/// user for the endpoint of the logged-in user, an empty object for every
/// other.
pub open spec fn mock_get_spec(endpoint: Seq<char>) -> Seq<char> {
    if endpoint == "/api/auth/user"@ {
        "{\"id\":\"mock_user_id\",\"name\":\"Mock User\",\"email\":\"testuser@fakedomain.com\"}"@
    } else {
        "{}"@
    }
}

/// The JSON text that the mock answers a `POST` to `endpoint` with: a token
/// for the login endpoint, an empty object for every other.
pub open spec fn mock_post_spec(endpoint: Seq<char>) -> Seq<char> {
    if endpoint == "/api/auth/login"@ {
        "{\"token\":\"mock_token\"}"@
    } else {
        "{}"@
    }
}

impl MockApiService {
    /// The JSON text that answers a `GET` of `endpoint`.
    pub fn get(&self, endpoint: &str) -> (body: &'static str)
        ensures
            body@ == mock_get_spec(endpoint@),
    {
        if endpoint.to_owned() == "/api/auth/user".to_owned() {
            "{\"id\":\"mock_user_id\",\"name\":\"Mock User\",\"email\":\"testuser@fakedomain.com\"}"
        } else {
            "{}"
        }
    }

    /// The JSON text that answers a `POST` to `endpoint`, whatever is posted.
    pub fn post(&self, endpoint: &str) -> (body: &'static str)
        ensures
            body@ == mock_post_spec(endpoint@),
    {
        if endpoint.to_owned() == "/api/auth/login".to_owned() {
            "{\"token\":\"mock_token\"}"
        } else {
            "{}"
        }
    }
}

/// The backend that an application was built with.
#[derive(Debug, Clone, Copy)]
pub enum ApiServiceEnum {
    Mock(MockApiService),
    Real(RealApiService),
}

impl PartialEq for ApiServiceEnum {
    /// Two backends are equal if they are of the same kind.
    fn eq(&self, other: &Self) -> (equal: bool) {
        match (self, other) {
            (ApiServiceEnum::Mock(_), ApiServiceEnum::Mock(_)) => true,
            (ApiServiceEnum::Real(_), ApiServiceEnum::Real(_)) => true,
            _ => false,
        }
    }
}

impl PartialEqSpecImpl for ApiServiceEnum {
    open spec fn obeys_eq_spec() -> bool {
        true
    }

    open spec fn eq_spec(&self, other: &Self) -> bool {
        (*self is Mock) == (*other is Mock)
    }
}

} // verus!
