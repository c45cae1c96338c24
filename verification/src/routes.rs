//! The HTTP surface of the authentication core: which endpoint a request
//! addresses, what each endpoint asks of the request, and which origin a
//! reply admits.

use crate::text::{same_text, starts_with, str_opt};
use vstd::prelude::*;

verus! {

/// The request methods the core knows.
#[derive(Clone, Copy, Debug, PartialEq, Eq, Structural)]
pub enum Method {
    Get,
    Post,
    Put,
    Delete,
}

/// The endpoints of the core.
#[derive(Clone, Copy, Debug, PartialEq, Eq, Structural)]
pub enum Endpoint {
    Signup,
    Login,
    Logout,
    ForgotPassword,
    ResetPassword,
    ChangePassword,
    VerifyEmail,
    CurrentUser,
    UpdateProfile,
    DeleteAccount,
    SocialLogin,
    ListSessions,
    RevokeAllSessions,
    CsrfToken,
}

/// What an endpoint asks of the bearer token.
#[derive(Clone, Copy, Debug, PartialEq, Eq, Structural)]
pub enum BearerRule {
    /// The endpoint is open.
    NotNeeded,
    /// A token is used where it is there.
    Optional,
    /// Without an accepted token the reply is `Unauthorized`.
    Required,
}

/// The endpoint that a method and a path address, if any.
pub open spec fn spec_route(method: Method, path: Seq<char>) -> Option<Endpoint> {
    if method == Method::Post && path == "/auth/signup"@ {
        Some(Endpoint::Signup)
    } else if method == Method::Post && path == "/auth/login"@ {
        Some(Endpoint::Login)
    } else if method == Method::Post && path == "/auth/logout"@ {
        Some(Endpoint::Logout)
    } else if method == Method::Post && path == "/auth/forgot-password"@ {
        Some(Endpoint::ForgotPassword)
    } else if method == Method::Post && path == "/auth/reset-password"@ {
        Some(Endpoint::ResetPassword)
    } else if method == Method::Post && path == "/auth/change-password"@ {
        Some(Endpoint::ChangePassword)
    } else if method == Method::Post && path == "/auth/verify-email"@ {
        Some(Endpoint::VerifyEmail)
    } else if method == Method::Get && path == "/auth/me"@ {
        Some(Endpoint::CurrentUser)
    } else if method == Method::Put && path == "/auth/profile"@ {
        Some(Endpoint::UpdateProfile)
    } else if method == Method::Delete && path == "/auth/account"@ {
        Some(Endpoint::DeleteAccount)
    } else if method == Method::Post && path == "/auth/social"@ {
        Some(Endpoint::SocialLogin)
    } else if method == Method::Get && path == "/auth/sessions"@ {
        Some(Endpoint::ListSessions)
    } else if method == Method::Delete && path == "/auth/sessions"@ {
        Some(Endpoint::RevokeAllSessions)
    } else if method == Method::Get && path == "/csrf-token"@ {
        Some(Endpoint::CsrfToken)
    } else {
        None
    }
}

/// What each endpoint asks of the bearer token.
pub open spec fn spec_bearer_rule(endpoint: Endpoint) -> BearerRule {
    match endpoint {
        Endpoint::Signup
        | Endpoint::Login
        | Endpoint::ForgotPassword
        | Endpoint::ResetPassword
        | Endpoint::VerifyEmail
        | Endpoint::SocialLogin => BearerRule::NotNeeded,
        Endpoint::Logout => BearerRule::Optional,
        Endpoint::ChangePassword
        | Endpoint::CurrentUser
        | Endpoint::UpdateProfile
        | Endpoint::DeleteAccount
        | Endpoint::ListSessions
        | Endpoint::RevokeAllSessions
        | Endpoint::CsrfToken => BearerRule::Required,
    }
}

/// Whether an endpoint asks for the anti-forgery header: those that change
/// the state of a signed-in user.
pub open spec fn spec_needs_csrf(endpoint: Endpoint) -> bool {
    endpoint == Endpoint::ChangePassword || endpoint == Endpoint::UpdateProfile || endpoint
        == Endpoint::DeleteAccount || endpoint == Endpoint::RevokeAllSessions
}

/// The HTTP status of a success at each endpoint: a signup creates an
/// account, everything else simply succeeds.
pub open spec fn spec_success_status(endpoint: Endpoint) -> u16 {
    if endpoint == Endpoint::Signup {
        201
    } else {
        200
    }
}

/// The endpoint that a request addresses; `None` is answered with 404.
pub fn handle_auth(method: Method, path: &str) -> (r: Option<Endpoint>)
    ensures
        r == spec_route(method, path@),
{
    match method {
        Method::Post => {
            if same_text(path, "/auth/signup") {
                Some(Endpoint::Signup)
            } else if same_text(path, "/auth/login") {
                Some(Endpoint::Login)
            } else if same_text(path, "/auth/logout") {
                Some(Endpoint::Logout)
            } else if same_text(path, "/auth/forgot-password") {
                Some(Endpoint::ForgotPassword)
            } else if same_text(path, "/auth/reset-password") {
                Some(Endpoint::ResetPassword)
            } else if same_text(path, "/auth/change-password") {
                Some(Endpoint::ChangePassword)
            } else if same_text(path, "/auth/verify-email") {
                Some(Endpoint::VerifyEmail)
            } else if same_text(path, "/auth/social") {
                Some(Endpoint::SocialLogin)
            } else {
                None
            }
        },
        Method::Get => {
            if same_text(path, "/auth/me") {
                Some(Endpoint::CurrentUser)
            } else if same_text(path, "/auth/sessions") {
                Some(Endpoint::ListSessions)
            } else if same_text(path, "/csrf-token") {
                Some(Endpoint::CsrfToken)
            } else {
                None
            }
        },
        Method::Put => {
            if same_text(path, "/auth/profile") {
                Some(Endpoint::UpdateProfile)
            } else {
                None
            }
        },
        Method::Delete => {
            if same_text(path, "/auth/account") {
                Some(Endpoint::DeleteAccount)
            } else if same_text(path, "/auth/sessions") {
                Some(Endpoint::RevokeAllSessions)
            } else {
                None
            }
        },
    }
}

impl Endpoint {
    /// What this endpoint asks of the bearer token.
    pub fn bearer_rule(self) -> (r: BearerRule)
        ensures
            r == spec_bearer_rule(self),
    {
        match self {
            Endpoint::Signup
            | Endpoint::Login
            | Endpoint::ForgotPassword
            | Endpoint::ResetPassword
            | Endpoint::VerifyEmail
            | Endpoint::SocialLogin => BearerRule::NotNeeded,
            Endpoint::Logout => BearerRule::Optional,
            Endpoint::ChangePassword
            | Endpoint::CurrentUser
            | Endpoint::UpdateProfile
            | Endpoint::DeleteAccount
            | Endpoint::ListSessions
            | Endpoint::RevokeAllSessions
            | Endpoint::CsrfToken => BearerRule::Required,
        }
    }

    /// The HTTP status of a success at this endpoint.
    pub fn success_status(self) -> (r: u16)
        ensures
            r == spec_success_status(self),
    {
        match self {
            Endpoint::Signup => 201,
            _ => 200,
        }
    }

    /// Whether this endpoint asks for the anti-forgery header.
    pub fn needs_csrf(self) -> (r: bool)
        ensures
            r == spec_needs_csrf(self),
    {
        match self {
            Endpoint::ChangePassword
            | Endpoint::UpdateProfile
            | Endpoint::DeleteAccount
            | Endpoint::RevokeAllSessions => true,
            _ => false,
        }
    }
}

/// Every endpoint that asks for the anti-forgery header asks for the bearer
/// token too.
pub proof fn lemma_csrf_needs_bearer(endpoint: Endpoint)
    requires
        spec_needs_csrf(endpoint),
    ensures
        spec_bearer_rule(endpoint) == BearerRule::Required,
{
}

/// The origin that stands in for every origin that is not admitted.
pub open spec fn default_origin() -> Seq<char> {
    "http://localhost:3000"@
}

/// The origin a reply admits: the request's own where it is a local one
/// (`http://localhost:` or `http://192.168.`), the default otherwise.
pub open spec fn spec_allowed_origin(origin: Option<Seq<char>>) -> Seq<char> {
    match origin {
        Some(o) => if "http://localhost:"@.is_prefix_of(o) || "http://192.168."@.is_prefix_of(o) {
            o
        } else {
            default_origin()
        },
        None => default_origin(),
    }
}

/// The value of `Access-Control-Allow-Origin` for a request with this
/// `Origin` header.
pub fn get_allowed_origin(origin: Option<&str>) -> (r: String)
    ensures
        r@ == spec_allowed_origin(str_opt(origin)),
{
    match origin {
        Some(o) => {
            if starts_with(o, "http://localhost:") || starts_with(o, "http://192.168.") {
                o.to_owned()
            } else {
                "http://localhost:3000".to_owned()
            }
        },
        None => "http://localhost:3000".to_owned(),
    }
}

} // verus!
