//! What the login page answers, given how the exchange with the identity provider ended.
//!
//! The exchange itself is the host's business. This module only decides the reply.

use vstd::prelude::*;
use vstd::string::*;

verus! {

/// The name of the cookie that carries the access token.
pub const ACCESS_COOKIE: &'static str = "access_token";

/// The name of the cookie that carries the refresh token.
pub const REFRESH_COOKIE: &'static str = "refresh_token";

/// The message of the reply to credentials that cannot be put into a request.
pub const UNSERIALIZABLE_NOTICE: &'static str = "Error serializing credentials";

/// The message of the reply where the key for the identity provider is not configured.
pub const KEY_MISSING_NOTICE: &'static str = "SUPABASE_PUBLIC_KEY not set";

/// The login form, as shown after a logout.
pub const LOGGED_OUT_PAGE: &'static str = "\n            <form hx-boost=\"true\" id=\"form\" hx-post=\"/login\">\n              <input type=\"text\" name=\"email\" placeholder=\"email\" />\n              <input type=\"password\" name=\"password\" placeholder=\"password\" />\n              <button type=\"submit\">Login</button>\n              <h1>Logged out</h1>\n            </form>\n            ";

/// The login form, as shown after credentials were refused.
pub const REFUSED_PAGE: &'static str = "\n                    <form hx-boost=\"true\" id=\"form\" hx-post=\"/login\">\n                        <input type=\"text\" name=\"email\" value=\"\" placeholder=\"email\" />\n                        <input type=\"password\" name=\"password\" value=\"\" placeholder=\"password\" />\n                        <button type=\"submit\">Login</button>\n                        <h1>Invalid credentials</h1>\n                    </form>\n                    ";

/// The welcome page up to the user's address.
pub const WELCOME_OPEN: &'static str = "\n                                <form hx-boost=\"true\" id=\"form\" hx-post=\"/logout\">\n                                    <button type=\"submit\">Logout</button>\n                                <h1>Logged in as ";

/// The welcome page after the user's address.
pub const WELCOME_CLOSE: &'static str =
    "</h1>\n                                </form>\n                                ";

/// The page that welcomes the user with the address `email`.
pub open spec fn welcome_text(email: Seq<char>) -> Seq<char> {
    WELCOME_OPEN@ + email + WELCOME_CLOSE@
}

/// Renders the page that welcomes a user. The address is taken as it is.
pub fn welcome_page(email: &str) -> (page: String)
    ensures
        page@ == welcome_text(email@),
{
    let mut page = String::from_str(WELCOME_OPEN);
    page.append(email);
    page.append(WELCOME_CLOSE);
    page
}

/// What the identity provider hands out for accepted credentials.
#[derive(Clone, Debug, PartialEq, Eq)]
pub struct SessionTokens {
    pub access_token: String,
    pub refresh_token: String,
    pub email: String,
}

/// Why an exchange with the identity provider yielded no tokens.
#[derive(Clone, Copy, Debug, PartialEq, Eq, Structural)]
pub enum AuthError {
    /// The credentials could not be put into a request.
    Unserializable,
    /// The key for the identity provider is not configured.
    KeyMissing,
    /// The provider could not be reached.
    Unreachable,
    /// The provider refused the credentials.
    Refused,
    /// The provider accepted the credentials, but its answer could not be read.
    Unreadable,
}

/// The reply of the login page.
#[derive(Clone, Debug, PartialEq, Eq)]
pub enum LoginReply {
    /// An internal error. The notice, where there is one, is the body.
    Fault(Option<String>),
    /// Success as a status, with the login form and a notice of refusal as the body.
    Retry(String),
    /// Success: the two tokens, each to be set as a cookie, and the welcome page.
    Welcome { access_token: String, refresh_token: String, page: String },
}

/// Model of a [`LoginReply`].
pub enum LoginReplyView {
    Fault(Option<Seq<char>>),
    Retry(Seq<char>),
    Welcome { access_token: Seq<char>, refresh_token: Seq<char>, page: Seq<char> },
}

impl View for LoginReply {
    type V = LoginReplyView;

    open spec fn view(&self) -> LoginReplyView {
        match self {
            LoginReply::Fault(notice) => LoginReplyView::Fault(
                match notice {
                    Some(text) => Some(text@),
                    None => None,
                },
            ),
            LoginReply::Retry(page) => LoginReplyView::Retry(page@),
            LoginReply::Welcome { access_token, refresh_token, page } => LoginReplyView::Welcome {
                access_token: access_token@,
                refresh_token: refresh_token@,
                page: page@,
            },
        }
    }
}

/// The reply that an unsuccessful exchange calls for.
pub open spec fn reply_to_error(error: AuthError) -> LoginReplyView {
    match error {
        AuthError::Unserializable => LoginReplyView::Fault(Some(UNSERIALIZABLE_NOTICE@)),
        AuthError::KeyMissing => LoginReplyView::Fault(Some(KEY_MISSING_NOTICE@)),
        AuthError::Unreachable => LoginReplyView::Fault(None),
        AuthError::Refused => LoginReplyView::Retry(REFUSED_PAGE@),
        AuthError::Unreadable => LoginReplyView::Fault(None),
    }
}

/// Decides the reply of the login page. Tokens are passed on untouched, and the welcome page
/// names the address that came with them.
pub fn login_reply(outcome: Result<SessionTokens, AuthError>) -> (reply: LoginReply)
    ensures
        reply@ == match outcome {
            Ok(tokens) => LoginReplyView::Welcome {
                access_token: tokens.access_token@,
                refresh_token: tokens.refresh_token@,
                page: welcome_text(tokens.email@),
            },
            Err(error) => reply_to_error(error),
        },
{
    match outcome {
        Ok(tokens) => {
            let page = welcome_page(tokens.email.as_str());
            LoginReply::Welcome {
                access_token: tokens.access_token,
                refresh_token: tokens.refresh_token,
                page,
            }
        },
        Err(AuthError::Unserializable) => LoginReply::Fault(
            Some(String::from_str(UNSERIALIZABLE_NOTICE)),
        ),
        Err(AuthError::KeyMissing) => LoginReply::Fault(Some(String::from_str(KEY_MISSING_NOTICE))),
        Err(AuthError::Unreachable) => LoginReply::Fault(None),
        Err(AuthError::Refused) => LoginReply::Retry(String::from_str(REFUSED_PAGE)),
        Err(AuthError::Unreadable) => LoginReply::Fault(None),
    }
}

} // verus!
