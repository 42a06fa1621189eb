//! The pages: what their forms carry and where each request is sent on.

pub mod result;

use crate::auth::UserCookie;
use crate::models::{SensorQuery, UserQuery};
use crate::result::Error;
use vstd::prelude::*;

verus! {

pub struct UserEdit {
    pub email: String,
}

pub struct SensorEdit {
    pub name: String,
    pub description: String,
}

pub struct Password {
    pub password: String,
}

pub struct Email {
    pub email: String,
}

pub struct EmailPassword {
    pub email: String,
    pub password: String,
}

pub struct Register {
    pub email: String,
    pub password: String,
}

/// An answer that sends the browser on to another path.
#[derive(Debug)]
pub struct Redirect {
    pub to: String,
}

/// The end of a session: the cookie to forget and where to go next.
pub struct Logout {
    pub forget: String,
    pub redirect: Redirect,
}

/// The start page: the dashboard for a user who is logged in, the landing
/// page for anybody else.
pub fn index(user: Result<UserCookie, Error>) -> (r: Redirect)
    ensures
        r.to@ == if user.is_ok() {
            "/dashboard"@
        } else {
            "/landing"@
        },
{
    match user {
        Ok(_) => Redirect { to: String::from_str("/dashboard") },
        Err(_) => Redirect { to: String::from_str("/landing") },
    }
}

/// Logging out forgets the session cookie and leads to the start page.
pub fn logout() -> (r: Logout)
    ensures
        r.forget@ == "user_token"@,
        r.redirect.to@ == "/"@,
{
    Logout { forget: String::from_str("user_token"), redirect: Redirect { to: String::from_str("/") } }
}

/// Whether `editor` may change the record of `user`: the user themselves,
/// and any superuser.
pub fn may_edit_user(editor: &UserQuery, user: &UserQuery) -> (allowed: bool)
    ensures
        allowed == (user.id == editor.id || editor.superuser),
{
    !(user.id != editor.id && !editor.superuser)
}

/// Whether `user` may change or deactivate `sensor`: only its owner.
pub fn may_edit_sensor(user: &UserQuery, sensor: &SensorQuery) -> (allowed: bool)
    ensures
        allowed == (sensor.owner_id == user.id),
{
    sensor.owner_id == user.id
}

/// The mail that resets a password: a page with the link of the one-time
/// login.
pub open spec fn reset_mail(token: Seq<char>) -> Seq<char> {
    "<html><body>Reset password at this link: <a href=\"https://dev.solsensor.com/login/onetime/"@
        + token + "\">Reset Password</a></body></html>"@
}

/// The mail that resets a password with the one-time login `token`.
pub fn forgot_password_mail(token: &str) -> (html: String)
    ensures
        html@ == reset_mail(token@),
{
    String::from_str(
        "<html><body>Reset password at this link: <a href=\"https://dev.solsensor.com/login/onetime/",
    ).concat(token).concat("\">Reset Password</a></body></html>")
}

/// How a request that was not authorized is answered.
#[derive(Debug)]
pub enum AnyResponder {
    /// A JSON object of status `failure` with this message.
    Json(String),
    /// A flash of this message on the way to the path.
    Flash(Redirect, String),
}

/// Whether a path belongs to the JSON interface: it starts with `/api`.
pub open spec fn is_api_path(path: Seq<char>) -> bool {
    path.len() >= 4 && path[0] == '/' && path[1] == 'a' && path[2] == 'p' && path[3] == 'i'
}

/// The answer to a request for `path` that was not authorized: a failure
/// in JSON under `/api`, elsewhere a flash on the way to the login page.
pub fn not_authorized(path: &str) -> (r: AnyResponder)
    ensures
        match r {
            AnyResponder::Json(msg) => is_api_path(path@) && msg@ == "not authorized to access "@
                + path@,
            AnyResponder::Flash(to, msg) => !is_api_path(path@) && to.to@ == "/login"@ && msg@
                == "not authorized to access "@ + path@,
        },
{
    let msg: String = String::from_str("not authorized to access ").concat(path);
    let api: bool = path.unicode_len() >= 4 && path.get_char(0) == '/' && path.get_char(1) == 'a'
        && path.get_char(2) == 'p' && path.get_char(3) == 'i';
    if api {
        AnyResponder::Json(msg)
    } else {
        AnyResponder::Flash(Redirect { to: String::from_str("/login") }, msg)
    }
}

} // verus!
