//! Accounts on the signaling server, over HTTP.
use vstd::prelude::*;

use crate::json::{Fields, Json};
#[allow(unused_imports)]
use crate::json::JsonView;
use crate::text::strip_end;
#[allow(unused_imports)]
use crate::text::stripped_end;

verus! {

/// An account that the server confirmed.
pub struct AuthResp {
    pub id: String,
    pub username: String,
    pub token: String,
}

/// What is asked of the server.
#[derive(Debug, Clone, Copy, PartialEq, Eq, Structural)]
pub enum AuthKind {
    Register,
    Login,
}

/// Where it is asked.
pub open spec fn auth_path(kind: AuthKind) -> Seq<char> {
    match kind {
        AuthKind::Register => "/register"@,
        AuthKind::Login => "/login"@,
    }
}

/// Where it is asked.
fn path_of(kind: AuthKind) -> (r: &'static str)
    ensures
        r@ == auth_path(kind),
{
    match kind {
        AuthKind::Register => "/register",
        AuthKind::Login => "/login",
    }
}

/// The address to post to.
pub open spec fn auth_address(server: Seq<char>, kind: AuthKind) -> Seq<char> {
    stripped_end(server, '/') + auth_path(kind)
}

/// The address to post to. A slash at the end of the server's address does not
/// matter.
pub fn auth_url(server: &str, kind: AuthKind) -> (r: String)
    ensures
        r@ == auth_address(server@, kind),
{
    strip_end(server, '/').concat(path_of(kind))
}

/// What is posted.
pub open spec fn auth_tree(username: Seq<char>, password: Seq<char>) -> JsonView {
    JsonView::Obj(
        map!["username"@ => JsonView::Str(username), "password"@ => JsonView::Str(password)],
    )
}

/// What to post.
pub fn auth_body(username: &str, password: &str) -> (r: Json)
    ensures
        r@ == auth_tree(username@, password@),
{
    Fields::new().with_text("username", username).with_text("password", password).done()
}

/// The refusal of a server that did not answer with success.
pub fn auth_refusal(kind: AuthKind, status: &str, text: &str) -> (r: String)
    ensures
        r@ == auth_path(kind) + " -> "@ + status@ + ": "@ + text@,
{
    path_of(kind).to_owned().concat(" -> ").concat(status).concat(": ").concat(text)
}

} // verus!
