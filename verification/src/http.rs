//! The requests the library makes of the service and the responses it reads.
use vstd::prelude::*;

use crate::json::{Json, JsonValue};
use crate::model::opt_text;

verus! {

/// The address of the pastes.
pub const PASTE_ENDPOINT: &'static str = "https://api.mystb.in/paste";

/// The address of the authenticated user's pastes.
pub const USER_PASTES_ENDPOINT: &'static str = "https://api.mystb.in/pastes/@me";

/// The address of the authenticated user's bookmarks.
pub const BOOKMARK_ENDPOINT: &'static str = "https://api.mystb.in/users/bookmarks";

/// The address of the authenticated user.
pub const SELF_ENDPOINT: &'static str = "https://api.mystb.in/users/@me";

#[derive(Clone, Copy, Debug, PartialEq, Eq, Structural)]
pub enum HttpMethod {
    Get,
    Put,
    Delete,
}

/// A request to send: the method, the address, the `Authorization` header
/// if any, and the JSON body text if any.
#[derive(Debug)]
pub struct Request {
    pub method: HttpMethod,
    pub url: String,
    pub authorization: Option<String>,
    pub body: Option<String>,
}

pub struct RequestView {
    pub method: HttpMethod,
    pub url: Seq<char>,
    pub authorization: Option<Seq<char>>,
    pub body: Option<Seq<char>>,
}

impl View for Request {
    type V = RequestView;

    open spec fn view(&self) -> RequestView {
        RequestView {
            method: self.method,
            url: self.url@,
            authorization: opt_text(self.authorization),
            body: opt_text(self.body),
        }
    }
}

/// What came back for a request: the status code, and the body decoded as
/// JSON where it decoded.
#[derive(Debug)]
pub struct MyustResponse {
    pub json: Option<Json>,
    pub status_code: u16,
}

pub struct MyustResponseView {
    pub json: Option<JsonValue>,
    pub status_code: u16,
}

impl View for MyustResponse {
    type V = MyustResponseView;

    open spec fn view(&self) -> MyustResponseView {
        MyustResponseView { json: self.json.deep_view(), status_code: self.status_code }
    }
}

} // verus!
