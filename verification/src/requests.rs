//! The requests that the clients send: the address, the method, the
//! `Authorization` header and the JSON body of each operation.
use vstd::prelude::*;

use crate::date::{rfc3339_text, to_rfc3339, Timestamp};
use crate::http::{
    HttpMethod, Request, RequestView, BOOKMARK_ENDPOINT, PASTE_ENDPOINT, SELF_ENDPOINT,
    USER_PASTES_ENDPOINT,
};
use crate::json::{decimal, json_text, Json, JsonValue};
use crate::model::{
    files_view, opt_text, opt_view, File, FileView, GetPasteBuilder, PasteBuilder, PasteBuilderView,
    PastesBuilder, UserPastesOptions,
};

verus! {

/// The `Authorization` header value of a token.
pub open spec fn bearer(token: Seq<char>) -> Seq<char> {
    "Bearer "@ + token
}

/// A request whose body is the JSON text of `body`.
pub open spec fn json_request(
    method: HttpMethod,
    url: Seq<char>,
    authorization: Option<Seq<char>>,
    body: JsonValue,
) -> RequestView {
    RequestView { method, url, authorization, body: Some(json_text(body)) }
}

pub open spec fn empty_object() -> JsonValue {
    JsonValue::Object(Seq::empty())
}

pub open spec fn paste_url(paste_id: Seq<char>) -> Seq<char> {
    PASTE_ENDPOINT@ + "/"@ + paste_id
}

/// The address of a paste, with the password as a query parameter, as it
/// stands.
pub open spec fn get_paste_url(paste_id: Seq<char>, password: Option<Seq<char>>) -> Seq<char> {
    match password {
        Some(p) => paste_url(paste_id) + "?password="@ + p,
        None => paste_url(paste_id),
    }
}

pub open spec fn opt_str_json(o: Option<Seq<char>>) -> JsonValue {
    match o {
        Some(s) => JsonValue::Str(s),
        None => JsonValue::Null,
    }
}

pub open spec fn opt_number_json(o: Option<u64>) -> JsonValue {
    match o {
        Some(n) => JsonValue::Number(decimal(n as nat)),
        None => JsonValue::Null,
    }
}

pub open spec fn file_json(f: FileView) -> JsonValue {
    JsonValue::Object(
        seq![("content"@, JsonValue::Str(f.content)), ("filename"@, JsonValue::Str(f.filename))],
    )
}

/// The body that creates a paste. Its members are in the order of their
/// names, as the JSON object model keeps them.
pub open spec fn create_paste_json(
    files: Seq<FileView>,
    password: Option<Seq<char>>,
    expires: Option<Seq<char>>,
) -> JsonValue {
    JsonValue::Object(
        seq![
            ("expires"@, opt_str_json(expires)),
            ("files"@, JsonValue::Array(files.map_values(|f: FileView| file_json(f)))),
            ("password"@, opt_str_json(password)),
        ],
    )
}

pub open spec fn delete_pastes_json(paste_ids: Seq<Seq<char>>) -> JsonValue {
    JsonValue::Object(
        seq![("pastes"@, JsonValue::Array(paste_ids.map_values(|s: Seq<char>| JsonValue::Str(s))))],
    )
}

pub open spec fn user_pastes_json(limit: Option<u64>, page: Option<u64>) -> JsonValue {
    JsonValue::Object(seq![("limit"@, opt_number_json(limit)), ("page"@, opt_number_json(page))])
}

pub open spec fn bookmark_json(paste_id: Seq<char>) -> JsonValue {
    JsonValue::Object(seq![("paste_id"@, JsonValue::Str(paste_id))])
}

/// The file of a paste of one file.
pub open spec fn builder_file(b: PasteBuilderView) -> FileView {
    FileView { filename: b.filename, content: b.content }
}

/// The RFC 3339 text of an optional expiry: `Some(None)` for none, `None`
/// where the instant has no text.
pub open spec fn expiry_text(expires: Option<Timestamp>) -> Option<Option<Seq<char>>> {
    match expires {
        None => Some(None),
        Some(t) => match rfc3339_text(t.secs, t.nanos) {
            Some(s) => Some(Some(s)),
            None => None,
        },
    }
}

/// The request that creates a paste of `files`, with the password and
/// expiry of `first`.
pub open spec fn create_request_spec(
    authorization: Option<Seq<char>>,
    files: Seq<FileView>,
    first: PasteBuilderView,
) -> Option<RequestView> {
    match expiry_text(first.expires) {
        Some(expires) => Some(
            json_request(
                HttpMethod::Put,
                PASTE_ENDPOINT@,
                authorization,
                create_paste_json(files, first.password, expires),
            ),
        ),
        None => None,
    }
}

fn opt_str_value(o: &Option<String>) -> (r: Json)
    ensures
        r@ == opt_str_json(opt_text(*o)),
{
    match o {
        Some(s) => Json::Str(s.clone()),
        None => Json::Null,
    }
}

fn opt_number_value(o: Option<u64>) -> (r: Json)
    ensures
        r@ == opt_number_json(o),
{
    match o {
        Some(n) => Json::from_u64(n),
        None => Json::Null,
    }
}

/// An object of the given entries.
fn object(entries: Vec<(String, Json)>) -> (r: Json)
    ensures
        r@ == JsonValue::Object(entries.deep_view()),
{
    proof {
        crate::json::lemma_object_view(entries);
    }
    Json::Object(entries)
}

fn key(name: &str) -> (r: String)
    ensures
        r@ == name@,
{
    broadcast use vstd::string::to_string_from_display_ensures_for_str;

    name.to_string()
}

/// A request whose body is the JSON text of `json`.
pub fn request(method: HttpMethod, url: String, authorization: &Option<String>, json: &Json) -> (r:
    Request)
    ensures
        r@ == json_request(method, url@, opt_text(*authorization), json@),
{
    let body = json.to_text();
    Request { method, url, authorization: authorization.clone(), body: Some(body) }
}

/// The request that checks a token: the authenticated user, with the token
/// as a bearer token and no body.
pub fn check_token_request(token: &str) -> (r: Request)
    ensures
        r@ == (RequestView {
            method: HttpMethod::Get,
            url: SELF_ENDPOINT@,
            authorization: Some(bearer(token@)),
            body: None,
        }),
{
    let mut auth = key("Bearer ");
    auth.append(token);
    Request { method: HttpMethod::Get, url: key(SELF_ENDPOINT), authorization: Some(auth), body: None }
}

/// The `Authorization` value that an authenticated client keeps, given the
/// status code with which the service answered the check of its token: the
/// token is accepted on 200 alone.
pub fn authorized_token(token: &str, status_code: u16) -> (r: Option<String>)
    ensures
        r is Some <==> status_code == 200,
        r matches Some(t) ==> t@ == bearer(token@),
{
    if status_code == 200 {
        let mut auth = key("Bearer ");
        auth.append(token);
        Some(auth)
    } else {
        None
    }
}

pub fn request_create_paste(authorization: &Option<String>, json: &Json) -> (r: Request)
    ensures
        r@ == json_request(HttpMethod::Put, PASTE_ENDPOINT@, opt_text(*authorization), json@),
{
    request(HttpMethod::Put, key(PASTE_ENDPOINT), authorization, json)
}

pub fn request_delete_paste(authorization: &Option<String>, paste_id: &str) -> (r: Request)
    ensures
        r@ == json_request(
            HttpMethod::Delete,
            paste_url(paste_id@),
            opt_text(*authorization),
            empty_object(),
        ),
{
    let mut url = key(PASTE_ENDPOINT);
    url.append("/");
    url.append(paste_id);
    request(HttpMethod::Delete, url, authorization, &object(Vec::new()))
}

pub fn request_delete_pastes(authorization: &Option<String>, json: &Json) -> (r: Request)
    ensures
        r@ == json_request(HttpMethod::Delete, PASTE_ENDPOINT@, opt_text(*authorization), json@),
{
    request(HttpMethod::Delete, key(PASTE_ENDPOINT), authorization, json)
}

pub fn request_get_paste(authorization: &Option<String>, paste_id: &str, password: &Option<String>) -> (r:
    Request)
    ensures
        r@ == json_request(
            HttpMethod::Get,
            get_paste_url(paste_id@, opt_text(*password)),
            opt_text(*authorization),
            empty_object(),
        ),
{
    let mut url = key(PASTE_ENDPOINT);
    url.append("/");
    url.append(paste_id);
    match password {
        Some(p) => {
            url.append("?password=");
            url.append(p.as_str());
        },
        None => {},
    }
    request(HttpMethod::Get, url, authorization, &object(Vec::new()))
}

pub fn request_get_user_pastes(authorization: &Option<String>, json: &Json) -> (r: Request)
    ensures
        r@ == json_request(
            HttpMethod::Get,
            USER_PASTES_ENDPOINT@,
            opt_text(*authorization),
            json@,
        ),
{
    request(HttpMethod::Get, key(USER_PASTES_ENDPOINT), authorization, json)
}

pub fn request_create_bookmark(authorization: &Option<String>, json: &Json) -> (r: Request)
    ensures
        r@ == json_request(HttpMethod::Put, BOOKMARK_ENDPOINT@, opt_text(*authorization), json@),
{
    request(HttpMethod::Put, key(BOOKMARK_ENDPOINT), authorization, json)
}

pub fn request_delete_bookmark(authorization: &Option<String>, json: &Json) -> (r: Request)
    ensures
        r@ == json_request(
            HttpMethod::Delete,
            BOOKMARK_ENDPOINT@,
            opt_text(*authorization),
            json@,
        ),
{
    request(HttpMethod::Delete, key(BOOKMARK_ENDPOINT), authorization, json)
}

pub fn request_get_user_bookmarks(authorization: &Option<String>) -> (r: Request)
    ensures
        r@ == json_request(
            HttpMethod::Get,
            BOOKMARK_ENDPOINT@,
            opt_text(*authorization),
            empty_object(),
        ),
{
    request(HttpMethod::Get, key(BOOKMARK_ENDPOINT), authorization, &object(Vec::new()))
}

/// The body of a file: its content and its name, in the order of the
/// member names, as the JSON object model keeps them.
fn file_value(f: &File) -> (r: Json)
    ensures
        r@ == file_json(f@),
{
    let mut entries: Vec<(String, Json)> = Vec::new();
    entries.push((key("content"), Json::Str(f.content.clone())));
    entries.push((key("filename"), Json::Str(f.filename.clone())));
    let r = object(entries);
    proof {
        assert(entries.deep_view() =~= seq![
            ("content"@, JsonValue::Str(f.content@)),
            ("filename"@, JsonValue::Str(f.filename@)),
        ]);
    }
    r
}

/// The body that creates a paste of `files`, with the given password and
/// expiry text.
pub fn create_paste_body(files: &Vec<File>, password: &Option<String>, expires: &Option<String>) -> (r:
    Json)
    ensures
        r@ == create_paste_json(files_view(files@), opt_text(*password), opt_text(*expires)),
{
    let mut items: Vec<Json> = Vec::new();
    let mut i: usize = 0;
    while i < files.len()
        invariant
            0 <= i <= files.len(),
            items@.len() == i,
            forall|j: int| 0 <= j < i ==> (#[trigger] items@[j])@ == file_json(files@[j]@),
        decreases files.len() - i,
    {
        items.push(file_value(&files[i]));
        i = i + 1;
    }
    proof {
        crate::json::lemma_array_view(items);
        assert(items@.map_values(|j: Json| j@) =~= files_view(files@).map_values(
            |f: FileView| file_json(f),
        ));
    }
    let files_value = Json::Array(items);
    let mut entries: Vec<(String, Json)> = Vec::new();
    entries.push((key("expires"), opt_str_value(expires)));
    entries.push((key("files"), files_value));
    entries.push((key("password"), opt_str_value(password)));
    let r = object(entries);
    proof {
        assert(entries.deep_view() =~= seq![
            ("expires"@, opt_str_json(opt_text(*expires))),
            ("files"@, JsonValue::Array(files_view(files@).map_values(|f: FileView| file_json(f)))),
            ("password"@, opt_str_json(opt_text(*password))),
        ]);
    }
    r
}

/// The body that deletes the pastes of the given ids.
pub fn delete_pastes_body(paste_ids: &Vec<String>) -> (r: Json)
    ensures
        r@ == delete_pastes_json(paste_ids.deep_view()),
{
    let mut items: Vec<Json> = Vec::new();
    let mut i: usize = 0;
    while i < paste_ids.len()
        invariant
            0 <= i <= paste_ids.len(),
            items@.len() == i,
            forall|j: int| 0 <= j < i ==> (#[trigger] items@[j])@ == JsonValue::Str(paste_ids@[j]@),
        decreases paste_ids.len() - i,
    {
        items.push(Json::Str(paste_ids[i].clone()));
        i = i + 1;
    }
    proof {
        crate::json::lemma_array_view(items);
        assert(items@.map_values(|j: Json| j@) =~= paste_ids.deep_view().map_values(
            |s: Seq<char>| JsonValue::Str(s),
        ));
    }
    let mut entries: Vec<(String, Json)> = Vec::new();
    entries.push((key("pastes"), Json::Array(items)));
    let r = object(entries);
    proof {
        assert(entries.deep_view() =~= seq![
            ("pastes"@, JsonValue::Array(paste_ids.deep_view().map_values(|s: Seq<char>| JsonValue::Str(s)))),
        ]);
    }
    r
}

/// The body that asks for a page of the user's pastes.
pub fn user_pastes_body(options: &UserPastesOptions) -> (r: Json)
    ensures
        r@ == user_pastes_json(options.limit, options.page),
{
    let mut entries: Vec<(String, Json)> = Vec::new();
    entries.push((key("limit"), opt_number_value(options.limit)));
    entries.push((key("page"), opt_number_value(options.page)));
    let r = object(entries);
    proof {
        assert(entries.deep_view() =~= seq![
            ("limit"@, opt_number_json(options.limit)),
            ("page"@, opt_number_json(options.page)),
        ]);
    }
    r
}

/// The body that names a paste to bookmark or to unbookmark.
pub fn bookmark_body(paste_id: &str) -> (r: Json)
    ensures
        r@ == bookmark_json(paste_id@),
{
    let mut entries: Vec<(String, Json)> = Vec::new();
    entries.push((key("paste_id"), Json::from_str(paste_id)));
    let r = object(entries);
    proof {
        assert(entries.deep_view() =~= seq![("paste_id"@, JsonValue::Str(paste_id@))]);
    }
    r
}

/// The file of a paste of one file.
pub fn paste_files(b: &PasteBuilder) -> (r: Vec<File>)
    ensures
        files_view(r@) == seq![builder_file(b@)],
{
    let mut files: Vec<File> = Vec::new();
    files.push(File { filename: b.filename.clone(), content: b.content.clone() });
    proof {
        assert(files_view(files@) =~= seq![builder_file(b@)]);
    }
    files
}

/// The files of a paste of several files, in order.
pub fn pastes_files(b: &PastesBuilder) -> (r: Vec<File>)
    ensures
        files_view(r@) == b@.map_values(|f: PasteBuilderView| builder_file(f)),
{
    let mut files: Vec<File> = Vec::new();
    let mut i: usize = 0;
    while i < b.files.len()
        invariant
            0 <= i <= b.files.len(),
            files@.len() == i,
            forall|j: int| 0 <= j < i ==> (#[trigger] files@[j])@ == builder_file(b.files@[j]@),
        decreases b.files.len() - i,
    {
        files.push(File { filename: b.files[i].filename.clone(), content: b.files[i].content.clone() });
        i = i + 1;
    }
    proof {
        assert(files_view(files@) =~= b@.map_values(|f: PasteBuilderView| builder_file(f)));
    }
    files
}

/// The RFC 3339 text of an optional expiry; `None` where the instant has no
/// text.
fn format_expiry(expires: &Option<Timestamp>) -> (r: Option<Option<String>>)
    ensures
        r is Some <==> expiry_text(*expires) is Some,
        r matches Some(e) ==> expiry_text(*expires) == Some(opt_text(e)),
{
    match expires {
        None => Some(None),
        Some(t) => match to_rfc3339(t) {
            Some(s) => Some(Some(s)),
            None => None,
        },
    }
}

/// The request that creates a paste of one file; `None` where its expiry
/// has no RFC 3339 text.
pub fn create_paste_request(authorization: &Option<String>, b: &PasteBuilder) -> (r: Option<Request>)
    ensures
        opt_view(r) == create_request_spec(opt_text(*authorization), seq![builder_file(b@)], b@),
{
    let expires = match format_expiry(&b.expires) {
        Some(e) => e,
        None => return None,
    };
    let files = paste_files(b);
    let json = create_paste_body(&files, &b.password, &expires);
    Some(request_create_paste(authorization, &json))
}

/// The request that creates a paste of several files, with the password
/// and expiry of the first; `None` where that expiry has no RFC 3339 text.
pub fn create_multifile_paste_request(authorization: &Option<String>, b: &PastesBuilder) -> (r:
    Option<Request>)
    requires
        b.files.len() > 0,
    ensures
        opt_view(r) == create_request_spec(
            opt_text(*authorization),
            b@.map_values(|f: PasteBuilderView| builder_file(f)),
            b@[0],
        ),
{
    let first = &b.files[0];
    let expires = match format_expiry(&first.expires) {
        Some(e) => e,
        None => return None,
    };
    let files = pastes_files(b);
    let json = create_paste_body(&files, &first.password, &expires);
    Some(request_create_paste(authorization, &json))
}

/// The request that fetches the paste that `b` names.
pub fn get_paste_request(authorization: &Option<String>, b: &GetPasteBuilder) -> (r: Request)
    ensures
        r@ == json_request(
            HttpMethod::Get,
            get_paste_url(b.id@, opt_text(b.password)),
            opt_text(*authorization),
            empty_object(),
        ),
{
    request_get_paste(authorization, b.id.as_str(), &b.password)
}

/// The request that deletes the pastes of the given ids.
pub fn delete_pastes_request(authorization: &Option<String>, paste_ids: &Vec<String>) -> (r: Request)
    ensures
        r@ == json_request(
            HttpMethod::Delete,
            PASTE_ENDPOINT@,
            opt_text(*authorization),
            delete_pastes_json(paste_ids.deep_view()),
        ),
{
    request_delete_pastes(authorization, &delete_pastes_body(paste_ids))
}

/// The request that lists a page of the user's pastes.
pub fn user_pastes_request(authorization: &Option<String>, options: &UserPastesOptions) -> (r: Request)
    ensures
        r@ == json_request(
            HttpMethod::Get,
            USER_PASTES_ENDPOINT@,
            opt_text(*authorization),
            user_pastes_json(options.limit, options.page),
        ),
{
    request_get_user_pastes(authorization, &user_pastes_body(options))
}

/// The request that bookmarks a paste.
pub fn create_bookmark_request(authorization: &Option<String>, paste_id: &str) -> (r: Request)
    ensures
        r@ == json_request(
            HttpMethod::Put,
            BOOKMARK_ENDPOINT@,
            opt_text(*authorization),
            bookmark_json(paste_id@),
        ),
{
    request_create_bookmark(authorization, &bookmark_body(paste_id))
}

/// The request that removes a paste from the bookmarks.
pub fn delete_bookmark_request(authorization: &Option<String>, paste_id: &str) -> (r: Request)
    ensures
        r@ == json_request(
            HttpMethod::Delete,
            BOOKMARK_ENDPOINT@,
            opt_text(*authorization),
            bookmark_json(paste_id@),
        ),
{
    request_delete_bookmark(authorization, &bookmark_body(paste_id))
}

} // verus!
