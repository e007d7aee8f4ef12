//! What each operation makes of the response it got back.
//!
//! A reading function answers `None` exactly where the response lacks what
//! the operation needs to read (a body that is not JSON, a member missing or
//! of the wrong kind, a date that does not parse), `Some(Ok(..))` for the
//! status codes that mean success, and `Some(Err(..))`, the service's error,
//! for every other status code.
use vstd::prelude::*;

use crate::date::{instant_timestamp, parse_date, rfc3339_instant, Timestamp};
use crate::http::{MyustResponse, MyustResponseView};
use crate::json::{item_texts, json_text, Json, JsonValue};
use crate::model::{
    files_view, opt_view, outcome_view, opt_text, user_pastes_view, DeleteResult, DeleteResultView, File, FileView,
    MystbinError, MystbinErrorView, Paste, PasteView, UserPaste, UserPasteView,
};

verus! {

/// The error that a response stands for: its status code and the `error`,
/// `notice` and `detail` members of its body; `None` where the body is not
/// JSON.
pub open spec fn error_outcome(resp: MyustResponseView) -> Option<MystbinErrorView> {
    match resp.json {
        Some(data) => Some(
            MystbinErrorView {
                code: resp.status_code,
                error: data.index("error"@).as_str(),
                notice: data.index("notice"@).as_str(),
                detail: data.index("detail"@).as_object(),
            },
        ),
        None => None,
    }
}

/// The answer to a request that the service refused.
pub open spec fn refused<T>(resp: MyustResponseView) -> Option<Result<T, MystbinErrorView>> {
    match error_outcome(resp) {
        Some(e) => Some(Err(e)),
        None => None,
    }
}

pub open spec fn parsed_date(text: Seq<char>) -> Option<Timestamp> {
    instant_timestamp(rfc3339_instant(text))
}

pub open spec fn is_creation_success(status_code: u16) -> bool {
    status_code == 200 || status_code == 201 || status_code == 204
}

/// What creating a paste of `files` with expiry `expires` answers.
pub open spec fn created_paste_spec(
    resp: MyustResponseView,
    files: Seq<FileView>,
    expires: Option<Timestamp>,
) -> Option<Result<PasteView, MystbinErrorView>> {
    if is_creation_success(resp.status_code) {
        match resp.json {
            Some(data) => match (data.index("created_at"@).as_str(), data.index("id"@).as_str()) {
                (Some(c), Some(id)) => match parsed_date(c) {
                    Some(t) => Some(Ok(PasteView { created_at: t, expires, files, id })),
                    None => None,
                },
                _ => None,
            },
            None => None,
        }
    } else {
        refused(resp)
    }
}

/// A file as a fetched paste lists it: the JSON text of its `filename` and
/// `content` members, which must both be there.
pub open spec fn fetched_file(x: JsonValue) -> Option<FileView> {
    match (x.get("filename"@), x.get("content"@)) {
        (Some(f), Some(c)) => Some(FileView { filename: json_text(f), content: json_text(c) }),
        _ => None,
    }
}

pub open spec fn fetched_files(items: Seq<JsonValue>) -> Option<Seq<FileView>> {
    if forall|i: int| 0 <= i < items.len() ==> #[trigger] fetched_file(items[i]) is Some {
        Some(Seq::new(items.len(), |i: int| fetched_file(items[i])->0))
    } else {
        None
    }
}

/// The expiry of a fetched paste: none where the member is null or missing,
/// else the date that its text parses to.
pub open spec fn fetched_expiry(data: JsonValue) -> Option<Option<Timestamp>> {
    let e = data.index("expires"@);
    if e.is_null() {
        Some(None)
    } else {
        match e.as_str() {
            Some(s) => match parsed_date(s) {
                Some(t) => Some(Some(t)),
                None => None,
            },
            None => None,
        }
    }
}

/// What fetching the paste of id `paste_id` answers.
pub open spec fn fetched_paste_spec(resp: MyustResponseView, paste_id: Seq<char>) -> Option<
    Result<PasteView, MystbinErrorView>,
> {
    if resp.status_code == 200 {
        match resp.json {
            Some(data) => match (
                fetched_expiry(data),
                data.index("files"@).as_array(),
                data.index("created_at"@).as_str(),
            ) {
                (Some(expires), Some(items), Some(c)) => match (fetched_files(items), parsed_date(c)) {
                    (Some(files), Some(t)) => Some(
                        Ok(PasteView { created_at: t, expires, files, id: paste_id }),
                    ),
                    _ => None,
                },
                _ => None,
            },
            None => None,
        }
    } else {
        refused(resp)
    }
}

/// What deleting the paste of id `paste_id` answers.
pub open spec fn deleted_paste_spec(resp: MyustResponseView, paste_id: Seq<char>) -> Option<
    Result<DeleteResultView, MystbinErrorView>,
> {
    if resp.status_code == 200 {
        Some(Ok(DeleteResultView { succeeded: Some(seq![paste_id]), failed: None }))
    } else {
        refused(resp)
    }
}

/// What deleting several pastes answers: the JSON text of each item of the
/// `succeeded` and `failed` arrays.
pub open spec fn deleted_pastes_spec(resp: MyustResponseView) -> Option<
    Result<DeleteResultView, MystbinErrorView>,
> {
    if resp.status_code == 200 {
        match resp.json {
            Some(data) => match (data.index("succeeded"@).as_array(), data.index("failed"@).as_array()) {
                (Some(s), Some(f)) => Some(
                    Ok(DeleteResultView { succeeded: Some(item_texts(s)), failed: Some(item_texts(f)) }),
                ),
                _ => None,
            },
            None => None,
        }
    } else {
        refused(resp)
    }
}

/// A paste as a listing gives it: the expiry where its member is a string,
/// the creation date and the id, which must be strings.
pub open spec fn listed_paste(x: JsonValue) -> Option<UserPasteView> {
    let expires = match x.index("expires"@).as_str() {
        Some(s) => match parsed_date(s) {
            Some(t) => Some(Some(t)),
            None => None,
        },
        None => Some(None),
    };
    match (expires, x.index("created_at"@).as_str(), x.index("id"@).as_str()) {
        (Some(e), Some(c), Some(id)) => match parsed_date(c) {
            Some(t) => Some(UserPasteView { created_at: t, expires: e, id }),
            None => None,
        },
        _ => None,
    }
}

pub open spec fn listed_pastes(items: Seq<JsonValue>) -> Option<Seq<UserPasteView>> {
    if forall|i: int| 0 <= i < items.len() ==> #[trigger] listed_paste(items[i]) is Some {
        Some(Seq::new(items.len(), |i: int| listed_paste(items[i])->0))
    } else {
        None
    }
}

/// What a listing answers, its pastes being the items of the array under
/// `list_key`.
pub open spec fn listing_spec(resp: MyustResponseView, list_key: Seq<char>) -> Option<
    Result<Seq<UserPasteView>, MystbinErrorView>,
> {
    if resp.status_code == 200 {
        match resp.json {
            Some(data) => match data.index(list_key).as_array() {
                Some(items) => match listed_pastes(items) {
                    Some(ps) => Some(Ok(ps)),
                    None => None,
                },
                None => None,
            },
            None => None,
        }
    } else {
        refused(resp)
    }
}

/// What a request answers that has nothing to give back on success, which
/// `success` alone means.
pub open spec fn acknowledged_spec(resp: MyustResponseView, success: u16) -> Option<
    Result<(), MystbinErrorView>,
> {
    if resp.status_code == success {
        Some(Ok(()))
    } else {
        refused(resp)
    }
}

pub open spec fn listing_view(o: Option<Result<Vec<UserPaste>, MystbinError>>) -> Option<
    Result<Seq<UserPasteView>, MystbinErrorView>,
> {
    match o {
        Some(Ok(ps)) => Some(Ok(user_pastes_view(ps@))),
        Some(Err(e)) => Some(Err(e@)),
        None => None,
    }
}

fn opt_string(o: Option<&String>) -> (r: Option<String>)
    ensures
        opt_text(r) == match o {
            Some(s) => Some(s@),
            None => None::<Seq<char>>,
        },
{
    match o {
        Some(s) => Some(s.clone()),
        None => None,
    }
}

fn copy_entries(entries: &Vec<(String, Json)>) -> (r: Vec<(String, Json)>)
    ensures
        r.deep_view() == entries.deep_view(),
{
    let mut out: Vec<(String, Json)> = Vec::new();
    let mut i: usize = 0;
    while i < entries.len()
        invariant
            0 <= i <= entries.len(),
            out@.len() == i,
            forall|j: int|
                0 <= j < i ==> (#[trigger] out@[j]).0@ == entries@[j].0@ && out@[j].1@
                    == entries@[j].1@,
        decreases entries.len() - i,
    {
        out.push((entries[i].0.clone(), entries[i].1.duplicate()));
        i = i + 1;
    }
    proof {
        crate::json::lemma_object_view(out);
        crate::json::lemma_object_view(*entries);
        assert(crate::json::entries_view(out@) =~= crate::json::entries_view(entries@));
    }
    out
}

/// The error that a response stands for; `None` where its body is not JSON.
pub fn error_from_response(resp: &MyustResponse) -> (r: Option<MystbinError>)
    ensures
        opt_view(r) == error_outcome(resp@),
{
    match &resp.json {
        Some(data) => {
            let detail = match data.index("detail").as_object() {
                Some(entries) => Some(copy_entries(entries)),
                None => None,
            };
            Some(
                MystbinError {
                    code: resp.status_code,
                    error: opt_string(data.index("error").as_str()),
                    notice: opt_string(data.index("notice").as_str()),
                    detail,
                },
            )
        },
        None => None,
    }
}

fn refusal<T>(resp: &MyustResponse) -> (r: Option<Result<T, MystbinError>>)
    ensures
        match r {
            Some(Ok(_)) => false,
            Some(Err(e)) => error_outcome(resp@) == Some(e@),
            None => error_outcome(resp@) is None,
        },
{
    match error_from_response(resp) {
        Some(e) => Some(Err(e)),
        None => None,
    }
}

/// What creating a paste of `files` with expiry `expires` answers.
pub fn created_paste(resp: &MyustResponse, files: Vec<File>, expires: Option<Timestamp>) -> (r:
    Option<Result<Paste, MystbinError>>)
    ensures
        outcome_view(r) == created_paste_spec(resp@, files_view(files@), expires),
{
    let status = resp.status_code;
    if status == 200 || status == 201 || status == 204 {
        match &resp.json {
            Some(data) => match (data.index("created_at").as_str(), data.index("id").as_str()) {
                (Some(c), Some(id)) => match parse_date(c.as_str()) {
                    Some(t) => Some(Ok(Paste { created_at: t, expires, files, id: id.clone() })),
                    None => None,
                },
                _ => None,
            },
            None => None,
        }
    } else {
        refusal(resp)
    }
}

/// A file as a fetched paste lists it.
fn fetched_file_of(x: &Json) -> (r: Option<File>)
    ensures
        opt_view(r) == fetched_file(x@),
{
    match (x.get("filename"), x.get("content")) {
        (Some(f), Some(c)) => Some(File { filename: f.to_text(), content: c.to_text() }),
        _ => None,
    }
}

/// The files that a fetched paste lists; `None` where one lacks a member.
pub fn fetched_files_of(items: &Vec<Json>) -> (r: Option<Vec<File>>)
    ensures
        match r {
            Some(files) => fetched_files(items@.map_values(|j: Json| j@)) == Some(files_view(files@)),
            None => fetched_files(items@.map_values(|j: Json| j@)) is None,
        },
{
    let ghost vs = items@.map_values(|j: Json| j@);
    let mut files: Vec<File> = Vec::new();
    let mut i: usize = 0;
    while i < items.len()
        invariant
            0 <= i <= items.len(),
            vs == items@.map_values(|j: Json| j@),
            files@.len() == i,
            forall|j: int|
                0 <= j < i ==> #[trigger] fetched_file(vs[j]) == Some((#[trigger] files@[j])@),
        decreases items.len() - i,
    {
        match fetched_file_of(&items[i]) {
            Some(f) => files.push(f),
            None => {
                assert(fetched_file(vs[i as int]) is None);
                return None;
            },
        }
        i = i + 1;
    }
    proof {
        assert forall|j: int| 0 <= j < vs.len() implies #[trigger] fetched_file(vs[j]) is Some by {
            assert(fetched_file(vs[j]) == Some(files@[j]@));
        }
        assert(Seq::new(vs.len(), |j: int| fetched_file(vs[j])->0) =~= files_view(files@));
    }
    Some(files)
}

/// What fetching the paste of id `paste_id` answers.
pub fn fetched_paste(resp: &MyustResponse, paste_id: &str) -> (r: Option<Result<Paste, MystbinError>>)
    ensures
        outcome_view(r) == fetched_paste_spec(resp@, paste_id@),
{
    broadcast use vstd::string::to_string_from_display_ensures_for_str;

    if resp.status_code == 200 {
        match &resp.json {
            Some(data) => {
                let e = data.index("expires");
                let expires = if !e.is_null() {
                    match e.as_str() {
                        Some(s) => match parse_date(s.as_str()) {
                            Some(t) => Some(t),
                            None => return None,
                        },
                        None => return None,
                    }
                } else {
                    None
                };
                let items = match data.index("files").as_array() {
                    Some(items) => items,
                    None => return None,
                };
                let c = match data.index("created_at").as_str() {
                    Some(c) => c,
                    None => return None,
                };
                let files = match fetched_files_of(items) {
                    Some(files) => files,
                    None => return None,
                };
                match parse_date(c.as_str()) {
                    Some(t) => Some(
                        Ok(Paste { created_at: t, expires, files, id: paste_id.to_string() }),
                    ),
                    None => None,
                }
            },
            None => None,
        }
    } else {
        refusal(resp)
    }
}

/// What deleting the paste of id `paste_id` answers.
pub fn deleted_paste(resp: &MyustResponse, paste_id: &str) -> (r: Option<
    Result<DeleteResult, MystbinError>,
>)
    ensures
        outcome_view(r) == deleted_paste_spec(resp@, paste_id@),
{
    broadcast use vstd::string::to_string_from_display_ensures_for_str;

    if resp.status_code == 200 {
        let mut ids: Vec<String> = Vec::new();
        ids.push(paste_id.to_string());
        proof {
            assert(ids.deep_view() =~= seq![paste_id@]);
        }
        Some(Ok(DeleteResult { succeeded: Some(ids), failed: None }))
    } else {
        refusal(resp)
    }
}

/// The JSON text of each item.
pub fn json_texts(items: &Vec<Json>) -> (r: Vec<String>)
    ensures
        r.deep_view() == item_texts(items@.map_values(|j: Json| j@)),
{
    let ghost vs = items@.map_values(|j: Json| j@);
    let mut out: Vec<String> = Vec::new();
    let mut i: usize = 0;
    while i < items.len()
        invariant
            0 <= i <= items.len(),
            out@.len() == i,
            forall|j: int| 0 <= j < i ==> (#[trigger] out@[j])@ == json_text(items@[j]@),
        decreases items.len() - i,
    {
        out.push(items[i].to_text());
        i = i + 1;
    }
    proof {
        assert(out.deep_view() =~= item_texts(items@.map_values(|j: Json| j@)));
    }
    out
}

/// What deleting several pastes answers.
pub fn deleted_pastes(resp: &MyustResponse) -> (r: Option<Result<DeleteResult, MystbinError>>)
    ensures
        outcome_view(r) == deleted_pastes_spec(resp@),
{
    if resp.status_code == 200 {
        match &resp.json {
            Some(data) => match (data.index("succeeded").as_array(), data.index("failed").as_array()) {
                (Some(s), Some(f)) => Some(
                    Ok(DeleteResult { succeeded: Some(json_texts(s)), failed: Some(json_texts(f)) }),
                ),
                _ => None,
            },
            None => None,
        }
    } else {
        refusal(resp)
    }
}

/// A paste as a listing gives it.
fn listed_paste_of(x: &Json) -> (r: Option<UserPaste>)
    ensures
        opt_view(r) == listed_paste(x@),
{
    let expires = match x.index("expires").as_str() {
        Some(s) => match parse_date(s.as_str()) {
            Some(t) => Some(t),
            None => return None,
        },
        None => None,
    };
    match (x.index("created_at").as_str(), x.index("id").as_str()) {
        (Some(c), Some(id)) => match parse_date(c.as_str()) {
            Some(t) => Some(UserPaste { created_at: t, expires, id: id.clone() }),
            None => None,
        },
        _ => None,
    }
}

/// The pastes of a listing; `None` where one lacks a member.
fn listed_pastes_of(items: &Vec<Json>) -> (r: Option<Vec<UserPaste>>)
    ensures
        match r {
            Some(ps) => listed_pastes(items@.map_values(|j: Json| j@)) == Some(user_pastes_view(ps@)),
            None => listed_pastes(items@.map_values(|j: Json| j@)) is None,
        },
{
    let ghost vs = items@.map_values(|j: Json| j@);
    let mut pastes: Vec<UserPaste> = Vec::new();
    let mut i: usize = 0;
    while i < items.len()
        invariant
            0 <= i <= items.len(),
            vs == items@.map_values(|j: Json| j@),
            pastes@.len() == i,
            forall|j: int|
                0 <= j < i ==> #[trigger] listed_paste(vs[j]) == Some((#[trigger] pastes@[j])@),
        decreases items.len() - i,
    {
        match listed_paste_of(&items[i]) {
            Some(p) => pastes.push(p),
            None => {
                assert(listed_paste(vs[i as int]) is None);
                return None;
            },
        }
        i = i + 1;
    }
    proof {
        assert forall|j: int| 0 <= j < vs.len() implies #[trigger] listed_paste(vs[j]) is Some by {
            assert(listed_paste(vs[j]) == Some(pastes@[j]@));
        }
        assert(Seq::new(vs.len(), |j: int| listed_paste(vs[j])->0) =~= user_pastes_view(pastes@));
    }
    Some(pastes)
}

/// What a listing answers, its pastes being the items of the array under
/// `list_key`.
pub fn listing(resp: &MyustResponse, list_key: &str) -> (r: Option<Result<Vec<UserPaste>, MystbinError>>)
    ensures
        listing_view(r) == listing_spec(resp@, list_key@),
{
    if resp.status_code == 200 {
        match &resp.json {
            Some(data) => match data.index(list_key).as_array() {
                Some(items) => match listed_pastes_of(items) {
                    Some(ps) => Some(Ok(ps)),
                    None => None,
                },
                None => None,
            },
            None => None,
        }
    } else {
        match error_from_response(resp) {
            Some(e) => Some(Err(e)),
            None => None,
        }
    }
}

/// What listing the user's pastes answers.
pub fn user_pastes(resp: &MyustResponse) -> (r: Option<Result<Vec<UserPaste>, MystbinError>>)
    ensures
        listing_view(r) == listing_spec(resp@, "pastes"@),
{
    listing(resp, "pastes")
}

/// What listing the user's bookmarks answers.
pub fn user_bookmarks(resp: &MyustResponse) -> (r: Option<Result<Vec<UserPaste>, MystbinError>>)
    ensures
        listing_view(r) == listing_spec(resp@, "bookmarks"@),
{
    listing(resp, "bookmarks")
}

/// What bookmarking a paste answers: success is 201.
pub fn bookmark_created(resp: &MyustResponse) -> (r: Option<Result<(), MystbinError>>)
    ensures
        outcome_view(r) == acknowledged_spec(resp@, 201),
{
    if resp.status_code == 201 {
        Some(Ok(()))
    } else {
        refusal(resp)
    }
}

/// What removing a bookmark answers: success is 204.
pub fn bookmark_deleted(resp: &MyustResponse) -> (r: Option<Result<(), MystbinError>>)
    ensures
        outcome_view(r) == acknowledged_spec(resp@, 204),
{
    if resp.status_code == 204 {
        Some(Ok(()))
    } else {
        refusal(resp)
    }
}

} // verus!
