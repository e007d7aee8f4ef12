//! What holds of the operations together.
use vstd::prelude::*;

use crate::date::{instant_timestamp, rfc3339_instant, rfc3339_text, Timestamp};
use crate::http::{HttpMethod, MyustResponseView, PASTE_ENDPOINT};
use crate::json::{json_text, lookup, JsonValue};
use crate::model::{DeleteResultView, FileView, MystbinErrorView, PasteBuilderView, PasteView, UserPasteView};
use crate::json::decimal;
use crate::requests::{
    bearer, bookmark_json, builder_file, create_request_spec, delete_pastes_json, empty_object,
    file_json, get_paste_url, json_request, opt_str_json, paste_url, user_pastes_json,
};
use crate::http::RequestView;
use crate::responses::{
    acknowledged_spec, created_paste_spec, deleted_paste_spec, deleted_pastes_spec,
    error_outcome, fetched_paste_spec, is_creation_success, listing_spec, parsed_date, refused,
};

verus! {

/// The error that a response stands for carries its status code and the
/// `error` and `notice` strings and `detail` object of its JSON body (each
/// absent where the member is missing or of another kind); where the body is
/// not JSON there is none.
pub proof fn the_service_error_is_read_from_the_body(resp: MyustResponseView)
    ensures
        resp.json is None ==> error_outcome(resp) is None && refused::<()>(resp) is None,
        resp.json matches Some(data) ==> {
            let e = MystbinErrorView {
                code: resp.status_code,
                error: data.index("error"@).as_str(),
                notice: data.index("notice"@).as_str(),
                detail: data.index("detail"@).as_object(),
            };
            &&& error_outcome(resp) == Some(e)
            &&& refused::<()>(resp) == Some(Err::<(), MystbinErrorView>(e))
        },
{
}

/// Every operation answers a response whose status code does not mean
/// success for it with the service's error: creating a paste succeeds on
/// 200, 201 and 204, bookmarking on 201, unbookmarking on 204, and every
/// other operation on 200 alone. A request that has nothing to give back
/// succeeds on its code whatever the body.
pub proof fn refusal_is_the_service_error(
    resp: MyustResponseView,
    files: Seq<FileView>,
    expires: Option<Timestamp>,
    paste_id: Seq<char>,
    list_key: Seq<char>,
    success: u16,
)
    ensures
        !(resp.status_code == 200 || resp.status_code == 201 || resp.status_code == 204)
            ==> created_paste_spec(resp, files, expires) == refused::<PasteView>(resp),
        created_paste_spec(resp, files, expires) matches Some(Ok(_)) ==> (resp.status_code == 200
            || resp.status_code == 201 || resp.status_code == 204),
        resp.status_code != 200 ==> {
            &&& fetched_paste_spec(resp, paste_id) == refused::<PasteView>(resp)
            &&& deleted_paste_spec(resp, paste_id) == refused::<DeleteResultView>(resp)
            &&& deleted_pastes_spec(resp) == refused::<DeleteResultView>(resp)
            &&& listing_spec(resp, list_key) == refused::<Seq<UserPasteView>>(resp)
        },
        resp.status_code != success ==> acknowledged_spec(resp, success) == refused::<()>(resp),
        resp.status_code == success ==> acknowledged_spec(resp, success) == Some(
            Ok::<(), MystbinErrorView>(()),
        ),
        error_outcome(resp) is None <==> resp.json is None,
        error_outcome(resp) matches Some(e) ==> e.code == resp.status_code,
{
}

/// A created paste holds the files and the expiry that were sent, and a
/// fetched paste the id that was asked for.
pub proof fn answers_keep_what_was_asked(
    resp: MyustResponseView,
    files: Seq<FileView>,
    expires: Option<Timestamp>,
    paste_id: Seq<char>,
)
    ensures
        created_paste_spec(resp, files, expires) matches Some(Ok(p)) ==> p.files == files
            && p.expires == expires,
        fetched_paste_spec(resp, paste_id) matches Some(Ok(p)) ==> p.id == paste_id,
        deleted_paste_spec(resp, paste_id) matches Some(Ok(d)) ==> d.succeeded == Some(
            seq![paste_id],
        ) && d.failed is None,
{
}

/// A paste of several files takes its password and expiry from the first
/// file alone: the request does not change with those of the others.
pub proof fn multifile_settings_come_from_the_first_file(
    authorization: Option<Seq<char>>,
    a: Seq<PasteBuilderView>,
    b: Seq<PasteBuilderView>,
)
    requires
        a.len() > 0,
        a.len() == b.len(),
        a[0].password == b[0].password,
        a[0].expires == b[0].expires,
        forall|i: int| 0 <= i < a.len() ==> builder_file(a[i]) == builder_file(b[i]),
    ensures
        create_request_spec(
            authorization,
            a.map_values(|f: PasteBuilderView| builder_file(f)),
            a[0],
        ) == create_request_spec(
            authorization,
            b.map_values(|f: PasteBuilderView| builder_file(f)),
            b[0],
        ),
{
    assert(a.map_values(|f: PasteBuilderView| builder_file(f)) =~= b.map_values(
        |f: PasteBuilderView| builder_file(f),
    ));
}

/// Creating a paste of one file sends the same request as creating a paste
/// of several files that holds only that file.
pub proof fn single_file_is_a_multifile_paste_of_one(
    authorization: Option<Seq<char>>,
    b: PasteBuilderView,
)
    ensures
        create_request_spec(authorization, seq![builder_file(b)], b) == create_request_spec(
            authorization,
            seq![b].map_values(|f: PasteBuilderView| builder_file(f)),
            seq![b][0],
        ),
{
    assert(seq![b].map_values(|f: PasteBuilderView| builder_file(f)) =~= seq![builder_file(b)]);
}

proof fn lemma_lookup_pair(k0: Seq<char>, v0: JsonValue, k1: Seq<char>, v1: JsonValue)
    requires
        k0 != k1,
    ensures
        lookup(seq![(k0, v0), (k1, v1)], k0) == Some(v0),
        lookup(seq![(k0, v0), (k1, v1)], k1) == Some(v1),
{
    reveal_with_fuel(lookup, 2);
    let e = seq![(k0, v0), (k1, v1)];
    assert(e.drop_first() =~= seq![(k1, v1)]);
}

proof fn lemma_lookup_triple(
    k0: Seq<char>,
    v0: JsonValue,
    k1: Seq<char>,
    v1: JsonValue,
    k2: Seq<char>,
    v2: JsonValue,
)
    requires
        k0 != k1,
        k0 != k2,
        k1 != k2,
    ensures
        lookup(seq![(k0, v0), (k1, v1), (k2, v2)], k0) == Some(v0),
        lookup(seq![(k0, v0), (k1, v1), (k2, v2)], k1) == Some(v1),
        lookup(seq![(k0, v0), (k1, v1), (k2, v2)], k2) == Some(v2),
{
    let e = seq![(k0, v0), (k1, v1), (k2, v2)];
    assert(e.drop_first() =~= seq![(k1, v1), (k2, v2)]);
    lemma_lookup_pair(k1, v1, k2, v2);
}

/// A file of a paste is the caller's file as filled in: its name is the
/// name given and its content the content given, and its JSON object holds
/// the name under `filename` and the content under `content`.
pub proof fn files_are_the_callers(b: PasteBuilderView)
    ensures
        builder_file(b).filename == b.filename,
        builder_file(b).content == b.content,
        file_json(builder_file(b)).index("filename"@) == JsonValue::Str(b.filename),
        file_json(builder_file(b)).index("content"@) == JsonValue::Str(b.content),
        file_json(builder_file(b)).as_object() matches Some(es) && es.len() == 2,
{
    reveal_strlit("filename");
    reveal_strlit("content");
    assert("content"@.len() != "filename"@.len());
    lemma_lookup_pair(
        "content"@,
        JsonValue::Str(b.content),
        "filename"@,
        JsonValue::Str(b.filename),
    );
}

/// The request that creates a paste of the files `bs` (one or more) is a PUT
/// of a JSON body whose `expires` member is the RFC 3339 text of the first
/// file's expiry (null when it has none), whose `password` member is the
/// first file's password, and whose `files` member lists every file, in
/// order, with its own name and content. It is made exactly when the first
/// file has no expiry or its expiry has an RFC 3339 text.
pub proof fn create_request_carries_the_first_files_settings(
    authorization: Option<Seq<char>>,
    bs: Seq<PasteBuilderView>,
)
    requires
        bs.len() > 0,
    ensures
        create_request_spec(authorization, bs.map_values(|f: PasteBuilderView| builder_file(f)), bs[0])
            is Some <==> (bs[0].expires is None || rfc3339_text(
            bs[0].expires->0.secs,
            bs[0].expires->0.nanos,
        ) is Some),
        create_request_spec(authorization, bs.map_values(|f: PasteBuilderView| builder_file(f)), bs[0])
            matches Some(r) ==> {
            &&& r.method == HttpMethod::Put
            &&& r.url == PASTE_ENDPOINT@
            &&& r.authorization == authorization
            &&& exists|v: JsonValue|
                {
                    &&& r.body == Some(#[trigger] json_text(v))
                    &&& v.index("expires"@) == match bs[0].expires {
                        Some(t) => JsonValue::Str(rfc3339_text(t.secs, t.nanos)->0),
                        None => JsonValue::Null,
                    }
                    &&& v.as_object() matches Some(es) && es.len() == 3
                    &&& v.index("password"@) == opt_str_json(bs[0].password)
                    &&& v.index("files"@) matches JsonValue::Array(items)
                    &&& items.len() == bs.len()
                    &&& forall|i: int|
                        0 <= i < bs.len() ==> (#[trigger] items[i]).index("filename"@)
                            == JsonValue::Str(bs[i].filename) && items[i].index("content"@)
                            == JsonValue::Str(bs[i].content)
                }
        },
{
    let files = bs.map_values(|f: PasteBuilderView| builder_file(f));
    match create_request_spec(authorization, files, bs[0]) {
        Some(r) => {
            reveal_strlit("expires");
            reveal_strlit("files");
            reveal_strlit("password");
            assert("expires"@.len() == 7 && "files"@.len() == 5 && "password"@.len() == 8);
            let expires = match bs[0].expires {
                Some(t) => Some(rfc3339_text(t.secs, t.nanos)->0),
                None => None,
            };
            let items = files.map_values(|f: FileView| file_json(f));
            let v = crate::requests::create_paste_json(files, bs[0].password, expires);
            lemma_lookup_triple(
                "expires"@,
                opt_str_json(expires),
                "files"@,
                JsonValue::Array(items),
                "password"@,
                opt_str_json(bs[0].password),
            );
            assert forall|i: int| 0 <= i < bs.len() implies (#[trigger] items[i]).index("filename"@)
                == JsonValue::Str(bs[i].filename) && items[i].index("content"@) == JsonValue::Str(
                bs[i].content,
            ) by {
                files_are_the_callers(bs[i]);
            }
            assert(r.body == Some(json_text(v)));
        },
        None => {},
    }
}

/// A fetched paste has the id that was asked for, the creation date that the
/// body's `created_at` text parses to, the expiry that its `expires` text
/// parses to (none where `expires` is null or missing), and, in order, one
/// file for each item of its `files` array, named and filled with the JSON
/// text of that item's `filename` and `content` members.
pub proof fn fetched_paste_reads_its_members(
    resp: MyustResponseView,
    paste_id: Seq<char>,
    data: JsonValue,
)
    requires
        resp.json == Some(data),
    ensures
        fetched_paste_spec(resp, paste_id) matches Some(Ok(p)) ==> {
            &&& resp.status_code == 200
            &&& p.id == paste_id
            &&& data.index("created_at"@).as_str() matches Some(c)
            &&& parsed_date(c) == Some(p.created_at)
            &&& (data.index("expires"@).is_null() ==> p.expires is None)
            &&& (data.index("expires"@) matches JsonValue::Str(e) ==> parsed_date(e) == Some(
                p.expires->0,
            ) && p.expires is Some)
            &&& data.index("files"@) matches JsonValue::Array(items)
            &&& p.files.len() == items.len()
            &&& forall|i: int|
                0 <= i < items.len() ==> {
                    &&& (#[trigger] items[i]).get("filename"@) matches Some(name)
                    &&& p.files[i].filename == json_text(name)
                    &&& items[i].get("content"@) matches Some(text)
                    &&& p.files[i].content == json_text(text)
                }
        },
{
    if let Some(Ok(p)) = fetched_paste_spec(resp, paste_id) {
        if let JsonValue::Array(items) = data.index("files"@) {
            assert(crate::responses::fetched_files(items) is Some);
            assert forall|i: int| 0 <= i < items.len() implies {
                &&& (#[trigger] items[i]).get("filename"@) matches Some(name)
                &&& p.files[i].filename == json_text(name)
                &&& items[i].get("content"@) matches Some(text)
                &&& p.files[i].content == json_text(text)
            } by {
                assert(crate::responses::fetched_file(items[i]) is Some);
            }
        }
    }
}

/// A created paste has the id and the creation date that the body's `id` and
/// `created_at` members give.
pub proof fn created_paste_reads_its_members(
    resp: MyustResponseView,
    files: Seq<FileView>,
    expires: Option<Timestamp>,
    data: JsonValue,
)
    requires
        resp.json == Some(data),
    ensures
        created_paste_spec(resp, files, expires) matches Some(Ok(p)) ==> {
            &&& is_creation_success(resp.status_code)
            &&& data.index("id"@).as_str() == Some(p.id)
            &&& data.index("created_at"@).as_str() matches Some(c)
            &&& parsed_date(c) == Some(p.created_at)
        },
{
}

/// A listing gives, in order, one paste for each item of the array under
/// its key: with the id of the item's `id` member, the creation date that
/// its `created_at` text parses to, and the expiry that its `expires` text
/// parses to (none where `expires` is not a string).
pub proof fn listing_reads_each_item(resp: MyustResponseView, list_key: Seq<char>, data: JsonValue)
    requires
        resp.json == Some(data),
    ensures
        listing_spec(resp, list_key) matches Some(Ok(ps)) ==> {
            &&& resp.status_code == 200
            &&& data.index(list_key) matches JsonValue::Array(items)
            &&& ps.len() == items.len()
            &&& forall|i: int|
                0 <= i < items.len() ==> {
                    &&& (#[trigger] items[i]).index("id"@).as_str() == Some(ps[i].id)
                    &&& items[i].index("created_at"@).as_str() matches Some(c)
                    &&& parsed_date(c) == Some(ps[i].created_at)
                    &&& (items[i].index("expires"@).as_str() matches Some(e) ==> ps[i].expires
                        is Some && parsed_date(e) == ps[i].expires)
                    &&& (items[i].index("expires"@).as_str() is None ==> ps[i].expires is None)
                }
        },
{
    if let Some(Ok(ps)) = listing_spec(resp, list_key) {
        if let JsonValue::Array(items) = data.index(list_key) {
            assert forall|i: int| 0 <= i < items.len() implies {
                &&& (#[trigger] items[i]).index("id"@).as_str() == Some(ps[i].id)
                &&& items[i].index("created_at"@).as_str() matches Some(c)
                &&& parsed_date(c) == Some(ps[i].created_at)
                &&& (items[i].index("expires"@).as_str() matches Some(e) ==> ps[i].expires is Some
                    && parsed_date(e) == ps[i].expires)
                &&& (items[i].index("expires"@).as_str() is None ==> ps[i].expires is None)
            } by {
                assert(crate::responses::listed_paste(items[i]) is Some);
            }
        }
    }
}

/// Deleting one paste succeeds on status 200 whatever the body holds, with
/// that paste alone among the succeeded and no list of failures.
pub proof fn deleting_one_paste_succeeds_on_200(resp: MyustResponseView, paste_id: Seq<char>)
    requires
        resp.status_code == 200,
    ensures
        deleted_paste_spec(resp, paste_id) == Some(
            Ok::<DeleteResultView, MystbinErrorView>(
                DeleteResultView { succeeded: Some(seq![paste_id]), failed: None },
            ),
        ),
{
}

/// What a created paste is when the body gives a `created_at` text that
/// parses and an `id` string, on a success code: that date, that id, and the
/// files and expiry that were sent.
pub proof fn created_paste_answers_with_its_members(
    resp: MyustResponseView,
    files: Seq<FileView>,
    expires: Option<Timestamp>,
    data: JsonValue,
    c: Seq<char>,
    id: Seq<char>,
)
    requires
        resp.status_code == 200 || resp.status_code == 201 || resp.status_code == 204,
        resp.json == Some(data),
        data.index("created_at"@) == JsonValue::Str(c),
        data.index("id"@) == JsonValue::Str(id),
        parsed_date(c) is Some,
    ensures
        created_paste_spec(resp, files, expires) == Some(
            Ok::<PasteView, MystbinErrorView>(
                PasteView { created_at: parsed_date(c)->0, expires, files, id },
            ),
        ),
{
}

/// What a fetched paste is, on 200, when its body gives a `created_at` text
/// that parses, an `expires` member that is null (or missing) or a text that
/// parses, and a `files` array whose items all have `filename` and `content`
/// members: that date, that expiry, the id asked for, and one file per item
/// holding the JSON text of those members.
pub proof fn fetched_paste_answers_with_its_members(
    resp: MyustResponseView,
    paste_id: Seq<char>,
    data: JsonValue,
    c: Seq<char>,
    expiry: Option<Seq<char>>,
    items: Seq<JsonValue>,
)
    requires
        resp.status_code == 200,
        resp.json == Some(data),
        data.index("created_at"@) == JsonValue::Str(c),
        parsed_date(c) is Some,
        expiry is None ==> data.index("expires"@).is_null(),
        expiry matches Some(e) ==> data.index("expires"@) == JsonValue::Str(e) && parsed_date(e) is Some,
        data.index("files"@) == JsonValue::Array(items),
        forall|i: int|
            0 <= i < items.len() ==> (#[trigger] items[i]).get("filename"@) is Some && items[i].get(
                "content"@,
            ) is Some,
    ensures
        fetched_paste_spec(resp, paste_id) == Some(
            Ok::<PasteView, MystbinErrorView>(
                PasteView {
                    created_at: parsed_date(c)->0,
                    expires: match expiry {
                        Some(e) => parsed_date(e),
                        None => None,
                    },
                    files: Seq::new(
                        items.len(),
                        |i: int|
                            FileView {
                                filename: json_text(items[i].get("filename"@)->0),
                                content: json_text(items[i].get("content"@)->0),
                            },
                    ),
                    id: paste_id,
                },
            ),
        ),
{
    assert(forall|i: int| 0 <= i < items.len() ==> #[trigger] crate::responses::fetched_file(items[i]) is Some);
    let files = Seq::new(
        items.len(),
        |i: int|
            FileView {
                filename: json_text(items[i].get("filename"@)->0),
                content: json_text(items[i].get("content"@)->0),
            },
    );
    assert(crate::responses::fetched_files(items)->0 =~= files);
}

/// What deleting several pastes answers on 200 when the body has
/// `succeeded` and `failed` arrays: the JSON text of each of their items,
/// in order, and nothing else.
pub proof fn deleted_pastes_answers_with_its_lists(
    resp: MyustResponseView,
    data: JsonValue,
    succeeded: Seq<JsonValue>,
    failed: Seq<JsonValue>,
)
    requires
        resp.json == Some(data),
    ensures
        (resp.status_code == 200 && data.index("succeeded"@) == JsonValue::Array(succeeded)
            && data.index("failed"@) == JsonValue::Array(failed)) ==> deleted_pastes_spec(resp)
            == Some(
            Ok::<DeleteResultView, MystbinErrorView>(
                DeleteResultView {
                    succeeded: Some(Seq::new(succeeded.len(), |i: int| json_text(succeeded[i]))),
                    failed: Some(Seq::new(failed.len(), |i: int| json_text(failed[i]))),
                },
            ),
        ),
        deleted_pastes_spec(resp) matches Some(Ok(d)) ==> {
            &&& resp.status_code == 200
            &&& data.index("succeeded"@) is Array
            &&& data.index("failed"@) is Array
        },
{
    assert(crate::json::item_texts(succeeded) =~= Seq::new(
        succeeded.len(),
        |i: int| json_text(succeeded[i]),
    ));
    assert(crate::json::item_texts(failed) =~= Seq::new(failed.len(), |i: int| json_text(failed[i])));
}

/// What a listing is, on 200, when every item of the array under its key
/// has a `created_at` text that parses, an `id` string, and an `expires`
/// member that is not a string or is a text that parses: one paste per
/// item, in order, with that date, that id and that expiry.
pub proof fn listing_answers_with_its_items(
    resp: MyustResponseView,
    list_key: Seq<char>,
    data: JsonValue,
    items: Seq<JsonValue>,
)
    requires
        resp.status_code == 200,
        resp.json == Some(data),
        data.index(list_key) == JsonValue::Array(items),
        forall|i: int|
            0 <= i < items.len() ==> {
                &&& (#[trigger] items[i]).index("created_at"@).as_str() matches Some(c)
                &&& parsed_date(c) is Some
                &&& items[i].index("id"@).as_str() is Some
                &&& items[i].index("expires"@).as_str() matches Some(e) ==> parsed_date(e) is Some
            },
    ensures
        listing_spec(resp, list_key) == Some(
            Ok::<Seq<UserPasteView>, MystbinErrorView>(
                Seq::new(
                    items.len(),
                    |i: int|
                        UserPasteView {
                            created_at: parsed_date(items[i].index("created_at"@).as_str()->0)->0,
                            expires: match items[i].index("expires"@).as_str() {
                                Some(e) => parsed_date(e),
                                None => None,
                            },
                            id: items[i].index("id"@).as_str()->0,
                        },
                ),
            ),
        ),
{
    assert forall|i: int| 0 <= i < items.len() implies #[trigger] crate::responses::listed_paste(
        items[i],
    ) is Some by {
        assert(items[i].index("created_at"@).as_str() is Some);
    }
    let ps = Seq::new(
        items.len(),
        |i: int|
            UserPasteView {
                created_at: parsed_date(items[i].index("created_at"@).as_str()->0)->0,
                expires: match items[i].index("expires"@).as_str() {
                    Some(e) => parsed_date(e),
                    None => None,
                },
                id: items[i].index("id"@).as_str()->0,
            },
    );
    assert(crate::responses::listed_pastes(items)->0 =~= ps);
}

/// Where the requests go and what they hold: a request carries the method,
/// address and `Authorization` value it was made with and the JSON text of
/// its body; a paste lives at the paste address followed by `/` and its id,
/// with `?password=` and the password appended when one is given; the token
/// is sent as `Bearer ` followed by the token; and each body holds exactly
/// the members the operation names.
pub proof fn requests_hold_what_they_ask_for(
    method: HttpMethod,
    url: Seq<char>,
    authorization: Option<Seq<char>>,
    body: JsonValue,
    token: Seq<char>,
    paste_id: Seq<char>,
    password: Seq<char>,
    paste_ids: Seq<Seq<char>>,
    limit: Option<u64>,
    page: Option<u64>,
)
    ensures
        json_request(method, url, authorization, body) == (RequestView {
            method,
            url,
            authorization,
            body: Some(json_text(body)),
        }),
        bearer(token) == "Bearer "@ + token,
        paste_url(paste_id) == PASTE_ENDPOINT@ + "/"@ + paste_id,
        get_paste_url(paste_id, None) == PASTE_ENDPOINT@ + "/"@ + paste_id,
        get_paste_url(paste_id, Some(password)) == PASTE_ENDPOINT@ + "/"@ + paste_id
            + "?password="@ + password,
        empty_object() == JsonValue::Object(Seq::empty()),
        opt_str_json(Some(password)) == JsonValue::Str(password),
        opt_str_json(None) == JsonValue::Null,
        delete_pastes_json(paste_ids).as_object() matches Some(es) && es.len() == 1,
        delete_pastes_json(paste_ids).index("pastes"@) matches JsonValue::Array(items)
            && items.len() == paste_ids.len() && forall|i: int|
            0 <= i < paste_ids.len() ==> #[trigger] items[i] == JsonValue::Str(paste_ids[i]),
        user_pastes_json(limit, page).as_object() matches Some(es) && es.len() == 2,
        user_pastes_json(limit, page).index("limit"@) == match limit {
            Some(n) => JsonValue::Number(decimal(n as nat)),
            None => JsonValue::Null,
        },
        user_pastes_json(limit, page).index("page"@) == match page {
            Some(n) => JsonValue::Number(decimal(n as nat)),
            None => JsonValue::Null,
        },
        bookmark_json(paste_id).as_object() matches Some(es) && es.len() == 1,
        bookmark_json(paste_id).index("paste_id"@) == JsonValue::Str(paste_id),
{
    reveal_strlit("limit");
    reveal_strlit("page");
    assert("limit"@.len() != "page"@.len());
    lemma_lookup_pair(
        "limit"@,
        crate::requests::opt_number_json(limit),
        "page"@,
        crate::requests::opt_number_json(page),
    );
}

/// A date read from a response is the instant that the RFC 3339 parser reads
/// from its text, as seconds and nanoseconds; a text it refuses gives none.
pub proof fn dates_are_the_parsed_instant(text: Seq<char>)
    ensures
        rfc3339_instant(text) matches Some((secs, nanos)) ==> parsed_date(text) == Some(
            Timestamp { secs, nanos },
        ),
        rfc3339_instant(text) is None ==> parsed_date(text) is None,
        parsed_date(text) == instant_timestamp(rfc3339_instant(text)),
{
}

} // verus!
