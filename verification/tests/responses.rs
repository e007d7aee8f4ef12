use myust::date::Timestamp;
use myust::http::MyustResponse;
use myust::json::Json;
use myust::model::File;
use myust::responses::{
    bookmark_created, bookmark_deleted, created_paste, deleted_paste, deleted_pastes,
    error_from_response, fetched_paste, user_bookmarks, user_pastes,
};

fn from_serde(v: &serde_json::Value) -> Json {
    match v {
        serde_json::Value::Null => Json::Null,
        serde_json::Value::Bool(b) => Json::Bool(*b),
        serde_json::Value::Number(n) => Json::Number(n.to_string()),
        serde_json::Value::String(t) => Json::Str(t.clone()),
        serde_json::Value::Array(items) => Json::Array(items.iter().map(from_serde).collect()),
        serde_json::Value::Object(m) => {
            Json::Object(m.iter().map(|(k, v)| (k.clone(), from_serde(v))).collect())
        }
    }
}

fn resp(status_code: u16, body: Option<&str>) -> MyustResponse {
    MyustResponse {
        json: body.map(|t| from_serde(&serde_json::from_str::<serde_json::Value>(t).unwrap())),
        status_code,
    }
}

fn files() -> Vec<File> {
    vec![File { filename: "a.txt".to_string(), content: "hi".to_string() }]
}

const ERROR_BODY: &str = "{\"error\":\"Unauthorized\",\"notice\":\"log in\",\"detail\":{\"why\":\"token\",\"n\":2}}";

#[test]
fn created_paste_reads_id_and_date() {
    let expires = Some(Timestamp { secs: 10, nanos: 0 });
    for code in [200u16, 201, 204] {
        let r = resp(code, Some("{\"created_at\":\"2022-01-02T03:04:05.5+01:00\",\"id\":\"AbcDef\"}"));
        let p = created_paste(&r, files(), expires).unwrap().unwrap();
        assert_eq!(p.id, "AbcDef");
        assert_eq!(p.created_at, Timestamp { secs: 1641089045, nanos: 500_000_000 });
        assert_eq!(p.expires, expires);
        assert_eq!(p.files.len(), 1);
        assert_eq!(p.files[0].filename, "a.txt");
        assert_eq!(p.files[0].content, "hi");
    }
}

#[test]
fn created_paste_without_what_it_needs_has_no_answer() {
    assert!(created_paste(&resp(201, None), files(), None).is_none());
    assert!(created_paste(&resp(201, Some("{\"created_at\":\"2022-01-02T03:04:05Z\"}")), files(), None).is_none());
    assert!(created_paste(&resp(201, Some("{\"created_at\":\"yesterday\",\"id\":\"x\"}")), files(), None).is_none());
    assert!(created_paste(&resp(201, Some("{\"created_at\":7,\"id\":\"x\"}")), files(), None).is_none());
}

#[test]
fn refused_creation_is_the_service_error() {
    let e = created_paste(&resp(401, Some(ERROR_BODY)), files(), None).unwrap().err().unwrap();
    assert_eq!(e.code, 401);
    assert_eq!(e.error.as_deref(), Some("Unauthorized"));
    assert_eq!(e.notice.as_deref(), Some("log in"));
    let detail = e.detail.unwrap();
    assert_eq!(detail.len(), 2);
    assert_eq!(detail[0].0, "n");
    assert_eq!(detail[0].1.to_text(), "2");
    assert_eq!(detail[1].0, "why");
    assert_eq!(detail[1].1.to_text(), "\"token\"");
    assert!(created_paste(&resp(500, None), files(), None).is_none());
}

#[test]
fn error_members_of_other_kinds_are_absent() {
    let e = error_from_response(&resp(418, Some("{\"error\":3,\"detail\":[1]}"))).unwrap();
    assert_eq!(e.code, 418);
    assert!(e.error.is_none());
    assert!(e.notice.is_none());
    assert!(e.detail.is_none());
    assert!(error_from_response(&resp(418, None)).is_none());
}

#[test]
fn fetched_paste_reads_files_as_json_text() {
    let body = "{\"created_at\":\"2020-01-01T00:00:00Z\",\"expires\":null,\"files\":[{\"filename\":\"x.rs\",\"content\":\"fn f() {}\"},{\"filename\":\"y\",\"content\":1}]}";
    let p = fetched_paste(&resp(200, Some(body)), "pid").unwrap().unwrap();
    assert_eq!(p.id, "pid");
    assert_eq!(p.created_at, Timestamp { secs: 1577836800, nanos: 0 });
    assert!(p.expires.is_none());
    assert_eq!(p.files.len(), 2);
    assert_eq!(p.files[0].filename, "\"x.rs\"");
    assert_eq!(p.files[0].content, "\"fn f() {}\"");
    assert_eq!(p.files[1].content, "1");
}

#[test]
fn fetched_paste_expiry() {
    let body = "{\"created_at\":\"2020-01-01T00:00:00Z\",\"expires\":\"2020-01-02T00:00:00Z\",\"files\":[]}";
    let p = fetched_paste(&resp(200, Some(body)), "pid").unwrap().unwrap();
    assert_eq!(p.expires, Some(Timestamp { secs: 1577923200, nanos: 0 }));
    let body = "{\"created_at\":\"2020-01-01T00:00:00Z\",\"files\":[]}";
    assert!(fetched_paste(&resp(200, Some(body)), "pid").unwrap().unwrap().expires.is_none());
    let body = "{\"created_at\":\"2020-01-01T00:00:00Z\",\"expires\":5,\"files\":[]}";
    assert!(fetched_paste(&resp(200, Some(body)), "pid").is_none());
    let body = "{\"created_at\":\"2020-01-01T00:00:00Z\",\"files\":[{\"filename\":\"x\"}]}";
    assert!(fetched_paste(&resp(200, Some(body)), "pid").is_none());
    let e = fetched_paste(&resp(404, Some("{\"error\":\"Not found\"}")), "pid").unwrap().err().unwrap();
    assert_eq!(e.code, 404);
    assert_eq!(e.error.as_deref(), Some("Not found"));
}

#[test]
fn deleting_one_paste() {
    let d = deleted_paste(&resp(200, None), "gone").unwrap().unwrap();
    assert_eq!(d.succeeded, Some(vec!["gone".to_string()]));
    assert!(d.failed.is_none());
    let e = deleted_paste(&resp(403, Some("{}")), "gone").unwrap().err().unwrap();
    assert_eq!(e.code, 403);
    assert!(e.error.is_none());
    assert!(deleted_paste(&resp(403, None), "gone").is_none());
}

#[test]
fn deleting_several_pastes() {
    let d = deleted_pastes(&resp(200, Some("{\"succeeded\":[\"a\",\"b\"],\"failed\":[\"c\"]}"))).unwrap().unwrap();
    assert_eq!(d.succeeded, Some(vec!["\"a\"".to_string(), "\"b\"".to_string()]));
    assert_eq!(d.failed, Some(vec!["\"c\"".to_string()]));
    assert!(deleted_pastes(&resp(200, Some("{\"succeeded\":[]}"))).is_none());
    assert_eq!(deleted_pastes(&resp(400, Some("{}"))).unwrap().err().unwrap().code, 400);
}

#[test]
fn listing_user_pastes_and_bookmarks() {
    let body = "{\"pastes\":[{\"created_at\":\"1970-01-01T00:00:01Z\",\"expires\":null,\"id\":\"a\"},{\"created_at\":\"1970-01-01T00:00:02Z\",\"expires\":\"1970-01-01T00:00:03Z\",\"id\":\"b\"}]}";
    let ps = user_pastes(&resp(200, Some(body))).unwrap().unwrap();
    assert_eq!(ps.len(), 2);
    assert_eq!(ps[0].id, "a");
    assert_eq!(ps[0].created_at, Timestamp { secs: 1, nanos: 0 });
    assert!(ps[0].expires.is_none());
    assert_eq!(ps[1].expires, Some(Timestamp { secs: 3, nanos: 0 }));
    assert!(user_bookmarks(&resp(200, Some(body))).is_none());
    let body = "{\"bookmarks\":[{\"created_at\":\"1970-01-01T00:00:01Z\",\"id\":\"z\"}]}";
    let bs = user_bookmarks(&resp(200, Some(body))).unwrap().unwrap();
    assert_eq!(bs.len(), 1);
    assert_eq!(bs[0].id, "z");
    let body = "{\"bookmarks\":[{\"created_at\":\"1970-01-01T00:00:01Z\",\"expires\":\"soon\",\"id\":\"z\"}]}";
    assert!(user_bookmarks(&resp(200, Some(body))).is_none());
    assert_eq!(user_pastes(&resp(401, Some(ERROR_BODY))).unwrap().err().unwrap().code, 401);
}

#[test]
fn bookmark_acknowledgements() {
    assert!(bookmark_created(&resp(201, None)).unwrap().is_ok());
    assert_eq!(bookmark_created(&resp(200, Some("{}"))).unwrap().err().unwrap().code, 200);
    assert!(bookmark_deleted(&resp(204, None)).unwrap().is_ok());
    assert_eq!(bookmark_deleted(&resp(200, Some("{}"))).unwrap().err().unwrap().code, 200);
    assert!(bookmark_deleted(&resp(500, None)).is_none());
}
