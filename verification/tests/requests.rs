use myust::date::Timestamp;
use myust::http::{HttpMethod, BOOKMARK_ENDPOINT, PASTE_ENDPOINT, SELF_ENDPOINT, USER_PASTES_ENDPOINT};
use myust::model::{GetPasteBuilder, PasteBuilder, PastesBuilder, UserPastesOptions};
use myust::requests::{
    authorized_token, check_token_request, create_bookmark_request, create_multifile_paste_request,
    create_paste_request, delete_bookmark_request, delete_pastes_request, get_paste_request,
    request_delete_paste, request_get_user_bookmarks, user_pastes_request,
};

fn builder(filename: &str, content: &str, expires: Option<Timestamp>, password: Option<&str>) -> PasteBuilder {
    PasteBuilder {
        filename: filename.to_string(),
        content: content.to_string(),
        expires,
        password: password.map(|p| p.to_string()),
    }
}

fn auth() -> Option<String> {
    Some("Bearer tok".to_string())
}

#[test]
fn token_check_sends_the_bearer_token() {
    let r = check_token_request("tok");
    assert_eq!(r.method, HttpMethod::Get);
    assert_eq!(r.url, SELF_ENDPOINT);
    assert_eq!(r.authorization.as_deref(), Some("Bearer tok"));
    assert!(r.body.is_none());
}

#[test]
fn token_is_accepted_on_200_only() {
    assert_eq!(authorized_token("tok", 200).as_deref(), Some("Bearer tok"));
    assert!(authorized_token("tok", 401).is_none());
    assert!(authorized_token("tok", 201).is_none());
}

#[test]
fn create_paste_body_and_address() {
    let r = create_paste_request(&None, &builder("a.txt", "hi \"there\"", None, None)).unwrap();
    assert_eq!(r.method, HttpMethod::Put);
    assert_eq!(r.url, PASTE_ENDPOINT);
    assert!(r.authorization.is_none());
    assert_eq!(
        r.body.as_deref(),
        Some("{\"expires\":null,\"files\":[{\"content\":\"hi \\\"there\\\"\",\"filename\":\"a.txt\"}],\"password\":null}")
    );
}

#[test]
fn create_paste_writes_expiry_and_password() {
    let t = Timestamp { secs: 1431648000, nanos: 0 };
    let r = create_paste_request(&auth(), &builder("f", "c", Some(t), Some("pw"))).unwrap();
    assert_eq!(r.authorization.as_deref(), Some("Bearer tok"));
    assert_eq!(
        r.body.as_deref(),
        Some("{\"expires\":\"2015-05-15T00:00:00+00:00\",\"files\":[{\"content\":\"c\",\"filename\":\"f\"}],\"password\":\"pw\"}")
    );
}

#[test]
fn create_paste_refuses_an_instant_without_text() {
    let t = Timestamp { secs: i64::MAX, nanos: 0 };
    assert!(create_paste_request(&None, &builder("f", "c", Some(t), None)).is_none());
}

#[test]
fn multifile_takes_settings_from_the_first_file() {
    let b = PastesBuilder {
        files: vec![
            builder("one", "1", None, Some("first")),
            builder("two", "2", Some(Timestamp { secs: 0, nanos: 0 }), Some("second")),
        ],
    };
    let r = create_multifile_paste_request(&auth(), &b).unwrap();
    assert_eq!(
        r.body.as_deref(),
        Some("{\"expires\":null,\"files\":[{\"content\":\"1\",\"filename\":\"one\"},{\"content\":\"2\",\"filename\":\"two\"}],\"password\":\"first\"}")
    );
}

#[test]
fn single_file_equals_multifile_of_one() {
    let one = builder("x", "y", Some(Timestamp { secs: 86400, nanos: 5 }), Some("p"));
    let a = create_paste_request(&auth(), &one).unwrap();
    let b = create_multifile_paste_request(
        &auth(),
        &PastesBuilder { files: vec![builder("x", "y", Some(Timestamp { secs: 86400, nanos: 5 }), Some("p"))] },
    )
    .unwrap();
    assert_eq!(a.body, b.body);
    assert_eq!(a.url, b.url);
    assert_eq!(a.method, b.method);
    assert_eq!(a.authorization, b.authorization);
}

#[test]
fn get_paste_address_holds_the_password() {
    let r = get_paste_request(&None, &GetPasteBuilder { id: "abc".to_string(), password: None });
    assert_eq!(r.method, HttpMethod::Get);
    assert_eq!(r.url, format!("{}/abc", PASTE_ENDPOINT));
    assert_eq!(r.body.as_deref(), Some("{}"));
    let r = get_paste_request(&auth(), &GetPasteBuilder { id: "abc".to_string(), password: Some("s3".to_string()) });
    assert_eq!(r.url, format!("{}/abc?password=s3", PASTE_ENDPOINT));
    assert_eq!(r.authorization.as_deref(), Some("Bearer tok"));
}

#[test]
fn delete_requests() {
    let r = request_delete_paste(&auth(), "xyz");
    assert_eq!(r.method, HttpMethod::Delete);
    assert_eq!(r.url, format!("{}/xyz", PASTE_ENDPOINT));
    assert_eq!(r.body.as_deref(), Some("{}"));
    let r = delete_pastes_request(&auth(), &vec!["a".to_string(), "b".to_string()]);
    assert_eq!(r.method, HttpMethod::Delete);
    assert_eq!(r.url, PASTE_ENDPOINT);
    assert_eq!(r.body.as_deref(), Some("{\"pastes\":[\"a\",\"b\"]}"));
}

#[test]
fn user_paste_listing_request() {
    let r = user_pastes_request(&auth(), &UserPastesOptions { limit: Some(50), page: None });
    assert_eq!(r.method, HttpMethod::Get);
    assert_eq!(r.url, USER_PASTES_ENDPOINT);
    assert_eq!(r.body.as_deref(), Some("{\"limit\":50,\"page\":null}"));
    let r = user_pastes_request(&auth(), &UserPastesOptions { limit: None, page: Some(1007) });
    assert_eq!(r.body.as_deref(), Some("{\"limit\":null,\"page\":1007}"));
}

#[test]
fn bookmark_requests() {
    let r = create_bookmark_request(&auth(), "p1");
    assert_eq!(r.method, HttpMethod::Put);
    assert_eq!(r.url, BOOKMARK_ENDPOINT);
    assert_eq!(r.body.as_deref(), Some("{\"paste_id\":\"p1\"}"));
    let r = delete_bookmark_request(&auth(), "p1");
    assert_eq!(r.method, HttpMethod::Delete);
    assert_eq!(r.body.as_deref(), Some("{\"paste_id\":\"p1\"}"));
    let r = request_get_user_bookmarks(&auth());
    assert_eq!(r.method, HttpMethod::Get);
    assert_eq!(r.url, BOOKMARK_ENDPOINT);
    assert_eq!(r.body.as_deref(), Some("{}"));
}
