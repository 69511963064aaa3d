use auth0_management::json::render_object;
use auth0_management::{HttpMethod, JsonValue, Ordering, UserLogsGet, UserUpdate};

fn pairs(ps: &[(String, String)]) -> Vec<(&str, &str)> {
    ps.iter().map(|(k, v)| (k.as_str(), v.as_str())).collect()
}

#[test]
fn logs_request_with_page_size_and_sort() {
    let mut r = UserLogsGet::new("U123");
    r.per_page(100).sort("date", Ordering::Ascending);
    let call = r.build();
    assert_eq!(call.method, HttpMethod::Get);
    assert_eq!(call.path, "api/v2/users/U123/logs");
    assert_eq!(pairs(&call.query), vec![("per_page", "100"), ("sort", "date:1")]);
    assert!(call.body.is_none());
}

#[test]
fn logs_request_without_sort_has_no_sort_key() {
    let mut r = UserLogsGet::new("U9");
    r.page(2).include_totals(true);
    let call = r.build();
    assert_eq!(pairs(&call.query), vec![("page", "2"), ("include_totals", "true")]);
    assert!(call.query.iter().all(|(k, _)| k != "sort"));
}

#[test]
fn plain_logs_request_has_empty_query() {
    let call = UserLogsGet::new("abc").build();
    assert_eq!(call.path, "api/v2/users/abc/logs");
    assert!(call.query.is_empty());
}

#[test]
fn update_with_only_blocked() {
    let mut u = UserUpdate::new("U123");
    u.blocked(true);
    let call = u.build().unwrap();
    assert_eq!(call.method, HttpMethod::Patch);
    assert_eq!(call.path, "api/v2/users/U123");
    assert!(call.query.is_empty());
    assert_eq!(call.body.as_deref(), Some("{\"blocked\":true}"));
}

#[test]
fn empty_update_sends_empty_object() {
    let call = UserUpdate::new("U1").build().unwrap();
    assert_eq!(call.body.as_deref(), Some("{}"));
}

#[test]
fn update_escapes_string_fields() {
    let mut u = UserUpdate::new("U1");
    u.name("Ann \"Nan\" Lee").email_verified(false);
    let body = u.build().unwrap().body.unwrap();
    assert_eq!(body, "{\"email_verified\":false,\"name\":\"Ann \\\"Nan\\\" Lee\"}");
}

#[test]
fn update_user_id_changes_path() {
    let mut u = UserUpdate::new("old");
    u.user_id("new").nickname("nick");
    let call = u.build().unwrap();
    assert_eq!(call.path, "api/v2/users/new");
    assert_eq!(call.body.as_deref(), Some("{\"nickname\":\"nick\"}"));
}

#[test]
fn update_body_round_trips_set_fields() {
    let fixture = r#"{"user_id":"auth0|42","email":"a@b.c","email_verified":true,
        "given_name":"Ann","blocked":false,"picture":"https://x/y.png",
        "app_metadata":{"plan":"gold","n":[1,2]},"user_metadata":{"lang":"fr"}}"#;
    let user: serde_json::Value = serde_json::from_str(fixture).unwrap();
    let mut u = UserUpdate::new(user["user_id"].as_str().unwrap());
    u.email(user["email"].as_str().unwrap())
        .email_verified(user["email_verified"].as_bool().unwrap())
        .given_name(user["given_name"].as_str().unwrap())
        .blocked(user["blocked"].as_bool().unwrap())
        .picture(user["picture"].as_str().unwrap())
        .app_metadata(&user["app_metadata"].to_string())
        .user_metadata(&user["user_metadata"].to_string());
    let body = u.build().unwrap().body.unwrap();
    let back: serde_json::Value = serde_json::from_str(&body).unwrap();
    let obj = back.as_object().unwrap();
    for key in [
        "email",
        "email_verified",
        "given_name",
        "blocked",
        "picture",
        "app_metadata",
        "user_metadata",
    ] {
        assert_eq!(obj.get(key), Some(&user[key]), "{}", key);
    }
    assert_eq!(obj.len(), 7);
    assert!(!obj.contains_key("user_id"));
    assert!(!obj.contains_key("password"));
}

#[test]
fn render_object_keeps_member_order() {
    let ms = vec![
        ("b".to_string(), JsonValue::Bool(false)),
        ("a".to_string(), JsonValue::Str("x\ny".to_string())),
        ("m".to_string(), JsonValue::Raw("[1,2]".to_string())),
    ];
    assert_eq!(
        render_object(&ms).as_deref(),
        Some("{\"b\":false,\"a\":\"x\\ny\",\"m\":[1,2]}")
    );
    assert_eq!(render_object(&Vec::new()).as_deref(), Some("{}"));
}
