use axum_starter::routes::add_user::{
    add_user, extract_add_user, insert_failed_event, insert_user, is_form_content_type,
    parse_add_user, user_added_status, AddUser, AddUserAction, FormRejection,
};
use axum_starter::routes::{STATUS_BAD_REQUEST, STATUS_INTERNAL_SERVER_ERROR, STATUS_OK};
use axum_starter::telemetry::{HeaderText, Level};

fn form_header() -> HeaderText {
    HeaderText::Text("application/x-www-form-urlencoded".to_string())
}

fn pairs(items: &[(&str, &str)]) -> Vec<(String, String)> {
    items.iter().map(|(k, v)| (k.to_string(), v.to_string())).collect()
}

#[test]
fn add_user_returns_200_for_valid_form() {
    let body = "username=hello&email=world%40gmail.com";
    match add_user(&form_header(), body.as_bytes()) {
        AddUserAction::Insert(row) => {
            assert_eq!(200, user_added_status(&Ok(())));
            assert_eq!(row.username, "hello");
            assert_eq!(row.email, "world@gmail.com")
        }
        AddUserAction::Respond(status) => panic!("refused with {}", status),
    }
}

#[test]
fn add_user_returns_400_for_valid_form() {
    let test_cases = vec![
        ("username=hello", "missing the email"),
        ("email=john%40gmail.com", "missing the name"),
        ("", "missing both name and email"),
    ];
    for (invalid_body, err_msg) in test_cases {
        let status = match add_user(&form_header(), invalid_body.as_bytes()) {
            AddUserAction::Respond(status) => status,
            AddUserAction::Insert(_) => 200,
        };
        assert_eq!(
            400, status,
            "The API did not fail with 400 Bad Request when the payload was {}.",
            err_msg
        )
    }
}

#[test]
fn empty_body_is_refused_and_stores_nothing() {
    assert!(matches!(
        add_user(&form_header(), b""),
        AddUserAction::Respond(STATUS_BAD_REQUEST)
    ));
    assert!(matches!(
        extract_add_user(&form_header(), b""),
        Err(FormRejection::InvalidForm)
    ));
}

#[test]
fn store_failure_is_server_error() {
    assert_eq!(
        user_added_status(&Err("connection reset".to_string())),
        STATUS_INTERNAL_SERVER_ERROR
    );
    assert_eq!(user_added_status(&Ok(())), STATUS_OK);
}

#[test]
fn wrong_content_type_is_refused() {
    let body = b"username=a&email=b";
    for ct in [
        HeaderText::Absent,
        HeaderText::Opaque,
        HeaderText::Text("application/json".to_string()),
        HeaderText::Text("application/x-www-form".to_string()),
    ] {
        assert!(!is_form_content_type(&ct));
        assert!(matches!(
            extract_add_user(&ct, body),
            Err(FormRejection::InvalidContentType)
        ));
        assert!(matches!(add_user(&ct, body), AddUserAction::Respond(400)));
    }
    let with_charset =
        HeaderText::Text("application/x-www-form-urlencoded; charset=utf-8".to_string());
    assert!(is_form_content_type(&with_charset));
    assert!(extract_add_user(&with_charset, body).is_ok());
}

#[test]
fn form_values_are_decoded() {
    let body = b"email=a%2Bb%40x.org&username=John+Smith&other=1";
    let user = extract_add_user(&form_header(), body).ok().unwrap();
    assert_eq!(user.username, "John Smith");
    assert_eq!(user.email, "a+b@x.org");
}

#[test]
fn empty_values_are_accepted() {
    let user = extract_add_user(&form_header(), b"username=&email=").ok().unwrap();
    assert_eq!(user.username, "");
    assert_eq!(user.email, "");
}

#[test]
fn repeated_field_is_refused() {
    let r = parse_add_user(&pairs(&[("username", "a"), ("email", "b"), ("username", "c")]));
    assert!(matches!(r, Err(FormRejection::InvalidForm)));
    let r = extract_add_user(&form_header(), b"username=a&email=b&email=c");
    assert!(matches!(r, Err(FormRejection::InvalidForm)));
}

#[test]
fn parse_ignores_other_names() {
    let r = parse_add_user(&pairs(&[("x", "1"), ("email", "e"), ("username", "u"), ("", "")]));
    let user = r.ok().unwrap();
    assert_eq!(user.username, "u");
    assert_eq!(user.email, "e");
    assert!(matches!(
        parse_add_user(&pairs(&[("user", "u"), ("email", "e")])),
        Err(FormRejection::InvalidForm)
    ));
}

#[test]
fn rejection_status_is_bad_request() {
    assert_eq!(FormRejection::InvalidContentType.status(), 400);
    assert_eq!(FormRejection::InvalidForm.status(), 400);
}

fn version_and_variant(id: u128) -> (u128, u128) {
    ((id >> 76) & 0xf, (id >> 62) & 0x3)
}

#[test]
fn rows_get_distinct_random_ids() {
    let form = AddUser { username: "hello".to_string(), email: "world@gmail.com".to_string() };
    let first = insert_user(&form);
    let second = insert_user(&AddUser { username: "other".to_string(), email: "o@x.org".to_string() });
    assert_eq!(first.username, "hello");
    assert_eq!(first.email, "world@gmail.com");
    assert_eq!(second.username, "other");
    assert_ne!(first.id, second.id);
    assert_eq!(version_and_variant(first.id), (4, 2));
    assert_eq!(version_and_variant(second.id), (4, 2));
}

#[test]
fn two_requests_store_distinct_rows() {
    let a = add_user(&form_header(), b"username=ann&email=ann%40x.org");
    let b = add_user(&form_header(), b"username=bob&email=bob%40x.org");
    match (a, b) {
        (AddUserAction::Insert(a), AddUserAction::Insert(b)) => {
            assert_eq!((a.username.as_str(), a.email.as_str()), ("ann", "ann@x.org"));
            assert_eq!((b.username.as_str(), b.email.as_str()), ("bob", "bob@x.org"));
            assert_ne!(a.id, b.id);
        }
        _ => panic!("a valid form was refused"),
    }
}

#[test]
fn insert_failure_event_carries_detail() {
    let e = insert_failed_event(&"PoolTimedOut".to_string());
    assert!(e.level == Level::Error);
    assert_eq!(e.message, "Failed to execute query: PoolTimedOut");
    assert!(e.fields.is_empty());
}
