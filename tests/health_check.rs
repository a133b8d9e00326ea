use axum_starter::routes::health_check::health_check;

#[test]
fn health_check_works() {
    let status = health_check();
    assert!((200..300).contains(&status));
    assert_eq!(status, 200);
}
