use conduit::app::new_state;
use conduit::app::tags::{get, TagsResponse};
use conduit::db::Mocker;

#[test]
fn tags_test_get_some() {
    let state = new_state(Mocker::Success);
    let resp = state.run(get()).unwrap();
    assert_eq!(resp.body(), r#"{"tags":["tag"]}"#);
}

#[test]
fn test_get_empty() {
    let state = new_state(Mocker::NotFound);
    let resp = state.run(get()).unwrap();
    assert_eq!(resp.body(), r#""NotFound""#);
}

#[test]
fn test_get_error() {
    let state = new_state(Mocker::InternalError);
    let resp = state.run(get()).unwrap();
    assert_eq!(resp.body(), r#""Internal Server Error""#);
}

#[test]
fn test_get_unauthorized_outcome() {
    let state = new_state(Mocker::Unauthorized);
    let resp = state.run(get()).unwrap();
    assert_eq!(resp.status(), 401);
    assert_eq!(resp.body(), r#""Unauthorized""#);
}

#[test]
fn test_tags_escaped_and_joined() {
    let tags = TagsResponse { tags: vec!["a\"b".to_string(), "c\\d".to_string(), "é".to_string()] };
    assert_eq!(tags.to_json(), r#"{"tags":["a\"b","c\\d","é"]}"#);
    assert_eq!(TagsResponse { tags: vec![] }.to_json(), r#"{"tags":[]}"#);
}
