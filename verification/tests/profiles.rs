use conduit::app::profiles::{follow, get, unfollow, ProfilePath, ProfileResponse};
use conduit::app::{new_state, Step};
use conduit::auth::HttpRequest;
use conduit::db::{Command, Mocker};

const PROFILE: &str = r#"{"profile":{"username":"user","bio":null,"image":null,"following":true}}"#;

fn user() -> ProfilePath {
    ProfilePath { username: "user".to_string() }
}

#[test]
fn profiles_test_get() {
    let state = new_state(Mocker::Success);
    let resp = state.run(get(user(), &HttpRequest::default())).unwrap();
    assert_eq!(resp.status(), 200);
    assert_eq!(resp.body(), PROFILE);
    match get(user(), &HttpRequest::default()) {
        Step::Send(Command::GetProfile(cmd)) => {
            assert_eq!(cmd.auth, None);
            assert_eq!(cmd.username, "user");
        }
        other => panic!("expected the command to go out, got {:?}", other),
    }
}

#[test]
fn test_follow() {
    let state = new_state(Mocker::Success);
    let req = HttpRequest::with_authorization("Token sj");
    assert_eq!(state.run(follow(user(), &req)).unwrap().body(), PROFILE);
    let err = state.run(follow(user(), &HttpRequest::default())).unwrap_err();
    assert_eq!(err.error_response().status(), 401);
}

#[test]
fn test_unfollow() {
    let state = new_state(Mocker::Success);
    let req = HttpRequest::with_authorization("Token sj");
    assert_eq!(state.run(unfollow(user(), &req)).unwrap().body(), PROFILE);
    let err = state.run(unfollow(user(), &HttpRequest::with_authorization("Bearer x"))).unwrap_err();
    assert_eq!(err.error_response().body(), r#"{"error":"Invalid authorization method"}"#);
}

#[test]
fn test_profile_with_bio() {
    let mut p = ProfileResponse::default();
    p.profile.bio = Some("I \"write\"".to_string());
    p.profile.following = false;
    assert_eq!(
        p.to_json(),
        r#"{"profile":{"username":"user","bio":"I \"write\"","image":null,"following":false}}"#
    );
}
