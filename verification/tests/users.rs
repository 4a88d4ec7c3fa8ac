use conduit::app::users::{
    get_current, login, register, update, In, LoginUser, RegisterUser, UpdateChecks, UpdateUser,
    UserResponse,
};
use conduit::app::{new_state, Step};
use conduit::auth::{Auth, HttpRequest};
use conduit::db::{Command, Mocker};
use conduit::error::Error;
use conduit::models::{NewUser, User, UserChange};

const USER: &str =
    r#"{"user":{"email":"email@e.mail","token":"token","username":"username","bio":null,"image":null}}"#;

fn messages(e: Error) -> Vec<(String, String)> {
    match e {
        Error::UnprocessableEntity(found) => {
            found.into_iter().map(|f| (f.field, f.message)).collect()
        }
        other => panic!("expected a validation failure, got {:?}", other),
    }
}

fn pair(field: &str, message: &str) -> (String, String) {
    (field.to_string(), message.to_string())
}

#[test]
fn users_test_get() {
    let state = new_state(Mocker::Success);
    let resp = state.run(get_current(&HttpRequest::with_authorization("Token j"))).unwrap();
    assert_eq!(resp.status(), 200);
    assert_eq!(resp.body(), USER);
    assert_eq!(resp.body(), UserResponse::default().to_json());
    let err = state.run(get_current(&HttpRequest::default())).unwrap_err();
    assert_eq!(err.message(), r#"Unauthorized: {"error":"No authorization was provided"}"#);
}

#[test]
fn test_login() {
    let state = new_state(Mocker::Success);
    let resp = state.run(login(In { user: LoginUser::default() })).unwrap();
    assert_eq!(resp.body(), USER);
    match login(In { user: LoginUser::default() }) {
        Step::Send(Command::LoginUser(u)) => assert_eq!(u, LoginUser::default()),
        other => panic!("expected the command to go out, got {:?}", other),
    }
}

#[test]
fn test_invalid() {
    let bad = RegisterUser {
        username: "not a name!".to_string(),
        email: "nobody".to_string(),
        password: "short".to_string(),
    };
    let found = messages(bad.validate().unwrap_err());
    assert_eq!(
        found,
        vec![
            pair("username", "fails validation - is not only alphanumeric/underscore characters"),
            pair("email", "fails validation - is not a valid email address"),
            pair("password", "fails validation - must be 8-72 characters long"),
        ]
    );
    let state = new_state(Mocker::Success);
    let resp = state.run(register(In { user: bad })).unwrap_err().error_response();
    assert_eq!(resp.status(), 422);

    let empty = RegisterUser {
        username: "".to_string(),
        email: "email@e.mail".to_string(),
        password: "p".repeat(73),
    };
    assert_eq!(
        messages(empty.validate().unwrap_err()),
        vec![
            pair("username", "fails validation - must be 1-20 characters long"),
            pair("username", "fails validation - is not only alphanumeric/underscore characters"),
            pair("password", "fails validation - must be 8-72 characters long"),
        ]
    );
    let long = LoginUser { email: "a@b".to_string(), password: "p".repeat(72) };
    assert_eq!(long.validate(), Ok(()));
    let login_bad = LoginUser { email: "@".to_string(), password: "1234567".to_string() };
    assert_eq!(messages(login_bad.validate().unwrap_err()).len(), 2);
}

#[test]
fn test_register() {
    let state = new_state(Mocker::Success);
    let resp = state.run(register(In { user: RegisterUser::default() })).unwrap();
    assert_eq!(resp.status(), 200);
    assert_eq!(resp.body(), USER);
    let twenty = RegisterUser {
        username: "a_1".repeat(6) + "zz",
        email: "email@e.mail".to_string(),
        password: "12345678".to_string(),
    };
    assert_eq!(twenty.validate(), Ok(()));
    let twenty_one = RegisterUser { username: "a".repeat(21), ..twenty };
    assert_eq!(
        messages(twenty_one.validate().unwrap_err()),
        vec![pair("username", "fails validation - must be 1-20 characters long")]
    );
}

#[test]
fn test_length_counts_characters() {
    let user = RegisterUser {
        username: "user".to_string(),
        email: "email@e.mail".to_string(),
        password: "é".repeat(72),
    };
    assert_eq!(user.validate(), Ok(()));
}

#[test]
fn test_judged_takes_the_checks_as_given() {
    let user = RegisterUser::default();
    assert!(user.judged(Some(true), true).is_empty());
    assert_eq!(user.judged(Some(false), true).len(), 1);
    assert_eq!(user.judged(None, true).len(), 1);
    assert_eq!(user.judged(Some(true), false)[0].field, "email");
    assert_eq!(LoginUser::default().judged(false)[0].field, "email");
}

#[test]
fn test_update_user() {
    let state = new_state(Mocker::Success);
    let req = HttpRequest::with_authorization("Token sj");
    let unset = UpdateUser { username: None, email: None, password: None, bio: None, image: None };
    assert_eq!(unset.validate(), Ok(()));
    assert_eq!(state.run(update(In { user: unset.clone() }, &req)).unwrap().body(), USER);
    assert_eq!(
        state.run(update(In { user: unset }, &HttpRequest::default())).unwrap_err().status_code(),
        401
    );
    let bad = UpdateUser {
        username: Some("no spaces".to_string()),
        email: Some("nobody".to_string()),
        password: Some("short".to_string()),
        bio: Some("".to_string()),
        image: Some("http".to_string()),
    };
    assert_eq!(
        bad.checks(),
        UpdateChecks { matched: Some(false), email_valid: false, image_valid: false }
    );
    assert_eq!(
        messages(bad.validate().unwrap_err()),
        vec![
            pair("username", "fails validation - is not only alphanumeric/underscore characters"),
            pair("email", "email"),
            pair("password", "fails validation - must be 8-72 characters long"),
            pair("bio", "fails validation - cannot be empty"),
            pair("image", "is not a URL"),
        ]
    );
    let good = UpdateUser {
        username: Some("new_name".to_string()),
        email: Some("new@e.mail".to_string()),
        password: Some("12345678".to_string()),
        bio: Some("bio".to_string()),
        image: Some("https://example.com/me.png".to_string()),
    };
    assert_eq!(good.validate(), Ok(()));
    match update(In { user: good.clone() }, &req) {
        Step::Authenticate(ask, pending) => {
            assert_eq!(ask.token, "sj");
            match pending.granted(Auth::default()) {
                Step::Send(Command::UpdateUser(outer)) => {
                    assert_eq!(outer.update_user, good);
                    assert_eq!(outer.auth, Auth::default());
                }
                other => panic!("expected the change to be sent, got {:?}", other),
            }
        }
        other => panic!("expected authentication, got {:?}", other),
    }
}

#[test]
fn test_create_with_auth() {
    let mut auth = Auth::default();
    auth.token = "abc".to_string();
    auth.user.bio = Some("bio".to_string());
    let resp = UserResponse::create_with_auth(auth);
    assert_eq!(resp.user.token, "abc");
    assert_eq!(resp.user.email, "email@e.mail");
    assert_eq!(resp.user.username, "username");
    assert_eq!(resp.user.bio.as_deref(), Some("bio"));
    assert_eq!(resp.user.image, None);
    let made = UserResponse::from_user(User::default(), "jwt".to_string());
    assert_eq!(made.user.token, "jwt");
    assert_eq!(made.user.username, "username");
}

#[test]
fn test_user_fixtures() {
    let user = User::default();
    assert_eq!(user.id, u128::from_be_bytes([1; 16]));
    assert_eq!(user.created_at, conduit::time::CustomDateTime::from_timestamp(12, 12));
    assert_eq!(NewUser::default().password, "password");
    let change = UserChange::default();
    assert_eq!(change.username.as_deref(), Some("username"));
    assert_eq!(change.bio, None);
}

#[test]
fn test_username_shape() {
    let named = |username: &str| RegisterUser {
        username: username.to_string(),
        email: "email@e.mail".to_string(),
        password: "12345678".to_string(),
    };
    for good in ["a", "_", "0", "Z9_z", "user_NAME_01", "____________________"] {
        assert_eq!(named(good).validate(), Ok(()), "{:?}", good);
    }
    for bad in ["user\n", "\nuser", "us er", "usér", "user-name", "user.", "ユーザー", "a\u{0}"] {
        assert_eq!(
            messages(named(bad).validate().unwrap_err()),
            vec![pair(
                "username",
                "fails validation - is not only alphanumeric/underscore characters"
            )],
            "{:?}",
            bad
        );
    }
}
