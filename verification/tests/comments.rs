use conduit::app::articles::comments::{
    add, delete, list, AddComment, ArticleCommentPath, CommentListResponse, CommentResponse, In,
};
use conduit::app::articles::ArticlePath;
use conduit::app::{new_state, Step};
use conduit::auth::HttpRequest;
use conduit::db::{Command, Mocker};
use conduit::error::Error;

const ONE_COMMENT: &str = r#"{"id":12,"createdAt":"1970-01-01T00:00:12.000Z","updatedAt":"1970-01-01T00:00:12.000Z","body":"Body","author":{"username":"User","bio":null,"image":null,"following":true}}"#;

fn comment_path() -> ArticleCommentPath {
    ArticleCommentPath { slug: "a".to_string(), comment_id: 3 }
}

fn article_path() -> ArticlePath {
    ArticlePath { slug: "a".to_string() }
}

#[test]
fn test_delete_some() {
    let state = new_state(Mocker::Success);
    let req = HttpRequest::with_authorization("Token sj");
    let resp = state.run(delete(comment_path(), &req)).unwrap();
    assert_eq!(resp.body(), r#""#);
}

#[test]
fn test_delete_unauthorized() {
    let state = new_state(Mocker::Success);
    let req = HttpRequest::default();
    let resp = state.run(delete(comment_path(), &req)).unwrap_err().error_response();
    assert_eq!(resp.body(), r#"{"error":"No authorization was provided"}"#);
}

#[test]
fn test_delete_not_exists() {
    let state = new_state(Mocker::NotFound);
    let req = HttpRequest::with_authorization("Token d");
    let resp = state.run(delete(comment_path(), &req)).unwrap_err().error_response();
    assert_eq!(resp.body(), r#""NotFound""#);
    assert_eq!(resp.status(), 404);
}

#[test]
fn test_list_not_found() {
    let state = new_state(Mocker::NotFound);
    let req = HttpRequest::with_authorization("Token sj");
    let resp = state.run(list(article_path(), &req)).unwrap();
    assert_eq!(resp.status(), 404);
    assert_eq!(resp.body(), r#""NotFound""#);
}

#[test]
fn test_list_some() {
    let state = new_state(Mocker::Success);
    let req = HttpRequest::with_authorization("Token sj");
    let resp = state.run(list(article_path(), &req)).unwrap();
    assert_eq!(resp.status(), 200);
    assert_eq!(resp.body(), format!(r#"{{"comments":[{}]}}"#, ONE_COMMENT));
}

#[test]
fn test_list_authorized() {
    let state = new_state(Mocker::Success);
    let req = HttpRequest::with_authorization("Token sj");
    let resp = state.run(list(article_path(), &req)).unwrap();
    assert_eq!(resp.status(), 200);
    assert_eq!(
        resp.body(),
        r#"{"comments":[{"id":12,"createdAt":"1970-01-01T00:00:12.000Z","updatedAt":"1970-01-01T00:00:12.000Z","body":"Body","author":{"username":"User","bio":null,"image":null,"following":true}}]}"#
    );
}

#[test]
fn test_add_unauthorized() {
    let state = new_state(Mocker::Success);
    let req = HttpRequest::default();
    let form = In { comment: AddComment::default() };
    let resp = state.run(add(article_path(), form, &req)).unwrap_err().error_response();
    assert_eq!(resp.status(), 401);
    assert_eq!(resp.body(), r#"{"error":"No authorization was provided"}"#);
}

#[test]
fn test_add_authorized() {
    let state = new_state(Mocker::Success);
    let req = HttpRequest::with_authorization("Token sj");
    let form = In { comment: AddComment::default() };
    let resp = state.run(add(article_path(), form, &req)).unwrap();
    assert_eq!(resp.status(), 200);
    assert_eq!(
        resp.body(),
        r#"{"comment":{"id":12,"createdAt":"1970-01-01T00:00:12.000Z","updatedAt":"1970-01-01T00:00:12.000Z","body":"Body","author":{"username":"User","bio":null,"image":null,"following":true}}}"#
    );
}

#[test]
fn test_add_empty_body_never_dispatched() {
    let req = HttpRequest::with_authorization("Token sj");
    let form = In { comment: AddComment { body: "".to_string() } };
    let step = add(article_path(), form, &req);
    match &step {
        Step::Fail(Error::UnprocessableEntity(found)) => {
            assert_eq!(found.len(), 1);
            assert_eq!(found[0].field, "body");
            assert_eq!(found[0].message, "fails validation - cannot be empty");
        }
        other => panic!("expected a validation failure, got {:?}", other),
    }
    // Even a state that would succeed is never asked.
    let resp = new_state(Mocker::Success).run(step).unwrap_err().error_response();
    assert_eq!(resp.status(), 422);
    assert_eq!(
        resp.body(),
        r#"{"errors":[{"field":"body","message":"fails validation - cannot be empty"}]}"#
    );
}

#[test]
fn test_add_empty_body_without_header_is_422_not_401() {
    let form = In { comment: AddComment { body: "".to_string() } };
    let step = add(article_path(), form, &HttpRequest::default());
    assert!(matches!(step, Step::Fail(Error::UnprocessableEntity(_))));
}

#[test]
fn test_add_steps() {
    let req = HttpRequest::with_authorization("Token sj");
    let form = In { comment: AddComment::default() };
    match add(article_path(), form, &req) {
        Step::Authenticate(ask, pending) => {
            assert_eq!(ask.token, "sj");
            let auth = conduit::auth::Auth::default();
            match pending.granted(auth.clone()) {
                Step::Send(Command::AddComment(outer)) => {
                    assert_eq!(outer.slug, "a");
                    assert_eq!(outer.comment.body, "Body");
                    assert_eq!(outer.auth, auth);
                }
                other => panic!("expected the comment to be sent, got {:?}", other),
            }
        }
        other => panic!("expected authentication, got {:?}", other),
    }
}

#[test]
fn test_comment_fixtures_written() {
    assert_eq!(
        CommentResponse::default().to_json().unwrap(),
        format!(r#"{{"comment":{}}}"#, ONE_COMMENT)
    );
    assert_eq!(
        CommentListResponse::default().to_json().unwrap(),
        format!(r#"{{"comments":[{}]}}"#, ONE_COMMENT)
    );
    let none = CommentListResponse { comments: vec![] };
    assert_eq!(none.to_json().unwrap(), r#"{"comments":[]}"#);
}

#[test]
fn test_comment_with_negative_id_and_quotes() {
    let mut c = CommentResponse::default();
    c.comment.id = -7;
    c.comment.body = "say \"hi\"\n".to_string();
    let text = c.to_json().unwrap();
    assert!(text.starts_with(r#"{"comment":{"id":-7,"#));
    assert!(text.contains(r#""body":"say \"hi\"\n""#));
}

#[test]
fn test_comment_with_unwritable_instant_is_a_500() {
    let mut c = CommentResponse::default();
    c.comment.created_at = conduit::time::CustomDateTime::from_timestamp(i64::MAX, 0);
    assert_eq!(c.to_json(), None);
    let resp = conduit::db::respond(&Ok(conduit::db::Reply::Comment(c)));
    assert_eq!(resp.status(), 500);
    assert_eq!(resp.body(), r#""Internal Server Error""#);
}
