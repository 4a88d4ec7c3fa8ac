use conduit::app::articles::{
    create, delete, favorite, feed, get, list, unfavorite, update, ArticleListResponse,
    ArticlePath, ArticleResponse, ArticlesParams, CreateArticle, FeedParams, In, UpdateArticle,
};
use conduit::app::{new_state, AppState, Step};
use conduit::auth::HttpRequest;
use conduit::db::Mocker;
use conduit::error::{Error, HttpResponse};

const ONE_ARTICLE: &str = r#"{"slug":"slug","title":"title","description":"description","body":"body","tagList":["tag"],"createdAt":"1970-01-01T00:00:01.000Z","updatedAt":"1970-01-01T00:00:01.000Z","favorited":true,"favoritesCount":2,"author":{"username":"user","bio":null,"image":null,"following":true}}"#;

fn slug() -> ArticlePath {
    ArticlePath { slug: "slug".to_string() }
}

fn no_filter() -> ArticlesParams {
    ArticlesParams { tag: None, author: None, favorited: None, limit: None, offset: None }
}

#[test]
fn test_create_some() {
    let state = new_state(Mocker::Success);
    let req = HttpRequest::with_authorization("Token sj");
    let form = In { article: CreateArticle::default() };
    let resp = state.run(create(form, &req)).unwrap();
    assert_eq!(resp.status(), 200);
    assert_eq!(resp.body(), ArticleResponse::default().to_json().unwrap());
    assert_eq!(resp.body(), format!(r#"{{"article":{}}}"#, ONE_ARTICLE));
}

#[test]
fn test_create_unauthorized() {
    let state = new_state(Mocker::Success);
    let req = HttpRequest::default();
    let form = In { article: CreateArticle::default() };
    let resp = state.run(create(form, &req)).unwrap_err().error_response();
    assert_eq!(resp.status(), 401);
    assert_eq!(resp.body(), r#"{"error":"No authorization was provided"}"#);
}

fn abstract_test<F: Fn(&AppState, &HttpRequest) -> HttpResponse>(
    f: F,
    m: Mocker,
    auth: bool,
    expected: &str,
) {
    let state = new_state(m);
    let req = if auth {
        HttpRequest::with_authorization("Token sj")
    } else {
        HttpRequest::default()
    };
    let resp = f(&state, &req);
    assert_eq!(resp.status(), 200);
    assert_eq!(resp.body(), expected);
}

#[test]
fn mod_test_get_some() {
    abstract_test(
        |a, r| a.run(get(slug(), r)).unwrap(),
        Mocker::Success,
        true,
        &ArticleResponse::default().to_json().unwrap(),
    )
}

#[test]
fn test_get_unauthorized() {
    abstract_test(
        |a, r| a.run(get(slug(), r)).unwrap(),
        Mocker::Success,
        false,
        &ArticleResponse::default().to_json().unwrap(),
    )
}

#[test]
fn test_get_not_found() {
    let state = new_state(Mocker::NotFound);
    let resp = state.run(get(slug(), &HttpRequest::default())).unwrap();
    assert_eq!(resp.status(), 404);
    assert_eq!(resp.body(), r#""NotFound""#);
}

#[test]
fn test_list_and_feed() {
    let state = new_state(Mocker::Success);
    let expected = format!(r#"{{"articles":[{}],"articlesCount":1}}"#, ONE_ARTICLE);
    let resp = state.run(list(&HttpRequest::default(), no_filter())).unwrap();
    assert_eq!(resp.status(), 200);
    assert_eq!(resp.body(), expected);
    assert_eq!(ArticleListResponse::default().to_json().unwrap(), expected);

    let window = FeedParams { limit: Some(5), offset: None };
    let err = state.run(feed(&HttpRequest::default(), window)).unwrap_err();
    assert_eq!(err.status_code(), 401);
    assert_eq!(err.message(), r#"Unauthorized: {"error":"No authorization was provided"}"#);
    let req = HttpRequest::with_authorization("Token sj");
    assert_eq!(state.run(feed(&req, window)).unwrap().body(), expected);
}

#[test]
fn test_two_articles_joined_by_comma() {
    let mut l = ArticleListResponse::default();
    l.articles.push(ArticleResponse::default().article);
    l.articles_count = 2;
    assert_eq!(
        l.to_json().unwrap(),
        format!(r#"{{"articles":[{},{}],"articlesCount":2}}"#, ONE_ARTICLE, ONE_ARTICLE)
    );
}

#[test]
fn test_delete_favorite_unfavorite() {
    let state = new_state(Mocker::Success);
    let req = HttpRequest::with_authorization("Token sj");
    let resp = state.run(delete(slug(), &req)).unwrap();
    assert_eq!((resp.status(), resp.body()), (200, ""));
    let article = format!(r#"{{"article":{}}}"#, ONE_ARTICLE);
    assert_eq!(state.run(favorite(slug(), &req)).unwrap().body(), article);
    assert_eq!(state.run(unfavorite(slug(), &req)).unwrap().body(), article);
    for step in [
        delete(slug(), &HttpRequest::default()),
        favorite(slug(), &HttpRequest::default()),
        unfavorite(slug(), &HttpRequest::default()),
    ] {
        assert_eq!(state.run(step).unwrap_err().status_code(), 401);
    }
}

#[test]
fn test_create_lists_every_empty_field() {
    let form = In {
        article: CreateArticle {
            title: "".to_string(),
            description: "d".to_string(),
            body: "".to_string(),
            tag_list: vec![],
        },
    };
    match create(form, &HttpRequest::with_authorization("Token sj")) {
        Step::Fail(Error::UnprocessableEntity(found)) => {
            let fields: Vec<&str> = found.iter().map(|e| e.field.as_str()).collect();
            assert_eq!(fields, vec!["title", "body"]);
        }
        other => panic!("expected a validation failure, got {:?}", other),
    }
}

#[test]
fn test_update_rules() {
    let req = HttpRequest::with_authorization("Token sj");
    let state = new_state(Mocker::Success);
    let ok = In { article: UpdateArticle::default() };
    assert_eq!(state.run(update(slug(), ok, &req)).unwrap().status(), 200);
    let unset =
        In { article: UpdateArticle { title: None, description: None, body: None, tag_list: None } };
    assert_eq!(state.run(update(slug(), unset, &req)).unwrap().status(), 200);
    let bad = UpdateArticle {
        title: Some("".to_string()),
        description: None,
        body: Some("b".to_string()),
        tag_list: Some(vec![]),
    };
    let found = bad.violations();
    assert_eq!(found.len(), 2);
    assert_eq!(found[0].field, "title");
    assert_eq!(found[1].field, "tag_list");
    let resp = state.run(update(slug(), In { article: bad }, &req)).unwrap_err();
    assert_eq!(resp.status_code(), 422);
}

#[test]
fn test_article_written_around_given_instants() {
    let article = ArticleResponse::default().article;
    assert_eq!(
        article.to_json_with("1", "null"),
        ONE_ARTICLE
            .replace(r#""createdAt":"1970-01-01T00:00:01.000Z""#, r#""createdAt":1"#)
            .replace(r#""updatedAt":"1970-01-01T00:00:01.000Z""#, r#""updatedAt":null"#)
    );
    let comment = conduit::app::articles::comments::CommentResponse::default().comment;
    assert_eq!(
        comment.to_json_with("\"a\"", "\"b\""),
        r#"{"id":12,"createdAt":"a","updatedAt":"b","body":"Body","author":{"username":"User","bio":null,"image":null,"following":true}}"#
    );
}
