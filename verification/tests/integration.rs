use conduit::app::articles::comments as comment_routes;
use conduit::app::articles::comments::ArticleCommentPath;
use conduit::app::articles::{self as article_routes, ArticlePath, ArticlesParams, FeedParams};
use conduit::app::profiles::{self as profile_routes, ProfilePath};
use conduit::app::router::{index, routes, split, Method, Route};
use conduit::app::users::{self as user_routes, In, LoginUser, RegisterUser, UserResponse};
use conduit::app::{new_state, tags, AppState};
use conduit::auth::HttpRequest;
use conduit::db::Mocker;

/// Serves a request that carries no payload; a request that no route
/// answers, or whose route needs a payload, gets an empty body.
fn call(state: &AppState, method: Method, uri: &str, req: &HttpRequest) -> String {
    let (route, mut params) = match routes(method, uri) {
        Some(found) => found,
        None => return String::new(),
    };
    let mut next = || params.remove(0);
    let step = match route {
        Route::Index => return index().to_string(),
        Route::CurrentUser => user_routes::get_current(req),
        Route::GetProfile => profile_routes::get(ProfilePath { username: next() }, req),
        Route::Follow => profile_routes::follow(ProfilePath { username: next() }, req),
        Route::Unfollow => profile_routes::unfollow(ProfilePath { username: next() }, req),
        Route::ListArticles => article_routes::list(
            req,
            ArticlesParams { tag: None, author: None, favorited: None, limit: None, offset: None },
        ),
        Route::Feed => article_routes::feed(req, FeedParams { limit: None, offset: None }),
        Route::GetArticle => article_routes::get(ArticlePath { slug: next() }, req),
        Route::DeleteArticle => article_routes::delete(ArticlePath { slug: next() }, req),
        Route::Favorite => article_routes::favorite(ArticlePath { slug: next() }, req),
        Route::Unfavorite => article_routes::unfavorite(ArticlePath { slug: next() }, req),
        Route::ListComments => comment_routes::list(ArticlePath { slug: next() }, req),
        Route::DeleteComment => {
            let slug = next();
            match ArticleCommentPath::parse(slug, &next()) {
                Some(path) => comment_routes::delete(path, req),
                None => return String::new(),
            }
        }
        Route::Tags => tags::get(),
        _ => return String::new(),
    };
    match state.run(step) {
        Ok(resp) => resp.body().to_string(),
        Err(e) => e.message(),
    }
}

fn get(state: &AppState, uri: &str) -> String {
    call(state, Method::Get, uri, &HttpRequest::default())
}

#[test]
fn test_misc() {
    let state = new_state(Mocker::Success);
    let body = get(&state, "/");
    assert_eq!(body, "Hello world!");
}

#[test]
fn test_users() {
    let state = new_state(Mocker::Success);
    let body = get(&state, "/api/users");
    assert_eq!(body, "");

    assert_eq!(routes(Method::Post, "/api/users").unwrap().0, Route::Register);
    let resp = state.run(user_routes::register(In { user: RegisterUser::default() })).unwrap();
    assert_eq!(resp.body(), UserResponse::default().to_json());

    assert_eq!(routes(Method::Post, "/api/users/login").unwrap().0, Route::Login);
    let resp = state.run(user_routes::login(In { user: LoginUser::default() })).unwrap();
    assert_eq!(resp.body(), UserResponse::default().to_json());
}

#[test]
fn test_user() {
    let state = new_state(Mocker::Success);
    let body = get(&state, "/api/user");
    assert_eq!(body, r#"Unauthorized: {"error":"No authorization was provided"}"#);
    let req = HttpRequest::with_authorization("Token j");
    let body = call(&state, Method::Get, "/api/user", &req);
    assert_eq!(body, UserResponse::default().to_json());
}

#[test]
fn test_profiles() {
    let state = new_state(Mocker::Success);
    let body = get(&state, "/api/profiles/user");
    assert_eq!(
        body,
        r#"{"profile":{"username":"user","bio":null,"image":null,"following":true}}"#
    );

    let body = get(&state, "/api/profiles/user/follow");
    assert_eq!(body, "");
}

#[test]
fn test_articles() {
    let state = new_state(Mocker::Success);
    let body = get(&state, "/api/articles");
    assert_eq!(
        body,
        r#"{"articles":[{"slug":"slug","title":"title","description":"description","body":"body","tagList":["tag"],"createdAt":"1970-01-01T00:00:01.000Z","updatedAt":"1970-01-01T00:00:01.000Z","favorited":true,"favoritesCount":2,"author":{"username":"user","bio":null,"image":null,"following":true}}],"articlesCount":1}"#
    );

    let body = get(&state, "/api/articles/feed");
    assert_eq!(body, r#"Unauthorized: {"error":"No authorization was provided"}"#);

    let body = get(&state, "/api/articles/title");
    assert_eq!(
        body,
        r#"{"article":{"slug":"slug","title":"title","description":"description","body":"body","tagList":["tag"],"createdAt":"1970-01-01T00:00:01.000Z","updatedAt":"1970-01-01T00:00:01.000Z","favorited":true,"favoritesCount":2,"author":{"username":"user","bio":null,"image":null,"following":true}}}"#
    );
}

#[test]
fn test_comments() {
    let state = new_state(Mocker::Success);
    let body = get(&state, "/api/articles/title/comments");
    assert_eq!(
        body,
        r#"{"comments":[{"id":12,"createdAt":"1970-01-01T00:00:12.000Z","updatedAt":"1970-01-01T00:00:12.000Z","body":"Body","author":{"username":"User","bio":null,"image":null,"following":true}}]}"#
    );
}

#[test]
fn test_tags() {
    let state = new_state(Mocker::Success);
    let body = get(&state, "/api/tags");
    assert_eq!(body, r#"{"tags":["tag"]}"#);
}

#[test]
fn test_route_table() {
    let table = [
        (Method::Post, "/api/users", Route::Register, vec![]),
        (Method::Post, "/api/users/login", Route::Login, vec![]),
        (Method::Get, "/api/user", Route::CurrentUser, vec![]),
        (Method::Put, "/api/user", Route::UpdateUser, vec![]),
        (Method::Get, "/api/profiles/jo", Route::GetProfile, vec!["jo"]),
        (Method::Post, "/api/profiles/jo/follow", Route::Follow, vec!["jo"]),
        (Method::Delete, "/api/profiles/jo/follow", Route::Unfollow, vec!["jo"]),
        (Method::Get, "/api/articles", Route::ListArticles, vec![]),
        (Method::Post, "/api/articles", Route::CreateArticle, vec![]),
        (Method::Get, "/api/articles/feed", Route::Feed, vec![]),
        (Method::Get, "/api/articles/a-b", Route::GetArticle, vec!["a-b"]),
        (Method::Put, "/api/articles/a-b", Route::UpdateArticle, vec!["a-b"]),
        (Method::Delete, "/api/articles/a-b", Route::DeleteArticle, vec!["a-b"]),
        (Method::Post, "/api/articles/a-b/favorite", Route::Favorite, vec!["a-b"]),
        (Method::Delete, "/api/articles/a-b/favorite", Route::Unfavorite, vec!["a-b"]),
        (Method::Get, "/api/articles/a-b/comments", Route::ListComments, vec!["a-b"]),
        (Method::Post, "/api/articles/a-b/comments", Route::AddComment, vec!["a-b"]),
        (Method::Delete, "/api/articles/feed/comments/7", Route::DeleteComment, vec!["feed", "7"]),
        (Method::Get, "/api/tags", Route::Tags, vec![]),
        (Method::Delete, "/", Route::Index, vec![]),
    ];
    for (method, path, route, params) in table {
        let expected: Vec<String> = params.into_iter().map(String::from).collect();
        assert_eq!(routes(method, path), Some((route, expected)), "{:?} {}", method, path);
    }
    let unanswered = [
        (Method::Get, ""),
        (Method::Get, "api/tags"),
        (Method::Get, "/api"),
        (Method::Get, "/api/"),
        (Method::Get, "/api/tags/"),
        (Method::Get, "/tags"),
        (Method::Post, "/api/tags"),
        (Method::Put, "/api/articles/feed"),
        (Method::Post, "/api/articles/slug"),
        (Method::Get, "/api/profiles/"),
        (Method::Get, "/api/profiles//follow"),
        (Method::Get, "/api/articles/a/comments/7"),
        (Method::Delete, "/api/articles/a/comments/"),
        (Method::Delete, "/api/articles/a/comments/7/x"),
    ];
    for (method, path) in unanswered {
        assert_eq!(routes(method, path), None, "{:?} {}", method, path);
    }
}

#[test]
fn test_split_keeps_empty_pieces() {
    assert_eq!(split("", '/'), vec![""]);
    assert_eq!(split("/", '/'), vec!["", ""]);
    assert_eq!(split("a", '/'), vec!["a"]);
    assert_eq!(split("/a//bé/", '/'), vec!["", "a", "", "bé", ""]);
}

#[test]
fn test_protected_routes_need_a_credential() {
    let state = new_state(Mocker::Success);
    for (method, uri) in [
        (Method::Get, "/api/user"),
        (Method::Post, "/api/profiles/u/follow"),
        (Method::Delete, "/api/profiles/u/follow"),
        (Method::Get, "/api/articles/feed"),
        (Method::Delete, "/api/articles/s"),
        (Method::Post, "/api/articles/s/favorite"),
        (Method::Delete, "/api/articles/s/favorite"),
        (Method::Delete, "/api/articles/s/comments/1"),
    ] {
        assert!(routes(method, uri).unwrap().0.protected());
        let body = call(&state, method, uri, &HttpRequest::default());
        assert_eq!(body, r#"Unauthorized: {"error":"No authorization was provided"}"#);
    }
    assert!(!Route::Tags.protected());
    assert!(!Route::GetArticle.protected());
    assert!(Route::CreateArticle.protected());
}

#[test]
fn test_pending_knows_its_route() {
    let pendings = [
        (conduit::app::Pending::GetCurrent, Route::CurrentUser),
        (conduit::app::Pending::GetProfile("u".to_string()), Route::GetProfile),
        (conduit::app::Pending::FollowProfile("u".to_string()), Route::Follow),
        (conduit::app::Pending::GetArticle("s".to_string()), Route::GetArticle),
        (conduit::app::Pending::DeleteComment("s".to_string(), 1), Route::DeleteComment),
        (conduit::app::Pending::GetComments("s".to_string()), Route::ListComments),
    ];
    for (pending, route) in pendings {
        assert_eq!(pending.route(), route);
        let anonymous =
            matches!(pending.denied(conduit::error::Error::InternalServerError), conduit::app::Step::Send(_));
        assert_eq!(route.protected(), !anonymous);
    }
}

#[test]
fn test_comment_number_from_its_numeral() {
    let id = |text: &str| ArticleCommentPath::parse("s".to_string(), text).map(|p| p.comment_id);
    assert_eq!(id("7"), Some(7));
    assert_eq!(id("+7"), Some(7));
    assert_eq!(id("-7"), Some(-7));
    assert_eq!(id("007"), Some(7));
    assert_eq!(id("0"), Some(0));
    assert_eq!(id("-0"), Some(0));
    assert_eq!(id("2147483647"), Some(i32::MAX));
    assert_eq!(id("-2147483648"), Some(i32::MIN));
    for bad in ["", "-", "+", "2147483648", "-2147483649", " 7", "7 ", "7a", "--7", "٧", "1_0", "0x1"] {
        assert_eq!(id(bad), None, "{:?}", bad);
    }
    let path = ArticleCommentPath::parse("slug".to_string(), "12").unwrap();
    assert_eq!(path, ArticleCommentPath { slug: "slug".to_string(), comment_id: 12 });
    let state = new_state(Mocker::Success);
    let req = HttpRequest::with_authorization("Token sj");
    assert_eq!(call(&state, Method::Delete, "/api/articles/s/comments/x", &req), "");
    assert_eq!(call(&state, Method::Delete, "/api/articles/s/comments/3", &req), "");
}
