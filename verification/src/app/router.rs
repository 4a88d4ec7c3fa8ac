//! The table of routes: which method and path reach which handler.
use vstd::prelude::*;
use vstd::string::*;
use crate::json::texts;

verus! {

/// The request methods that a route answers to.
#[derive(Debug, Clone, Copy, PartialEq, Eq, Structural, Hash)]
pub enum Method {
    Get,
    Post,
    Put,
    Delete,
}

/// The handlers that a request can reach.
#[derive(Debug, Clone, Copy, PartialEq, Eq, Structural, Hash)]
pub enum Route {
    Index,
    Register,
    Login,
    CurrentUser,
    UpdateUser,
    GetProfile,
    Follow,
    Unfollow,
    ListArticles,
    CreateArticle,
    Feed,
    GetArticle,
    UpdateArticle,
    DeleteArticle,
    Favorite,
    Unfavorite,
    ListComments,
    AddComment,
    DeleteComment,
    Tags,
}

impl Route {
    /// Whether the route serves nobody without a resolved identity.
    pub open spec fn spec_protected(self) -> bool {
        match self {
            Route::CurrentUser | Route::UpdateUser | Route::Follow | Route::Unfollow
            | Route::CreateArticle | Route::Feed | Route::UpdateArticle | Route::DeleteArticle
            | Route::Favorite | Route::Unfavorite | Route::AddComment | Route::DeleteComment => true,
            _ => false,
        }
    }

    pub fn protected(self) -> (r: bool)
        ensures
            r == self.spec_protected(),
    {
        match self {
            Route::CurrentUser | Route::UpdateUser | Route::Follow | Route::Unfollow
            | Route::CreateArticle | Route::Feed | Route::UpdateArticle | Route::DeleteArticle
            | Route::Favorite | Route::Unfavorite | Route::AddComment | Route::DeleteComment => true,
            _ => false,
        }
    }
}

/// The pieces of `text` between occurrences of `sep`, in order. A text
/// without any `sep` is one piece; `n` occurrences make `n + 1` pieces, of
/// which any may be empty.
pub open spec fn spec_split(text: Seq<char>, sep: char) -> Seq<Seq<char>>
    decreases text.len(),
{
    if text.len() == 0 {
        seq![Seq::empty()]
    } else {
        let before = spec_split(text.drop_last(), sep);
        if text.last() == sep {
            before.push(Seq::empty())
        } else {
            before.drop_last().push(before.last().push(text.last()))
        }
    }
}

/// Cuts `text` at every `sep`.
pub fn split(text: &str, sep: char) -> (r: Vec<String>)
    ensures
        texts(r@) == spec_split(text@, sep),
{
    let n = text.unicode_len();
    let mut done: Vec<String> = Vec::new();
    let mut start: usize = 0;
    let mut i: usize = 0;
    proof {
        assert(text@.take(0) =~= Seq::<char>::empty());
        assert(texts(done@).push(text@.subrange(0, 0)) =~= seq![Seq::<char>::empty()]);
    }
    while i < n
        invariant
            n == text@.len(),
            start <= i <= n,
            spec_split(text@.take(i as int), sep) == texts(done@).push(
                text@.subrange(start as int, i as int),
            ),
        decreases n - i,
    {
        let c = text.get_char(i);
        proof {
            let upto = text@.take(i + 1);
            assert(upto.drop_last() =~= text@.take(i as int));
            assert(upto.last() == c);
            let before = spec_split(text@.take(i as int), sep);
            assert(before.last() == text@.subrange(start as int, i as int));
            assert(before.drop_last() =~= texts(done@));
            assert(text@.subrange(start as int, i as int).push(c) =~= text@.subrange(
                start as int,
                i + 1,
            ));
        }
        if c == sep {
            let piece = String::from_str(text.substring_char(start, i));
            done.push(piece);
            start = i + 1;
            proof {
                assert(text@.subrange(start as int, i + 1) =~= Seq::<char>::empty());
                assert(texts(done@) =~= spec_split(text@.take(i as int), sep));
            }
        }
        i = i + 1;
    }
    let piece = String::from_str(text.substring_char(start, n));
    proof {
        assert(text@.take(n as int) =~= text@);
        assert(texts(done@.push(piece)) =~= texts(done@).push(piece@));
    }
    done.push(piece);
    done
}

/// Whether a piece of a path is exactly `word`.
pub fn is_word(piece: &String, word: &str) -> (r: bool)
    ensures
        r == (piece@ == word@),
{
    let w = String::from_str(word);
    *piece == w
}

/// The routes one piece under `/api`.
pub open spec fn spec_route_one(method: Method, a: Seq<char>) -> Option<Route> {
    if a == "users"@ {
        if method == Method::Post { Some(Route::Register) } else { None }
    } else if a == "user"@ {
        if method == Method::Get {
            Some(Route::CurrentUser)
        } else if method == Method::Put {
            Some(Route::UpdateUser)
        } else {
            None
        }
    } else if a == "articles"@ {
        if method == Method::Get {
            Some(Route::ListArticles)
        } else if method == Method::Post {
            Some(Route::CreateArticle)
        } else {
            None
        }
    } else if a == "tags"@ {
        if method == Method::Get { Some(Route::Tags) } else { None }
    } else {
        None
    }
}

/// The routes two pieces under `/api`, and whether the second piece is a
/// parameter.
pub open spec fn spec_route_two(method: Method, a: Seq<char>, b: Seq<char>) -> Option<(Route, bool)> {
    if a == "users"@ && b == "login"@ {
        if method == Method::Post { Some((Route::Login, false)) } else { None }
    } else if a == "profiles"@ && b.len() > 0 {
        if method == Method::Get { Some((Route::GetProfile, true)) } else { None }
    } else if a == "articles"@ && b == "feed"@ {
        if method == Method::Get { Some((Route::Feed, false)) } else { None }
    } else if a == "articles"@ && b.len() > 0 {
        match method {
            Method::Get => Some((Route::GetArticle, true)),
            Method::Put => Some((Route::UpdateArticle, true)),
            Method::Delete => Some((Route::DeleteArticle, true)),
            Method::Post => None,
        }
    } else {
        None
    }
}

/// The routes three pieces under `/api`; the second piece is a parameter.
pub open spec fn spec_route_three(method: Method, a: Seq<char>, b: Seq<char>, c: Seq<char>) -> Option<
    Route,
> {
    if b.len() == 0 {
        None
    } else if a == "profiles"@ && c == "follow"@ {
        match method {
            Method::Post => Some(Route::Follow),
            Method::Delete => Some(Route::Unfollow),
            _ => None,
        }
    } else if a == "articles"@ && c == "favorite"@ {
        match method {
            Method::Post => Some(Route::Favorite),
            Method::Delete => Some(Route::Unfavorite),
            _ => None,
        }
    } else if a == "articles"@ && c == "comments"@ {
        match method {
            Method::Get => Some(Route::ListComments),
            Method::Post => Some(Route::AddComment),
            _ => None,
        }
    } else {
        None
    }
}

/// The handler that `method` on a path of these pieces reaches, with the
/// path's parameters in order; `None` where no route answers. The root
/// answers every method; all else lies under `/api`, one resource per
/// path, and a parameter is a piece that is not empty.
pub open spec fn spec_routes(method: Method, pieces: Seq<Seq<char>>) -> Option<
    (Route, Seq<Seq<char>>),
> {
    if pieces.len() < 2 || pieces[0].len() != 0 {
        None
    } else if pieces.len() == 2 && pieces[1].len() == 0 {
        Some((Route::Index, Seq::empty()))
    } else if pieces[1] != "api"@ {
        None
    } else if pieces.len() == 3 {
        match spec_route_one(method, pieces[2]) {
            Some(route) => Some((route, Seq::empty())),
            None => None,
        }
    } else if pieces.len() == 4 {
        match spec_route_two(method, pieces[2], pieces[3]) {
            Some((route, true)) => Some((route, seq![pieces[3]])),
            Some((route, false)) => Some((route, Seq::empty())),
            None => None,
        }
    } else if pieces.len() == 5 {
        match spec_route_three(method, pieces[2], pieces[3], pieces[4]) {
            Some(route) => Some((route, seq![pieces[3]])),
            None => None,
        }
    } else if pieces.len() == 6 && pieces[2] == "articles"@ && pieces[3].len() > 0 && pieces[4]
        == "comments"@ && pieces[5].len() > 0 && method == Method::Delete {
        Some((Route::DeleteComment, seq![pieces[3], pieces[5]]))
    } else {
        None
    }
}

fn route_one(method: Method, a: &String) -> (r: Option<Route>)
    ensures
        r == spec_route_one(method, a@),
{
    if is_word(a, "users") {
        match method {
            Method::Post => Some(Route::Register),
            _ => None,
        }
    } else if is_word(a, "user") {
        match method {
            Method::Get => Some(Route::CurrentUser),
            Method::Put => Some(Route::UpdateUser),
            _ => None,
        }
    } else if is_word(a, "articles") {
        match method {
            Method::Get => Some(Route::ListArticles),
            Method::Post => Some(Route::CreateArticle),
            _ => None,
        }
    } else if is_word(a, "tags") {
        match method {
            Method::Get => Some(Route::Tags),
            _ => None,
        }
    } else {
        None
    }
}

fn route_two(method: Method, a: &String, b: &String) -> (r: Option<(Route, bool)>)
    ensures
        r == spec_route_two(method, a@, b@),
{
    let filled = b.as_str().unicode_len() > 0;
    if is_word(a, "users") && is_word(b, "login") {
        match method {
            Method::Post => Some((Route::Login, false)),
            _ => None,
        }
    } else if is_word(a, "profiles") && filled {
        match method {
            Method::Get => Some((Route::GetProfile, true)),
            _ => None,
        }
    } else if is_word(a, "articles") && is_word(b, "feed") {
        match method {
            Method::Get => Some((Route::Feed, false)),
            _ => None,
        }
    } else if is_word(a, "articles") && filled {
        match method {
            Method::Get => Some((Route::GetArticle, true)),
            Method::Put => Some((Route::UpdateArticle, true)),
            Method::Delete => Some((Route::DeleteArticle, true)),
            Method::Post => None,
        }
    } else {
        None
    }
}

fn route_three(method: Method, a: &String, b: &String, c: &String) -> (r: Option<Route>)
    ensures
        r == spec_route_three(method, a@, b@, c@),
{
    if b.as_str().unicode_len() == 0 {
        None
    } else if is_word(a, "profiles") && is_word(c, "follow") {
        match method {
            Method::Post => Some(Route::Follow),
            Method::Delete => Some(Route::Unfollow),
            _ => None,
        }
    } else if is_word(a, "articles") && is_word(c, "favorite") {
        match method {
            Method::Post => Some(Route::Favorite),
            Method::Delete => Some(Route::Unfavorite),
            _ => None,
        }
    } else if is_word(a, "articles") && is_word(c, "comments") {
        match method {
            Method::Get => Some(Route::ListComments),
            Method::Post => Some(Route::AddComment),
            _ => None,
        }
    } else {
        None
    }
}

/// The parameters of a path, as plain values.
pub open spec fn route_model(r: Option<(Route, Vec<String>)>) -> Option<(Route, Seq<Seq<char>>)> {
    match r {
        Some((route, params)) => Some((route, texts(params@))),
        None => None,
    }
}

fn no_params(route: Route) -> (r: Option<(Route, Vec<String>)>)
    ensures
        route_model(r) == Some((route, Seq::<Seq<char>>::empty())),
{
    let params: Vec<String> = Vec::new();
    proof {
        assert(texts(params@) =~= Seq::<Seq<char>>::empty());
    }
    Some((route, params))
}

fn one_param(route: Route, a: &String) -> (r: Option<(Route, Vec<String>)>)
    ensures
        route_model(r) == Some((route, seq![a@])),
{
    let mut params: Vec<String> = Vec::new();
    params.push(a.clone());
    proof {
        assert(texts(params@) =~= seq![a@]);
    }
    Some((route, params))
}

fn two_params(route: Route, a: &String, b: &String) -> (r: Option<(Route, Vec<String>)>)
    ensures
        route_model(r) == Some((route, seq![a@, b@])),
{
    let mut params: Vec<String> = Vec::new();
    params.push(a.clone());
    params.push(b.clone());
    proof {
        assert(texts(params@) =~= seq![a@, b@]);
    }
    Some((route, params))
}

/// Finds the handler that `method` on `path` reaches, and the parameters
/// that the path carries for it.
pub fn routes(method: Method, path: &str) -> (r: Option<(Route, Vec<String>)>)
    ensures
        route_model(r) == spec_routes(method, spec_split(path@, '/')),
{
    let pieces = split(path, '/');
    let ghost model = texts(pieces@);
    let n = pieces.len();
    proof {
        assert(model.len() == n);
        assert forall|i: int| 0 <= i < n implies model[i] == (#[trigger] pieces@[i])@ by {}
    }
    if n < 2 || pieces[0].as_str().unicode_len() != 0 {
        None
    } else if n == 2 && pieces[1].as_str().unicode_len() == 0 {
        no_params(Route::Index)
    } else if !is_word(&pieces[1], "api") {
        None
    } else if n == 3 {
        match route_one(method, &pieces[2]) {
            Some(route) => no_params(route),
            None => None,
        }
    } else if n == 4 {
        match route_two(method, &pieces[2], &pieces[3]) {
            Some((route, true)) => one_param(route, &pieces[3]),
            Some((route, false)) => no_params(route),
            None => None,
        }
    } else if n == 5 {
        match route_three(method, &pieces[2], &pieces[3], &pieces[4]) {
            Some(route) => one_param(route, &pieces[3]),
            None => None,
        }
    } else if n == 6 && is_word(&pieces[2], "articles") && pieces[3].as_str().unicode_len() > 0
        && is_word(&pieces[4], "comments") && pieces[5].as_str().unicode_len() > 0 {
        match method {
            Method::Delete => two_params(Route::DeleteComment, &pieces[3], &pieces[5]),
            _ => None,
        }
    } else {
        None
    }
}

/// The number that a run of decimal digits stands for.
pub open spec fn spec_number(digits: Seq<char>) -> int
    decreases digits.len(),
{
    if digits.len() == 0 {
        0
    } else {
        spec_number(digits.drop_last()) * 10 + (digits.last() as int - '0' as int)
    }
}

/// The 32-bit integer that `text` is the decimal numeral of: an optional
/// sign, then one or more digits and nothing else, within the range of the
/// type. `None` for every other text.
pub open spec fn spec_parse_i32(text: Seq<char>) -> Option<i32> {
    let signed = text.len() > 0 && (text[0] == '-' || text[0] == '+');
    let digits = if signed { text.skip(1) } else { text };
    let value = if text.len() > 0 && text[0] == '-' {
        -spec_number(digits)
    } else {
        spec_number(digits)
    };
    if digits.len() > 0 && (forall|i: int|
        0 <= i < digits.len() ==> '0' <= #[trigger] digits[i] && digits[i] <= '9') && i32::MIN
        <= value <= i32::MAX {
        Some(value as i32)
    } else {
        None
    }
}

/// Calls `str::parse::<i32>`, which reads an optional sign and decimal
/// digits and refuses the empty text, any other character and a number out
/// of range.
#[verifier::external_body]
pub(crate) fn parse_i32(text: &str) -> (r: Option<i32>)
    ensures
        r == spec_parse_i32(text@),
{
    match text.parse::<i32>() {
        Ok(n) => Some(n),
        Err(_) => None,
    }
}

/// What the root of the service answers.
pub fn index() -> (r: &'static str)
    ensures
        r@ == "Hello world!"@,
{
    "Hello world!"
}

} // verus!
