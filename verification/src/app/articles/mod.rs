//! Articles: writing, reading, listing and favouriting them.
pub mod comments;

use vstd::prelude::*;
use vstd::string::*;
use crate::app::{authenticate, begin, spec_authenticate, spec_begin, Pending, Step};
use crate::auth::HttpRequest;
use crate::json::opt_text;
use crate::app::profiles::{ProfileModel, ProfileResponseInner};
use crate::app::tags::one_tag;
use crate::auth::Auth;
use crate::error::{field_texts, Error, FieldError};
use crate::json::{
    array, boolean, json_string_text, json_unsigned_text, quote, spec_all, spec_array,
    spec_boolean, spec_string_array, string_array, texts, unsigned,
};
use crate::time::CustomDateTime;
use crate::validation::{
    empty_message, note, note_filled, note_filled_if_set, noted, noted_filled,
    noted_filled_if_set, spec_verdict, verdict,
};

verus! {

/// The envelope of an article payload.
#[derive(Debug, Clone, PartialEq, Eq)]
pub struct In<T> {
    pub article: T,
}

/// The path of an article route.
#[derive(Debug, Clone, PartialEq, Eq)]
pub struct ArticlePath {
    pub slug: String,
}

/// The filters and the window of an article listing.
#[derive(Debug, Clone, PartialEq, Eq)]
pub struct ArticlesParams {
    pub tag: Option<String>,
    pub author: Option<String>,
    pub favorited: Option<String>,
    pub limit: Option<usize>,
    pub offset: Option<usize>,
}

/// The window of a feed.
#[derive(Debug, Clone, Copy, PartialEq, Eq)]
pub struct FeedParams {
    pub limit: Option<usize>,
    pub offset: Option<usize>,
}

#[derive(Debug, Clone, PartialEq, Eq)]
pub struct CreateArticle {
    pub title: String,
    pub description: String,
    pub body: String,
    pub tag_list: Vec<String>,
}

#[derive(Debug, Clone, PartialEq, Eq)]
pub struct CreateArticleOuter {
    pub auth: Auth,
    pub article: CreateArticle,
}

#[derive(Debug, Clone, PartialEq, Eq)]
pub struct GetArticle {
    pub auth: Option<Auth>,
    pub slug: String,
}

#[derive(Debug, Clone, PartialEq, Eq)]
pub struct UpdateArticle {
    pub title: Option<String>,
    pub description: Option<String>,
    pub body: Option<String>,
    pub tag_list: Option<Vec<String>>,
}

#[derive(Debug, Clone, PartialEq, Eq)]
pub struct UpdateArticleOuter {
    pub auth: Auth,
    pub slug: String,
    pub article: UpdateArticle,
}

#[derive(Debug, Clone, PartialEq, Eq)]
pub struct DeleteArticle {
    pub auth: Auth,
    pub slug: String,
}

#[derive(Debug, Clone, PartialEq, Eq)]
pub struct FavoriteArticle {
    pub auth: Auth,
    pub slug: String,
}

#[derive(Debug, Clone, PartialEq, Eq)]
pub struct UnfavoriteArticle {
    pub auth: Auth,
    pub slug: String,
}

#[derive(Debug, Clone, PartialEq, Eq)]
pub struct GetArticles {
    pub auth: Option<Auth>,
    pub params: ArticlesParams,
}

#[derive(Debug, Clone, PartialEq, Eq)]
pub struct GetFeed {
    pub auth: Auth,
    pub params: FeedParams,
}

#[derive(Debug, Clone, PartialEq, Eq)]
pub struct ArticleResponse {
    pub article: ArticleResponseInner,
}

#[derive(Debug, Clone, PartialEq, Eq)]
pub struct ArticleResponseInner {
    pub slug: String,
    pub title: String,
    pub description: String,
    pub body: String,
    pub tag_list: Vec<String>,
    pub created_at: CustomDateTime,
    pub updated_at: CustomDateTime,
    pub favorited: bool,
    pub favorites_count: usize,
    pub author: ProfileResponseInner,
}

#[derive(Debug, Clone, PartialEq, Eq)]
pub struct ArticleListResponse {
    pub articles: Vec<ArticleResponseInner>,
    pub articles_count: usize,
}

pub ghost struct ArticleModel {
    pub slug: Seq<char>,
    pub title: Seq<char>,
    pub description: Seq<char>,
    pub body: Seq<char>,
    pub tag_list: Seq<Seq<char>>,
    pub created_at: CustomDateTime,
    pub updated_at: CustomDateTime,
    pub favorited: bool,
    pub favorites_count: usize,
    pub author: ProfileModel,
}

pub ghost struct ArticleListModel {
    pub articles: Seq<ArticleModel>,
    pub articles_count: usize,
}

impl View for ArticleResponseInner {
    type V = ArticleModel;

    open spec fn view(&self) -> ArticleModel {
        ArticleModel {
            slug: self.slug@,
            title: self.title@,
            description: self.description@,
            body: self.body@,
            tag_list: texts(self.tag_list@),
            created_at: self.created_at,
            updated_at: self.updated_at,
            favorited: self.favorited,
            favorites_count: self.favorites_count,
            author: self.author@,
        }
    }
}

impl View for ArticleResponse {
    type V = ArticleModel;

    open spec fn view(&self) -> ArticleModel {
        self.article@
    }
}

impl View for ArticleListResponse {
    type V = ArticleListModel;

    open spec fn view(&self) -> ArticleListModel {
        ArticleListModel {
            articles: self.articles@.map_values(|a: ArticleResponseInner| a@),
            articles_count: self.articles_count,
        }
    }
}

impl ArticleModel {
    /// The article as a JSON object, given its two instants as JSON.
    pub open spec fn json_with(self, created: Seq<char>, updated: Seq<char>) -> Seq<char> {
        "{\"slug\":"@ + json_string_text(self.slug) + ",\"title\":"@ + json_string_text(self.title)
            + ",\"description\":"@ + json_string_text(self.description) + ",\"body\":"@
            + json_string_text(self.body) + ",\"tagList\":"@ + spec_string_array(self.tag_list)
            + ",\"createdAt\":"@ + created + ",\"updatedAt\":"@ + updated + ",\"favorited\":"@
            + spec_boolean(self.favorited) + ",\"favoritesCount\":"@ + json_unsigned_text(
            self.favorites_count as u64,
        ) + ",\"author\":"@ + self.author.json() + "}"@
    }

    /// The article as a JSON object; `None` where one of its instants cannot
    /// be written.
    pub open spec fn json(self) -> Option<Seq<char>> {
        match (self.created_at.spec_json(), self.updated_at.spec_json()) {
            (Some(created), Some(updated)) => Some(self.json_with(created, updated)),
            _ => None,
        }
    }

    /// The article under its envelope.
    pub open spec fn envelope(self) -> Option<Seq<char>> {
        match self.json() {
            Some(inner) => Some("{\"article\":"@ + inner + "}"@),
            None => None,
        }
    }

    /// The article that stands in wherever any will do.
    pub open spec fn fixture() -> ArticleModel {
        ArticleModel {
            slug: "slug"@,
            title: "title"@,
            description: "description"@,
            body: "body"@,
            tag_list: seq!["tag"@],
            created_at: CustomDateTime { secs: 1, nanos: 2 },
            updated_at: CustomDateTime { secs: 1, nanos: 2 },
            favorited: true,
            favorites_count: 2,
            author: ProfileModel::fixture(),
        }
    }
}

impl ArticleListModel {
    /// The listing under its envelope; `None` where an article cannot be
    /// written.
    pub open spec fn envelope(self) -> Option<Seq<char>> {
        match spec_all(self.articles.map_values(|a: ArticleModel| a.json())) {
            Some(rendered) => Some(
                "{\"articles\":"@ + spec_array(rendered) + ",\"articlesCount\":"@
                    + json_unsigned_text(self.articles_count as u64) + "}"@,
            ),
            None => None,
        }
    }

    /// The listing that stands in wherever any will do.
    pub open spec fn fixture() -> ArticleListModel {
        ArticleListModel { articles: seq![ArticleModel::fixture()], articles_count: 1 }
    }
}

impl ArticleResponseInner {
    /// Writes the article, given its two instants as JSON.
    pub fn to_json_with(&self, created: &str, updated: &str) -> (r: String)
        ensures
            r@ == self@.json_with(created@, updated@),
    {
        let mut out = String::from_str("{\"slug\":");
        out.append(quote(self.slug.as_str()).as_str());
        out.append(",\"title\":");
        out.append(quote(self.title.as_str()).as_str());
        out.append(",\"description\":");
        out.append(quote(self.description.as_str()).as_str());
        out.append(",\"body\":");
        out.append(quote(self.body.as_str()).as_str());
        out.append(",\"tagList\":");
        out.append(string_array(&self.tag_list).as_str());
        out.append(",\"createdAt\":");
        out.append(created);
        out.append(",\"updatedAt\":");
        out.append(updated);
        out.append(",\"favorited\":");
        out.append(boolean(self.favorited).as_str());
        out.append(",\"favoritesCount\":");
        out.append(unsigned(self.favorites_count as u64).as_str());
        out.append(",\"author\":");
        out.append(self.author.to_json().as_str());
        out.append("}");
        out
    }

    /// Writes the article; `None` where one of its instants cannot be
    /// written.
    pub fn to_json(&self) -> (r: Option<String>)
        ensures
            opt_text(r) == self@.json(),
    {
        match self.created_at.to_json() {
            Some(created) => match self.updated_at.to_json() {
                Some(updated) => Some(self.to_json_with(created.as_str(), updated.as_str())),
                None => None,
            },
            None => None,
        }
    }
}

impl ArticleResponse {
    pub fn to_json(&self) -> (r: Option<String>)
        ensures
            opt_text(r) == self@.envelope(),
    {
        match self.article.to_json() {
            Some(inner) => {
                let mut out = String::from_str("{\"article\":");
                out.append(inner.as_str());
                out.append("}");
                Some(out)
            },
            None => None,
        }
    }
}

impl ArticleListResponse {
    pub fn to_json(&self) -> (r: Option<String>)
        ensures
            opt_text(r) == self@.envelope(),
    {
        let ghost each = self@.articles.map_values(|a: ArticleModel| a.json());
        let mut rendered: Vec<String> = Vec::new();
        let mut i: usize = 0;
        while i < self.articles.len()
            invariant
                i <= self.articles.len(),
                rendered@.len() == i,
                each == self@.articles.map_values(|a: ArticleModel| a.json()),
                forall|j: int| 0 <= j < i ==> each[j] == Some((#[trigger] rendered@[j])@),
            decreases self.articles.len() - i,
        {
            match self.articles[i].to_json() {
                Some(text) => {
                    rendered.push(text);
                },
                None => {
                    proof {
                        assert(each[i as int] is None);
                    }
                    return None;
                },
            }
            i = i + 1;
        }
        proof {
            assert(forall|j: int| 0 <= j < each.len() ==> (#[trigger] each[j]) is Some) by {
                assert forall|j: int| 0 <= j < each.len() implies (#[trigger] each[j]) is Some by {
                    assert(each[j] == Some(rendered@[j]@));
                }
            }
            assert(texts(rendered@) =~= each.map_values(|o: Option<Seq<char>>| o.unwrap()));
        }
        let mut out = String::from_str("{\"articles\":");
        out.append(array(&rendered).as_str());
        out.append(",\"articlesCount\":");
        out.append(unsigned(self.articles_count as u64).as_str());
        out.append("}");
        Some(out)
    }
}

impl Default for ArticleResponseInner {
    fn default() -> (r: Self)
        ensures
            r@ == ArticleModel::fixture(),
    {
        ArticleResponseInner {
            slug: String::from_str("slug"),
            title: String::from_str("title"),
            description: String::from_str("description"),
            body: String::from_str("body"),
            tag_list: one_tag(),
            created_at: CustomDateTime::from_timestamp(1, 2),
            updated_at: CustomDateTime::from_timestamp(1, 2),
            favorited: true,
            favorites_count: 2,
            author: ProfileResponseInner::default(),
        }
    }
}

impl Default for ArticleResponse {
    fn default() -> (r: Self)
        ensures
            r@ == ArticleModel::fixture(),
    {
        ArticleResponse { article: ArticleResponseInner::default() }
    }
}

impl Default for ArticleListResponse {
    fn default() -> (r: Self)
        ensures
            r@ == ArticleListModel::fixture(),
    {
        let mut articles: Vec<ArticleResponseInner> = Vec::new();
        articles.push(ArticleResponseInner::default());
        let r = ArticleListResponse { articles, articles_count: 1 };
        proof {
            assert(r@.articles =~= seq![ArticleModel::fixture()]);
        }
        r
    }
}

impl Default for CreateArticle {
    fn default() -> (r: Self)
        ensures
            r.title@ == "title"@,
            r.description@ == "description"@,
            r.body@ == "body"@,
            texts(r.tag_list@) == seq!["tag"@],
    {
        CreateArticle {
            title: String::from_str("title"),
            description: String::from_str("description"),
            body: String::from_str("body"),
            tag_list: one_tag(),
        }
    }
}

impl Default for UpdateArticle {
    fn default() -> (r: Self)
        ensures
            opt_text(r.title) == Some("title"@),
            opt_text(r.description) == Some("description"@),
            opt_text(r.body) == Some("body"@),
            r.tag_list matches Some(tags) && texts(tags@) == seq!["tag"@],
    {
        UpdateArticle {
            title: Some(String::from_str("title")),
            description: Some(String::from_str("description")),
            body: Some(String::from_str("body")),
            tag_list: Some(one_tag()),
        }
    }
}

impl CreateArticle {
    /// The rules broken: title, description and body must not be empty.
    pub open spec fn spec_violations(self) -> Seq<(Seq<char>, Seq<char>)> {
        noted_filled(
            noted_filled(
                noted_filled(Seq::empty(), self.title@, "title"@),
                self.description@,
                "description"@,
            ),
            self.body@,
            "body"@,
        )
    }

    /// Lists the rules broken.
    pub fn violations(&self) -> (r: Vec<FieldError>)
        ensures
            field_texts(r@) == self.spec_violations(),
    {
        let mut found: Vec<FieldError> = Vec::new();
        proof {
            assert(field_texts(found@) =~= Seq::empty());
        }
        note_filled(&mut found, self.title.as_str(), "title");
        note_filled(&mut found, self.description.as_str(), "description");
        note_filled(&mut found, self.body.as_str(), "body");
        found
    }

    /// Holds the payload to its rules.
    pub fn validate(&self) -> (r: Result<(), Error>)
        ensures
            spec_verdict(self.spec_violations(), r),
    {
        verdict(self.violations())
    }
}

impl UpdateArticle {
    /// The rules broken: a title, description, body or tag list that is set
    /// must not be empty.
    pub open spec fn spec_violations(self) -> Seq<(Seq<char>, Seq<char>)> {
        let found = noted_filled_if_set(
            noted_filled_if_set(
                noted_filled_if_set(Seq::empty(), self.title, "title"@),
                self.description,
                "description"@,
            ),
            self.body,
            "body"@,
        );
        match self.tag_list {
            Some(tags) => noted(found, tags@.len() >= 1, "tag_list"@, empty_message()),
            None => found,
        }
    }

    /// Lists the rules broken.
    pub fn violations(&self) -> (r: Vec<FieldError>)
        ensures
            field_texts(r@) == self.spec_violations(),
    {
        let mut found: Vec<FieldError> = Vec::new();
        proof {
            assert(field_texts(found@) =~= Seq::empty());
        }
        note_filled_if_set(&mut found, &self.title, "title");
        note_filled_if_set(&mut found, &self.description, "description");
        note_filled_if_set(&mut found, &self.body, "body");
        match &self.tag_list {
            Some(tags) => {
                note(&mut found, tags.len() >= 1, "tag_list", "fails validation - cannot be empty");
            },
            None => {},
        }
        found
    }

    /// Holds the payload to its rules.
    pub fn validate(&self) -> (r: Result<(), Error>)
        ensures
            spec_verdict(self.spec_violations(), r),
    {
        verdict(self.violations())
    }
}


/// `POST /articles`: validates the payload, authenticates, then sends the
/// new article.
pub fn create(form: In<CreateArticle>, req: &HttpRequest) -> (s: Step)
    ensures
        spec_begin(
            form.article.spec_violations(),
            opt_text(req.authorization),
            Pending::CreateArticle(form.article),
            s,
        ),
{
    let article = form.article;
    let checked = article.validate();
    begin(checked, req, Pending::CreateArticle(article))
}

/// `GET /articles/{slug}`: reads the article, with or without an identity.
pub fn get(path: ArticlePath, req: &HttpRequest) -> (s: Step)
    ensures
        spec_authenticate(opt_text(req.authorization), Pending::GetArticle(path.slug), s),
{
    authenticate(req, Pending::GetArticle(path.slug))
}

/// `PUT /articles/{slug}`: validates the payload, authenticates, then sends
/// the change.
pub fn update(path: ArticlePath, form: In<UpdateArticle>, req: &HttpRequest) -> (s: Step)
    ensures
        spec_begin(
            form.article.spec_violations(),
            opt_text(req.authorization),
            Pending::UpdateArticle(path.slug, form.article),
            s,
        ),
{
    let article = form.article;
    let checked = article.validate();
    begin(checked, req, Pending::UpdateArticle(path.slug, article))
}

/// `DELETE /articles/{slug}`: authenticates, then deletes.
pub fn delete(path: ArticlePath, req: &HttpRequest) -> (s: Step)
    ensures
        spec_authenticate(opt_text(req.authorization), Pending::DeleteArticle(path.slug), s),
{
    authenticate(req, Pending::DeleteArticle(path.slug))
}

/// `POST /articles/{slug}/favorite`: authenticates, then favourites.
pub fn favorite(path: ArticlePath, req: &HttpRequest) -> (s: Step)
    ensures
        spec_authenticate(opt_text(req.authorization), Pending::FavoriteArticle(path.slug), s),
{
    authenticate(req, Pending::FavoriteArticle(path.slug))
}

/// `DELETE /articles/{slug}/favorite`: authenticates, then unfavourites.
pub fn unfavorite(path: ArticlePath, req: &HttpRequest) -> (s: Step)
    ensures
        spec_authenticate(opt_text(req.authorization), Pending::UnfavoriteArticle(path.slug), s),
{
    authenticate(req, Pending::UnfavoriteArticle(path.slug))
}

/// `GET /articles`: lists articles, with or without an identity.
pub fn list(req: &HttpRequest, params: ArticlesParams) -> (s: Step)
    ensures
        spec_authenticate(opt_text(req.authorization), Pending::GetArticles(params), s),
{
    authenticate(req, Pending::GetArticles(params))
}

/// `GET /articles/feed`: authenticates, then reads the feed.
pub fn feed(req: &HttpRequest, params: FeedParams) -> (s: Step)
    ensures
        spec_authenticate(opt_text(req.authorization), Pending::GetFeed(params), s),
{
    authenticate(req, Pending::GetFeed(params))
}

} // verus!
