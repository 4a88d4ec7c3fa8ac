//! Comments on an article: adding, listing and deleting them.
use vstd::prelude::*;
use vstd::string::*;
use crate::app::articles::ArticlePath;
use crate::app::router::{parse_i32, spec_parse_i32};
use crate::app::{authenticate, begin, spec_authenticate, spec_begin, Pending, Step};
use crate::auth::HttpRequest;
use crate::app::profiles::{ProfileModel, ProfileResponseInner};
use crate::auth::Auth;
use crate::error::{field_texts, Error, ErrorModel, FieldError};
use crate::json::{
    array, json_signed_text, json_string_text, opt_text, quote, signed, spec_all, spec_array,
    texts,
};
use crate::time::CustomDateTime;
use crate::validation::{empty_message, note_filled, noted_filled, spec_verdict, verdict};

verus! {

/// The envelope of a comment payload.
#[derive(Debug, Clone, PartialEq, Eq)]
pub struct In<T> {
    pub comment: T,
}

/// The path of a route that names one comment of an article.
#[derive(Debug, Clone, PartialEq, Eq)]
pub struct ArticleCommentPath {
    pub slug: String,
    pub comment_id: i32,
}

#[derive(Debug, Clone, PartialEq, Eq)]
pub struct AddComment {
    pub body: String,
}

#[derive(Debug, Clone, PartialEq, Eq)]
pub struct AddCommentOuter {
    pub auth: Auth,
    pub slug: String,
    pub comment: AddComment,
}

#[derive(Debug, Clone, PartialEq, Eq)]
pub struct GetComments {
    pub auth: Option<Auth>,
    pub slug: String,
}

#[derive(Debug, Clone, PartialEq, Eq)]
pub struct DeleteComment {
    pub auth: Auth,
    pub slug: String,
    pub comment_id: i32,
}

#[derive(Debug, Clone, PartialEq, Eq)]
pub struct CommentResponse {
    pub comment: CommentResponseInner,
}

#[derive(Debug, Clone, PartialEq, Eq)]
pub struct CommentResponseInner {
    pub id: i32,
    pub created_at: CustomDateTime,
    pub updated_at: CustomDateTime,
    pub body: String,
    pub author: ProfileResponseInner,
}

#[derive(Debug, Clone, PartialEq, Eq)]
pub struct CommentListResponse {
    pub comments: Vec<CommentResponseInner>,
}

pub ghost struct CommentModel {
    pub id: i32,
    pub created_at: CustomDateTime,
    pub updated_at: CustomDateTime,
    pub body: Seq<char>,
    pub author: ProfileModel,
}

pub ghost struct CommentListModel {
    pub comments: Seq<CommentModel>,
}

impl View for CommentResponseInner {
    type V = CommentModel;

    open spec fn view(&self) -> CommentModel {
        CommentModel {
            id: self.id,
            created_at: self.created_at,
            updated_at: self.updated_at,
            body: self.body@,
            author: self.author@,
        }
    }
}

impl View for CommentResponse {
    type V = CommentModel;

    open spec fn view(&self) -> CommentModel {
        self.comment@
    }
}

impl View for CommentListResponse {
    type V = CommentListModel;

    open spec fn view(&self) -> CommentListModel {
        CommentListModel { comments: self.comments@.map_values(|c: CommentResponseInner| c@) }
    }
}

impl CommentModel {
    /// The comment as a JSON object, given its two instants as JSON.
    pub open spec fn json_with(self, created: Seq<char>, updated: Seq<char>) -> Seq<char> {
        "{\"id\":"@ + json_signed_text(self.id as i64) + ",\"createdAt\":"@ + created
            + ",\"updatedAt\":"@ + updated + ",\"body\":"@ + json_string_text(self.body)
            + ",\"author\":"@ + self.author.json() + "}"@
    }

    /// The comment as a JSON object; `None` where one of its instants cannot
    /// be written.
    pub open spec fn json(self) -> Option<Seq<char>> {
        match (self.created_at.spec_json(), self.updated_at.spec_json()) {
            (Some(created), Some(updated)) => Some(self.json_with(created, updated)),
            _ => None,
        }
    }

    /// The comment under its envelope.
    pub open spec fn envelope(self) -> Option<Seq<char>> {
        match self.json() {
            Some(inner) => Some("{\"comment\":"@ + inner + "}"@),
            None => None,
        }
    }

    /// The comment that stands in wherever any will do.
    pub open spec fn fixture() -> CommentModel {
        CommentModel {
            id: 12,
            created_at: CustomDateTime { secs: 12, nanos: 12 },
            updated_at: CustomDateTime { secs: 12, nanos: 2 },
            body: "Body"@,
            author: ProfileModel { username: "User"@, bio: None, image: None, following: true },
        }
    }
}

impl CommentListModel {
    /// The comments under their envelope; `None` where one cannot be written.
    pub open spec fn envelope(self) -> Option<Seq<char>> {
        match spec_all(self.comments.map_values(|c: CommentModel| c.json())) {
            Some(rendered) => Some("{\"comments\":"@ + spec_array(rendered) + "}"@),
            None => None,
        }
    }

    /// The comments that stand in wherever any will do.
    pub open spec fn fixture() -> CommentListModel {
        CommentListModel { comments: seq![CommentModel::fixture()] }
    }
}

impl CommentResponseInner {
    /// Writes the comment, given its two instants as JSON.
    pub fn to_json_with(&self, created: &str, updated: &str) -> (r: String)
        ensures
            r@ == self@.json_with(created@, updated@),
    {
        let mut out = String::from_str("{\"id\":");
        out.append(signed(self.id as i64).as_str());
        out.append(",\"createdAt\":");
        out.append(created);
        out.append(",\"updatedAt\":");
        out.append(updated);
        out.append(",\"body\":");
        out.append(quote(self.body.as_str()).as_str());
        out.append(",\"author\":");
        out.append(self.author.to_json().as_str());
        out.append("}");
        out
    }

    /// Writes the comment; `None` where one of its instants cannot be
    /// written.
    pub fn to_json(&self) -> (r: Option<String>)
        ensures
            opt_text(r) == self@.json(),
    {
        match self.created_at.to_json() {
            Some(created) => match self.updated_at.to_json() {
                Some(updated) => Some(self.to_json_with(created.as_str(), updated.as_str())),
                None => None,
            },
            None => None,
        }
    }
}

impl CommentResponse {
    pub fn to_json(&self) -> (r: Option<String>)
        ensures
            opt_text(r) == self@.envelope(),
    {
        match self.comment.to_json() {
            Some(inner) => {
                let mut out = String::from_str("{\"comment\":");
                out.append(inner.as_str());
                out.append("}");
                Some(out)
            },
            None => None,
        }
    }
}

impl CommentListResponse {
    pub fn to_json(&self) -> (r: Option<String>)
        ensures
            opt_text(r) == self@.envelope(),
    {
        let ghost each = self@.comments.map_values(|c: CommentModel| c.json());
        let mut rendered: Vec<String> = Vec::new();
        let mut i: usize = 0;
        while i < self.comments.len()
            invariant
                i <= self.comments.len(),
                rendered@.len() == i,
                each == self@.comments.map_values(|c: CommentModel| c.json()),
                forall|j: int| 0 <= j < i ==> each[j] == Some((#[trigger] rendered@[j])@),
            decreases self.comments.len() - i,
        {
            match self.comments[i].to_json() {
                Some(text) => {
                    rendered.push(text);
                },
                None => {
                    proof {
                        assert(each[i as int] is None);
                    }
                    return None;
                },
            }
            i = i + 1;
        }
        proof {
            assert forall|j: int| 0 <= j < each.len() implies (#[trigger] each[j]) is Some by {
                assert(each[j] == Some(rendered@[j]@));
            }
            assert(texts(rendered@) =~= each.map_values(|o: Option<Seq<char>>| o.unwrap()));
        }
        let mut out = String::from_str("{\"comments\":");
        out.append(array(&rendered).as_str());
        out.append("}");
        Some(out)
    }
}

impl Default for CommentResponseInner {
    fn default() -> (r: Self)
        ensures
            r@ == CommentModel::fixture(),
    {
        CommentResponseInner {
            id: 12,
            created_at: CustomDateTime::from_timestamp(12, 12),
            updated_at: CustomDateTime::from_timestamp(12, 2),
            body: String::from_str("Body"),
            author: ProfileResponseInner {
                username: String::from_str("User"),
                bio: None,
                image: None,
                following: true,
            },
        }
    }
}

impl Default for CommentResponse {
    fn default() -> (r: Self)
        ensures
            r@ == CommentModel::fixture(),
    {
        CommentResponse { comment: CommentResponseInner::default() }
    }
}

impl Default for CommentListResponse {
    fn default() -> (r: Self)
        ensures
            r@ == CommentListModel::fixture(),
    {
        let mut comments: Vec<CommentResponseInner> = Vec::new();
        comments.push(CommentResponseInner::default());
        let r = CommentListResponse { comments };
        proof {
            assert(r@.comments =~= seq![CommentModel::fixture()]);
        }
        r
    }
}

impl ArticleCommentPath {
    /// Reads the two parameters of the path: the slug as it stands, the
    /// comment's number from its decimal numeral. `None` where the second
    /// is no such numeral.
    pub fn parse(slug: String, comment_id: &str) -> (r: Option<Self>)
        ensures
            r == match spec_parse_i32(comment_id@) {
                Some(id) => Some(ArticleCommentPath { slug, comment_id: id }),
                None => None,
            },
    {
        match parse_i32(comment_id) {
            Some(id) => Some(ArticleCommentPath { slug, comment_id: id }),
            None => None,
        }
    }
}

impl Default for AddComment {
    fn default() -> (r: Self)
        ensures
            r.body@ == "Body"@,
    {
        AddComment { body: String::from_str("Body") }
    }
}

impl AddComment {
    /// The rules broken: the body must not be empty.
    pub open spec fn spec_violations(self) -> Seq<(Seq<char>, Seq<char>)> {
        noted_filled(Seq::empty(), self.body@, "body"@)
    }

    /// Lists the rules broken.
    pub fn violations(&self) -> (r: Vec<FieldError>)
        ensures
            field_texts(r@) == self.spec_violations(),
    {
        let mut found: Vec<FieldError> = Vec::new();
        proof {
            assert(field_texts(found@) =~= Seq::empty());
        }
        note_filled(&mut found, self.body.as_str(), "body");
        found
    }

    /// Holds the payload to its rules.
    pub fn validate(&self) -> (r: Result<(), Error>)
        ensures
            spec_verdict(self.spec_violations(), r),
    {
        verdict(self.violations())
    }
}


/// `POST /articles/{slug}/comments`: validates the payload, authenticates,
/// then sends the comment.
pub fn add(path: ArticlePath, form: In<AddComment>, req: &HttpRequest) -> (s: Step)
    ensures
        spec_begin(
            form.comment.spec_violations(),
            opt_text(req.authorization),
            Pending::AddComment(path.slug, form.comment),
            s,
        ),
{
    let comment = form.comment;
    let checked = comment.validate();
    begin(checked, req, Pending::AddComment(path.slug, comment))
}

/// `GET /articles/{slug}/comments`: lists the comments, with or without an
/// identity.
pub fn list(path: ArticlePath, req: &HttpRequest) -> (s: Step)
    ensures
        spec_authenticate(opt_text(req.authorization), Pending::GetComments(path.slug), s),
{
    authenticate(req, Pending::GetComments(path.slug))
}

/// `DELETE /articles/{slug}/comments/{comment_id}`: authenticates, then
/// deletes the comment.
pub fn delete(path: ArticleCommentPath, req: &HttpRequest) -> (s: Step)
    ensures
        spec_authenticate(
            opt_text(req.authorization),
            Pending::DeleteComment(path.slug, path.comment_id),
            s,
        ),
{
    authenticate(req, Pending::DeleteComment(path.slug, path.comment_id))
}

/// A comment with an empty body is stopped by validation: the request
/// fails with a 422 that names the body, whatever credential came with it,
/// and no command is made.
pub proof fn lemma_empty_comment_stops(
    comment: AddComment,
    header: Option<Seq<char>>,
    slug: String,
    s: Step,
)
    requires
        comment.body@.len() == 0,
        spec_begin(comment.spec_violations(), header, Pending::AddComment(slug, comment), s),
    ensures
        s matches Step::Fail(e) && e@.status() == 422 && e@
            == ErrorModel::UnprocessableEntity(seq![("body"@, empty_message())]),
{
    assert(comment.spec_violations() =~= seq![("body"@, empty_message())]);
}

} // verus!
