//! The routes of the service, one module per resource, and the steps that
//! every one of them goes through: validate, authenticate, dispatch, reply.
pub mod articles;
pub mod profiles;
pub mod router;
pub mod tags;
pub mod users;

use vstd::prelude::*;
use vstd::string::*;
use crate::app::articles::comments::{AddComment, AddCommentOuter, DeleteComment, GetComments};
use crate::app::articles::{
    ArticlesParams, CreateArticle, CreateArticleOuter, DeleteArticle, FavoriteArticle, FeedParams,
    GetArticle, GetArticles, GetFeed, UnfavoriteArticle, UpdateArticle, UpdateArticleOuter,
};
use crate::app::profiles::{FollowProfile, GetProfile, UnfollowProfile};
use crate::app::router::Route;
use crate::app::tags::GetTags;
use crate::app::users::{UpdateUser, UpdateUserOuter, UserResponse, UserResponseModel};
use crate::auth::{
    lemma_no_authorization_body, no_authorization, preprocess_authz_token, spec_token, Auth,
    HttpRequest,
};
use crate::db::{
    lemma_canned_failures, lemma_canned_tags, respond, result_model, spec_respond, Command,
    CommandKind, GenerateAuth, MockExecutor, Mocker, Reply, ReplyKind, ReplyModel,
};
use crate::error::{Error, ErrorModel, HttpResponse};
use crate::json::opt_text;

verus! {

/// A command that lacks only the identity of who asks.
#[derive(Debug, Clone, PartialEq, Eq)]
pub enum Pending {
    GetCurrent,
    UpdateUser(UpdateUser),
    GetProfile(String),
    FollowProfile(String),
    UnfollowProfile(String),
    CreateArticle(CreateArticle),
    GetArticle(String),
    UpdateArticle(String, UpdateArticle),
    DeleteArticle(String),
    FavoriteArticle(String),
    UnfavoriteArticle(String),
    GetArticles(ArticlesParams),
    GetFeed(FeedParams),
    AddComment(String, AddComment),
    GetComments(String),
    DeleteComment(String, i32),
}

/// What is to happen next for a request.
#[derive(Debug, PartialEq, Eq)]
pub enum Step {
    /// The request fails here, before any command went to the executor.
    Fail(Error),
    /// The outcome is known and only has to be written.
    Reply(Result<Reply, Error>),
    /// Have the executor resolve the identity, then resume what is pending.
    Authenticate(GenerateAuth, Pending),
    /// Hand the command to the executor and write what it answers.
    Send(Command),
}

impl Pending {
    /// The command that goes out without an identity, on the routes where
    /// authentication is optional; `None` on the routes that require it.
    pub open spec fn spec_anonymous(self) -> Option<Command> {
        match self {
            Pending::GetProfile(username) => Some(
                Command::GetProfile(GetProfile { auth: None, username }),
            ),
            Pending::GetArticle(slug) => Some(Command::GetArticle(GetArticle { auth: None, slug })),
            Pending::GetArticles(params) => Some(
                Command::GetArticles(GetArticles { auth: None, params }),
            ),
            Pending::GetComments(slug) => Some(
                Command::GetComments(GetComments { auth: None, slug }),
            ),
            _ => None,
        }
    }

    /// The step that follows once the identity is resolved.
    pub open spec fn spec_granted(self, auth: Auth) -> Step {
        match self {
            Pending::GetCurrent => Step::Reply(
                Ok(Reply::User(UserResponse::spec_create_with_auth(auth))),
            ),
            Pending::UpdateUser(update_user) => Step::Send(
                Command::UpdateUser(UpdateUserOuter { auth, update_user }),
            ),
            Pending::GetProfile(username) => Step::Send(
                Command::GetProfile(GetProfile { auth: Some(auth), username }),
            ),
            Pending::FollowProfile(username) => Step::Send(
                Command::FollowProfile(FollowProfile { auth, username }),
            ),
            Pending::UnfollowProfile(username) => Step::Send(
                Command::UnfollowProfile(UnfollowProfile { auth, username }),
            ),
            Pending::CreateArticle(article) => Step::Send(
                Command::CreateArticle(CreateArticleOuter { auth, article }),
            ),
            Pending::GetArticle(slug) => Step::Send(
                Command::GetArticle(GetArticle { auth: Some(auth), slug }),
            ),
            Pending::UpdateArticle(slug, article) => Step::Send(
                Command::UpdateArticle(UpdateArticleOuter { auth, slug, article }),
            ),
            Pending::DeleteArticle(slug) => Step::Send(
                Command::DeleteArticle(DeleteArticle { auth, slug }),
            ),
            Pending::FavoriteArticle(slug) => Step::Send(
                Command::FavoriteArticle(FavoriteArticle { auth, slug }),
            ),
            Pending::UnfavoriteArticle(slug) => Step::Send(
                Command::UnfavoriteArticle(UnfavoriteArticle { auth, slug }),
            ),
            Pending::GetArticles(params) => Step::Send(
                Command::GetArticles(GetArticles { auth: Some(auth), params }),
            ),
            Pending::GetFeed(params) => Step::Send(Command::GetFeed(GetFeed { auth, params })),
            Pending::AddComment(slug, comment) => Step::Send(
                Command::AddComment(AddCommentOuter { auth, slug, comment }),
            ),
            Pending::GetComments(slug) => Step::Send(
                Command::GetComments(GetComments { auth: Some(auth), slug }),
            ),
            Pending::DeleteComment(slug, comment_id) => Step::Send(
                Command::DeleteComment(DeleteComment { auth, slug, comment_id }),
            ),
        }
    }

    /// The step that follows where no identity could be resolved: the
    /// command goes out without one where that is allowed, and the request
    /// fails with the reason otherwise.
    pub open spec fn spec_denied(self, reason: Error) -> Step {
        match self.spec_anonymous() {
            Some(command) => Step::Send(command),
            None => Step::Fail(reason),
        }
    }

    /// The step that follows the executor's answer to `GenerateAuth`.
    pub open spec fn spec_resume(self, answer: Result<Reply, Error>) -> Step {
        match answer {
            Ok(Reply::Auth(auth)) => self.spec_granted(auth),
            Ok(_) => arbitrary(),
            Err(reason) => self.spec_denied(reason),
        }
    }

    /// The kind of command that this becomes; `None` where it becomes none
    /// and the identity itself is the reply.
    pub open spec fn spec_kind(self) -> Option<CommandKind> {
        match self {
            Pending::GetCurrent => None,
            Pending::UpdateUser(_) => Some(CommandKind::UpdateUser),
            Pending::GetProfile(_) => Some(CommandKind::GetProfile),
            Pending::FollowProfile(_) => Some(CommandKind::FollowProfile),
            Pending::UnfollowProfile(_) => Some(CommandKind::UnfollowProfile),
            Pending::CreateArticle(_) => Some(CommandKind::CreateArticle),
            Pending::GetArticle(_) => Some(CommandKind::GetArticle),
            Pending::UpdateArticle(_, _) => Some(CommandKind::UpdateArticle),
            Pending::DeleteArticle(_) => Some(CommandKind::DeleteArticle),
            Pending::FavoriteArticle(_) => Some(CommandKind::FavoriteArticle),
            Pending::UnfavoriteArticle(_) => Some(CommandKind::UnfavoriteArticle),
            Pending::GetArticles(_) => Some(CommandKind::GetArticles),
            Pending::GetFeed(_) => Some(CommandKind::GetFeed),
            Pending::AddComment(_, _) => Some(CommandKind::AddComment),
            Pending::GetComments(_) => Some(CommandKind::GetComments),
            Pending::DeleteComment(_, _) => Some(CommandKind::DeleteComment),
        }
    }

    /// The route that leaves this pending.
    pub open spec fn spec_route(self) -> Route {
        match self {
            Pending::GetCurrent => Route::CurrentUser,
            Pending::UpdateUser(_) => Route::UpdateUser,
            Pending::GetProfile(_) => Route::GetProfile,
            Pending::FollowProfile(_) => Route::Follow,
            Pending::UnfollowProfile(_) => Route::Unfollow,
            Pending::CreateArticle(_) => Route::CreateArticle,
            Pending::GetArticle(_) => Route::GetArticle,
            Pending::UpdateArticle(_, _) => Route::UpdateArticle,
            Pending::DeleteArticle(_) => Route::DeleteArticle,
            Pending::FavoriteArticle(_) => Route::Favorite,
            Pending::UnfavoriteArticle(_) => Route::Unfavorite,
            Pending::GetArticles(_) => Route::ListArticles,
            Pending::GetFeed(_) => Route::Feed,
            Pending::AddComment(_, _) => Route::AddComment,
            Pending::GetComments(_) => Route::ListComments,
            Pending::DeleteComment(_, _) => Route::DeleteComment,
        }
    }

    /// The route that leaves this pending.
    pub fn route(&self) -> (r: Route)
        ensures
            r == self.spec_route(),
    {
        match self {
            Pending::GetCurrent => Route::CurrentUser,
            Pending::UpdateUser(_) => Route::UpdateUser,
            Pending::GetProfile(_) => Route::GetProfile,
            Pending::FollowProfile(_) => Route::Follow,
            Pending::UnfollowProfile(_) => Route::Unfollow,
            Pending::CreateArticle(_) => Route::CreateArticle,
            Pending::GetArticle(_) => Route::GetArticle,
            Pending::UpdateArticle(_, _) => Route::UpdateArticle,
            Pending::DeleteArticle(_) => Route::DeleteArticle,
            Pending::FavoriteArticle(_) => Route::Favorite,
            Pending::UnfavoriteArticle(_) => Route::Unfavorite,
            Pending::GetArticles(_) => Route::ListArticles,
            Pending::GetFeed(_) => Route::Feed,
            Pending::AddComment(_, _) => Route::AddComment,
            Pending::GetComments(_) => Route::ListComments,
            Pending::DeleteComment(_, _) => Route::DeleteComment,
        }
    }

    /// Completes the command with the identity that was resolved.
    pub fn granted(self, auth: Auth) -> (s: Step)
        ensures
            s == self.spec_granted(auth),
    {
        match self {
            Pending::GetCurrent => Step::Reply(Ok(Reply::User(UserResponse::create_with_auth(auth)))),
            Pending::UpdateUser(update_user) => Step::Send(
                Command::UpdateUser(UpdateUserOuter { auth, update_user }),
            ),
            Pending::GetProfile(username) => Step::Send(
                Command::GetProfile(GetProfile { auth: Some(auth), username }),
            ),
            Pending::FollowProfile(username) => Step::Send(
                Command::FollowProfile(FollowProfile { auth, username }),
            ),
            Pending::UnfollowProfile(username) => Step::Send(
                Command::UnfollowProfile(UnfollowProfile { auth, username }),
            ),
            Pending::CreateArticle(article) => Step::Send(
                Command::CreateArticle(CreateArticleOuter { auth, article }),
            ),
            Pending::GetArticle(slug) => Step::Send(
                Command::GetArticle(GetArticle { auth: Some(auth), slug }),
            ),
            Pending::UpdateArticle(slug, article) => Step::Send(
                Command::UpdateArticle(UpdateArticleOuter { auth, slug, article }),
            ),
            Pending::DeleteArticle(slug) => Step::Send(
                Command::DeleteArticle(DeleteArticle { auth, slug }),
            ),
            Pending::FavoriteArticle(slug) => Step::Send(
                Command::FavoriteArticle(FavoriteArticle { auth, slug }),
            ),
            Pending::UnfavoriteArticle(slug) => Step::Send(
                Command::UnfavoriteArticle(UnfavoriteArticle { auth, slug }),
            ),
            Pending::GetArticles(params) => Step::Send(
                Command::GetArticles(GetArticles { auth: Some(auth), params }),
            ),
            Pending::GetFeed(params) => Step::Send(Command::GetFeed(GetFeed { auth, params })),
            Pending::AddComment(slug, comment) => Step::Send(
                Command::AddComment(AddCommentOuter { auth, slug, comment }),
            ),
            Pending::GetComments(slug) => Step::Send(
                Command::GetComments(GetComments { auth: Some(auth), slug }),
            ),
            Pending::DeleteComment(slug, comment_id) => Step::Send(
                Command::DeleteComment(DeleteComment { auth, slug, comment_id }),
            ),
        }
    }

    /// Goes on without an identity where the route allows it, and fails with
    /// `reason` where it does not.
    pub fn denied(self, reason: Error) -> (s: Step)
        ensures
            s == self.spec_denied(reason),
    {
        match self {
            Pending::GetProfile(username) => Step::Send(
                Command::GetProfile(GetProfile { auth: None, username }),
            ),
            Pending::GetArticle(slug) => Step::Send(
                Command::GetArticle(GetArticle { auth: None, slug }),
            ),
            Pending::GetArticles(params) => Step::Send(
                Command::GetArticles(GetArticles { auth: None, params }),
            ),
            Pending::GetComments(slug) => Step::Send(
                Command::GetComments(GetComments { auth: None, slug }),
            ),
            _ => Step::Fail(reason),
        }
    }

    /// Takes the executor's answer to `GenerateAuth` and decides the next
    /// step. The answer, where it is a success, must be an identity.
    pub fn resume(self, answer: Result<Reply, Error>) -> (s: Step)
        requires
            answer matches Ok(reply) ==> reply is Auth,
        ensures
            s == self.spec_resume(answer),
            !(s is Authenticate),
    {
        match answer {
            Ok(Reply::Auth(auth)) => self.granted(auth),
            Ok(_) => Step::Fail(Error::InternalServerError),
            Err(reason) => self.denied(reason),
        }
    }
}

/// What reading the credential header decides: with a credential, the
/// executor is asked for the identity; without one, the request goes on
/// anonymously where the route allows it and fails as unauthorized
/// otherwise.
pub open spec fn spec_authenticate(header: Option<Seq<char>>, pending: Pending, s: Step) -> bool {
    match spec_token(header) {
        Ok(token) => s matches Step::Authenticate(ask, then) && ask.token@ == token && then
            == pending,
        Err(reason) => match pending.spec_anonymous() {
            Some(command) => s == Step::Send(command),
            None => s matches Step::Fail(e) && e@ == reason,
        },
    }
}

/// What a route with a payload decides first: any broken rule fails the
/// request with all of them listed; otherwise the credential is read.
pub open spec fn spec_begin(
    found: Seq<(Seq<char>, Seq<char>)>,
    header: Option<Seq<char>>,
    pending: Pending,
    s: Step,
) -> bool {
    if found.len() == 0 {
        spec_authenticate(header, pending, s)
    } else {
        s matches Step::Fail(e) && e@ == ErrorModel::UnprocessableEntity(found)
    }
}

/// What a route without authentication decides: any broken rule fails the
/// request; otherwise the command goes out.
pub open spec fn spec_submit(found: Seq<(Seq<char>, Seq<char>)>, command: Command, s: Step) -> bool {
    if found.len() == 0 {
        s == Step::Send(command)
    } else {
        s matches Step::Fail(e) && e@ == ErrorModel::UnprocessableEntity(found)
    }
}

/// Reads the credential of `req` and decides how `pending` goes on.
pub fn authenticate(req: &HttpRequest, pending: Pending) -> (s: Step)
    ensures
        spec_authenticate(opt_text(req.authorization), pending, s),
{
    match preprocess_authz_token(&req.authorization) {
        Ok(token) => Step::Authenticate(GenerateAuth { token }, pending),
        Err(reason) => pending.denied(reason),
    }
}

/// Goes on to authentication where validation passed.
pub fn begin(checked: Result<(), Error>, req: &HttpRequest, pending: Pending) -> (s: Step)
    ensures
        match checked {
            Ok(_) => spec_authenticate(opt_text(req.authorization), pending, s),
            Err(e) => s == Step::Fail(e),
        },
{
    match checked {
        Ok(_) => authenticate(req, pending),
        Err(e) => Step::Fail(e),
    }
}

/// Sends the command where validation passed.
pub fn submit(checked: Result<(), Error>, command: Command) -> (s: Step)
    ensures
        match checked {
            Ok(_) => s == Step::Send(command),
            Err(e) => s == Step::Fail(e),
        },
{
    match checked {
        Ok(_) => Step::Send(command),
        Err(e) => Step::Fail(e),
    }
}

/// What a handler works against: here, an executor of canned outcomes.
#[derive(Debug, Clone, PartialEq, Eq)]
pub struct AppState {
    pub db: MockExecutor,
}

/// The state of a suite in which every command meets the outcome `m`.
pub fn new_state(m: Mocker) -> (state: AppState)
    ensures
        state.db.outcome() == m,
        forall|kind: CommandKind| state.db.override_for(kind) is None,
{
    AppState { db: MockExecutor::mock(m) }
}

/// The outcome of a request as plain values: the status and body of the
/// reply, or the failure that stopped it before any command went out.
pub open spec fn response_model(r: Result<HttpResponse, Error>) -> Result<(u16, Seq<char>), ErrorModel> {
    match r {
        Ok(response) => Ok((response.status, response.body@)),
        Err(e) => Err(e@),
    }
}

impl AppState {
    /// What running `step` against this state ends in.
    pub open spec fn spec_run(&self, step: Step) -> Result<(u16, Seq<char>), ErrorModel> {
        match step {
            Step::Fail(e) => Err(e@),
            Step::Reply(result) => Ok(spec_respond(result_model(result))),
            Step::Send(command) => Ok(spec_respond(self.db.spec_handle(command.spec_kind()))),
            Step::Authenticate(_, pending) => match self.db.spec_handle(CommandKind::GenerateAuth) {
                Ok(ReplyModel::Auth(auth)) => match pending.spec_kind() {
                    Some(kind) => Ok(spec_respond(self.db.spec_handle(kind))),
                    None => Ok(spec_respond(Ok(ReplyModel::User(UserResponseModel::of_auth(auth))))),
                },
                Ok(_) => arbitrary(),
                Err(reason) => match pending.spec_anonymous() {
                    Some(command) => Ok(spec_respond(self.db.spec_handle(command.spec_kind()))),
                    None => Err(reason),
                },
            },
        }
    }

    /// Ends a step that needs no identity resolved: fails, writes the known
    /// outcome, or dispatches the command and writes what comes back.
    pub fn conclude(&self, step: Step) -> (r: Result<HttpResponse, Error>)
        requires
            !(step is Authenticate),
        ensures
            response_model(r) == self.spec_run(step),
    {
        match step {
            Step::Fail(e) => Err(e),
            Step::Reply(result) => Ok(respond(&result)),
            Step::Send(command) => {
                let result = self.db.handle(command);
                Ok(respond(&result))
            },
            Step::Authenticate(_, _) => Err(Error::InternalServerError),
        }
    }

    /// Carries `step` through to the end against the executor of this
    /// state: resolves the identity where asked, dispatches the command and
    /// writes the reply. A failure before dispatch comes back as `Err`.
    pub fn run(&self, step: Step) -> (r: Result<HttpResponse, Error>)
        ensures
            response_model(r) == self.spec_run(step),
    {
        match step {
            Step::Authenticate(ask, pending) => {
                let answer = self.db.handle(Command::GenerateAuth(ask));
                proof {
                    self.lemma_resumed(ask, pending, answer);
                }
                let next = pending.resume(answer);
                self.conclude(next)
            },
            other => self.conclude(other),
        }
    }

    /// Resolving the identity first and then going on ends where going on
    /// from the executor's answer ends.
    proof fn lemma_resumed(&self, ask: GenerateAuth, pending: Pending, answer: Result<Reply, Error>)
        requires
            result_model(answer) == self.db.spec_handle(CommandKind::GenerateAuth),
        ensures
            answer matches Ok(reply) ==> reply is Auth,
            self.spec_run(pending.spec_resume(answer)) == self.spec_run(
                Step::Authenticate(ask, pending),
            ),
    {
        match answer {
            Ok(reply) => {
                assert(reply is Auth);
                let auth = reply->Auth_0;
                lemma_granted_kind(pending, auth);
                if pending is GetCurrent {
                    assert(UserResponse::spec_create_with_auth(auth)@ == UserResponseModel::of_auth(
                        auth@,
                    ));
                }
            },
            Err(reason) => {
                lemma_anonymous_kind(pending);
            },
        }
    }
}

/// With an identity, what is pending becomes the command of its kind, or
/// the reply that shows the identity.
pub proof fn lemma_granted_kind(pending: Pending, auth: Auth)
    ensures
        match pending.spec_kind() {
            Some(kind) => pending.spec_granted(auth) matches Step::Send(command)
                && command.spec_kind() == kind,
            None => pending.spec_granted(auth) == Step::Reply(
                Ok(Reply::User(UserResponse::spec_create_with_auth(auth))),
            ),
        },
{
    match pending {
        Pending::GetCurrent => {},
        Pending::UpdateUser(_) => {},
        Pending::GetProfile(_) => {},
        Pending::FollowProfile(_) => {},
        Pending::UnfollowProfile(_) => {},
        Pending::CreateArticle(_) => {},
        Pending::GetArticle(_) => {},
        Pending::UpdateArticle(_, _) => {},
        Pending::DeleteArticle(_) => {},
        Pending::FavoriteArticle(_) => {},
        Pending::UnfavoriteArticle(_) => {},
        Pending::GetArticles(_) => {},
        Pending::GetFeed(_) => {},
        Pending::AddComment(_, _) => {},
        Pending::GetComments(_) => {},
        Pending::DeleteComment(_, _) => {},
    }
}

/// Without an identity, what is pending becomes the command of its kind
/// where the route allows that.
pub proof fn lemma_anonymous_kind(pending: Pending)
    ensures
        pending.spec_anonymous() matches Some(command) ==> pending.spec_kind() == Some(
            command.spec_kind(),
        ),
{
}

/// The routes marked as protected in the table are those on which nothing
/// goes out without an identity.
pub proof fn lemma_protection_agrees(pending: Pending)
    ensures
        pending.spec_route().spec_protected() == (pending.spec_anonymous() is None),
{
}

/// A route that requires an identity, asked without a credential header,
/// fails as unauthorized with the body that says so, whatever the state of
/// the executor: no command reaches it.
pub proof fn lemma_protected_needs_credential(pending: Pending, s: Step, state: AppState)
    requires
        pending.spec_anonymous() is None,
        spec_authenticate(None, pending, s),
    ensures
        s matches Step::Fail(e) && e@.status() == 401 && e@.body()
            == "{\"error\":\"No authorization was provided\"}"@,
        state.spec_run(s) == Err::<(u16, Seq<char>), ErrorModel>(no_authorization()),
{
    lemma_no_authorization_body();
}

/// A route that requires an identity, asked with a header that names no
/// credential, fails with a 401 for the reason that reading the header
/// gave; no command is made.
pub proof fn lemma_protected_refuses(
    pending: Pending,
    header: Option<Seq<char>>,
    s: Step,
    state: AppState,
)
    requires
        pending.spec_anonymous() is None,
        spec_token(header) is Err,
        spec_authenticate(header, pending, s),
    ensures
        s matches Step::Fail(e) && e@.status() == 401 && Err::<Seq<char>, ErrorModel>(e@)
            == spec_token(header),
        state.spec_run(s) is Err,
{
}

/// The same of a route with a payload, where the payload breaks no rule.
pub proof fn lemma_protected_payload_needs_credential(pending: Pending, s: Step, state: AppState)
    requires
        pending.spec_anonymous() is None,
        spec_begin(Seq::empty(), None, pending, s),
    ensures
        s matches Step::Fail(e) && e@.status() == 401 && e@.body()
            == "{\"error\":\"No authorization was provided\"}"@,
        state.spec_run(s) == Err::<(u16, Seq<char>), ErrorModel>(no_authorization()),
{
    lemma_no_authorization_body();
}

/// A payload that breaks a rule stops the request with a 422 before the
/// credential is read and before any command is made.
pub proof fn lemma_invalid_payload_stops(
    found: Seq<(Seq<char>, Seq<char>)>,
    header: Option<Seq<char>>,
    pending: Pending,
    s: Step,
    state: AppState,
)
    requires
        found.len() > 0,
        spec_begin(found, header, pending, s),
    ensures
        s matches Step::Fail(e) && e@.status() == 422,
        state.spec_run(s) == Err::<(u16, Seq<char>), ErrorModel>(
            ErrorModel::UnprocessableEntity(found),
        ),
{
}

/// Reading an article from a suite in which nothing is found ends in a
/// 404 with the body `"NotFound"`, with or without a credential.
pub proof fn lemma_article_not_found(
    state: AppState,
    header: Option<Seq<char>>,
    slug: String,
    s: Step,
)
    requires
        state.db.outcome() == Mocker::NotFound,
        forall|kind: CommandKind| state.db.override_for(kind) is None,
        spec_authenticate(header, Pending::GetArticle(slug), s),
    ensures
        state.spec_run(s) == Ok::<(u16, Seq<char>), ErrorModel>((404u16, "\"NotFound\""@)),
{
    lemma_canned_failures(ReplyKind::Article);
    lemma_canned_failures(ReplyKind::Auth);
}

/// Asking for the tags of a suite that succeeds ends in a 200 with the
/// fixture tag under its envelope.
pub proof fn lemma_tags_served(state: AppState, s: Step)
    requires
        state.db.outcome() == Mocker::Success,
        forall|kind: CommandKind| state.db.override_for(kind) is None,
        s == Step::Send(Command::GetTags(GetTags {  })),
    ensures
        state.spec_run(s) == Ok::<(u16, Seq<char>), ErrorModel>(
            (200u16, "{\"tags\":[\"tag\"]}"@),
        ),
{
    lemma_canned_tags();
}

} // verus!
