//! Commands, their replies, and the executor that answers every command
//! with a canned outcome.
use vstd::prelude::*;
use vstd::string::*;
use crate::app::articles::comments::{
    AddCommentOuter, CommentListModel, CommentListResponse, CommentModel, CommentResponse,
    DeleteComment, GetComments,
};
use crate::app::articles::{
    ArticleListModel, ArticleListResponse, ArticleModel, ArticleResponse, CreateArticleOuter,
    DeleteArticle, FavoriteArticle, GetArticle, GetArticles, GetFeed, UnfavoriteArticle,
    UpdateArticleOuter,
};
use crate::app::profiles::{
    FollowProfile, GetProfile, ProfileModel, ProfileResponse, UnfollowProfile,
};
use crate::app::tags::{GetTags, TagsModel, TagsResponse};
use crate::app::users::{
    write_user, LoginUser, RegisterUser, UpdateUserOuter, UserResponse, UserResponseModel,
};
use crate::auth::{Auth, AuthModel};
use crate::error::{Detail, DetailModel, Error, ErrorModel, HttpResponse};
use crate::json::{json_string_text, lemma_plain_text, needs_escape, opt_text, spec_joined};

verus! {

/// Resolve the identity that a credential stands for.
#[derive(Debug, Clone, PartialEq, Eq)]
pub struct GenerateAuth {
    pub token: String,
}

/// One request to perform one operation: the unit handed to an executor.
#[derive(Debug, Clone, PartialEq, Eq)]
pub enum Command {
    RegisterUser(RegisterUser),
    LoginUser(LoginUser),
    UpdateUser(UpdateUserOuter),
    GenerateAuth(GenerateAuth),
    GetProfile(GetProfile),
    FollowProfile(FollowProfile),
    UnfollowProfile(UnfollowProfile),
    CreateArticle(CreateArticleOuter),
    GetArticle(GetArticle),
    UpdateArticle(UpdateArticleOuter),
    DeleteArticle(DeleteArticle),
    FavoriteArticle(FavoriteArticle),
    UnfavoriteArticle(UnfavoriteArticle),
    GetArticles(GetArticles),
    GetFeed(GetFeed),
    AddComment(AddCommentOuter),
    GetComments(GetComments),
    DeleteComment(DeleteComment),
    GetTags(GetTags),
}

/// Which operation a command asks for.
#[derive(Debug, Clone, Copy, PartialEq, Eq, Structural, Hash)]
pub enum CommandKind {
    RegisterUser,
    LoginUser,
    UpdateUser,
    GenerateAuth,
    GetProfile,
    FollowProfile,
    UnfollowProfile,
    CreateArticle,
    GetArticle,
    UpdateArticle,
    DeleteArticle,
    FavoriteArticle,
    UnfavoriteArticle,
    GetArticles,
    GetFeed,
    AddComment,
    GetComments,
    DeleteComment,
    GetTags,
}

/// The shape of a reply.
#[derive(Debug, Clone, Copy, PartialEq, Eq, Structural, Hash)]
pub enum ReplyKind {
    User,
    Auth,
    Profile,
    Article,
    ArticleList,
    Comment,
    CommentList,
    Tags,
    Unit,
}

/// What an executor hands back when a command succeeds.
#[derive(Debug, Clone, PartialEq, Eq)]
pub enum Reply {
    User(UserResponse),
    Auth(Auth),
    Profile(ProfileResponse),
    Article(ArticleResponse),
    ArticleList(ArticleListResponse),
    Comment(CommentResponse),
    CommentList(CommentListResponse),
    Tags(TagsResponse),
    Unit,
}

pub ghost enum ReplyModel {
    User(UserResponseModel),
    Auth(AuthModel),
    Profile(ProfileModel),
    Article(ArticleModel),
    ArticleList(ArticleListModel),
    Comment(CommentModel),
    CommentList(CommentListModel),
    Tags(TagsModel),
    Unit,
}

impl View for Reply {
    type V = ReplyModel;

    open spec fn view(&self) -> ReplyModel {
        match self {
            Reply::User(r) => ReplyModel::User(r@),
            Reply::Auth(r) => ReplyModel::Auth(r@),
            Reply::Profile(r) => ReplyModel::Profile(r@),
            Reply::Article(r) => ReplyModel::Article(r@),
            Reply::ArticleList(r) => ReplyModel::ArticleList(r@),
            Reply::Comment(r) => ReplyModel::Comment(r@),
            Reply::CommentList(r) => ReplyModel::CommentList(r@),
            Reply::Tags(r) => ReplyModel::Tags(r@),
            Reply::Unit => ReplyModel::Unit,
        }
    }
}

/// The outcome of a command, as plain values.
pub open spec fn result_model(r: Result<Reply, Error>) -> Result<ReplyModel, ErrorModel> {
    match r {
        Ok(reply) => Ok(reply@),
        Err(e) => Err(e@),
    }
}

impl Command {
    pub open spec fn spec_kind(self) -> CommandKind {
        match self {
            Command::RegisterUser(_) => CommandKind::RegisterUser,
            Command::LoginUser(_) => CommandKind::LoginUser,
            Command::UpdateUser(_) => CommandKind::UpdateUser,
            Command::GenerateAuth(_) => CommandKind::GenerateAuth,
            Command::GetProfile(_) => CommandKind::GetProfile,
            Command::FollowProfile(_) => CommandKind::FollowProfile,
            Command::UnfollowProfile(_) => CommandKind::UnfollowProfile,
            Command::CreateArticle(_) => CommandKind::CreateArticle,
            Command::GetArticle(_) => CommandKind::GetArticle,
            Command::UpdateArticle(_) => CommandKind::UpdateArticle,
            Command::DeleteArticle(_) => CommandKind::DeleteArticle,
            Command::FavoriteArticle(_) => CommandKind::FavoriteArticle,
            Command::UnfavoriteArticle(_) => CommandKind::UnfavoriteArticle,
            Command::GetArticles(_) => CommandKind::GetArticles,
            Command::GetFeed(_) => CommandKind::GetFeed,
            Command::AddComment(_) => CommandKind::AddComment,
            Command::GetComments(_) => CommandKind::GetComments,
            Command::DeleteComment(_) => CommandKind::DeleteComment,
            Command::GetTags(_) => CommandKind::GetTags,
        }
    }

    /// Which operation the command asks for.
    pub fn kind(&self) -> (k: CommandKind)
        ensures
            k == self.spec_kind(),
    {
        match self {
            Command::RegisterUser(_) => CommandKind::RegisterUser,
            Command::LoginUser(_) => CommandKind::LoginUser,
            Command::UpdateUser(_) => CommandKind::UpdateUser,
            Command::GenerateAuth(_) => CommandKind::GenerateAuth,
            Command::GetProfile(_) => CommandKind::GetProfile,
            Command::FollowProfile(_) => CommandKind::FollowProfile,
            Command::UnfollowProfile(_) => CommandKind::UnfollowProfile,
            Command::CreateArticle(_) => CommandKind::CreateArticle,
            Command::GetArticle(_) => CommandKind::GetArticle,
            Command::UpdateArticle(_) => CommandKind::UpdateArticle,
            Command::DeleteArticle(_) => CommandKind::DeleteArticle,
            Command::FavoriteArticle(_) => CommandKind::FavoriteArticle,
            Command::UnfavoriteArticle(_) => CommandKind::UnfavoriteArticle,
            Command::GetArticles(_) => CommandKind::GetArticles,
            Command::GetFeed(_) => CommandKind::GetFeed,
            Command::AddComment(_) => CommandKind::AddComment,
            Command::GetComments(_) => CommandKind::GetComments,
            Command::DeleteComment(_) => CommandKind::DeleteComment,
            Command::GetTags(_) => CommandKind::GetTags,
        }
    }
}

/// How many kinds of command there are.
pub const KINDS: usize = 19;

impl CommandKind {
    /// The one shape of reply that goes with the operation.
    pub open spec fn spec_reply_kind(self) -> ReplyKind {
        match self {
            CommandKind::RegisterUser => ReplyKind::User,
            CommandKind::LoginUser => ReplyKind::User,
            CommandKind::UpdateUser => ReplyKind::User,
            CommandKind::GenerateAuth => ReplyKind::Auth,
            CommandKind::GetProfile => ReplyKind::Profile,
            CommandKind::FollowProfile => ReplyKind::Profile,
            CommandKind::UnfollowProfile => ReplyKind::Profile,
            CommandKind::CreateArticle => ReplyKind::Article,
            CommandKind::GetArticle => ReplyKind::Article,
            CommandKind::UpdateArticle => ReplyKind::Article,
            CommandKind::DeleteArticle => ReplyKind::Unit,
            CommandKind::FavoriteArticle => ReplyKind::Article,
            CommandKind::UnfavoriteArticle => ReplyKind::Article,
            CommandKind::GetArticles => ReplyKind::ArticleList,
            CommandKind::GetFeed => ReplyKind::ArticleList,
            CommandKind::AddComment => ReplyKind::Comment,
            CommandKind::GetComments => ReplyKind::CommentList,
            CommandKind::DeleteComment => ReplyKind::Unit,
            CommandKind::GetTags => ReplyKind::Tags,
        }
    }

    pub fn reply_kind(self) -> (k: ReplyKind)
        ensures
            k == self.spec_reply_kind(),
    {
        match self {
            CommandKind::RegisterUser => ReplyKind::User,
            CommandKind::LoginUser => ReplyKind::User,
            CommandKind::UpdateUser => ReplyKind::User,
            CommandKind::GenerateAuth => ReplyKind::Auth,
            CommandKind::GetProfile => ReplyKind::Profile,
            CommandKind::FollowProfile => ReplyKind::Profile,
            CommandKind::UnfollowProfile => ReplyKind::Profile,
            CommandKind::CreateArticle => ReplyKind::Article,
            CommandKind::GetArticle => ReplyKind::Article,
            CommandKind::UpdateArticle => ReplyKind::Article,
            CommandKind::DeleteArticle => ReplyKind::Unit,
            CommandKind::FavoriteArticle => ReplyKind::Article,
            CommandKind::UnfavoriteArticle => ReplyKind::Article,
            CommandKind::GetArticles => ReplyKind::ArticleList,
            CommandKind::GetFeed => ReplyKind::ArticleList,
            CommandKind::AddComment => ReplyKind::Comment,
            CommandKind::GetComments => ReplyKind::CommentList,
            CommandKind::DeleteComment => ReplyKind::Unit,
            CommandKind::GetTags => ReplyKind::Tags,
        }
    }

    /// The place of the operation in a table of all of them.
    pub open spec fn spec_index(self) -> usize {
        match self {
            CommandKind::RegisterUser => 0,
            CommandKind::LoginUser => 1,
            CommandKind::UpdateUser => 2,
            CommandKind::GenerateAuth => 3,
            CommandKind::GetProfile => 4,
            CommandKind::FollowProfile => 5,
            CommandKind::UnfollowProfile => 6,
            CommandKind::CreateArticle => 7,
            CommandKind::GetArticle => 8,
            CommandKind::UpdateArticle => 9,
            CommandKind::DeleteArticle => 10,
            CommandKind::FavoriteArticle => 11,
            CommandKind::UnfavoriteArticle => 12,
            CommandKind::GetArticles => 13,
            CommandKind::GetFeed => 14,
            CommandKind::AddComment => 15,
            CommandKind::GetComments => 16,
            CommandKind::DeleteComment => 17,
            CommandKind::GetTags => 18,
        }
    }

    pub fn index(self) -> (i: usize)
        ensures
            i == self.spec_index(),
            i < KINDS,
    {
        match self {
            CommandKind::RegisterUser => 0,
            CommandKind::LoginUser => 1,
            CommandKind::UpdateUser => 2,
            CommandKind::GenerateAuth => 3,
            CommandKind::GetProfile => 4,
            CommandKind::FollowProfile => 5,
            CommandKind::UnfollowProfile => 6,
            CommandKind::CreateArticle => 7,
            CommandKind::GetArticle => 8,
            CommandKind::UpdateArticle => 9,
            CommandKind::DeleteArticle => 10,
            CommandKind::FavoriteArticle => 11,
            CommandKind::UnfavoriteArticle => 12,
            CommandKind::GetArticles => 13,
            CommandKind::GetFeed => 14,
            CommandKind::AddComment => 15,
            CommandKind::GetComments => 16,
            CommandKind::DeleteComment => 17,
            CommandKind::GetTags => 18,
        }
    }
}

impl ReplyModel {
    pub open spec fn kind(self) -> ReplyKind {
        match self {
            ReplyModel::User(_) => ReplyKind::User,
            ReplyModel::Auth(_) => ReplyKind::Auth,
            ReplyModel::Profile(_) => ReplyKind::Profile,
            ReplyModel::Article(_) => ReplyKind::Article,
            ReplyModel::ArticleList(_) => ReplyKind::ArticleList,
            ReplyModel::Comment(_) => ReplyKind::Comment,
            ReplyModel::CommentList(_) => ReplyKind::CommentList,
            ReplyModel::Tags(_) => ReplyKind::Tags,
            ReplyModel::Unit => ReplyKind::Unit,
        }
    }

    /// The reply of shape `kind` that stands in wherever any will do.
    pub open spec fn fixture(kind: ReplyKind) -> ReplyModel {
        match kind {
            ReplyKind::User => ReplyModel::User(UserResponseModel::fixture()),
            ReplyKind::Auth => ReplyModel::Auth(AuthModel::fixture()),
            ReplyKind::Profile => ReplyModel::Profile(ProfileModel::fixture()),
            ReplyKind::Article => ReplyModel::Article(ArticleModel::fixture()),
            ReplyKind::ArticleList => ReplyModel::ArticleList(ArticleListModel::fixture()),
            ReplyKind::Comment => ReplyModel::Comment(CommentModel::fixture()),
            ReplyKind::CommentList => ReplyModel::CommentList(CommentListModel::fixture()),
            ReplyKind::Tags => ReplyModel::Tags(TagsModel::fixture()),
            ReplyKind::Unit => ReplyModel::Unit,
        }
    }

    /// The body that carries the reply: its JSON under the envelope of its
    /// resource, nothing for a reply without content, and for an identity
    /// what it shows of itself. `None` where the reply cannot be written.
    pub open spec fn body(self) -> Option<Seq<char>> {
        match self {
            ReplyModel::User(r) => Some(r.envelope()),
            ReplyModel::Auth(r) => Some(UserResponseModel::of_auth(r).envelope()),
            ReplyModel::Profile(r) => Some(r.envelope()),
            ReplyModel::Article(r) => r.envelope(),
            ReplyModel::ArticleList(r) => r.envelope(),
            ReplyModel::Comment(r) => r.envelope(),
            ReplyModel::CommentList(r) => r.envelope(),
            ReplyModel::Tags(r) => Some(r.envelope()),
            ReplyModel::Unit => Some(Seq::empty()),
        }
    }
}

impl Reply {
    pub fn kind(&self) -> (k: ReplyKind)
        ensures
            k == self@.kind(),
    {
        match self {
            Reply::User(_) => ReplyKind::User,
            Reply::Auth(_) => ReplyKind::Auth,
            Reply::Profile(_) => ReplyKind::Profile,
            Reply::Article(_) => ReplyKind::Article,
            Reply::ArticleList(_) => ReplyKind::ArticleList,
            Reply::Comment(_) => ReplyKind::Comment,
            Reply::CommentList(_) => ReplyKind::CommentList,
            Reply::Tags(_) => ReplyKind::Tags,
            Reply::Unit => ReplyKind::Unit,
        }
    }

    /// The reply of shape `kind` that stands in wherever any will do.
    pub fn fixture(kind: ReplyKind) -> (r: Reply)
        ensures
            r@ == ReplyModel::fixture(kind),
    {
        match kind {
            ReplyKind::User => Reply::User(UserResponse::default()),
            ReplyKind::Auth => Reply::Auth(Auth::default()),
            ReplyKind::Profile => Reply::Profile(ProfileResponse::default()),
            ReplyKind::Article => Reply::Article(ArticleResponse::default()),
            ReplyKind::ArticleList => Reply::ArticleList(ArticleListResponse::default()),
            ReplyKind::Comment => Reply::Comment(CommentResponse::default()),
            ReplyKind::CommentList => Reply::CommentList(CommentListResponse::default()),
            ReplyKind::Tags => Reply::Tags(TagsResponse::default()),
            ReplyKind::Unit => Reply::Unit,
        }
    }

    /// The body that carries the reply; `None` where it cannot be written.
    pub fn to_json(&self) -> (r: Option<String>)
        ensures
            opt_text(r) == self@.body(),
    {
        match self {
            Reply::User(r) => Some(r.to_json()),
            Reply::Auth(r) => Some(
                write_user(
                    r.user.email.as_str(),
                    r.token.as_str(),
                    r.user.username.as_str(),
                    &r.user.bio,
                    &r.user.image,
                ),
            ),
            Reply::Profile(r) => Some(r.to_json()),
            Reply::Article(r) => r.to_json(),
            Reply::ArticleList(r) => r.to_json(),
            Reply::Comment(r) => r.to_json(),
            Reply::CommentList(r) => r.to_json(),
            Reply::Tags(r) => Some(r.to_json()),
            Reply::Unit => Some(String::new()),
        }
    }
}

/// The status and the body that report an outcome: 200 with the reply's
/// body, the failure's own status and body, or a 500 where a reply cannot
/// be written.
pub open spec fn spec_respond(result: Result<ReplyModel, ErrorModel>) -> (u16, Seq<char>) {
    match result {
        Ok(reply) => match reply.body() {
            Some(body) => (200, body),
            None => (500, ErrorModel::InternalServerError.body()),
        },
        Err(e) => (e.status(), e.body()),
    }
}

/// Maps the outcome of a command to the reply sent to the client.
pub fn respond(result: &Result<Reply, Error>) -> (r: HttpResponse)
    ensures
        (r.status, r.body@) == spec_respond(result_model(*result)),
{
    match result {
        Ok(reply) => match reply.to_json() {
            Some(body) => HttpResponse::ok(body),
            None => Error::InternalServerError.error_response(),
        },
        Err(e) => e.error_response(),
    }
}

/// The outcome every command of a suite meets unless told otherwise.
#[derive(Debug, Clone, Copy, PartialEq, Eq, Structural, Hash)]
pub enum Mocker {
    /// The command succeeds with the fixture of its reply's shape.
    Success,
    NotFound,
    InternalError,
    Unauthorized,
}

impl Default for Mocker {
    fn default() -> (m: Self)
        ensures
            m == Mocker::Success,
    {
        Mocker::Success
    }
}

/// What one kind of command makes of the suite-wide outcome: for each of
/// the four, the outcome to meet instead, or `None` to let it stand.
#[derive(Debug, Clone, Copy, PartialEq, Eq, Structural, Hash)]
pub struct OverwriteResult {
    pub on_success: Option<Mocker>,
    pub on_not_found: Option<Mocker>,
    pub on_internal_error: Option<Mocker>,
    pub on_unauthorized: Option<Mocker>,
}

impl OverwriteResult {
    pub open spec fn spec_overwrite_result(self, m: Mocker) -> Option<Mocker> {
        match m {
            Mocker::Success => self.on_success,
            Mocker::NotFound => self.on_not_found,
            Mocker::InternalError => self.on_internal_error,
            Mocker::Unauthorized => self.on_unauthorized,
        }
    }

    /// The outcome to meet in place of `m`, if any.
    pub fn overwrite_result(&self, m: &Mocker) -> (r: Option<Mocker>)
        ensures
            r == self.spec_overwrite_result(*m),
    {
        match m {
            Mocker::Success => self.on_success,
            Mocker::NotFound => self.on_not_found,
            Mocker::InternalError => self.on_internal_error,
            Mocker::Unauthorized => self.on_unauthorized,
        }
    }

    /// Lets every suite-wide outcome stand.
    pub fn keep() -> (r: Self)
        ensures
            forall|m: Mocker| r.spec_overwrite_result(m) == Some(m),
    {
        let r = OverwriteResult {
            on_success: Some(Mocker::Success),
            on_not_found: Some(Mocker::NotFound),
            on_internal_error: Some(Mocker::InternalError),
            on_unauthorized: Some(Mocker::Unauthorized),
        };
        proof {
            assert forall|m: Mocker| r.spec_overwrite_result(m) == Some(m) by {}
        }
        r
    }

    /// Meets `outcome` whatever the suite-wide outcome is.
    pub fn always(outcome: Mocker) -> (r: Self)
        ensures
            forall|m: Mocker| r.spec_overwrite_result(m) == Some(outcome),
    {
        let r = OverwriteResult {
            on_success: Some(outcome),
            on_not_found: Some(outcome),
            on_internal_error: Some(outcome),
            on_unauthorized: Some(outcome),
        };
        proof {
            assert forall|m: Mocker| r.spec_overwrite_result(m) == Some(outcome) by {}
        }
        r
    }
}

/// The outcome that a command meets: what its override makes of the
/// suite-wide outcome, or that outcome itself where there is no override or
/// the override lets it stand.
pub open spec fn spec_effective(suite: Mocker, over: Option<OverwriteResult>) -> Mocker {
    match over {
        Some(o) => match o.spec_overwrite_result(suite) {
            Some(m) => m,
            None => suite,
        },
        None => suite,
    }
}

/// A canned outcome in the shape of a command's result: the fixture of the
/// reply's shape on success, a failure with its literal text otherwise.
pub open spec fn spec_canned(m: Mocker, kind: ReplyKind) -> Result<ReplyModel, ErrorModel> {
    match m {
        Mocker::Success => Ok(ReplyModel::fixture(kind)),
        Mocker::NotFound => Err(ErrorModel::NotFound(DetailModel::Bare("NotFound"@))),
        Mocker::Unauthorized => Err(ErrorModel::Unauthorized(DetailModel::Bare("Unauthorized"@))),
        Mocker::InternalError => Err(ErrorModel::InternalServerError),
    }
}

/// Converts a canned outcome to the result type of a command whose reply
/// has shape `kind`.
pub fn canned(m: Mocker, kind: ReplyKind) -> (r: Result<Reply, Error>)
    ensures
        result_model(r) == spec_canned(m, kind),
{
    match m {
        Mocker::Success => Ok(Reply::fixture(kind)),
        Mocker::NotFound => Err(Error::NotFound(Detail::Bare(String::from_str("NotFound")))),
        Mocker::Unauthorized => Err(
            Error::Unauthorized(Detail::Bare(String::from_str("Unauthorized"))),
        ),
        Mocker::InternalError => Err(Error::InternalServerError),
    }
}

/// An executor that performs nothing and answers every command with a
/// canned outcome: the suite-wide one, unless the command's kind has an
/// override registered.
#[derive(Debug, PartialEq, Eq)]
pub struct MockExecutor {
    outcome: Mocker,
    table: Vec<Option<OverwriteResult>>,
}

impl MockExecutor {
    /// The table has one place for each kind of command.
    #[verifier::type_invariant]
    spec fn wf(&self) -> bool {
        self.table@.len() == KINDS
    }

    /// The suite-wide outcome.
    pub closed spec fn outcome(&self) -> Mocker {
        self.outcome
    }

    /// The override registered for `kind`, if any.
    pub closed spec fn override_for(&self, kind: CommandKind) -> Option<OverwriteResult> {
        self.table@[kind.spec_index() as int]
    }

    /// The outcome that a command of kind `kind` meets.
    pub open spec fn effective(&self, kind: CommandKind) -> Mocker {
        spec_effective(self.outcome(), self.override_for(kind))
    }

    /// The result handed back for a command of kind `kind`.
    pub open spec fn spec_handle(&self, kind: CommandKind) -> Result<ReplyModel, ErrorModel> {
        spec_canned(self.effective(kind), kind.spec_reply_kind())
    }

    /// An executor with the suite-wide outcome `outcome` and no override.
    pub fn mock(outcome: Mocker) -> (r: Self)
        ensures
            r.outcome() == outcome,
            forall|kind: CommandKind| r.override_for(kind) is None,
    {
        let mut table: Vec<Option<OverwriteResult>> = Vec::new();
        let mut i: usize = 0;
        while i < KINDS
            invariant
                i <= KINDS,
                table@.len() == i,
                forall|j: int| 0 <= j < i ==> table@[j] is None,
            decreases KINDS - i,
        {
            table.push(None);
            i = i + 1;
        }
        MockExecutor { outcome, table }
    }

    /// `after` is this executor with `over` registered for `kind`: the
    /// suite-wide outcome and the overrides of all other kinds are kept.
    pub open spec fn registered(
        &self,
        kind: CommandKind,
        over: OverwriteResult,
        after: MockExecutor,
    ) -> bool {
        &&& after.outcome() == self.outcome()
        &&& after.override_for(kind) == Some(over)
        &&& forall|other: CommandKind|
            other != kind ==> after.override_for(other) == self.override_for(other)
    }

    /// Registers `over` for commands of kind `kind`, in place of any
    /// override registered for that kind before. Other kinds keep theirs.
    pub fn register(self, kind: CommandKind, over: OverwriteResult) -> (r: Self)
        ensures
            self.registered(kind, over, r),
    {
        proof {
            use_type_invariant(&self);
        }
        let mut table = self.table;
        table.set(kind.index(), Some(over));
        MockExecutor { outcome: self.outcome, table }
    }

    /// The outcome that a command of kind `kind` meets.
    pub fn resolve(&self, kind: CommandKind) -> (m: Mocker)
        ensures
            m == self.effective(kind),
    {
        proof {
            use_type_invariant(self);
        }
        match &self.table[kind.index()] {
            Some(over) => match over.overwrite_result(&self.outcome) {
                Some(m) => m,
                None => self.outcome,
            },
            None => self.outcome,
        }
    }

    /// Answers `msg`: nothing is performed, and the result is the canned
    /// outcome for the command's kind in the shape of its reply.
    pub fn handle(&self, msg: Command) -> (r: Result<Reply, Error>)
        ensures
            result_model(r) == self.spec_handle(msg.spec_kind()),
    {
        let kind = msg.kind();
        canned(self.resolve(kind), kind.reply_kind())
    }
}

impl Clone for MockExecutor {
    fn clone(&self) -> (r: Self)
        ensures
            r.outcome() == self.outcome(),
            forall|kind: CommandKind| r.override_for(kind) == self.override_for(kind),
    {
        proof {
            use_type_invariant(self);
        }
        let mut table: Vec<Option<OverwriteResult>> = Vec::new();
        let mut i: usize = 0;
        while i < KINDS
            invariant
                i <= KINDS,
                self.table@.len() == KINDS,
                table@.len() == i,
                forall|j: int| 0 <= j < i ==> table@[j] == self.table@[j],
            decreases KINDS - i,
        {
            table.push(self.table[i]);
            i = i + 1;
        }
        MockExecutor { outcome: self.outcome, table }
    }
}

/// A command whose kind has no override meets the suite-wide outcome, in
/// the shape of that command's own result.
pub proof fn lemma_default_outcome(db: MockExecutor, msg: Command)
    requires
        db.override_for(msg.spec_kind()) is None,
    ensures
        db.spec_handle(msg.spec_kind()) == spec_canned(
            db.outcome(),
            msg.spec_kind().spec_reply_kind(),
        ),
{
}

/// A successful answer always has the shape that goes with the command.
pub proof fn lemma_reply_shape(db: MockExecutor, msg: Command)
    ensures
        db.spec_handle(msg.spec_kind()) matches Ok(reply) ==> reply.kind()
            == msg.spec_kind().spec_reply_kind(),
{
}

/// Registering an override for one kind of command changes nothing for a
/// command of any other kind.
pub proof fn lemma_register_is_local(
    before: MockExecutor,
    kind: CommandKind,
    over: OverwriteResult,
    after: MockExecutor,
    msg: Command,
)
    requires
        before.registered(kind, over, after),
        msg.spec_kind() != kind,
    ensures
        after.spec_handle(msg.spec_kind()) == before.spec_handle(msg.spec_kind()),
{
}

/// A later registration for a kind replaces an earlier one.
pub proof fn lemma_register_replaces(
    first: MockExecutor,
    second: MockExecutor,
    third: MockExecutor,
    kind: CommandKind,
    earlier: OverwriteResult,
    later: OverwriteResult,
)
    requires
        first.registered(kind, earlier, second),
        second.registered(kind, later, third),
    ensures
        first.registered(kind, later, third),
{
}

/// The fixtures that hold no instant can always be written.
pub proof fn lemma_fixture_written(kind: ReplyKind)
    requires
        kind == ReplyKind::User || kind == ReplyKind::Auth || kind == ReplyKind::Profile || kind
            == ReplyKind::Tags || kind == ReplyKind::Unit,
    ensures
        ReplyModel::fixture(kind).body() is Some,
{
}

/// Each canned outcome has its status: 404 for not found, 401 for
/// unauthorized, 500 for an internal error, and 200 for success wherever
/// the fixture of the reply can be written.
pub proof fn lemma_status_of_outcome(m: Mocker, kind: ReplyKind)
    ensures
        m == Mocker::NotFound ==> spec_respond(spec_canned(m, kind)).0 == 404,
        m == Mocker::Unauthorized ==> spec_respond(spec_canned(m, kind)).0 == 401,
        m == Mocker::InternalError ==> spec_respond(spec_canned(m, kind)).0 == 500,
        m == Mocker::Success && ReplyModel::fixture(kind).body() is Some ==> spec_respond(
            spec_canned(m, kind),
        ).0 == 200,
{
}

/// Two answers of one executor to commands of one kind are written as the
/// same status and the same body.
pub proof fn lemma_same_answer(
    db: MockExecutor,
    first: Command,
    second: Command,
    one: Result<Reply, Error>,
    other: Result<Reply, Error>,
)
    requires
        first.spec_kind() == second.spec_kind(),
        result_model(one) == db.spec_handle(first.spec_kind()),
        result_model(other) == db.spec_handle(second.spec_kind()),
    ensures
        spec_respond(result_model(one)) == spec_respond(result_model(other)),
{
}

/// A short plain word between quotes, letter for letter.
proof fn lemma_quoted_words()
    ensures
        json_string_text("NotFound"@) == "\"NotFound\""@,
        json_string_text("Unauthorized"@) == "\"Unauthorized\""@,
        json_string_text("Internal Server Error"@) == "\"Internal Server Error\""@,
        json_string_text("tag"@) == "\"tag\""@,
{
    reveal_strlit("NotFound");
    reveal_strlit("\"NotFound\"");
    reveal_strlit("Unauthorized");
    reveal_strlit("\"Unauthorized\"");
    reveal_strlit("Internal Server Error");
    reveal_strlit("\"Internal Server Error\"");
    reveal_strlit("tag");
    reveal_strlit("\"tag\"");
    assert forall|i: int| 0 <= i < "NotFound"@.len() implies !needs_escape(
        #[trigger] "NotFound"@[i],
    ) by {}
    assert forall|i: int| 0 <= i < "Unauthorized"@.len() implies !needs_escape(
        #[trigger] "Unauthorized"@[i],
    ) by {}
    assert forall|i: int| 0 <= i < "Internal Server Error"@.len() implies !needs_escape(
        #[trigger] "Internal Server Error"@[i],
    ) by {}
    assert forall|i: int| 0 <= i < "tag"@.len() implies !needs_escape(#[trigger] "tag"@[i]) by {}
    lemma_plain_text("NotFound"@);
    lemma_plain_text("Unauthorized"@);
    lemma_plain_text("Internal Server Error"@);
    lemma_plain_text("tag"@);
    assert(json_string_text("NotFound"@) =~= "\"NotFound\""@);
    assert(json_string_text("Unauthorized"@) =~= "\"Unauthorized\""@);
    assert(json_string_text("Internal Server Error"@) =~= "\"Internal Server Error\""@);
    assert(json_string_text("tag"@) =~= "\"tag\""@);
}

/// What the client receives for each canned failure, letter for letter,
/// whatever the command was.
pub proof fn lemma_canned_failures(kind: ReplyKind)
    ensures
        spec_respond(spec_canned(Mocker::NotFound, kind)) == (404u16, "\"NotFound\""@),
        spec_respond(spec_canned(Mocker::Unauthorized, kind)) == (401u16, "\"Unauthorized\""@),
        spec_respond(spec_canned(Mocker::InternalError, kind)) == (
            500u16,
            "\"Internal Server Error\""@,
        ),
{
    lemma_quoted_words();
}

/// What the client receives when asking for the tags of a suite that
/// succeeds: the one fixture tag under its envelope, letter for letter.
pub proof fn lemma_canned_tags()
    ensures
        spec_respond(spec_canned(Mocker::Success, ReplyKind::Tags)) == (
            200u16,
            "{\"tags\":[\"tag\"]}"@,
        ),
{
    lemma_quoted_words();
    reveal_strlit("\"tag\"");
    reveal_strlit("{\"tags\":");
    reveal_strlit("[");
    reveal_strlit("]");
    reveal_strlit("}");
    reveal_strlit("{\"tags\":[\"tag\"]}");
    let rendered = seq!["tag"@].map_values(|s: Seq<char>| json_string_text(s));
    assert(rendered =~= seq![json_string_text("tag"@)]);
    assert(spec_joined(rendered) == "\"tag\""@);
    assert(TagsModel::fixture().envelope() =~= "{\"tags\":[\"tag\"]}"@);
}

/// Whatever an executor answers, the client receives one of five
/// statuses: 200, or the status of one of the four kinds of failure.
pub proof fn lemma_status_is_known(result: Result<ReplyModel, ErrorModel>)
    ensures
        ({
            let status = spec_respond(result).0;
            status == 200 || status == 401 || status == 404 || status == 422 || status == 500
        }),
        result is Err ==> spec_respond(result).0 != 200,
{
}

} // verus!
