//! Users: registering, logging in, reading and changing the current one.
use vstd::prelude::*;
use vstd::string::*;
use crate::app::{authenticate, begin, spec_authenticate, spec_begin, spec_submit, submit, Pending, Step};
use crate::auth::HttpRequest;
use crate::db::Command;
use crate::auth::{Auth, AuthModel};
use crate::error::{field_texts, Error, FieldError};
use crate::json::{json_string_text, nullable, opt_text, quote, spec_nullable};
use crate::models::User;
use crate::validation::{
    email_is_valid, email_ok, is_name, length_ok, note, note_filled, noted, noted_filled,
    regex_is_match, spec_length_ok, spec_verdict, url_is_valid, url_ok, verdict,
};

verus! {

/// The envelope of a user payload.
#[derive(Debug, Clone, PartialEq, Eq)]
pub struct In<U> {
    pub user: U,
}

#[derive(Debug, Clone, PartialEq, Eq)]
pub struct RegisterUser {
    pub username: String,
    pub email: String,
    pub password: String,
}

#[derive(Debug, Clone, PartialEq, Eq)]
pub struct LoginUser {
    pub email: String,
    pub password: String,
}

#[derive(Debug, Clone, PartialEq, Eq)]
pub struct UpdateUser {
    pub username: Option<String>,
    pub email: Option<String>,
    pub password: Option<String>,
    pub bio: Option<String>,
    pub image: Option<String>,
}

#[derive(Debug, Clone, PartialEq, Eq)]
pub struct UpdateUserOuter {
    pub auth: Auth,
    pub update_user: UpdateUser,
}

#[derive(Debug, Clone, PartialEq, Eq)]
pub struct UserResponse {
    pub user: UserResponseInner,
}

#[derive(Debug, Clone, PartialEq, Eq)]
pub struct UserResponseInner {
    pub email: String,
    pub token: String,
    pub username: String,
    pub bio: Option<String>,
    pub image: Option<String>,
}

pub ghost struct UserResponseModel {
    pub email: Seq<char>,
    pub token: Seq<char>,
    pub username: Seq<char>,
    pub bio: Option<Seq<char>>,
    pub image: Option<Seq<char>>,
}

impl View for UserResponseInner {
    type V = UserResponseModel;

    open spec fn view(&self) -> UserResponseModel {
        UserResponseModel {
            email: self.email@,
            token: self.token@,
            username: self.username@,
            bio: opt_text(self.bio),
            image: opt_text(self.image),
        }
    }
}

impl View for UserResponse {
    type V = UserResponseModel;

    open spec fn view(&self) -> UserResponseModel {
        self.user@
    }
}

impl UserResponseModel {
    pub open spec fn json(self) -> Seq<char> {
        "{\"email\":"@ + json_string_text(self.email) + ",\"token\":"@ + json_string_text(self.token)
            + ",\"username\":"@ + json_string_text(self.username) + ",\"bio\":"@ + spec_nullable(
            self.bio,
        ) + ",\"image\":"@ + spec_nullable(self.image) + "}"@
    }

    /// The user under its envelope.
    pub open spec fn envelope(self) -> Seq<char> {
        "{\"user\":"@ + self.json() + "}"@
    }

    /// The user that stands in wherever any will do.
    pub open spec fn fixture() -> UserResponseModel {
        UserResponseModel {
            email: "email@e.mail"@,
            token: "token"@,
            username: "username"@,
            bio: None,
            image: None,
        }
    }

    /// What an identity shows of itself: the user's public fields and the
    /// credential that named them.
    pub open spec fn of_auth(auth: AuthModel) -> UserResponseModel {
        UserResponseModel {
            email: auth.user.email,
            token: auth.token,
            username: auth.user.username,
            bio: auth.user.bio,
            image: auth.user.image,
        }
    }
}

/// Writes a user's public fields and credential under the user envelope.
pub fn write_user(
    email: &str,
    token: &str,
    username: &str,
    bio: &Option<String>,
    image: &Option<String>,
) -> (r: String)
    ensures
        r@ == (UserResponseModel {
            email: email@,
            token: token@,
            username: username@,
            bio: opt_text(*bio),
            image: opt_text(*image),
        }).envelope(),
{
    let mut inner = String::from_str("{\"email\":");
    inner.append(quote(email).as_str());
    inner.append(",\"token\":");
    inner.append(quote(token).as_str());
    inner.append(",\"username\":");
    inner.append(quote(username).as_str());
    inner.append(",\"bio\":");
    inner.append(nullable(bio).as_str());
    inner.append(",\"image\":");
    inner.append(nullable(image).as_str());
    inner.append("}");
    let mut out = String::from_str("{\"user\":");
    out.append(inner.as_str());
    out.append("}");
    out
}

impl UserResponse {
    pub fn to_json(&self) -> (r: String)
        ensures
            r@ == self@.envelope(),
    {
        write_user(
            self.user.email.as_str(),
            self.user.token.as_str(),
            self.user.username.as_str(),
            &self.user.bio,
            &self.user.image,
        )
    }

    pub open spec fn spec_create_with_auth(auth: Auth) -> UserResponse {
        UserResponse {
            user: UserResponseInner {
                token: auth.token,
                email: auth.user.email,
                username: auth.user.username,
                bio: auth.user.bio,
                image: auth.user.image,
            },
        }
    }

    /// The reply that shows an identity to its owner.
    pub fn create_with_auth(auth: Auth) -> (r: Self)
        ensures
            r == Self::spec_create_with_auth(auth),
            r@ == UserResponseModel::of_auth(auth@),
    {
        UserResponse {
            user: UserResponseInner {
                token: auth.token,
                email: auth.user.email,
                username: auth.user.username,
                bio: auth.user.bio,
                image: auth.user.image,
            },
        }
    }

    /// The reply that shows `user` together with a freshly issued `token`.
    pub fn from_user(user: User, token: String) -> (r: Self)
        ensures
            r == (UserResponse {
                user: UserResponseInner {
                    token,
                    email: user.email,
                    username: user.username,
                    bio: user.bio,
                    image: user.image,
                },
            }),
    {
        UserResponse {
            user: UserResponseInner {
                token,
                email: user.email,
                username: user.username,
                bio: user.bio,
                image: user.image,
            },
        }
    }
}

impl Default for UserResponseInner {
    fn default() -> (r: Self)
        ensures
            r@ == UserResponseModel::fixture(),
    {
        UserResponseInner {
            email: String::from_str("email@e.mail"),
            token: String::from_str("token"),
            username: String::from_str("username"),
            bio: None,
            image: None,
        }
    }
}

impl Default for UserResponse {
    fn default() -> (r: Self)
        ensures
            r@ == UserResponseModel::fixture(),
    {
        UserResponse { user: UserResponseInner::default() }
    }
}

impl Default for LoginUser {
    fn default() -> (r: Self)
        ensures
            r.email@ == "email@e.mail"@,
            r.password@ == "123qwe456"@,
    {
        LoginUser { email: String::from_str("email@e.mail"), password: String::from_str("123qwe456") }
    }
}

impl Default for RegisterUser {
    fn default() -> (r: Self)
        ensures
            r.username@ == "user"@,
            r.email@ == "email@e.mail"@,
            r.password@ == "123qwe456"@,
    {
        RegisterUser {
            username: String::from_str("user"),
            email: String::from_str("email@e.mail"),
            password: String::from_str("123qwe456"),
        }
    }
}

pub open spec fn name_length_message() -> Seq<char> {
    "fails validation - must be 1-20 characters long"@
}

pub open spec fn name_shape_message() -> Seq<char> {
    "fails validation - is not only alphanumeric/underscore characters"@
}

pub open spec fn email_message() -> Seq<char> {
    "fails validation - is not a valid email address"@
}

pub open spec fn password_message() -> Seq<char> {
    "fails validation - must be 8-72 characters long"@
}

/// The violations of a user name, given whether the pattern matched it.
pub open spec fn noted_username(
    found: Seq<(Seq<char>, Seq<char>)>,
    name: Seq<char>,
    matched: Option<bool>,
) -> Seq<(Seq<char>, Seq<char>)> {
    noted(
        noted(found, spec_length_ok(name.len(), Some(1), Some(20)), "username"@, name_length_message()),
        matched == Some(true),
        "username"@,
        name_shape_message(),
    )
}

pub open spec fn noted_password(found: Seq<(Seq<char>, Seq<char>)>, password: Seq<char>) -> Seq<
    (Seq<char>, Seq<char>),
> {
    noted(found, spec_length_ok(password.len(), Some(8), Some(72)), "password"@, password_message())
}

fn note_username(found: &mut Vec<FieldError>, name: &str, matched: Option<bool>)
    ensures
        field_texts(final(found)@) == noted_username(field_texts(old(found)@), name@, matched),
{
    note(
        found,
        length_ok(name, Some(1), Some(20)),
        "username",
        "fails validation - must be 1-20 characters long",
    );
    let shaped = match matched {
        Some(m) => m,
        None => false,
    };
    note(
        found,
        shaped,
        "username",
        "fails validation - is not only alphanumeric/underscore characters",
    );
}

fn note_password(found: &mut Vec<FieldError>, password: &str)
    ensures
        field_texts(final(found)@) == noted_password(field_texts(old(found)@), password@),
{
    note(
        found,
        length_ok(password, Some(8), Some(72)),
        "password",
        "fails validation - must be 8-72 characters long",
    );
}

impl RegisterUser {
    /// The rules broken, given what the pattern and the e-mail check said.
    pub open spec fn spec_judged(self, matched: Option<bool>, email_valid: bool) -> Seq<
        (Seq<char>, Seq<char>),
    > {
        noted_password(
            noted(
                noted_username(Seq::empty(), self.username@, matched),
                email_valid,
                "email"@,
                email_message(),
            ),
            self.password@,
        )
    }

    /// The rules broken: name of 1 to 20 characters out of the underscore,
    /// the digits and the ASCII letters, a valid e-mail address, password
    /// of 8 to 72 characters.
    pub open spec fn spec_violations(self) -> Seq<(Seq<char>, Seq<char>)> {
        self.spec_judged(Some(is_name(self.username@)), email_is_valid(self.email@))
    }

    /// Lists the rules broken, given whether the user-name pattern matched
    /// and whether the e-mail address was found valid.
    pub fn judged(&self, matched: Option<bool>, email_valid: bool) -> (r: Vec<FieldError>)
        ensures
            field_texts(r@) == self.spec_judged(matched, email_valid),
    {
        let mut found: Vec<FieldError> = Vec::new();
        proof {
            assert(field_texts(found@) =~= Seq::empty());
        }
        note_username(&mut found, self.username.as_str(), matched);
        note(
            &mut found,
            email_valid,
            "email",
            "fails validation - is not a valid email address",
        );
        note_password(&mut found, self.password.as_str());
        found
    }

    /// Holds the payload to its rules.
    pub fn validate(&self) -> (r: Result<(), Error>)
        ensures
            spec_verdict(self.spec_violations(), r),
    {
        let matched = regex_is_match("^[_0-9a-zA-Z]+$", self.username.as_str());
        let email_valid = email_ok(self.email.as_str());
        verdict(self.judged(matched, email_valid))
    }
}

impl LoginUser {
    pub open spec fn spec_judged(self, email_valid: bool) -> Seq<(Seq<char>, Seq<char>)> {
        noted_password(
            noted(Seq::empty(), email_valid, "email"@, email_message()),
            self.password@,
        )
    }

    /// The rules broken: a valid e-mail address, password of 8 to 72
    /// characters.
    pub open spec fn spec_violations(self) -> Seq<(Seq<char>, Seq<char>)> {
        self.spec_judged(email_is_valid(self.email@))
    }

    /// Lists the rules broken, given whether the e-mail address was found
    /// valid.
    pub fn judged(&self, email_valid: bool) -> (r: Vec<FieldError>)
        ensures
            field_texts(r@) == self.spec_judged(email_valid),
    {
        let mut found: Vec<FieldError> = Vec::new();
        proof {
            assert(field_texts(found@) =~= Seq::empty());
        }
        note(
            &mut found,
            email_valid,
            "email",
            "fails validation - is not a valid email address",
        );
        note_password(&mut found, self.password.as_str());
        found
    }

    /// Holds the payload to its rules.
    pub fn validate(&self) -> (r: Result<(), Error>)
        ensures
            spec_verdict(self.spec_violations(), r),
    {
        let email_valid = email_ok(self.email.as_str());
        verdict(self.judged(email_valid))
    }
}

/// What the outside checks said of the fields of an update that are set.
#[derive(Debug, Clone, Copy, PartialEq, Eq)]
pub struct UpdateChecks {
    /// Whether the user-name pattern matched; `None` where it did not compile.
    pub matched: Option<bool>,
    pub email_valid: bool,
    pub image_valid: bool,
}

impl UpdateUser {
    /// The rules broken by the fields that are set, given the outside checks.
    pub open spec fn spec_judged(self, checks: UpdateChecks) -> Seq<(Seq<char>, Seq<char>)> {
        let a = match self.username {
            Some(name) => noted_username(Seq::empty(), name@, checks.matched),
            None => Seq::empty(),
        };
        let b = match self.email {
            Some(_) => noted(a, checks.email_valid, "email"@, "email"@),
            None => a,
        };
        let c = match self.password {
            Some(password) => noted_password(b, password@),
            None => b,
        };
        let d = match self.bio {
            Some(bio) => noted_filled(c, bio@, "bio"@),
            None => c,
        };
        match self.image {
            Some(_) => noted(d, checks.image_valid, "image"@, "is not a URL"@),
            None => d,
        }
    }

    /// What the outside checks say of this update. A field that is not set
    /// is not checked, and counts as passing.
    pub open spec fn spec_checks(self) -> UpdateChecks {
        UpdateChecks {
            matched: match self.username {
                Some(name) => Some(is_name(name@)),
                None => Some(true),
            },
            email_valid: match self.email {
                Some(email) => email_is_valid(email@),
                None => true,
            },
            image_valid: match self.image {
                Some(image) => url_is_valid(image@),
                None => true,
            },
        }
    }

    /// The rules broken. Only fields that are set are held to a rule: the
    /// name and password as on registration, the e-mail address valid, the
    /// bio not empty, the image a URL. The e-mail rule has no message of
    /// its own here and is reported under its name, `email`.
    pub open spec fn spec_violations(self) -> Seq<(Seq<char>, Seq<char>)> {
        self.spec_judged(self.spec_checks())
    }

    /// Lists the rules broken, given what the outside checks said.
    pub fn judged(&self, checks: UpdateChecks) -> (r: Vec<FieldError>)
        ensures
            field_texts(r@) == self.spec_judged(checks),
    {
        let mut found: Vec<FieldError> = Vec::new();
        proof {
            assert(field_texts(found@) =~= Seq::empty());
        }
        match &self.username {
            Some(name) => {
                note_username(&mut found, name.as_str(), checks.matched);
            },
            None => {},
        }
        match &self.email {
            Some(_) => {
                note(&mut found, checks.email_valid, "email", "email");
            },
            None => {},
        }
        match &self.password {
            Some(password) => {
                note_password(&mut found, password.as_str());
            },
            None => {},
        }
        match &self.bio {
            Some(bio) => {
                note_filled(&mut found, bio.as_str(), "bio");
            },
            None => {},
        }
        match &self.image {
            Some(_) => {
                note(&mut found, checks.image_valid, "image", "is not a URL");
            },
            None => {},
        }
        found
    }

    /// Runs the outside checks on the fields that are set.
    pub fn checks(&self) -> (r: UpdateChecks)
        ensures
            r == self.spec_checks(),
    {
        let matched = match &self.username {
            Some(name) => regex_is_match("^[_0-9a-zA-Z]+$", name.as_str()),
            None => Some(true),
        };
        let email_valid = match &self.email {
            Some(email) => email_ok(email.as_str()),
            None => true,
        };
        let image_valid = match &self.image {
            Some(image) => url_ok(image.as_str()),
            None => true,
        };
        UpdateChecks { matched, email_valid, image_valid }
    }

    /// Holds the payload to its rules.
    pub fn validate(&self) -> (r: Result<(), Error>)
        ensures
            spec_verdict(self.spec_violations(), r),
    {
        let checks = self.checks();
        verdict(self.judged(checks))
    }
}


/// `POST /users`: validates the payload, then sends the registration.
pub fn register(form: In<RegisterUser>) -> (s: Step)
    ensures
        spec_submit(form.user.spec_violations(), Command::RegisterUser(form.user), s),
{
    let register_user = form.user;
    let checked = register_user.validate();
    submit(checked, Command::RegisterUser(register_user))
}

/// `POST /users/login`: validates the payload, then sends the login.
pub fn login(form: In<LoginUser>) -> (s: Step)
    ensures
        spec_submit(form.user.spec_violations(), Command::LoginUser(form.user), s),
{
    let login_user = form.user;
    let checked = login_user.validate();
    submit(checked, Command::LoginUser(login_user))
}

/// `GET /user`: resolves the identity and replies with it.
pub fn get_current(req: &HttpRequest) -> (s: Step)
    ensures
        spec_authenticate(opt_text(req.authorization), Pending::GetCurrent, s),
{
    authenticate(req, Pending::GetCurrent)
}

/// `PUT /user`: validates the payload, authenticates, then sends the
/// change.
pub fn update(form: In<UpdateUser>, req: &HttpRequest) -> (s: Step)
    ensures
        spec_begin(
            form.user.spec_violations(),
            opt_text(req.authorization),
            Pending::UpdateUser(form.user),
            s,
        ),
{
    let update_user = form.user;
    let checked = update_user.validate();
    begin(checked, req, Pending::UpdateUser(update_user))
}

} // verus!
