//! Resolving who is asking: from the credential header to an identity.
use vstd::prelude::*;
use vstd::string::*;
use crate::error::{Detail, DetailModel, Error, ErrorModel};
use crate::json::{lemma_plain_text, needs_escape, opt_text};
use crate::models::{User, UserModel};

verus! {

/// The authenticated principal: a user and the credential that named them.
#[derive(Debug, Clone, PartialEq, Eq)]
pub struct Auth {
    pub user: User,
    pub token: String,
}

pub ghost struct AuthModel {
    pub user: UserModel,
    pub token: Seq<char>,
}

impl View for Auth {
    type V = AuthModel;

    open spec fn view(&self) -> AuthModel {
        AuthModel { user: self.user@, token: self.token@ }
    }
}

impl AuthModel {
    pub open spec fn fixture() -> AuthModel {
        AuthModel { user: UserModel::fixture(), token: "token"@ }
    }
}

impl Default for Auth {
    fn default() -> (r: Self)
        ensures
            r@ == AuthModel::fixture(),
    {
        Auth { user: User::default(), token: String::from_str("token") }
    }
}

/// What a handler reads of the request besides path and payload.
#[derive(Debug, Clone, PartialEq, Eq)]
pub struct HttpRequest {
    /// The value of the `Authorization` header, where one was sent.
    pub authorization: Option<String>,
}

impl Default for HttpRequest {
    fn default() -> (r: Self)
        ensures
            r.authorization is None,
    {
        HttpRequest { authorization: None }
    }
}

impl HttpRequest {
    /// A request that carries `value` as its `Authorization` header.
    pub fn with_authorization(value: &str) -> (r: Self)
        ensures
            opt_text(r.authorization) == Some(value@),
    {
        HttpRequest { authorization: Some(String::from_str(value)) }
    }
}

/// The scheme every credential header starts with.
pub open spec fn token_prefix() -> Seq<char> {
    "Token "@
}

pub open spec fn spec_has_prefix(text: Seq<char>, prefix: Seq<char>) -> bool {
    prefix.len() <= text.len() && text.subrange(0, prefix.len() as int) == prefix
}

pub open spec fn no_authorization() -> ErrorModel {
    ErrorModel::Unauthorized(DetailModel::Message("No authorization was provided"@))
}

pub open spec fn invalid_method() -> ErrorModel {
    ErrorModel::Unauthorized(DetailModel::Message("Invalid authorization method"@))
}

/// The credential named by a header: what follows the scheme.
pub open spec fn spec_token(header: Option<Seq<char>>) -> Result<Seq<char>, ErrorModel> {
    match header {
        None => Err(no_authorization()),
        Some(h) => if spec_has_prefix(h, token_prefix()) {
            Ok(h.subrange(token_prefix().len() as int, h.len() as int))
        } else {
            Err(invalid_method())
        },
    }
}

/// Whether `text` starts with `prefix`.
pub fn has_prefix(text: &str, prefix: &str) -> (r: bool)
    ensures
        r == spec_has_prefix(text@, prefix@),
{
    let n = prefix.unicode_len();
    if n > text.unicode_len() {
        return false;
    }
    let mut i: usize = 0;
    while i < n
        invariant
            i <= n,
            n == prefix@.len(),
            n <= text@.len(),
            forall|j: int| 0 <= j < i ==> text@[j] == prefix@[j],
        decreases n - i,
    {
        if text.get_char(i) != prefix.get_char(i) {
            proof {
                assert(text@.subrange(0, n as int)[i as int] == text@[i as int]);
            }
            return false;
        }
        i = i + 1;
    }
    proof {
        assert(text@.subrange(0, n as int) =~= prefix@);
    }
    true
}

/// Reads the credential out of the `Authorization` header: `Unauthorized`
/// where the header is absent or names another scheme.
pub fn preprocess_authz_token(header: &Option<String>) -> (r: Result<String, Error>)
    ensures
        match spec_token(opt_text(*header)) {
            Ok(token) => r matches Ok(t) && t@ == token,
            Err(e) => r matches Err(f) && f@ == e,
        },
{
    match header {
        None => Err(
            Error::Unauthorized(Detail::Message(String::from_str("No authorization was provided"))),
        ),
        Some(h) => {
            if has_prefix(h.as_str(), "Token ") {
                let from = "Token ".unicode_len();
                let to = h.as_str().unicode_len();
                Ok(String::from_str(h.as_str().substring_char(from, to)))
            } else {
                Err(
                    Error::Unauthorized(
                        Detail::Message(String::from_str("Invalid authorization method")),
                    ),
                )
            }
        },
    }
}

/// The body that reports a missing credential, letter for letter.
pub proof fn lemma_no_authorization_body()
    ensures
        no_authorization().status() == 401,
        no_authorization().body() == "{\"error\":\"No authorization was provided\"}"@,
{
    reveal_strlit("No authorization was provided");
    reveal_strlit("{\"error\":");
    reveal_strlit("}");
    reveal_strlit("{\"error\":\"No authorization was provided\"}");
    let text = "No authorization was provided"@;
    assert forall|i: int| 0 <= i < text.len() implies !needs_escape(#[trigger] text[i]) by {}
    lemma_plain_text(text);
    assert(no_authorization().body() =~= "{\"error\":\"No authorization was provided\"}"@);
}

} // verus!
