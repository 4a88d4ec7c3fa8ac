//! Stored users, and the shapes in which they are written.
use vstd::prelude::*;
use vstd::string::*;
use crate::json::opt_text;
use crate::time::CustomDateTime;

verus! {

/// A stored user.
#[derive(Debug, Clone, PartialEq, Eq)]
pub struct User {
    /// The 128 bits of the user's identifier.
    pub id: u128,
    pub username: String,
    pub email: String,
    pub password: String,
    pub bio: Option<String>,
    pub image: Option<String>,
    pub created_at: CustomDateTime,
    pub updated_at: CustomDateTime,
}

/// A user about to be stored.
#[derive(Debug, Clone, PartialEq, Eq)]
pub struct NewUser {
    pub username: String,
    pub email: String,
    pub password: String,
    pub bio: Option<String>,
    pub image: Option<String>,
}

/// The fields of a stored user that are to change.
#[derive(Debug, Clone, PartialEq, Eq)]
pub struct UserChange {
    pub username: Option<String>,
    pub email: Option<String>,
    pub password: Option<String>,
    pub bio: Option<String>,
    pub image: Option<String>,
}

pub ghost struct UserModel {
    pub id: u128,
    pub username: Seq<char>,
    pub email: Seq<char>,
    pub password: Seq<char>,
    pub bio: Option<Seq<char>>,
    pub image: Option<Seq<char>>,
    pub created_at: CustomDateTime,
    pub updated_at: CustomDateTime,
}

pub ghost struct NewUserModel {
    pub username: Seq<char>,
    pub email: Seq<char>,
    pub password: Seq<char>,
    pub bio: Option<Seq<char>>,
    pub image: Option<Seq<char>>,
}

pub ghost struct UserChangeModel {
    pub username: Option<Seq<char>>,
    pub email: Option<Seq<char>>,
    pub password: Option<Seq<char>>,
    pub bio: Option<Seq<char>>,
    pub image: Option<Seq<char>>,
}

impl View for User {
    type V = UserModel;

    open spec fn view(&self) -> UserModel {
        UserModel {
            id: self.id,
            username: self.username@,
            email: self.email@,
            password: self.password@,
            bio: opt_text(self.bio),
            image: opt_text(self.image),
            created_at: self.created_at,
            updated_at: self.updated_at,
        }
    }
}

impl View for NewUser {
    type V = NewUserModel;

    open spec fn view(&self) -> NewUserModel {
        NewUserModel {
            username: self.username@,
            email: self.email@,
            password: self.password@,
            bio: opt_text(self.bio),
            image: opt_text(self.image),
        }
    }
}

impl View for UserChange {
    type V = UserChangeModel;

    open spec fn view(&self) -> UserChangeModel {
        UserChangeModel {
            username: opt_text(self.username),
            email: opt_text(self.email),
            password: opt_text(self.password),
            bio: opt_text(self.bio),
            image: opt_text(self.image),
        }
    }
}

impl UserModel {
    /// The user that stands in wherever any user will do.
    pub open spec fn fixture() -> UserModel {
        UserModel {
            id: 0x0101_0101_0101_0101_0101_0101_0101_0101,
            username: "username"@,
            email: "email@e.mail"@,
            password: "password"@,
            bio: None,
            image: None,
            created_at: CustomDateTime { secs: 12, nanos: 12 },
            updated_at: CustomDateTime { secs: 12, nanos: 12 },
        }
    }
}

impl NewUserModel {
    pub open spec fn fixture() -> NewUserModel {
        NewUserModel {
            username: "username"@,
            email: "email@e.mail"@,
            password: "password"@,
            bio: None,
            image: None,
        }
    }
}

impl UserChangeModel {
    pub open spec fn fixture() -> UserChangeModel {
        UserChangeModel {
            username: Some("username"@),
            email: Some("email@e.mail"@),
            password: Some("password"@),
            bio: None,
            image: None,
        }
    }
}

impl Default for User {
    fn default() -> (r: Self)
        ensures
            r@ == UserModel::fixture(),
    {
        User {
            id: 0x0101_0101_0101_0101_0101_0101_0101_0101,
            username: String::from_str("username"),
            email: String::from_str("email@e.mail"),
            password: String::from_str("password"),
            bio: None,
            image: None,
            created_at: CustomDateTime::from_timestamp(12, 12),
            updated_at: CustomDateTime::from_timestamp(12, 12),
        }
    }
}

impl Default for NewUser {
    fn default() -> (r: Self)
        ensures
            r@ == NewUserModel::fixture(),
    {
        NewUser {
            username: String::from_str("username"),
            email: String::from_str("email@e.mail"),
            password: String::from_str("password"),
            bio: None,
            image: None,
        }
    }
}

impl Default for UserChange {
    fn default() -> (r: Self)
        ensures
            r@ == UserChangeModel::fixture(),
    {
        UserChange {
            username: Some(String::from_str("username")),
            email: Some(String::from_str("email@e.mail")),
            password: Some(String::from_str("password")),
            bio: None,
            image: None,
        }
    }
}

} // verus!
