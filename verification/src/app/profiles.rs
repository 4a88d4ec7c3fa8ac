//! Profiles: reading one, following and unfollowing.
use vstd::prelude::*;
use vstd::string::*;
use crate::app::{authenticate, spec_authenticate, Pending, Step};
use crate::auth::HttpRequest;
use crate::auth::Auth;
use crate::json::{boolean, json_string_text, nullable, opt_text, quote, spec_boolean, spec_nullable};

verus! {

/// The path of a profile route.
#[derive(Debug, Clone, PartialEq, Eq)]
pub struct ProfilePath {
    pub username: String,
}

/// Read a profile; the identity is absent where none was resolved.
#[derive(Debug, Clone, PartialEq, Eq)]
pub struct GetProfile {
    pub auth: Option<Auth>,
    pub username: String,
}

#[derive(Debug, Clone, PartialEq, Eq)]
pub struct FollowProfile {
    pub auth: Auth,
    pub username: String,
}

#[derive(Debug, Clone, PartialEq, Eq)]
pub struct UnfollowProfile {
    pub auth: Auth,
    pub username: String,
}

#[derive(Debug, Clone, PartialEq, Eq)]
pub struct ProfileResponse {
    pub profile: ProfileResponseInner,
}

#[derive(Debug, Clone, PartialEq, Eq)]
pub struct ProfileResponseInner {
    pub username: String,
    pub bio: Option<String>,
    pub image: Option<String>,
    pub following: bool,
}

pub ghost struct ProfileModel {
    pub username: Seq<char>,
    pub bio: Option<Seq<char>>,
    pub image: Option<Seq<char>>,
    pub following: bool,
}

impl View for ProfileResponseInner {
    type V = ProfileModel;

    open spec fn view(&self) -> ProfileModel {
        ProfileModel {
            username: self.username@,
            bio: opt_text(self.bio),
            image: opt_text(self.image),
            following: self.following,
        }
    }
}

impl View for ProfileResponse {
    type V = ProfileModel;

    open spec fn view(&self) -> ProfileModel {
        self.profile@
    }
}

impl ProfileModel {
    /// The profile as a JSON object.
    pub open spec fn json(self) -> Seq<char> {
        "{\"username\":"@ + json_string_text(self.username) + ",\"bio\":"@ + spec_nullable(self.bio)
            + ",\"image\":"@ + spec_nullable(self.image) + ",\"following\":"@ + spec_boolean(
            self.following,
        ) + "}"@
    }

    /// The profile under its envelope.
    pub open spec fn envelope(self) -> Seq<char> {
        "{\"profile\":"@ + self.json() + "}"@
    }

    /// The profile that stands in wherever any profile will do.
    pub open spec fn fixture() -> ProfileModel {
        ProfileModel { username: "user"@, bio: None, image: None, following: true }
    }
}

impl ProfileResponseInner {
    pub fn to_json(&self) -> (r: String)
        ensures
            r@ == self@.json(),
    {
        let mut out = String::from_str("{\"username\":");
        out.append(quote(self.username.as_str()).as_str());
        out.append(",\"bio\":");
        out.append(nullable(&self.bio).as_str());
        out.append(",\"image\":");
        out.append(nullable(&self.image).as_str());
        out.append(",\"following\":");
        out.append(boolean(self.following).as_str());
        out.append("}");
        out
    }
}

impl ProfileResponse {
    pub fn to_json(&self) -> (r: String)
        ensures
            r@ == self@.envelope(),
    {
        let mut out = String::from_str("{\"profile\":");
        out.append(self.profile.to_json().as_str());
        out.append("}");
        out
    }
}

impl Default for ProfileResponseInner {
    fn default() -> (r: Self)
        ensures
            r@ == ProfileModel::fixture(),
    {
        ProfileResponseInner {
            username: String::from_str("user"),
            bio: None,
            image: None,
            following: true,
        }
    }
}

impl Default for ProfileResponse {
    fn default() -> (r: Self)
        ensures
            r@ == ProfileModel::fixture(),
    {
        ProfileResponse { profile: ProfileResponseInner::default() }
    }
}


/// `GET /profiles/{username}`: reads the profile, with or without an
/// identity.
pub fn get(path: ProfilePath, req: &HttpRequest) -> (s: Step)
    ensures
        spec_authenticate(opt_text(req.authorization), Pending::GetProfile(path.username), s),
{
    authenticate(req, Pending::GetProfile(path.username))
}

/// `POST /profiles/{username}/follow`: authenticates, then follows.
pub fn follow(path: ProfilePath, req: &HttpRequest) -> (s: Step)
    ensures
        spec_authenticate(opt_text(req.authorization), Pending::FollowProfile(path.username), s),
{
    authenticate(req, Pending::FollowProfile(path.username))
}

/// `DELETE /profiles/{username}/follow`: authenticates, then unfollows.
pub fn unfollow(path: ProfilePath, req: &HttpRequest) -> (s: Step)
    ensures
        spec_authenticate(opt_text(req.authorization), Pending::UnfollowProfile(path.username), s),
{
    authenticate(req, Pending::UnfollowProfile(path.username))
}

} // verus!
