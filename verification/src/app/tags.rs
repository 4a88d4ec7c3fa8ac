//! Tags: the list of all of them.
use vstd::prelude::*;
use vstd::string::*;
use crate::app::Step;
use crate::db::Command;
use crate::json::{spec_string_array, string_array, texts};

verus! {

/// Read every tag in use.
#[derive(Debug, Clone, PartialEq, Eq)]
pub struct GetTags {}

#[derive(Debug, Clone, PartialEq, Eq)]
pub struct TagsResponse {
    pub tags: Vec<String>,
}

pub ghost struct TagsModel {
    pub tags: Seq<Seq<char>>,
}

impl View for TagsResponse {
    type V = TagsModel;

    open spec fn view(&self) -> TagsModel {
        TagsModel { tags: texts(self.tags@) }
    }
}

impl TagsModel {
    /// The tags under their envelope.
    pub open spec fn envelope(self) -> Seq<char> {
        "{\"tags\":"@ + spec_string_array(self.tags) + "}"@
    }

    /// The tag list that stands in wherever any will do.
    pub open spec fn fixture() -> TagsModel {
        TagsModel { tags: seq!["tag"@] }
    }
}

impl TagsResponse {
    pub fn to_json(&self) -> (r: String)
        ensures
            r@ == self@.envelope(),
    {
        let mut out = String::from_str("{\"tags\":");
        out.append(string_array(&self.tags).as_str());
        out.append("}");
        out
    }
}

/// A list holding the one tag `tag`.
pub fn one_tag() -> (r: Vec<String>)
    ensures
        texts(r@) == seq!["tag"@],
{
    let mut tags: Vec<String> = Vec::new();
    tags.push(String::from_str("tag"));
    proof {
        assert(texts(tags@) =~= seq!["tag"@]);
    }
    tags
}

impl Default for TagsResponse {
    fn default() -> (r: Self)
        ensures
            r@ == TagsModel::fixture(),
    {
        TagsResponse { tags: one_tag() }
    }
}


/// `GET /tags`: asks for every tag; nothing is validated or authenticated.
pub fn get() -> (s: Step)
    ensures
        s == Step::Send(Command::GetTags(GetTags {  })),
{
    Step::Send(Command::GetTags(GetTags {  }))
}

} // verus!
