//! The kinds of record the service holds, and the shapes of its answers.

use vstd::prelude::*;

verus! {

/// A kind of record.
#[derive(Clone, Copy, Debug, PartialEq, Eq, Structural)]
pub enum Resource {
    Post,
    Comment,
    Category,
    User,
    Board,
    Tag,
    Company,
    Vote,
    StatusChange,
    Entry,
    Opportunity,
    Group,
    Insight,
    Idea,
}

impl Resource {
    /// The key under which one record of this kind is wrapped.
    pub open spec fn singular_key(self) -> Seq<char> {
        match self {
            Resource::Post => "post"@,
            Resource::Comment => "comment"@,
            Resource::Category => "category"@,
            Resource::User => "user"@,
            Resource::Board => "board"@,
            Resource::Tag => "tag"@,
            Resource::Company => "company"@,
            Resource::Vote => "vote"@,
            Resource::StatusChange => "statusChange"@,
            Resource::Entry => "entry"@,
            Resource::Opportunity => "opportunity"@,
            Resource::Group => "group"@,
            Resource::Insight => "insight"@,
            Resource::Idea => "idea"@,
        }
    }

    /// The key under which a list of records of this kind stands.
    pub open spec fn plural_key(self) -> Seq<char> {
        match self {
            Resource::Post => "posts"@,
            Resource::Comment => "comments"@,
            Resource::Category => "categories"@,
            Resource::User => "users"@,
            Resource::Board => "boards"@,
            Resource::Tag => "tags"@,
            Resource::Company => "companies"@,
            Resource::Vote => "votes"@,
            Resource::StatusChange => "statusChanges"@,
            Resource::Entry => "entries"@,
            Resource::Opportunity => "opportunities"@,
            Resource::Group => "groups"@,
            Resource::Insight => "insights"@,
            Resource::Idea => "ideas"@,
        }
    }

    pub fn singular(self) -> (key: &'static str)
        ensures
            key@ == self.singular_key(),
    {
        match self {
            Resource::Post => "post",
            Resource::Comment => "comment",
            Resource::Category => "category",
            Resource::User => "user",
            Resource::Board => "board",
            Resource::Tag => "tag",
            Resource::Company => "company",
            Resource::Vote => "vote",
            Resource::StatusChange => "statusChange",
            Resource::Entry => "entry",
            Resource::Opportunity => "opportunity",
            Resource::Group => "group",
            Resource::Insight => "insight",
            Resource::Idea => "idea",
        }
    }

    pub fn plural(self) -> (key: &'static str)
        ensures
            key@ == self.plural_key(),
    {
        match self {
            Resource::Post => "posts",
            Resource::Comment => "comments",
            Resource::Category => "categories",
            Resource::User => "users",
            Resource::Board => "boards",
            Resource::Tag => "tags",
            Resource::Company => "companies",
            Resource::Vote => "votes",
            Resource::StatusChange => "statusChanges",
            Resource::Entry => "entries",
            Resource::Opportunity => "opportunities",
            Resource::Group => "groups",
            Resource::Insight => "insights",
            Resource::Idea => "ideas",
        }
    }
}

/// The shape of the answer that an endpoint gives on success.
#[derive(Clone, Copy, Debug, PartialEq, Eq, Structural)]
pub enum Expected {
    /// Any body: success is signalled by the status alone.
    Ack,
    /// `{ "id": string }`: the identifier of the record made.
    Created,
    /// One record wrapped under its singular key, or null.
    Resource(Resource),
    /// One offset-paginated page: `hasMore` and the records under their
    /// plural key.
    Page(Resource),
    /// One cursor-paginated page: the records under `items` or their plural
    /// key, `hasNextPage` and `cursor`.
    CursorPage(Resource),
    /// All records at once, under their plural key.
    Listing(Resource),
    /// The record itself, read leniently.
    LenientRecord,
}

} // verus!
