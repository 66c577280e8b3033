//! The records of the service and the typed answers of its endpoints.

use vstd::prelude::*;
use vstd::string::StringExecFns;

verus! {

/// A user
#[derive(Debug, Clone)]
pub struct CannyUser {
    pub id: String,
    pub name: String,
    pub email: Option<String>,
    pub avatar_url: Option<String>,
}

/// A category
#[derive(Debug, Clone)]
pub struct CannyCategory {
    pub id: String,
    pub name: String,
    pub post_count: Option<i32>,
    pub url: Option<String>,
}

/// A post
#[derive(Debug, Clone)]
pub struct CannyPost {
    pub id: String,
    pub title: String,
    pub details: Option<String>,
    pub url: String,
    pub status: Option<String>,
    pub comment_count: i32,
    pub score: i32,
    pub created: Option<String>,
    pub author: Option<CannyUser>,
    pub category: Option<CannyCategory>,
}

/// A comment
#[derive(Debug, Clone)]
pub struct CannyComment {
    pub id: String,
    pub value: String,
    pub created: String,
    pub author: Option<CannyUser>,
    pub post: Option<CannyPost>,
    pub parent_id: Option<String>,
    pub pinned: Option<bool>,
}

/// Response from posts/list endpoint
#[derive(Debug, Clone)]
pub struct PostsListResponse {
    pub has_more: bool,
    pub posts: Vec<CannyPost>,
}

/// Response from posts/retrieve endpoint
#[derive(Debug, Clone)]
pub struct PostRetrieveResponse {
    pub post: Option<CannyPost>,
}

/// Response from comments/list endpoint
#[derive(Debug, Clone)]
pub struct CommentsListResponse {
    pub has_more: bool,
    pub comments: Vec<CannyComment>,
}

/// Response from comments/retrieve endpoint
#[derive(Debug, Clone)]
pub struct CommentRetrieveResponse {
    pub comment: Option<CannyComment>,
}

/// Response from categories/list endpoint
#[derive(Debug, Clone)]
pub struct CategoriesListResponse {
    pub has_more: bool,
    pub categories: Vec<CannyCategory>,
}

/// Response from categories/retrieve endpoint
#[derive(Debug, Clone)]
pub struct CategoryRetrieveResponse {
    pub category: Option<CannyCategory>,
}

/// A board
#[derive(Debug, Clone)]
pub struct CannyBoard {
    pub id: String,
    pub name: String,
    pub url: Option<String>,
    pub post_count: Option<i32>,
    pub is_private: Option<bool>,
    pub private_comments: Option<bool>,
    pub token: Option<String>,
    pub created: Option<String>,
}

/// Full user details returned by users/retrieve and users/list
#[derive(Debug, Clone)]
pub struct CannyUserFull {
    pub id: String,
    pub name: Option<String>,
    pub email: Option<String>,
    pub avatar_url: Option<String>,
    pub created: Option<String>,
    pub is_admin: Option<bool>,
    pub last_activity: Option<String>,
    pub user_id: Option<String>,
    pub url: Option<String>,
}

/// Response from users/find endpoint
#[derive(Debug, Clone)]
pub struct UserFindResponse {
    pub user: Option<CannyUserFull>,
}

/// Response from boards/retrieve endpoint
#[derive(Debug, Clone)]
pub struct BoardRetrieveResponse {
    pub board: Option<CannyBoard>,
}

/// Response from create operations
#[derive(Debug, Clone)]
pub struct CreateResponse {
    pub id: String,
}

/// A tag
#[derive(Debug, Clone)]
pub struct CannyTag {
    pub id: String,
    pub name: String,
    pub board_id: Option<String>,
    pub created: Option<String>,
    pub post_count: Option<i32>,
    pub url: Option<String>,
}

/// Response from tags/list endpoint
#[derive(Debug, Clone)]
pub struct TagsListResponse {
    pub has_more: bool,
    pub tags: Vec<CannyTag>,
}

/// Response from tags/retrieve endpoint
#[derive(Debug, Clone)]
pub struct TagRetrieveResponse {
    pub tag: Option<CannyTag>,
}

/// A vote
#[derive(Debug, Clone)]
pub struct CannyVote {
    pub id: String,
    pub post_id: Option<String>,
    pub voter: Option<CannyUser>,
    pub created: Option<String>,
}

/// Response from votes/list endpoint
#[derive(Debug, Clone)]
pub struct VotesListResponse {
    pub has_more: bool,
    pub votes: Vec<CannyVote>,
}

/// Response from votes/retrieve endpoint
#[derive(Debug, Clone)]
pub struct VoteRetrieveResponse {
    pub vote: Option<CannyVote>,
}

/// A status change
#[derive(Debug, Clone)]
pub struct CannyStatusChange {
    pub id: String,
    pub post_id: Option<String>,
    pub status: Option<String>,
    pub created: Option<String>,
    pub changer: Option<CannyUser>,
}

/// Response from status_changes/list endpoint
#[derive(Debug, Clone)]
pub struct StatusChangesListResponse {
    pub has_more: bool,
    pub status_changes: Vec<CannyStatusChange>,
}

/// A changelog entry
#[derive(Debug, Clone)]
pub struct CannyEntry {
    pub id: String,
    pub title: Option<String>,
    pub details: Option<String>,
    pub created: Option<String>,
    pub published_at: Option<String>,
    pub status: Option<String>,
    pub entry_type: Option<String>,
    pub url: Option<String>,
}

/// Response from entries/list endpoint
#[derive(Debug, Clone)]
pub struct EntriesListResponse {
    pub has_more: bool,
    pub entries: Vec<CannyEntry>,
}

/// Response from entries/retrieve endpoint
#[derive(Debug, Clone)]
pub struct EntryRetrieveResponse {
    pub entry: Option<CannyEntry>,
}

/// A group
#[derive(Debug, Clone)]
pub struct CannyGroup {
    pub id: String,
    pub name: Option<String>,
    pub url: Option<String>,
    pub created: Option<String>,
    pub member_count: Option<i32>,
}

/// Response from groups/list endpoint
#[derive(Debug, Clone)]
pub struct GroupsListResponse {
    pub has_more: bool,
    pub cursor: Option<String>,
    pub groups: Vec<CannyGroup>,
}

/// Response from groups/retrieve endpoint
#[derive(Debug, Clone)]
pub struct GroupRetrieveResponse {
    pub group: Option<CannyGroup>,
}

/// A idea
#[derive(Debug, Clone)]
pub struct CannyIdea {
    pub id: String,
    pub name: Option<String>,
    pub description: Option<String>,
    pub url: Option<String>,
    pub created: Option<String>,
    pub post_count: Option<i32>,
}

/// Response from ideas/list endpoint
#[derive(Debug, Clone)]
pub struct IdeasListResponse {
    pub has_more: bool,
    pub cursor: Option<String>,
    pub ideas: Vec<CannyIdea>,
}

/// Response from ideas/retrieve endpoint
#[derive(Debug, Clone)]
pub struct IdeaRetrieveResponse {
    pub idea: Option<CannyIdea>,
}

/// A insight
#[derive(Debug, Clone)]
pub struct CannyInsight {
    pub id: String,
    pub title: Option<String>,
    pub description: Option<String>,
    pub url: Option<String>,
    pub created: Option<String>,
}

/// Response from insights/list endpoint
#[derive(Debug, Clone)]
pub struct InsightsListResponse {
    pub has_more: bool,
    pub cursor: Option<String>,
    pub insights: Vec<CannyInsight>,
}

/// Response from insights/retrieve endpoint
#[derive(Debug, Clone)]
pub struct InsightRetrieveResponse {
    pub insight: Option<CannyInsight>,
}

/// Response from autopilot/enqueue endpoint
#[derive(Debug, Clone)]
pub struct AutopilotEnqueueResponse {
    pub id: String,
}

/// A company.  The monthly spend is kept as the JSON number it came as.
#[derive(Debug, Clone)]
pub struct CannyCompany {
    pub id: String,
    pub name: Option<String>,
    pub created: Option<String>,
    pub monthly_spend: Option<serde_json::Value>,
    pub user_count: Option<i32>,
    pub custom_fields: Option<serde_json::Value>,
}

/// Response from companies/list endpoint (v2 API)
#[derive(Debug, Clone)]
pub struct CompaniesListResponse {
    pub has_next_page: Option<bool>,
    pub cursor: Option<String>,
    pub companies: Vec<CannyCompany>,
}

/// Response from companies/retrieve endpoint
#[derive(Debug, Clone)]
pub struct CompanyRetrieveResponse {
    pub company: Option<CannyCompany>,
}

/// An opportunity (linked sales/deal info).  The value is kept as the JSON
/// number it came as.
#[derive(Debug, Clone)]
pub struct CannyOpportunity {
    pub id: String,
    pub name: Option<String>,
    pub opportunity_id: Option<String>,
    pub value: Option<serde_json::Value>,
    pub won: Option<bool>,
    pub closed: Option<bool>,
    pub salesforce_opportunity_id: Option<String>,
}

/// Response from opportunities/list endpoint
#[derive(Debug, Clone)]
pub struct OpportunitiesListResponse {
    pub has_more: bool,
    pub opportunities: Vec<CannyOpportunity>,
}

/// Sort options for posts.
#[derive(Debug, Clone, Copy, PartialEq, Eq, Structural)]
pub enum PostSort {
    Newest,
    Oldest,
    Relevance,
    Score,
    StatusChanged,
    Trending,
}

impl PostSort {
    /// The name the service knows this order by.
    pub open spec fn api_name(self) -> Seq<char> {
        match self {
            PostSort::Newest => "newest"@,
            PostSort::Oldest => "oldest"@,
            PostSort::Relevance => "relevance"@,
            PostSort::Score => "score"@,
            PostSort::StatusChanged => "statusChanged"@,
            PostSort::Trending => "trending"@,
        }
    }

    /// The name the service knows this order by.
    pub fn as_str(self) -> (name: &'static str)
        ensures
            name@ == self.api_name(),
    {
        match self {
            PostSort::Newest => "newest",
            PostSort::Oldest => "oldest",
            PostSort::Relevance => "relevance",
            PostSort::Score => "score",
            PostSort::StatusChanged => "statusChanged",
            PostSort::Trending => "trending",
        }
    }

    /// The name the service knows this order by, as an owned string.
    pub fn to_string(self) -> (name: String)
        ensures
            name@ == self.api_name(),
    {
        String::from_str(self.as_str())
    }
}

impl Default for PostSort {
    fn default() -> (sort: Self)
        ensures
            sort == PostSort::Newest,
    {
        PostSort::Newest
    }
}

} // verus!
