//! The endpoints of the service.
//!
//! Every operation is one HTTP POST of a JSON object to a fixed path under
//! the API's base address.  A [`CannyClient`] builds the request for each
//! operation: the address, the body, and the shape of the answer to expect.
//! Sending the request is left to the caller.

use vstd::prelude::*;
use vstd::string::StringExecFns;
use crate::pagination::{Depaginator, PageRequest, PAGE_SIZE};
use crate::request::{
    opt_flag, opt_json, opt_list, opt_number, opt_text, overlay, FieldModel, RequestBody,
};
use crate::resource::{Expected, Resource};
use crate::text::{replace, replace_all};

verus! {

/// The base address of the API where none is configured.
pub const DEFAULT_API_URL: &'static str = "https://canny.io/api/v1";

/// One request to the service.
#[derive(Debug, Clone)]
pub struct ApiRequest {
    /// The address to POST to.
    pub url: String,
    /// The JSON object to send.
    pub body: RequestBody,
    /// The shape of the answer on success.
    pub expects: Expected,
}

/// The body that every request starts from: the API key alone.
pub open spec fn authenticated(api_key: Seq<char>) -> Map<Seq<char>, FieldModel> {
    Map::<Seq<char>, FieldModel>::empty().insert("apiKey"@, FieldModel::Text(api_key))
}

/// The base address of the second API version: the configured address with
/// the version segment exchanged.
pub open spec fn second_version(api_url: Seq<char>) -> Seq<char> {
    replace_all(api_url, "/v1"@, "/v2"@)
}

/// Canny API client.
#[derive(Debug, Clone)]
pub struct CannyClient {
    pub api_url: String,
    pub api_key: String,
}

impl CannyClient {
    /// The request that creates a new Canny API client.
    pub fn new(api_url: String, api_key: String) -> (client: Self)
        ensures
            client.api_url == api_url,
            client.api_key == api_key,
    {
        CannyClient { api_url, api_key }
    }

    /// The body that every request starts from.
    pub fn base_body(&self) -> (body: RequestBody)
        ensures
            body@ == authenticated(self.api_key@),
    {
        let mut body = RequestBody::new();
        body.set_text("apiKey", self.api_key.as_str());
        body
    }

    /// The address of an endpoint under the configured base address.
    pub fn url_for(&self, path: &str) -> (url: String)
        ensures
            url@ == self.api_url@ + path@,
    {
        self.api_url.clone().concat(path)
    }

    /// The address of an endpoint under the second API version.  The version
    /// is exchanged for this one address only.
    pub fn second_version_url(&self, path: &str) -> (url: String)
        ensures
            url@ == second_version(self.api_url@) + path@,
    {
        replace(self.api_url.as_str(), "/v1", "/v2").concat(path)
    }

    /// The next request of an enumeration of all users, or `None` once the
    /// enumeration has ended.
    pub fn list_users<T>(&self, pager: &Depaginator<T>) -> (next: Option<ApiRequest>)
        ensures
            pager@.done ==> next is None,
            !pager@.done ==> next is Some && next.unwrap().url@ == second_version(self.api_url@)
                + "/users/list"@ && next.unwrap().expects == Expected::CursorPage(Resource::User)
                && next.unwrap().body@ == ({
                let m = authenticated(self.api_key@);
                let m = m.insert("limit"@, FieldModel::Number(PAGE_SIZE));
                match pager@.cursor {
                    Some(c) => m.insert("cursor"@, FieldModel::Text(c)),
                    None => m,
                }
            }),
    {
        match pager.next_request() {
            PageRequest::Stop => None,
            PageRequest::Fetch { cursor, limit } => {
                let req = match &cursor {
                    Some(c) => self.fetch_users_page(Some(c.as_str()), limit),
                    None => self.fetch_users_page(None, limit),
                };
                Some(req)
            },
        }
    }

    /// The request that lists posts from a board.
    pub fn list_posts(
        &self,
        board_id: &str,
        limit: Option<u32>,
        skip: Option<u32>,
        sort: Option<&str>,
        status: Option<&str>,
        author_id: Option<&str>,
        search: Option<&str>,
        company_id: Option<&str>,
        tag_ids: Option<Vec<String>>,
    ) -> (req: ApiRequest)
        ensures
            req.url@ == self.api_url@ + "/posts/list"@,
            req.expects == Expected::Page(Resource::Post),
            req.body@ == ({
                let m = authenticated(self.api_key@);
                let m = m.insert("boardID"@, FieldModel::Text(board_id@));
                let m = overlay(m, "limit"@, opt_number(limit));
                let m = overlay(m, "skip"@, opt_number(skip));
                let m = overlay(m, "sort"@, opt_text(sort));
                let m = overlay(m, "status"@, opt_text(status));
                let m = overlay(m, "authorID"@, opt_text(author_id));
                let m = overlay(m, "search"@, opt_text(search));
                let m = overlay(m, "companyID"@, opt_text(company_id));
                let m = overlay(m, "tagIDs"@, opt_list(tag_ids));
                m
            }),
    {
        let mut body = self.base_body();
        body.set_text("boardID", board_id);
        body.set_optional_number("limit", limit);
        body.set_optional_number("skip", skip);
        body.set_optional_text("sort", sort);
        body.set_optional_text("status", status);
        body.set_optional_text("authorID", author_id);
        body.set_optional_text("search", search);
        body.set_optional_text("companyID", company_id);
        body.set_optional_list("tagIDs", tag_ids);
        ApiRequest { url: self.url_for("/posts/list"), body, expects: Expected::Page(Resource::Post) }
    }

    /// The request that retrieves a single post by ID, URL name (with board ID), or both.
    pub fn get_post(
        &self,
        id: Option<&str>,
        url_name: Option<&str>,
        board_id: Option<&str>,
    ) -> (req: ApiRequest)
        ensures
            req.url@ == self.api_url@ + "/posts/retrieve"@,
            req.expects == Expected::Resource(Resource::Post),
            req.body@ == ({
                let m = authenticated(self.api_key@);
                let m = overlay(m, "id"@, opt_text(id));
                let m = overlay(m, "urlName"@, opt_text(url_name));
                let m = overlay(m, "boardID"@, opt_text(board_id));
                m
            }),
    {
        let mut body = self.base_body();
        body.set_optional_text("id", id);
        body.set_optional_text("urlName", url_name);
        body.set_optional_text("boardID", board_id);
        ApiRequest { url: self.url_for("/posts/retrieve"), body, expects: Expected::Resource(Resource::Post) }
    }

    /// The request that creates a new post.
    pub fn create_post(
        &self,
        board_id: &str,
        author_id: &str,
        title: &str,
        details: Option<&str>,
        category_id: Option<&str>,
        by_id: Option<&str>,
        custom_fields: Option<serde_json::Value>,
        eta: Option<&str>,
        eta_public: Option<bool>,
        owner_id: Option<&str>,
        image_urls: Option<Vec<String>>,
        created_at: Option<&str>,
    ) -> (req: ApiRequest)
        ensures
            req.url@ == self.api_url@ + "/posts/create"@,
            req.expects == Expected::Created,
            req.body@ == ({
                let m = authenticated(self.api_key@);
                let m = m.insert("boardID"@, FieldModel::Text(board_id@));
                let m = m.insert("authorID"@, FieldModel::Text(author_id@));
                let m = m.insert("title"@, FieldModel::Text(title@));
                let m = overlay(m, "details"@, opt_text(details));
                let m = overlay(m, "categoryID"@, opt_text(category_id));
                let m = overlay(m, "byID"@, opt_text(by_id));
                let m = overlay(m, "customFields"@, opt_json(custom_fields));
                let m = overlay(m, "eta"@, opt_text(eta));
                let m = overlay(m, "etaPublic"@, opt_flag(eta_public));
                let m = overlay(m, "ownerID"@, opt_text(owner_id));
                let m = overlay(m, "imageURLs"@, opt_list(image_urls));
                let m = overlay(m, "createdAt"@, opt_text(created_at));
                m
            }),
    {
        let mut body = self.base_body();
        body.set_text("boardID", board_id);
        body.set_text("authorID", author_id);
        body.set_text("title", title);
        body.set_optional_text("details", details);
        body.set_optional_text("categoryID", category_id);
        body.set_optional_text("byID", by_id);
        body.set_optional_json("customFields", custom_fields);
        body.set_optional_text("eta", eta);
        body.set_optional_flag("etaPublic", eta_public);
        body.set_optional_text("ownerID", owner_id);
        body.set_optional_list("imageURLs", image_urls);
        body.set_optional_text("createdAt", created_at);
        ApiRequest { url: self.url_for("/posts/create"), body, expects: Expected::Created }
    }

    /// The request that changes the status of a post.
    pub fn change_post_status(
        &self,
        post_id: &str,
        changer_id: &str,
        status: &str,
        notify_voters: bool,
        comment: Option<&str>,
        comment_image_urls: Option<Vec<String>>,
    ) -> (req: ApiRequest)
        ensures
            req.url@ == self.api_url@ + "/posts/change_status"@,
            req.expects == Expected::Ack,
            req.body@ == ({
                let m = authenticated(self.api_key@);
                let m = m.insert("postID"@, FieldModel::Text(post_id@));
                let m = m.insert("changerID"@, FieldModel::Text(changer_id@));
                let m = m.insert("status"@, FieldModel::Text(status@));
                let m = m.insert("shouldNotifyVoters"@, FieldModel::Flag(notify_voters));
                let m = overlay(m, "commentValue"@, opt_text(comment));
                let m = overlay(m, "commentImageURLs"@, opt_list(comment_image_urls));
                m
            }),
    {
        let mut body = self.base_body();
        body.set_text("postID", post_id);
        body.set_text("changerID", changer_id);
        body.set_text("status", status);
        body.set_flag("shouldNotifyVoters", notify_voters);
        body.set_optional_text("commentValue", comment);
        body.set_optional_list("commentImageURLs", comment_image_urls);
        ApiRequest { url: self.url_for("/posts/change_status"), body, expects: Expected::Ack }
    }

    /// The request that updates a post.
    pub fn update_post(
        &self,
        post_id: &str,
        title: Option<&str>,
        details: Option<&str>,
        image_urls: Option<Vec<String>>,
        eta: Option<&str>,
        eta_public: Option<bool>,
        custom_fields: Option<serde_json::Value>,
    ) -> (req: ApiRequest)
        ensures
            req.url@ == self.api_url@ + "/posts/update"@,
            req.expects == Expected::Ack,
            req.body@ == ({
                let m = authenticated(self.api_key@);
                let m = m.insert("postID"@, FieldModel::Text(post_id@));
                let m = overlay(m, "title"@, opt_text(title));
                let m = overlay(m, "details"@, opt_text(details));
                let m = overlay(m, "imageURLs"@, opt_list(image_urls));
                let m = overlay(m, "eta"@, opt_text(eta));
                let m = overlay(m, "etaPublic"@, opt_flag(eta_public));
                let m = overlay(m, "customFields"@, opt_json(custom_fields));
                m
            }),
    {
        let mut body = self.base_body();
        body.set_text("postID", post_id);
        body.set_optional_text("title", title);
        body.set_optional_text("details", details);
        body.set_optional_list("imageURLs", image_urls);
        body.set_optional_text("eta", eta);
        body.set_optional_flag("etaPublic", eta_public);
        body.set_optional_json("customFields", custom_fields);
        ApiRequest { url: self.url_for("/posts/update"), body, expects: Expected::Ack }
    }

    /// The request that deletes a post.
    pub fn delete_post(&self, post_id: &str) -> (req: ApiRequest)
        ensures
            req.url@ == self.api_url@ + "/posts/delete"@,
            req.expects == Expected::Ack,
            req.body@ == ({
                let m = authenticated(self.api_key@);
                let m = m.insert("postID"@, FieldModel::Text(post_id@));
                m
            }),
    {
        let mut body = self.base_body();
        body.set_text("postID", post_id);
        ApiRequest { url: self.url_for("/posts/delete"), body, expects: Expected::Ack }
    }

    /// The request that changes the category of a post.
    pub fn change_post_category(&self, post_id: &str, category_id: &str) -> (req: ApiRequest)
        ensures
            req.url@ == self.api_url@ + "/posts/change_category"@,
            req.expects == Expected::Ack,
            req.body@ == ({
                let m = authenticated(self.api_key@);
                let m = m.insert("postID"@, FieldModel::Text(post_id@));
                let m = m.insert("categoryID"@, FieldModel::Text(category_id@));
                m
            }),
    {
        let mut body = self.base_body();
        body.set_text("postID", post_id);
        body.set_text("categoryID", category_id);
        ApiRequest { url: self.url_for("/posts/change_category"), body, expects: Expected::Ack }
    }

    /// The request that adds a tag to a post.
    pub fn add_post_tag(&self, post_id: &str, tag_id: &str) -> (req: ApiRequest)
        ensures
            req.url@ == self.api_url@ + "/posts/add_tag"@,
            req.expects == Expected::Ack,
            req.body@ == ({
                let m = authenticated(self.api_key@);
                let m = m.insert("postID"@, FieldModel::Text(post_id@));
                let m = m.insert("tagID"@, FieldModel::Text(tag_id@));
                m
            }),
    {
        let mut body = self.base_body();
        body.set_text("postID", post_id);
        body.set_text("tagID", tag_id);
        ApiRequest { url: self.url_for("/posts/add_tag"), body, expects: Expected::Ack }
    }

    /// The request that removes a tag from a post.
    pub fn remove_post_tag(&self, post_id: &str, tag_id: &str) -> (req: ApiRequest)
        ensures
            req.url@ == self.api_url@ + "/posts/remove_tag"@,
            req.expects == Expected::Ack,
            req.body@ == ({
                let m = authenticated(self.api_key@);
                let m = m.insert("postID"@, FieldModel::Text(post_id@));
                let m = m.insert("tagID"@, FieldModel::Text(tag_id@));
                m
            }),
    {
        let mut body = self.base_body();
        body.set_text("postID", post_id);
        body.set_text("tagID", tag_id);
        ApiRequest { url: self.url_for("/posts/remove_tag"), body, expects: Expected::Ack }
    }

    /// The request that links a Jira issue to a post.
    pub fn link_post_jira(&self, post_id: &str, issue_key: &str) -> (req: ApiRequest)
        ensures
            req.url@ == self.api_url@ + "/posts/link_jira"@,
            req.expects == Expected::Ack,
            req.body@ == ({
                let m = authenticated(self.api_key@);
                let m = m.insert("postID"@, FieldModel::Text(post_id@));
                let m = m.insert("issueKey"@, FieldModel::Text(issue_key@));
                m
            }),
    {
        let mut body = self.base_body();
        body.set_text("postID", post_id);
        body.set_text("issueKey", issue_key);
        ApiRequest { url: self.url_for("/posts/link_jira"), body, expects: Expected::Ack }
    }

    /// The request that unlinks a Jira issue from a post.
    pub fn unlink_post_jira(&self, post_id: &str, issue_key: &str) -> (req: ApiRequest)
        ensures
            req.url@ == self.api_url@ + "/posts/unlink_jira"@,
            req.expects == Expected::Ack,
            req.body@ == ({
                let m = authenticated(self.api_key@);
                let m = m.insert("postID"@, FieldModel::Text(post_id@));
                let m = m.insert("issueKey"@, FieldModel::Text(issue_key@));
                m
            }),
    {
        let mut body = self.base_body();
        body.set_text("postID", post_id);
        body.set_text("issueKey", issue_key);
        ApiRequest { url: self.url_for("/posts/unlink_jira"), body, expects: Expected::Ack }
    }

    /// The request that lists comments for a post.
    pub fn list_comments(
        &self,
        post_id: Option<&str>,
        author_id: Option<&str>,
        board_id: Option<&str>,
        company_id: Option<&str>,
        limit: Option<u32>,
        skip: Option<u32>,
    ) -> (req: ApiRequest)
        ensures
            req.url@ == self.api_url@ + "/comments/list"@,
            req.expects == Expected::Page(Resource::Comment),
            req.body@ == ({
                let m = authenticated(self.api_key@);
                let m = overlay(m, "postID"@, opt_text(post_id));
                let m = overlay(m, "authorID"@, opt_text(author_id));
                let m = overlay(m, "boardID"@, opt_text(board_id));
                let m = overlay(m, "companyID"@, opt_text(company_id));
                let m = overlay(m, "limit"@, opt_number(limit));
                let m = overlay(m, "skip"@, opt_number(skip));
                m
            }),
    {
        let mut body = self.base_body();
        body.set_optional_text("postID", post_id);
        body.set_optional_text("authorID", author_id);
        body.set_optional_text("boardID", board_id);
        body.set_optional_text("companyID", company_id);
        body.set_optional_number("limit", limit);
        body.set_optional_number("skip", skip);
        ApiRequest { url: self.url_for("/comments/list"), body, expects: Expected::Page(Resource::Comment) }
    }

    /// The request that creates a comment on a post.
    pub fn create_comment(
        &self,
        post_id: &str,
        author_id: &str,
        value: &str,
        parent_id: Option<&str>,
        created_at: Option<&str>,
        image_urls: Option<Vec<String>>,
        internal: Option<bool>,
        should_notify_voters: Option<bool>,
    ) -> (req: ApiRequest)
        ensures
            req.url@ == self.api_url@ + "/comments/create"@,
            req.expects == Expected::Created,
            req.body@ == ({
                let m = authenticated(self.api_key@);
                let m = m.insert("postID"@, FieldModel::Text(post_id@));
                let m = m.insert("authorID"@, FieldModel::Text(author_id@));
                let m = m.insert("value"@, FieldModel::Text(value@));
                let m = overlay(m, "parentID"@, opt_text(parent_id));
                let m = overlay(m, "createdAt"@, opt_text(created_at));
                let m = overlay(m, "imageURLs"@, opt_list(image_urls));
                let m = overlay(m, "internal"@, opt_flag(internal));
                let m = overlay(m, "shouldNotifyVoters"@, opt_flag(should_notify_voters));
                m
            }),
    {
        let mut body = self.base_body();
        body.set_text("postID", post_id);
        body.set_text("authorID", author_id);
        body.set_text("value", value);
        body.set_optional_text("parentID", parent_id);
        body.set_optional_text("createdAt", created_at);
        body.set_optional_list("imageURLs", image_urls);
        body.set_optional_flag("internal", internal);
        body.set_optional_flag("shouldNotifyVoters", should_notify_voters);
        ApiRequest { url: self.url_for("/comments/create"), body, expects: Expected::Created }
    }

    /// The request that retrieves a single comment by ID.
    pub fn get_comment(&self, comment_id: &str) -> (req: ApiRequest)
        ensures
            req.url@ == self.api_url@ + "/comments/retrieve"@,
            req.expects == Expected::Resource(Resource::Comment),
            req.body@ == ({
                let m = authenticated(self.api_key@);
                let m = m.insert("id"@, FieldModel::Text(comment_id@));
                m
            }),
    {
        let mut body = self.base_body();
        body.set_text("id", comment_id);
        ApiRequest { url: self.url_for("/comments/retrieve"), body, expects: Expected::Resource(Resource::Comment) }
    }

    /// The request that deletes a comment by ID.
    pub fn delete_comment(&self, comment_id: &str) -> (req: ApiRequest)
        ensures
            req.url@ == self.api_url@ + "/comments/delete"@,
            req.expects == Expected::Ack,
            req.body@ == ({
                let m = authenticated(self.api_key@);
                let m = m.insert("commentID"@, FieldModel::Text(comment_id@));
                m
            }),
    {
        let mut body = self.base_body();
        body.set_text("commentID", comment_id);
        ApiRequest { url: self.url_for("/comments/delete"), body, expects: Expected::Ack }
    }

    /// The request that lists categories for a board.
    pub fn list_categories(
        &self,
        board_id: &str,
        limit: Option<u32>,
        skip: Option<u32>,
    ) -> (req: ApiRequest)
        ensures
            req.url@ == self.api_url@ + "/categories/list"@,
            req.expects == Expected::Page(Resource::Category),
            req.body@ == ({
                let m = authenticated(self.api_key@);
                let m = m.insert("boardID"@, FieldModel::Text(board_id@));
                let m = overlay(m, "limit"@, opt_number(limit));
                let m = overlay(m, "skip"@, opt_number(skip));
                m
            }),
    {
        let mut body = self.base_body();
        body.set_text("boardID", board_id);
        body.set_optional_number("limit", limit);
        body.set_optional_number("skip", skip);
        ApiRequest { url: self.url_for("/categories/list"), body, expects: Expected::Page(Resource::Category) }
    }

    /// The request that retrieves a single category by ID.
    pub fn get_category(&self, category_id: &str) -> (req: ApiRequest)
        ensures
            req.url@ == self.api_url@ + "/categories/retrieve"@,
            req.expects == Expected::Resource(Resource::Category),
            req.body@ == ({
                let m = authenticated(self.api_key@);
                let m = m.insert("id"@, FieldModel::Text(category_id@));
                m
            }),
    {
        let mut body = self.base_body();
        body.set_text("id", category_id);
        ApiRequest { url: self.url_for("/categories/retrieve"), body, expects: Expected::Resource(Resource::Category) }
    }

    /// The request that creates a new category.
    pub fn create_category(
        &self,
        board_id: &str,
        name: &str,
        parent_id: Option<&str>,
        subscribe_admins: bool,
    ) -> (req: ApiRequest)
        ensures
            req.url@ == self.api_url@ + "/categories/create"@,
            req.expects == Expected::Created,
            req.body@ == ({
                let m = authenticated(self.api_key@);
                let m = m.insert("boardID"@, FieldModel::Text(board_id@));
                let m = m.insert("name"@, FieldModel::Text(name@));
                let m = m.insert("subscribeAdmins"@, FieldModel::Flag(subscribe_admins));
                let m = overlay(m, "parentID"@, opt_text(parent_id));
                m
            }),
    {
        let mut body = self.base_body();
        body.set_text("boardID", board_id);
        body.set_text("name", name);
        body.set_flag("subscribeAdmins", subscribe_admins);
        body.set_optional_text("parentID", parent_id);
        ApiRequest { url: self.url_for("/categories/create"), body, expects: Expected::Created }
    }

    /// The request that deletes a category.
    pub fn delete_category(&self, category_id: &str) -> (req: ApiRequest)
        ensures
            req.url@ == self.api_url@ + "/categories/delete"@,
            req.expects == Expected::Ack,
            req.body@ == ({
                let m = authenticated(self.api_key@);
                let m = m.insert("categoryID"@, FieldModel::Text(category_id@));
                m
            }),
    {
        let mut body = self.base_body();
        body.set_text("categoryID", category_id);
        ApiRequest { url: self.url_for("/categories/delete"), body, expects: Expected::Ack }
    }

    /// The request that fetches a single page of users using cursor pagination.
    /// The users listing is served under the second API version.
    pub fn fetch_users_page(&self, cursor: Option<&str>, limit: u32) -> (req: ApiRequest)
        ensures
            req.url@ == second_version(self.api_url@) + "/users/list"@,
            req.expects == Expected::CursorPage(Resource::User),
            req.body@ == ({
                let m = authenticated(self.api_key@);
                let m = m.insert("limit"@, FieldModel::Number(limit));
                let m = overlay(m, "cursor"@, opt_text(cursor));
                m
            }),
    {
        let mut body = self.base_body();
        body.set_number("limit", limit);
        body.set_optional_text("cursor", cursor);
        ApiRequest { url: self.second_version_url("/users/list"), body, expects: Expected::CursorPage(Resource::User) }
    }

    /// The request that retrieves a user by ID or email.
    pub fn get_user(&self, id: Option<&str>, email: Option<&str>) -> (req: ApiRequest)
        ensures
            req.url@ == self.api_url@ + "/users/retrieve"@,
            req.expects == Expected::LenientRecord,
            req.body@ == ({
                let m = authenticated(self.api_key@);
                let m = overlay(m, "id"@, opt_text(id));
                let m = overlay(m, "email"@, opt_text(email));
                m
            }),
    {
        let mut body = self.base_body();
        body.set_optional_text("id", id);
        body.set_optional_text("email", email);
        ApiRequest { url: self.url_for("/users/retrieve"), body, expects: Expected::LenientRecord }
    }

    /// The request that creates or updates a user.
    pub fn create_or_update_user(
        &self,
        user_id: &str,
        email: &str,
        id: Option<&str>,
        name: Option<&str>,
        avatar_url: Option<&str>,
        created: Option<&str>,
        company_id: Option<&str>,
        custom_fields: Option<serde_json::Value>,
    ) -> (req: ApiRequest)
        ensures
            req.url@ == self.api_url@ + "/users/create_or_update"@,
            req.expects == Expected::Created,
            req.body@ == ({
                let m = authenticated(self.api_key@);
                let m = m.insert("userID"@, FieldModel::Text(user_id@));
                let m = m.insert("email"@, FieldModel::Text(email@));
                let m = overlay(m, "id"@, opt_text(id));
                let m = overlay(m, "name"@, opt_text(name));
                let m = overlay(m, "avatarURL"@, opt_text(avatar_url));
                let m = overlay(m, "created"@, opt_text(created));
                let m = overlay(m, "companyID"@, opt_text(company_id));
                let m = overlay(m, "customFields"@, opt_json(custom_fields));
                m
            }),
    {
        let mut body = self.base_body();
        body.set_text("userID", user_id);
        body.set_text("email", email);
        body.set_optional_text("id", id);
        body.set_optional_text("name", name);
        body.set_optional_text("avatarURL", avatar_url);
        body.set_optional_text("created", created);
        body.set_optional_text("companyID", company_id);
        body.set_optional_json("customFields", custom_fields);
        ApiRequest { url: self.url_for("/users/create_or_update"), body, expects: Expected::Created }
    }

    /// The request that deletes a user by ID.
    pub fn delete_user(&self, user_id: &str) -> (req: ApiRequest)
        ensures
            req.url@ == self.api_url@ + "/users/delete"@,
            req.expects == Expected::Ack,
            req.body@ == ({
                let m = authenticated(self.api_key@);
                let m = m.insert("userID"@, FieldModel::Text(user_id@));
                m
            }),
    {
        let mut body = self.base_body();
        body.set_text("userID", user_id);
        ApiRequest { url: self.url_for("/users/delete"), body, expects: Expected::Ack }
    }

    /// The request that finds a user by ID, email, or name.
    pub fn find_user(
        &self,
        user_id: Option<&str>,
        email: Option<&str>,
        name: Option<&str>,
    ) -> (req: ApiRequest)
        ensures
            req.url@ == self.api_url@ + "/users/find"@,
            req.expects == Expected::Resource(Resource::User),
            req.body@ == ({
                let m = authenticated(self.api_key@);
                let m = overlay(m, "userID"@, opt_text(user_id));
                let m = overlay(m, "email"@, opt_text(email));
                let m = overlay(m, "name"@, opt_text(name));
                m
            }),
    {
        let mut body = self.base_body();
        body.set_optional_text("userID", user_id);
        body.set_optional_text("email", email);
        body.set_optional_text("name", name);
        ApiRequest { url: self.url_for("/users/find"), body, expects: Expected::Resource(Resource::User) }
    }

    /// The request that removes a user from a company.
    pub fn remove_user_from_company(&self, user_id: &str, company_id: &str) -> (req: ApiRequest)
        ensures
            req.url@ == self.api_url@ + "/users/remove_from_company"@,
            req.expects == Expected::Ack,
            req.body@ == ({
                let m = authenticated(self.api_key@);
                let m = m.insert("userID"@, FieldModel::Text(user_id@));
                let m = m.insert("companyID"@, FieldModel::Text(company_id@));
                m
            }),
    {
        let mut body = self.base_body();
        body.set_text("userID", user_id);
        body.set_text("companyID", company_id);
        ApiRequest { url: self.url_for("/users/remove_from_company"), body, expects: Expected::Ack }
    }

    /// The request that lists all boards.
    pub fn list_boards(&self) -> (req: ApiRequest)
        ensures
            req.url@ == self.api_url@ + "/boards/list"@,
            req.expects == Expected::Listing(Resource::Board),
            req.body@ == authenticated(self.api_key@),
    {
        let body = self.base_body();
        ApiRequest { url: self.url_for("/boards/list"), body, expects: Expected::Listing(Resource::Board) }
    }

    /// The request that retrieves a single board by ID.
    pub fn get_board(&self, board_id: &str) -> (req: ApiRequest)
        ensures
            req.url@ == self.api_url@ + "/boards/retrieve"@,
            req.expects == Expected::Resource(Resource::Board),
            req.body@ == ({
                let m = authenticated(self.api_key@);
                let m = m.insert("id"@, FieldModel::Text(board_id@));
                m
            }),
    {
        let mut body = self.base_body();
        body.set_text("id", board_id);
        ApiRequest { url: self.url_for("/boards/retrieve"), body, expects: Expected::Resource(Resource::Board) }
    }

    /// The request that creates a new board.
    pub fn create_board(&self, name: &str) -> (req: ApiRequest)
        ensures
            req.url@ == self.api_url@ + "/boards/create"@,
            req.expects == Expected::Created,
            req.body@ == ({
                let m = authenticated(self.api_key@);
                let m = m.insert("name"@, FieldModel::Text(name@));
                m
            }),
    {
        let mut body = self.base_body();
        body.set_text("name", name);
        ApiRequest { url: self.url_for("/boards/create"), body, expects: Expected::Created }
    }

    /// The request that deletes a board by ID.
    pub fn delete_board(&self, board_id: &str) -> (req: ApiRequest)
        ensures
            req.url@ == self.api_url@ + "/boards/delete"@,
            req.expects == Expected::Ack,
            req.body@ == ({
                let m = authenticated(self.api_key@);
                let m = m.insert("id"@, FieldModel::Text(board_id@));
                m
            }),
    {
        let mut body = self.base_body();
        body.set_text("id", board_id);
        ApiRequest { url: self.url_for("/boards/delete"), body, expects: Expected::Ack }
    }

    /// The request that lists tags for a board.
    pub fn list_tags(
        &self,
        board_id: &str,
        limit: Option<u32>,
        skip: Option<u32>,
    ) -> (req: ApiRequest)
        ensures
            req.url@ == self.api_url@ + "/tags/list"@,
            req.expects == Expected::Page(Resource::Tag),
            req.body@ == ({
                let m = authenticated(self.api_key@);
                let m = m.insert("boardID"@, FieldModel::Text(board_id@));
                let m = overlay(m, "limit"@, opt_number(limit));
                let m = overlay(m, "skip"@, opt_number(skip));
                m
            }),
    {
        let mut body = self.base_body();
        body.set_text("boardID", board_id);
        body.set_optional_number("limit", limit);
        body.set_optional_number("skip", skip);
        ApiRequest { url: self.url_for("/tags/list"), body, expects: Expected::Page(Resource::Tag) }
    }

    /// The request that retrieves a single tag by ID.
    pub fn get_tag(&self, tag_id: &str) -> (req: ApiRequest)
        ensures
            req.url@ == self.api_url@ + "/tags/retrieve"@,
            req.expects == Expected::Resource(Resource::Tag),
            req.body@ == ({
                let m = authenticated(self.api_key@);
                let m = m.insert("id"@, FieldModel::Text(tag_id@));
                m
            }),
    {
        let mut body = self.base_body();
        body.set_text("id", tag_id);
        ApiRequest { url: self.url_for("/tags/retrieve"), body, expects: Expected::Resource(Resource::Tag) }
    }

    /// The request that creates a new tag.
    pub fn create_tag(&self, board_id: &str, name: &str) -> (req: ApiRequest)
        ensures
            req.url@ == self.api_url@ + "/tags/create"@,
            req.expects == Expected::Created,
            req.body@ == ({
                let m = authenticated(self.api_key@);
                let m = m.insert("boardID"@, FieldModel::Text(board_id@));
                let m = m.insert("name"@, FieldModel::Text(name@));
                m
            }),
    {
        let mut body = self.base_body();
        body.set_text("boardID", board_id);
        body.set_text("name", name);
        ApiRequest { url: self.url_for("/tags/create"), body, expects: Expected::Created }
    }

    /// The request that deletes a tag.
    pub fn delete_tag(&self, tag_id: &str) -> (req: ApiRequest)
        ensures
            req.url@ == self.api_url@ + "/tags/delete"@,
            req.expects == Expected::Ack,
            req.body@ == ({
                let m = authenticated(self.api_key@);
                let m = m.insert("tagID"@, FieldModel::Text(tag_id@));
                m
            }),
    {
        let mut body = self.base_body();
        body.set_text("tagID", tag_id);
        ApiRequest { url: self.url_for("/tags/delete"), body, expects: Expected::Ack }
    }

    /// The request that lists companies, one cursor-paginated page at a time.
    /// The companies listing is served under the second API version.
    pub fn list_companies(
        &self,
        limit: Option<u32>,
        cursor: Option<&str>,
        search: Option<&str>,
        segment: Option<&str>,
    ) -> (req: ApiRequest)
        ensures
            req.url@ == second_version(self.api_url@) + "/companies/list"@,
            req.expects == Expected::CursorPage(Resource::Company),
            req.body@ == ({
                let m = authenticated(self.api_key@);
                let m = overlay(m, "limit"@, opt_number(limit));
                let m = overlay(m, "cursor"@, opt_text(cursor));
                let m = overlay(m, "search"@, opt_text(search));
                let m = overlay(m, "segment"@, opt_text(segment));
                m
            }),
    {
        let mut body = self.base_body();
        body.set_optional_number("limit", limit);
        body.set_optional_text("cursor", cursor);
        body.set_optional_text("search", search);
        body.set_optional_text("segment", segment);
        ApiRequest { url: self.second_version_url("/companies/list"), body, expects: Expected::CursorPage(Resource::Company) }
    }

    /// The request that updates a company.  The monthly spend is passed as a JSON number.
    pub fn update_company(
        &self,
        company_id: &str,
        name: Option<&str>,
        monthly_spend: Option<serde_json::Value>,
        custom_fields: Option<serde_json::Value>,
        created: Option<&str>,
    ) -> (req: ApiRequest)
        ensures
            req.url@ == self.api_url@ + "/companies/update"@,
            req.expects == Expected::Ack,
            req.body@ == ({
                let m = authenticated(self.api_key@);
                let m = m.insert("id"@, FieldModel::Text(company_id@));
                let m = overlay(m, "name"@, opt_text(name));
                let m = overlay(m, "monthlySpend"@, opt_json(monthly_spend));
                let m = overlay(m, "customFields"@, opt_json(custom_fields));
                let m = overlay(m, "created"@, opt_text(created));
                m
            }),
    {
        let mut body = self.base_body();
        body.set_text("id", company_id);
        body.set_optional_text("name", name);
        body.set_optional_json("monthlySpend", monthly_spend);
        body.set_optional_json("customFields", custom_fields);
        body.set_optional_text("created", created);
        ApiRequest { url: self.url_for("/companies/update"), body, expects: Expected::Ack }
    }

    /// The request that deletes a company by ID.
    pub fn delete_company(&self, company_id: &str) -> (req: ApiRequest)
        ensures
            req.url@ == self.api_url@ + "/companies/delete"@,
            req.expects == Expected::Ack,
            req.body@ == ({
                let m = authenticated(self.api_key@);
                let m = m.insert("id"@, FieldModel::Text(company_id@));
                m
            }),
    {
        let mut body = self.base_body();
        body.set_text("id", company_id);
        ApiRequest { url: self.url_for("/companies/delete"), body, expects: Expected::Ack }
    }

    /// The request that retrieves a single company by ID.
    pub fn get_company(&self, company_id: &str) -> (req: ApiRequest)
        ensures
            req.url@ == self.api_url@ + "/companies/retrieve"@,
            req.expects == Expected::Resource(Resource::Company),
            req.body@ == ({
                let m = authenticated(self.api_key@);
                let m = m.insert("id"@, FieldModel::Text(company_id@));
                m
            }),
    {
        let mut body = self.base_body();
        body.set_text("id", company_id);
        ApiRequest { url: self.url_for("/companies/retrieve"), body, expects: Expected::Resource(Resource::Company) }
    }

    /// The request that lists votes for a post or user.
    pub fn list_votes(
        &self,
        post_id: Option<&str>,
        user_id: Option<&str>,
        limit: Option<u32>,
        skip: Option<u32>,
    ) -> (req: ApiRequest)
        ensures
            req.url@ == self.api_url@ + "/votes/list"@,
            req.expects == Expected::Page(Resource::Vote),
            req.body@ == ({
                let m = authenticated(self.api_key@);
                let m = overlay(m, "postID"@, opt_text(post_id));
                let m = overlay(m, "userID"@, opt_text(user_id));
                let m = overlay(m, "limit"@, opt_number(limit));
                let m = overlay(m, "skip"@, opt_number(skip));
                m
            }),
    {
        let mut body = self.base_body();
        body.set_optional_text("postID", post_id);
        body.set_optional_text("userID", user_id);
        body.set_optional_number("limit", limit);
        body.set_optional_number("skip", skip);
        ApiRequest { url: self.url_for("/votes/list"), body, expects: Expected::Page(Resource::Vote) }
    }

    /// The request that retrieves a single vote by ID.
    pub fn get_vote(&self, vote_id: &str) -> (req: ApiRequest)
        ensures
            req.url@ == self.api_url@ + "/votes/retrieve"@,
            req.expects == Expected::Resource(Resource::Vote),
            req.body@ == ({
                let m = authenticated(self.api_key@);
                let m = m.insert("id"@, FieldModel::Text(vote_id@));
                m
            }),
    {
        let mut body = self.base_body();
        body.set_text("id", vote_id);
        ApiRequest { url: self.url_for("/votes/retrieve"), body, expects: Expected::Resource(Resource::Vote) }
    }

    /// The request that creates a vote on a post.
    pub fn create_vote(&self, post_id: &str, user_id: &str) -> (req: ApiRequest)
        ensures
            req.url@ == self.api_url@ + "/votes/create"@,
            req.expects == Expected::Ack,
            req.body@ == ({
                let m = authenticated(self.api_key@);
                let m = m.insert("postID"@, FieldModel::Text(post_id@));
                let m = m.insert("userID"@, FieldModel::Text(user_id@));
                m
            }),
    {
        let mut body = self.base_body();
        body.set_text("postID", post_id);
        body.set_text("userID", user_id);
        ApiRequest { url: self.url_for("/votes/create"), body, expects: Expected::Ack }
    }

    /// The request that deletes a vote by ID.
    pub fn delete_vote(&self, vote_id: &str) -> (req: ApiRequest)
        ensures
            req.url@ == self.api_url@ + "/votes/delete"@,
            req.expects == Expected::Ack,
            req.body@ == ({
                let m = authenticated(self.api_key@);
                let m = m.insert("voteID"@, FieldModel::Text(vote_id@));
                m
            }),
    {
        let mut body = self.base_body();
        body.set_text("voteID", vote_id);
        ApiRequest { url: self.url_for("/votes/delete"), body, expects: Expected::Ack }
    }

    /// The request that lists status changes for a board.
    pub fn list_status_changes(
        &self,
        board_id: &str,
        limit: Option<u32>,
        skip: Option<u32>,
    ) -> (req: ApiRequest)
        ensures
            req.url@ == self.api_url@ + "/status_changes/list"@,
            req.expects == Expected::Page(Resource::StatusChange),
            req.body@ == ({
                let m = authenticated(self.api_key@);
                let m = m.insert("boardID"@, FieldModel::Text(board_id@));
                let m = overlay(m, "limit"@, opt_number(limit));
                let m = overlay(m, "skip"@, opt_number(skip));
                m
            }),
    {
        let mut body = self.base_body();
        body.set_text("boardID", board_id);
        body.set_optional_number("limit", limit);
        body.set_optional_number("skip", skip);
        ApiRequest { url: self.url_for("/status_changes/list"), body, expects: Expected::Page(Resource::StatusChange) }
    }

    /// The request that lists changelog entries.
    pub fn list_entries(
        &self,
        limit: Option<u32>,
        skip: Option<u32>,
        entry_type: Option<&str>,
        label_ids: Option<Vec<String>>,
        sort: Option<&str>,
    ) -> (req: ApiRequest)
        ensures
            req.url@ == self.api_url@ + "/entries/list"@,
            req.expects == Expected::Page(Resource::Entry),
            req.body@ == ({
                let m = authenticated(self.api_key@);
                let m = overlay(m, "limit"@, opt_number(limit));
                let m = overlay(m, "skip"@, opt_number(skip));
                let m = overlay(m, "type"@, opt_text(entry_type));
                let m = overlay(m, "labelIDs"@, opt_list(label_ids));
                let m = overlay(m, "sort"@, opt_text(sort));
                m
            }),
    {
        let mut body = self.base_body();
        body.set_optional_number("limit", limit);
        body.set_optional_number("skip", skip);
        body.set_optional_text("type", entry_type);
        body.set_optional_list("labelIDs", label_ids);
        body.set_optional_text("sort", sort);
        ApiRequest { url: self.url_for("/entries/list"), body, expects: Expected::Page(Resource::Entry) }
    }

    /// The request that retrieves a single changelog entry by ID.
    pub fn get_entry(&self, entry_id: &str) -> (req: ApiRequest)
        ensures
            req.url@ == self.api_url@ + "/entries/retrieve"@,
            req.expects == Expected::Resource(Resource::Entry),
            req.body@ == ({
                let m = authenticated(self.api_key@);
                let m = m.insert("id"@, FieldModel::Text(entry_id@));
                m
            }),
    {
        let mut body = self.base_body();
        body.set_text("id", entry_id);
        ApiRequest { url: self.url_for("/entries/retrieve"), body, expects: Expected::Resource(Resource::Entry) }
    }

    /// The request that deletes a changelog entry by ID.
    pub fn delete_entry(&self, entry_id: &str) -> (req: ApiRequest)
        ensures
            req.url@ == self.api_url@ + "/entries/delete"@,
            req.expects == Expected::Ack,
            req.body@ == ({
                let m = authenticated(self.api_key@);
                let m = m.insert("entryID"@, FieldModel::Text(entry_id@));
                m
            }),
    {
        let mut body = self.base_body();
        body.set_text("entryID", entry_id);
        ApiRequest { url: self.url_for("/entries/delete"), body, expects: Expected::Ack }
    }

    /// The request that creates a changelog entry.
    pub fn create_entry(
        &self,
        title: &str,
        details: Option<&str>,
        entry_type: Option<&str>,
        published: Option<bool>,
        notify: Option<bool>,
        post_ids: Option<Vec<String>>,
        label_ids: Option<Vec<String>>,
        published_on: Option<&str>,
        scheduled_for: Option<&str>,
    ) -> (req: ApiRequest)
        ensures
            req.url@ == self.api_url@ + "/entries/create"@,
            req.expects == Expected::Created,
            req.body@ == ({
                let m = authenticated(self.api_key@);
                let m = m.insert("title"@, FieldModel::Text(title@));
                let m = overlay(m, "details"@, opt_text(details));
                let m = overlay(m, "type"@, opt_text(entry_type));
                let m = overlay(m, "published"@, opt_flag(published));
                let m = overlay(m, "notify"@, opt_flag(notify));
                let m = overlay(m, "postIDs"@, opt_list(post_ids));
                let m = overlay(m, "labelIDs"@, opt_list(label_ids));
                let m = overlay(m, "publishedOn"@, opt_text(published_on));
                let m = overlay(m, "scheduledFor"@, opt_text(scheduled_for));
                m
            }),
    {
        let mut body = self.base_body();
        body.set_text("title", title);
        body.set_optional_text("details", details);
        body.set_optional_text("type", entry_type);
        body.set_optional_flag("published", published);
        body.set_optional_flag("notify", notify);
        body.set_optional_list("postIDs", post_ids);
        body.set_optional_list("labelIDs", label_ids);
        body.set_optional_text("publishedOn", published_on);
        body.set_optional_text("scheduledFor", scheduled_for);
        ApiRequest { url: self.url_for("/entries/create"), body, expects: Expected::Created }
    }

    /// The request that updates a changelog entry.
    pub fn update_entry(
        &self,
        entry_id: &str,
        title: Option<&str>,
        details: Option<&str>,
        entry_type: Option<&str>,
        published: Option<bool>,
        notify: Option<bool>,
        label_ids: Option<Vec<String>>,
    ) -> (req: ApiRequest)
        ensures
            req.url@ == self.api_url@ + "/entries/update"@,
            req.expects == Expected::Ack,
            req.body@ == ({
                let m = authenticated(self.api_key@);
                let m = m.insert("entryID"@, FieldModel::Text(entry_id@));
                let m = overlay(m, "title"@, opt_text(title));
                let m = overlay(m, "details"@, opt_text(details));
                let m = overlay(m, "type"@, opt_text(entry_type));
                let m = overlay(m, "published"@, opt_flag(published));
                let m = overlay(m, "notify"@, opt_flag(notify));
                let m = overlay(m, "labelIDs"@, opt_list(label_ids));
                m
            }),
    {
        let mut body = self.base_body();
        body.set_text("entryID", entry_id);
        body.set_optional_text("title", title);
        body.set_optional_text("details", details);
        body.set_optional_text("type", entry_type);
        body.set_optional_flag("published", published);
        body.set_optional_flag("notify", notify);
        body.set_optional_list("labelIDs", label_ids);
        ApiRequest { url: self.url_for("/entries/update"), body, expects: Expected::Ack }
    }

    /// The request that lists opportunities for a post.
    pub fn list_opportunities(
        &self,
        post_id: &str,
        limit: Option<u32>,
        skip: Option<u32>,
    ) -> (req: ApiRequest)
        ensures
            req.url@ == self.api_url@ + "/opportunities/list"@,
            req.expects == Expected::Page(Resource::Opportunity),
            req.body@ == ({
                let m = authenticated(self.api_key@);
                let m = m.insert("postID"@, FieldModel::Text(post_id@));
                let m = overlay(m, "limit"@, opt_number(limit));
                let m = overlay(m, "skip"@, opt_number(skip));
                m
            }),
    {
        let mut body = self.base_body();
        body.set_text("postID", post_id);
        body.set_optional_number("limit", limit);
        body.set_optional_number("skip", skip);
        ApiRequest { url: self.url_for("/opportunities/list"), body, expects: Expected::Page(Resource::Opportunity) }
    }

    /// The request that lists groups.
    pub fn list_groups(&self, limit: Option<u32>, cursor: Option<&str>) -> (req: ApiRequest)
        ensures
            req.url@ == self.api_url@ + "/groups/list"@,
            req.expects == Expected::Page(Resource::Group),
            req.body@ == ({
                let m = authenticated(self.api_key@);
                let m = overlay(m, "limit"@, opt_number(limit));
                let m = overlay(m, "cursor"@, opt_text(cursor));
                m
            }),
    {
        let mut body = self.base_body();
        body.set_optional_number("limit", limit);
        body.set_optional_text("cursor", cursor);
        ApiRequest { url: self.url_for("/groups/list"), body, expects: Expected::Page(Resource::Group) }
    }

    /// The request that retrieves a single group by ID or URL name.
    pub fn get_group(&self, group_id: Option<&str>, url_name: Option<&str>) -> (req: ApiRequest)
        ensures
            req.url@ == self.api_url@ + "/groups/retrieve"@,
            req.expects == Expected::Resource(Resource::Group),
            req.body@ == ({
                let m = authenticated(self.api_key@);
                let m = overlay(m, "id"@, opt_text(group_id));
                let m = overlay(m, "urlName"@, opt_text(url_name));
                m
            }),
    {
        let mut body = self.base_body();
        body.set_optional_text("id", group_id);
        body.set_optional_text("urlName", url_name);
        ApiRequest { url: self.url_for("/groups/retrieve"), body, expects: Expected::Resource(Resource::Group) }
    }

    /// The request that lists insights.
    pub fn list_insights(
        &self,
        limit: Option<u32>,
        cursor: Option<&str>,
        idea_id: Option<&str>,
    ) -> (req: ApiRequest)
        ensures
            req.url@ == self.api_url@ + "/insights/list"@,
            req.expects == Expected::Page(Resource::Insight),
            req.body@ == ({
                let m = authenticated(self.api_key@);
                let m = overlay(m, "limit"@, opt_number(limit));
                let m = overlay(m, "cursor"@, opt_text(cursor));
                let m = overlay(m, "ideaID"@, opt_text(idea_id));
                m
            }),
    {
        let mut body = self.base_body();
        body.set_optional_number("limit", limit);
        body.set_optional_text("cursor", cursor);
        body.set_optional_text("ideaID", idea_id);
        ApiRequest { url: self.url_for("/insights/list"), body, expects: Expected::Page(Resource::Insight) }
    }

    /// The request that retrieves a single insight by ID.
    pub fn get_insight(&self, insight_id: &str) -> (req: ApiRequest)
        ensures
            req.url@ == self.api_url@ + "/insights/retrieve"@,
            req.expects == Expected::Resource(Resource::Insight),
            req.body@ == ({
                let m = authenticated(self.api_key@);
                let m = m.insert("id"@, FieldModel::Text(insight_id@));
                m
            }),
    {
        let mut body = self.base_body();
        body.set_text("id", insight_id);
        ApiRequest { url: self.url_for("/insights/retrieve"), body, expects: Expected::Resource(Resource::Insight) }
    }

    /// The request that lists ideas.
    pub fn list_ideas(
        &self,
        limit: Option<u32>,
        cursor: Option<&str>,
        parent_id: Option<&str>,
        search: Option<&str>,
    ) -> (req: ApiRequest)
        ensures
            req.url@ == self.api_url@ + "/ideas/list"@,
            req.expects == Expected::Page(Resource::Idea),
            req.body@ == ({
                let m = authenticated(self.api_key@);
                let m = overlay(m, "limit"@, opt_number(limit));
                let m = overlay(m, "cursor"@, opt_text(cursor));
                let m = overlay(m, "parentID"@, opt_text(parent_id));
                let m = overlay(m, "search"@, opt_text(search));
                m
            }),
    {
        let mut body = self.base_body();
        body.set_optional_number("limit", limit);
        body.set_optional_text("cursor", cursor);
        body.set_optional_text("parentID", parent_id);
        body.set_optional_text("search", search);
        ApiRequest { url: self.url_for("/ideas/list"), body, expects: Expected::Page(Resource::Idea) }
    }

    /// The request that retrieves a single idea by ID or URL name.
    pub fn get_idea(&self, idea_id: Option<&str>, url_name: Option<&str>) -> (req: ApiRequest)
        ensures
            req.url@ == self.api_url@ + "/ideas/retrieve"@,
            req.expects == Expected::Resource(Resource::Idea),
            req.body@ == ({
                let m = authenticated(self.api_key@);
                let m = overlay(m, "id"@, opt_text(idea_id));
                let m = overlay(m, "urlName"@, opt_text(url_name));
                m
            }),
    {
        let mut body = self.base_body();
        body.set_optional_text("id", idea_id);
        body.set_optional_text("urlName", url_name);
        ApiRequest { url: self.url_for("/ideas/retrieve"), body, expects: Expected::Resource(Resource::Idea) }
    }

    /// The request that enqueues feedback for autopilot processing.
    pub fn enqueue_autopilot_feedback(
        &self,
        feedback: &str,
        user_id: &str,
        source_url: Option<&str>,
    ) -> (req: ApiRequest)
        ensures
            req.url@ == self.api_url@ + "/autopilot/enqueue"@,
            req.expects == Expected::Created,
            req.body@ == ({
                let m = authenticated(self.api_key@);
                let m = m.insert("feedback"@, FieldModel::Text(feedback@));
                let m = m.insert("userID"@, FieldModel::Text(user_id@));
                let m = overlay(m, "sourceURL"@, opt_text(source_url));
                m
            }),
    {
        let mut body = self.base_body();
        body.set_text("feedback", feedback);
        body.set_text("userID", user_id);
        body.set_optional_text("sourceURL", source_url);
        ApiRequest { url: self.url_for("/autopilot/enqueue"), body, expects: Expected::Created }
    }

}

} // verus!
