//! The post entity and the payloads that create and change it.

use vstd::prelude::*;
use vstd::string::*;

verus! {

/// A post as the store holds it. Timestamps are milliseconds since the Unix
/// epoch, in UTC.
#[derive(Debug, PartialEq, Eq)]
pub struct Post {
    pub id: i64,
    pub title: String,
    pub content: String,
    pub author: String,
    pub status: String,
    pub created_at: i64,
    pub updated_at: i64,
}

/// What a post is in contracts: its identifier and timestamps as integers,
/// its texts as sequences of characters.
pub struct PostView {
    pub id: int,
    pub title: Seq<char>,
    pub content: Seq<char>,
    pub author: Seq<char>,
    pub status: Seq<char>,
    pub created_at: int,
    pub updated_at: int,
}

impl View for Post {
    type V = PostView;

    open spec fn view(&self) -> PostView {
        PostView {
            id: self.id as int,
            title: self.title@,
            content: self.content@,
            author: self.author@,
            status: self.status@,
            created_at: self.created_at as int,
            updated_at: self.updated_at as int,
        }
    }
}

impl Clone for Post {
    fn clone(&self) -> (copy: Post)
        ensures
            copy@ == self@,
    {
        Post {
            id: self.id,
            title: self.title.clone(),
            content: self.content.clone(),
            author: self.author.clone(),
            status: self.status.clone(),
            created_at: self.created_at,
            updated_at: self.updated_at,
        }
    }
}

/// The views of a sequence of posts, in the same order.
pub open spec fn post_views(posts: Seq<Post>) -> Seq<PostView> {
    posts.map_values(|post: Post| post@)
}

/// The status that a post is given when none is supplied on creation.
pub open spec fn default_status_text() -> Seq<char> {
    seq!['d', 'r', 'a', 'f', 't']
}

/// The status of a post that was created without one: `"draft"`.
pub fn default_status() -> (status: String)
    ensures
        status@ == default_status_text(),
{
    proof {
        reveal_strlit("draft");
    }
    let status = String::from_str("draft");
    assert(status@ =~= default_status_text());
    status
}

/// The status that a creation ends up with: the one supplied, or the default.
pub open spec fn status_or_default(status: Option<Seq<char>>) -> Seq<char> {
    match status {
        Some(text) => text,
        None => default_status_text(),
    }
}

/// The body of a request that creates a post.
#[derive(Debug, PartialEq, Eq)]
pub struct CreatePost {
    pub title: String,
    pub content: String,
    pub author: String,
    pub status: String,
}

/// A creation request in contracts.
pub struct CreatePostView {
    pub title: Seq<char>,
    pub content: Seq<char>,
    pub author: Seq<char>,
    pub status: Seq<char>,
}

impl View for CreatePost {
    type V = CreatePostView;

    open spec fn view(&self) -> CreatePostView {
        CreatePostView {
            title: self.title@,
            content: self.content@,
            author: self.author@,
            status: self.status@,
        }
    }
}

/// The view of an optional text.
pub open spec fn text_view(field: Option<String>) -> Option<Seq<char>> {
    match field {
        Some(text) => Some(text@),
        None => None,
    }
}

impl CreatePostView {
    /// The creation request with these parts: one without a status asks for
    /// the default status.
    pub open spec fn new(
        title: Seq<char>,
        content: Seq<char>,
        author: Seq<char>,
        status: Option<Seq<char>>,
    ) -> CreatePostView {
        CreatePostView { title, content, author, status: status_or_default(status) }
    }
}

impl CreatePost {
    /// A creation request from its parts. A request without a status asks
    /// for the default one.
    pub fn new(title: String, content: String, author: String, status: Option<String>) -> (payload:
        CreatePost)
        ensures
            payload@ == CreatePostView::new(title@, content@, author@, text_view(status)),
    {
        let status = match status {
            Some(text) => text,
            None => default_status(),
        };
        CreatePost { title, content, author, status }
    }
}

/// The body of a request that changes a post: each field is either supplied
/// or left out.
#[derive(Debug, PartialEq, Eq)]
pub struct UpdatePost {
    pub title: Option<String>,
    pub content: Option<String>,
    pub author: Option<String>,
    pub status: Option<String>,
}

/// A partial update in contracts.
pub struct UpdatePostView {
    pub title: Option<Seq<char>>,
    pub content: Option<Seq<char>>,
    pub author: Option<Seq<char>>,
    pub status: Option<Seq<char>>,
}

/// The text that a field holds after a partial update: the one supplied, or
/// the one it held before.
pub open spec fn supplied_or(field: Option<Seq<char>>, before: Seq<char>) -> Seq<char> {
    match field {
        Some(text) => text,
        None => before,
    }
}

impl View for UpdatePost {
    type V = UpdatePostView;

    open spec fn view(&self) -> UpdatePostView {
        UpdatePostView {
            title: text_view(self.title),
            content: text_view(self.content),
            author: text_view(self.author),
            status: text_view(self.status),
        }
    }
}

impl UpdatePostView {
    /// The post that results when this update is applied to `post` at time
    /// `now`: supplied fields replace the old ones, the others stay, the
    /// identifier and the creation time stay, and the time of the last update
    /// becomes `now`.
    pub open spec fn apply(self, post: PostView, now: int) -> PostView {
        PostView {
            id: post.id,
            title: supplied_or(self.title, post.title),
            content: supplied_or(self.content, post.content),
            author: supplied_or(self.author, post.author),
            status: supplied_or(self.status, post.status),
            created_at: post.created_at,
            updated_at: now,
        }
    }
}

fn merged_text(field: &Option<String>, before: &String) -> (text: String)
    ensures
        text@ == supplied_or(text_view(*field), before@),
{
    match field {
        Some(text) => text.clone(),
        None => before.clone(),
    }
}

impl UpdatePost {
    /// Applies this update to `post` at time `now`.
    pub fn apply(&self, post: &Post, now: i64) -> (merged: Post)
        ensures
            merged@ == self@.apply(post@, now as int),
    {
        Post {
            id: post.id,
            title: merged_text(&self.title, &post.title),
            content: merged_text(&self.content, &post.content),
            author: merged_text(&self.author, &post.author),
            status: merged_text(&self.status, &post.status),
            created_at: post.created_at,
            updated_at: now,
        }
    }
}

} // verus!
