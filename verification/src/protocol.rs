//! What a handler asks its surroundings to do (an [`Action`]) and what comes
//! back (an [`Event`]).
//!
//! Each handler is a state machine: a start function gives its first state and
//! action, and `step` takes the event that answers the last action to the next
//! state and action. The caller performs every action (a Redis command, a
//! database query, a JSON conversion, a template render) and stops at
//! [`Action::Respond`] or [`Action::Abort`].

use vstd::prelude::*;
use crate::post::{NewPost, Post};

verus! {

/// What a Redis command answered.
#[derive(Debug, Clone, PartialEq, Eq)]
pub enum CacheReply {
    /// A bulk string: the stored bytes.
    Bulk(Vec<u8>),
    /// Any other reply (nil on a miss, a status, an integer, ...).
    Other,
}

/// The answer to the last action.
#[derive(Debug, Clone, PartialEq, Eq)]
pub enum Event {
    /// The cache answered the command.
    CacheAnswered(CacheReply),
    /// The cache reported an error for the command.
    CacheRejected,
    /// The command never reached the cache.
    CacheUnreachable,
    /// Cached text read as JSON posts, `None` when it is not such JSON.
    PostsDecoded(Option<Vec<Post>>),
    /// Cached text read as one JSON post, `None` when it is not such JSON.
    PostDecoded(Option<Post>),
    /// The number of stored posts, `None` on a database error.
    Counted(Option<u64>),
    /// The posts of the requested page, `None` on a database error.
    PageFetched(Option<Vec<Post>>),
    /// The post looked up by id: `None` on a database error, `Some(None)`
    /// when there is no such post.
    PostFound(Option<Option<Post>>),
    /// Whether a post was saved.
    Saved(bool),
    /// Whether a post was deleted.
    Deleted(bool),
    /// The id of the last inserted post, `None` on a database error.
    PostsInserted(Option<i32>),
    /// The rendered page, `None` when the template failed.
    Rendered(Option<String>),
}

/// What a template is rendered with.
#[derive(Debug, Clone, PartialEq, Eq)]
pub enum PageContext {
    /// `posts`, `page`, `posts_per_page` and `num_pages`.
    Index { posts: Vec<Post>, page: u64, posts_per_page: u64, num_pages: u64 },
    /// An empty context.
    Blank,
    /// `post`.
    Edit { post: Post },
    /// `uri`: the path that matched no route.
    NotFound { uri: String },
}

/// The HTTP response that ends a request.
#[derive(Debug, Clone, PartialEq, Eq)]
pub enum Reply {
    /// 200 with a `text/html` body.
    Html(String),
    /// 500 with the body `Template error`.
    TemplateError,
    /// 302 with a `location` header.
    Redirect(String),
    /// 200 with the JSON array of these posts.
    Posts(Vec<Post>),
    /// 200 with this post as JSON.
    Post(Post),
    /// 200 with this text as a JSON string.
    Message(String),
    /// 200 with this number as JSON.
    Id(i32),
}

/// The next thing to do.
#[derive(Debug, Clone, PartialEq, Eq)]
pub enum Action {
    /// `GET key`.
    CacheGet { key: String },
    /// `SETEX key seconds json`, where `json` is these posts as a JSON array.
    CacheSetPosts { key: String, seconds: u64, posts: Vec<Post> },
    /// `SETEX key seconds json`, where `json` is this post as JSON.
    CacheSetPost { key: String, seconds: u64, post: Post },
    /// Read this text as a JSON array of posts; answer with `PostsDecoded`.
    DecodePosts { text: String },
    /// Read this text as one JSON post; answer with `PostDecoded`.
    DecodePost { text: String },
    /// Count the stored posts; answer with `Counted`.
    CountPosts,
    /// Fetch page `page` (from zero) of `page_size` posts in ascending id
    /// order, keeping only posts whose title or text is `LIKE pattern` when
    /// there is a pattern; answer with `PageFetched`.
    FetchPage { pattern: Option<String>, page: u64, page_size: u64 },
    /// Look a post up by id; answer with `PostFound`.
    FindPost { id: i32 },
    /// Insert a post with a fresh id; answer with `Saved`.
    InsertPost { title: String, text: String },
    /// Update the post with this id; answer with `Saved`.
    UpdatePost { id: i32, title: String, text: String },
    /// Delete the post with this id; answer with `Deleted`.
    DeletePost { id: i32 },
    /// Insert all these posts in one statement; answer with `PostsInserted`.
    InsertPosts { rows: Vec<NewPost> },
    /// Render a template; answer with `Rendered`.
    Render { template: String, context: PageContext },
    /// Send this response; the request is over.
    Respond(Reply),
    /// Panic with this message; the request is over.
    Abort { message: String },
}

/// Whether `action` panics with `message`.
pub open spec fn aborts_with(action: Action, message: Seq<char>) -> bool {
    action matches Action::Abort { message: m } && m@ == message
}

/// Whether `action` ends the request: a response or a panic.
pub open spec fn ends_request(action: Action) -> bool {
    action is Respond || action is Abort
}

/// The action that panics with `message`.
pub fn abort(message: &str) -> (action: Action)
    ensures
        aborts_with(action, message@),
{
    let mut m = String::new();
    m.append(message);
    proof {
        assert(m@ =~= message@);
    }
    Action::Abort { message: m }
}

/// The message of a panic on a step that answered something else than the
/// last action asked for.
pub open spec fn unexpected_event_message() -> Seq<char> {
    "unexpected event"@
}

/// The action for an event that does not answer the last action.
pub fn unexpected_event() -> (action: Action)
    ensures
        aborts_with(action, unexpected_event_message()),
{
    abort("unexpected event")
}

/// `%{search}%`: the `LIKE` pattern of texts that contain `search`.
pub open spec fn like_pattern(search: Seq<char>) -> Seq<char> {
    seq!['%'] + search + seq!['%']
}

/// Builds [`like_pattern`].
pub fn contains_pattern(search: &str) -> (pattern: String)
    ensures
        pattern@ == like_pattern(search@),
        pattern@ == seq!['%'] + search@ + seq!['%'],
{
    proof { reveal_strlit("%"); }
    let mut pattern = String::new();
    pattern.append("%");
    pattern.append(search);
    pattern.append("%");
    proof {
        assert(pattern@ =~= like_pattern(search@));
    }
    pattern
}

} // verus!

verus! {

/// The text that `bytes` encode in UTF-8, `None` when they are not UTF-8.
///
/// Trusted: `String::from_utf8` returns `Ok` exactly for valid UTF-8, and then
/// the string holds the decoded characters; the contract states this with
/// vstd's `valid_utf8` and `decode_utf8`.
#[verifier::external_body]
pub(crate) fn utf8_text(bytes: Vec<u8>) -> (text: Option<String>)
    ensures
        text is Some <==> vstd::utf8::valid_utf8(bytes@),
        text matches Some(t) ==> t@ == vstd::utf8::decode_utf8(bytes@),
{
    String::from_utf8(bytes).ok()
}

} // verus!
