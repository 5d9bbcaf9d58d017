//! The post record that the service stores, caches and renders.

use vstd::prelude::*;

verus! {

/// A stored post: its key in the `posts` table, its title and its text.
#[derive(Debug, Clone, PartialEq, Eq)]
pub struct Post {
    pub id: i32,
    pub title: String,
    pub text: String,
}

/// The mathematical value of a [`Post`].
pub struct PostView {
    pub id: i32,
    pub title: Seq<char>,
    pub text: Seq<char>,
}

impl View for Post {
    type V = PostView;

    open spec fn view(&self) -> PostView {
        PostView { id: self.id, title: self.title@, text: self.text@ }
    }
}

impl DeepView for Post {
    type V = PostView;

    open spec fn deep_view(&self) -> PostView {
        self@
    }
}

/// A post that is still to be inserted: the table assigns its key.
#[derive(Debug, Clone, PartialEq, Eq)]
pub struct NewPost {
    pub title: String,
    pub text: String,
}

impl Post {
    /// A copy of this post.
    pub fn duplicate(&self) -> (r: Post)
        ensures
            r@ == self@,
    {
        Post { id: self.id, title: self.title.clone(), text: self.text.clone() }
    }
}

/// A copy of a list of posts, in the same order.
pub fn copy_posts(posts: &Vec<Post>) -> (r: Vec<Post>)
    ensures
        r.deep_view() == posts.deep_view(),
{
    let mut r: Vec<Post> = Vec::new();
    for i in 0..posts.len()
        invariant
            r.len() == i,
            forall|j: int| 0 <= j < i ==> #[trigger] r@[j]@ == posts@[j]@,
    {
        r.push(posts[i].duplicate());
    }
    proof {
        assert(r.deep_view() =~= posts.deep_view());
    }
    r
}

} // verus!
