use vstd::prelude::*;

verus! {

/// Publication state of a post: published posts carry the second (UTC, from
/// the Unix epoch) at which they were published.
#[derive(Debug, Clone, Copy, PartialEq, Eq, Structural)]
pub enum BlogPostStatus {
    Published(i64),
    Unpublished,
}

/// A stored post. `html` is the rendering of `markdown`.
#[derive(Debug, Clone)]
pub struct BlogPost {
    pub id: i64,
    pub url_id: String,
    pub title: String,
    pub html: String,
    pub markdown: String,
    pub status: BlogPostStatus,
    /// Second (UTC, from the Unix epoch) of the last modification, if any.
    pub updated_at: Option<i64>,
}

impl BlogPost {
    pub open spec fn spec_published_at(&self) -> Option<i64> {
        match self.status {
            BlogPostStatus::Published(t) => Some(t),
            BlogPostStatus::Unpublished => None,
        }
    }

    pub fn is_published(&self) -> (r: bool)
        ensures
            r == (self.status is Published),
    {
        match self.status {
            BlogPostStatus::Published(_) => true,
            BlogPostStatus::Unpublished => false,
        }
    }

    pub fn published_at(&self) -> (r: Option<i64>)
        ensures
            r == self.spec_published_at(),
    {
        match self.status {
            BlogPostStatus::Published(t) => Some(t),
            BlogPostStatus::Unpublished => None,
        }
    }
}

/// What the admin submits to create a post.
#[derive(Debug, Clone)]
pub struct NewBlogPostData {
    pub title: String,
    pub url_id: String,
    pub markdown: String,
    pub publish: bool,
}

} // verus!
