use vstd::prelude::*;
use crate::blog::{BlogPost, BlogPostStatus};
use crate::domain_error::DomainError;
use crate::timestamp::{utc_display, utc_display_of, utc_timestamp_valid};

verus! {

/// What a preview request carries: the markdown to render.
#[derive(Debug, Clone)]
pub struct PreviewPostData {
    pub markdown: String,
}

/// How pages show a post.
pub trait BlogPostAugmentation {
    spec fn spec_url(&self) -> Seq<char>;

    spec fn spec_published_at_string(&self) -> Seq<char>;

    /// The permalink of the post.
    fn url(&self) -> (r: String)
        ensures
            r@ == self.spec_url(),
    ;

    /// The publication time written out, or nothing for an unpublished post.
    fn published_at_string(&self) -> (r: String)
        ensures
            r@ == self.spec_published_at_string(),
    ;
}

impl BlogPostAugmentation for BlogPost {
    open spec fn spec_url(&self) -> Seq<char> {
        "/blog/"@ + self.url_id@
    }

    open spec fn spec_published_at_string(&self) -> Seq<char> {
        match self.status {
            BlogPostStatus::Published(t) => if utc_timestamp_valid(t as int) {
                utc_display(t as int)
            } else {
                Seq::empty()
            },
            BlogPostStatus::Unpublished => Seq::empty(),
        }
    }

    fn url(&self) -> (r: String) {
        let mut u = String::from_str("/blog/");
        u.append(self.url_id.as_str());
        proof {
            reveal_strlit("/blog/");
        }
        u
    }

    fn published_at_string(&self) -> (r: String) {
        match self.published_at() {
            Some(t) => match utc_display_of(t) {
                Some(s) => s,
                None => String::new(),
            },
            None => String::new(),
        }
    }
}

/// A domain error as the web layer answers it.
#[derive(Debug, Clone)]
pub struct WebError(pub DomainError);

impl WebError {
    /// The HTTP status of the answer: 500 for a fault, 401 for a wrong admin
    /// password, 400 for anything the user can correct.
    pub fn status_code(&self) -> (r: u16)
        ensures
            self.0 is UnexpectedError ==> r == 500,
            self.0 is AdminAuthError ==> r == 401,
            self.0 is UserValidationError || self.0 is InvalidRegistrationToken ==> r == 400,
    {
        match self.0 {
            DomainError::UnexpectedError(_) => 500,
            DomainError::AdminAuthError => 401,
            _ => 400,
        }
    }
}

impl From<DomainError> for WebError {
    fn from(e: DomainError) -> (r: WebError) {
        WebError(e)
    }
}

impl vstd::std_specs::convert::FromSpecImpl<DomainError> for WebError {
    open spec fn obeys_from_spec() -> bool {
        true
    }

    open spec fn from_spec(e: DomainError) -> WebError {
        WebError(e)
    }
}

} // verus!
