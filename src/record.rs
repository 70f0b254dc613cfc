use vstd::prelude::*;
use crate::blog::{BlogPost, BlogPostStatus};
use crate::domain_error::DomainError;
use crate::timestamp::{is_valid_utc_timestamp, utc_timestamp_valid};

verus! {

/// A post as storage keeps it: the publication flag and times as plain
/// integers (seconds from the Unix epoch).
#[derive(Debug, Clone)]
pub struct BlogPostRecord {
    pub id: i64,
    pub url_id: String,
    pub title: String,
    pub html: String,
    pub markdown: String,
    pub is_published: i64,
    pub published_at: Option<i64>,
    pub updated_at: Option<i64>,
}

/// A record is a consistent post: published (flag 1) only with a publication
/// time, and every time it holds a representable date.
pub open spec fn record_consistent(r: BlogPostRecord) -> bool {
    &&& r.is_published == 1 ==> (r.published_at matches Some(t) && utc_timestamp_valid(t as int))
    &&& r.updated_at matches Some(t) ==> utc_timestamp_valid(t as int)
}

pub open spec fn record_status(r: BlogPostRecord) -> BlogPostStatus {
    if r.is_published == 1 {
        BlogPostStatus::Published(r.published_at->0)
    } else {
        BlogPostStatus::Unpublished
    }
}

fn checked_time(secs: i64, what: &str) -> (r: Result<i64, DomainError>)
    ensures
        r is Ok <==> utc_timestamp_valid(secs as int),
        r matches Ok(t) ==> t == secs,
        r matches Err(e) ==> e is UnexpectedError,
{
    if is_valid_utc_timestamp(secs) {
        Ok(secs)
    } else {
        let mut m = String::from_str(what);
        m.append(" contains invalid data");
        Err(DomainError::UnexpectedError(m))
    }
}

impl BlogPostRecord {
    /// The post that a stored record describes. A record that claims to be
    /// published without a publication time, or that holds a time outside the
    /// representable dates, is a storage fault.
    pub fn try_into_post(self) -> (r: Result<BlogPost, DomainError>)
        ensures
            r is Ok <==> record_consistent(self),
            r matches Err(e) ==> e is UnexpectedError,
            r matches Ok(p) ==> {
                &&& p.id == self.id
                &&& p.url_id == self.url_id
                &&& p.title == self.title
                &&& p.html == self.html
                &&& p.markdown == self.markdown
                &&& p.status == record_status(self)
                &&& p.updated_at == self.updated_at
            },
    {
        let status = if self.is_published == 1 {
            match self.published_at {
                Some(t) => match checked_time(t, "published_at") {
                    Ok(t) => BlogPostStatus::Published(t),
                    Err(e) => {
                        return Err(e);
                    },
                },
                None => {
                    return Err(
                        DomainError::UnexpectedError(
                            String::from_str("is_published is true but published_at is null"),
                        ),
                    );
                },
            }
        } else {
            BlogPostStatus::Unpublished
        };
        let updated_at = match self.updated_at {
            Some(t) => match checked_time(t, "updated_at") {
                Ok(t) => Some(t),
                Err(e) => {
                    return Err(e);
                },
            },
            None => None,
        };
        Ok(
            BlogPost {
                id: self.id,
                url_id: self.url_id,
                title: self.title,
                html: self.html,
                markdown: self.markdown,
                status,
                updated_at,
            },
        )
    }
}

} // verus!
