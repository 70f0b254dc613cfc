use mimir::{
    published_posts, BlogPost, BlogPostAugmentation, BlogPostRecord, BlogPostStatus, DomainError,
    Environment, WebError,
};

fn post(id: i64, url_id: &str, status: BlogPostStatus) -> BlogPost {
    BlogPost {
        id,
        url_id: url_id.to_string(),
        title: format!("title {}", id),
        html: String::new(),
        markdown: String::new(),
        status,
        updated_at: None,
    }
}

fn record(is_published: i64, published_at: Option<i64>, updated_at: Option<i64>) -> BlogPostRecord {
    BlogPostRecord {
        id: 3,
        url_id: "rec".to_string(),
        title: "Record".to_string(),
        html: "<p>x</p>".to_string(),
        markdown: "x".to_string(),
        is_published,
        published_at,
        updated_at,
    }
}

#[test]
fn published_posts_are_sorted_by_time() {
    let posts = vec![
        post(1, "late", BlogPostStatus::Published(200)),
        post(2, "early", BlogPostStatus::Published(100)),
    ];
    let listed = published_posts(posts);
    let times: Vec<Option<i64>> = listed.iter().map(|p| p.published_at()).collect();
    assert_eq!(times, vec![Some(100), Some(200)]);
}

#[test]
fn unpublished_posts_are_left_out() {
    let posts = vec![
        post(1, "draft", BlogPostStatus::Unpublished),
        post(2, "b", BlogPostStatus::Published(50)),
        post(3, "other-draft", BlogPostStatus::Unpublished),
        post(4, "a", BlogPostStatus::Published(10)),
    ];
    let listed = published_posts(posts);
    let ids: Vec<i64> = listed.iter().map(|p| p.id).collect();
    assert_eq!(ids, vec![4, 2]);
    assert!(listed.iter().all(|p| p.is_published()));
    assert!(published_posts(vec![]).is_empty());
}

#[test]
fn equal_times_are_ordered_by_id() {
    let posts = vec![
        post(9, "c", BlogPostStatus::Published(5)),
        post(3, "a", BlogPostStatus::Published(5)),
        post(6, "b", BlogPostStatus::Published(5)),
    ];
    let ids: Vec<i64> = published_posts(posts).iter().map(|p| p.id).collect();
    assert_eq!(ids, vec![3, 6, 9]);
}

#[test]
fn status_accessors() {
    let p = post(1, "x", BlogPostStatus::Published(42));
    assert!(p.is_published());
    assert_eq!(p.published_at(), Some(42));
    let d = post(2, "y", BlogPostStatus::Unpublished);
    assert!(!d.is_published());
    assert_eq!(d.published_at(), None);
}

#[test]
fn post_url_and_time() {
    let p = post(1, "hello-world", BlogPostStatus::Published(0));
    assert_eq!(p.url(), "/blog/hello-world");
    assert_eq!(p.published_at_string(), "1970-01-01 00:00:00 UTC");
    let d = post(2, "draft", BlogPostStatus::Unpublished);
    assert_eq!(d.published_at_string(), "");
}

#[test]
fn record_becomes_post() {
    let p = record(1, Some(86_400), Some(90_000)).try_into_post().unwrap();
    assert_eq!(p.id, 3);
    assert_eq!(p.url_id, "rec");
    assert_eq!(p.title, "Record");
    assert_eq!(p.status, BlogPostStatus::Published(86_400));
    assert_eq!(p.updated_at, Some(90_000));
    let d = record(0, Some(5), None).try_into_post().unwrap();
    assert_eq!(d.status, BlogPostStatus::Unpublished);
}

#[test]
fn inconsistent_records_are_faults() {
    match record(1, None, None).try_into_post() {
        Err(DomainError::UnexpectedError(m)) => {
            assert_eq!(m, "is_published is true but published_at is null")
        }
        other => panic!("unexpected {:?}", other),
    }
    match record(1, Some(i64::MAX), None).try_into_post() {
        Err(DomainError::UnexpectedError(m)) => assert_eq!(m, "published_at contains invalid data"),
        other => panic!("unexpected {:?}", other),
    }
    match record(0, None, Some(i64::MIN)).try_into_post() {
        Err(DomainError::UnexpectedError(m)) => assert_eq!(m, "updated_at contains invalid data"),
        other => panic!("unexpected {:?}", other),
    }
}

#[test]
fn web_error_status_codes() {
    assert_eq!(WebError(DomainError::UnexpectedError("x".to_string())).status_code(), 500);
    assert_eq!(WebError(DomainError::AdminAuthError).status_code(), 401);
    assert_eq!(WebError(DomainError::UserValidationError("x".to_string())).status_code(), 400);
    assert_eq!(WebError::from(DomainError::InvalidRegistrationToken).status_code(), 400);
}

#[test]
fn environments_by_name() {
    assert_eq!(Environment::from_name("local").unwrap(), Environment::Local);
    assert_eq!(Environment::from_name("PRODUCTION").unwrap(), Environment::Production);
    assert_eq!(Environment::Local.as_str(), "local");
    assert_eq!(Environment::Production.as_str(), "production");
    assert_eq!(
        Environment::from_name("Staging").unwrap_err(),
        "staging is not a supported environment. Use either `local` or `production`."
    );
    assert_eq!(Environment::from_lowercase_name("Local"), None);
}
