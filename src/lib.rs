//! Content domain of a small single-author publishing system: blog posts and
//! their publication state, the admin credential, and the markdown rendering
//! pipeline that highlights code blocks.
pub mod blog;
pub mod configuration;
pub mod domain_error;
pub mod highlight;
pub mod lines;
pub mod markdown;
pub mod password;
pub mod reader;
pub mod record;
pub mod timestamp;
pub mod syntax;
pub mod web;

pub use blog::{BlogPost, BlogPostStatus, NewBlogPostData};
pub use configuration::Environment;
pub use domain_error::DomainError;
pub use highlight::{highlight, CodeBlock, CodeBlockKind, DocEvent, Highlighter, Step};
pub use lines::lines_with_endings;
pub use markdown::{convert_to_html, convert_to_html_with};
pub use password::{
    admin_login_outcome, check_password_length, identical_passwords, validate_admin_credentials,
    Password,
};
pub use reader::published_posts;
pub use record::BlogPostRecord;
pub use syntax::SyntaxCatalog;
pub use web::{BlogPostAugmentation, PreviewPostData, WebError};
