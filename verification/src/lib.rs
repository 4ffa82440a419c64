//! Helpers for working with the Arch User Repository: splitting package
//! lists between the sync repositories and the AUR, and turning the news
//! feed's markup into plain, structured text.

pub mod comments;
pub mod entity;
pub mod error;
pub mod markup;
pub mod news;
pub mod split;
pub mod text;

pub use crate::comments::Comment;
pub use crate::error::AurError;
pub use crate::news::{Content, FeedItem, News, NewsItem, Span};
pub use crate::split::{
    split_repo_aur_mode, split_repo_aur_pkgs, split_repo_aur_targets, Mode, Targ,
};
