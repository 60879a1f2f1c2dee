//! Verified core of a feed-tracking and image-library server.
pub mod codec;
pub mod decimal;
pub mod download;
pub mod error;
pub mod feed;
pub mod jobs;
pub mod library;
pub mod panda;
pub mod paths;
pub mod pixiv;
pub mod server;
pub mod text;
pub mod twitter;
