//! A bot that reads links to posts, videos, artworks, music and live rooms, and answers with what
//! is behind them.
//!
//! Everything here is decided from plain values: what a link means, which addresses are asked,
//! what their answers say, how a file is prepared, and what is sent. The programs and the network
//! around it are elsewhere.
#![allow(unused_imports)]

pub mod cache;
pub mod config;
pub mod credentials;
pub mod json;
pub mod laws;
pub mod login;
pub mod media;
pub mod model;
pub mod outside;
pub mod provider;
pub mod storage;
pub mod telegram;
pub mod text;

pub use config::{BilibiliCdnPreference, Config, MediaSpoilerMode};
pub use credentials::RuntimeCredentials;
pub use model::{
    Author, ContentKind, MediaItem, MediaKind, ParseOptions, ParseRequest, ParsedContent, Platform,
    ProviderError, ProviderResult, Stats, DEFAULT_VIDEO_QUALITY,
};
pub use provider::{Provider, ProviderRegistry};
