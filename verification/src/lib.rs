//! Verified core of a static site generator for music catalogs: the
//! catalog directory scanner and the roles of its directories, track
//! metadata parsing and filename heuristics, the ordering, titling and
//! artist mapping of releases, permalink validation, cache maintenance,
//! transcoding arguments, manifest diagnostics, and the construction of
//! links, image attributes, head tags, feeds, playlists and plain text
//! renderings.

pub mod artist_manifest;
pub mod artist_mapping;
pub mod asset;
pub mod audio_format;
pub mod audio_meta;
pub mod cache;
pub mod catalog;
pub mod catalog_dirs;
pub mod cover_generator;
pub mod deploy;
pub mod downloads;
pub mod fair_dir;
pub mod favicon;
pub mod ffmpeg;
pub mod feeds;
pub mod heuristic_audio_meta;
pub mod html;
pub mod id3_util;
pub mod image;
pub mod image_option;
pub mod link;
pub mod link_option;
pub mod locale;
pub mod m3u;
pub mod manifest;
pub mod markdown;
pub mod obsolete_options;
pub mod opengraph;
pub mod permalink;
pub mod release_dir;
pub mod release_manifest;
pub mod release_pages;
pub mod render;
pub mod text;
pub mod theme_option;
pub mod track_options;
