//! Core logic of the media-vault library: filename parsing, text encoding,
//! masking of secrets, scrape-result merging, query building and the local
//! encrypted configuration store, each stated by a contract and proved.

pub mod text;
pub mod filename_parser;
pub mod error;
pub mod logger;
pub mod url_encoding;
pub mod pan115;
pub mod actress_folder;
pub mod sql;
pub mod actress_listing;
pub mod scrape;
pub mod metatube;
pub mod crypto;
pub mod secure_config;
pub mod scanner;
pub mod html;
pub mod javbus;
pub mod genre_translation;
pub mod jphoo;
pub mod config;
pub mod sources;
pub mod fields;
pub mod pages;
pub mod jav321;
pub mod tmdb;
pub mod records;
pub mod image_cache;
pub mod json_reply;
