//! Media catalog library: parses media file names, builds catalogs of movies and
//! shows, and prepares metadata queries.
#![allow(non_snake_case)]
#![allow(non_camel_case_types)]

pub mod foreign;
pub mod flux;
pub mod text;
pub mod filename;
pub mod paths;
pub mod media_item;
pub mod ffprobe;
pub mod streams;
pub mod api_error;
pub mod api_client;
pub mod tmdb;
pub mod sorting;
pub mod config;
pub mod pattern;
pub mod item_table;
pub mod api_manifest;
pub mod catalog;
pub mod catalog_builder;
pub mod catalog_view;
pub mod tree;
pub mod media_catalog;
pub mod importer;
pub mod json_doc;
pub mod api_query;
pub mod view_state;
pub mod miller;
pub mod prober;
