#![allow(unused_imports)]

pub mod auth;
pub mod clock;
pub mod comment;
pub mod config;
pub mod error;
pub mod listing;
pub mod moderation;
pub mod post;
pub mod projection;
pub mod site_option;
pub mod sql;
pub mod store;
pub mod taxonomy;
pub mod tree;
pub mod utils;
