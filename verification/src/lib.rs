//! The core of a static site generator.
//!
//! A content file is a text with an optional metadata block and a markdown
//! body. [`ingest`] turns one file into one [`article`]: [`front_matter`]
//! splits the text, [`metadata`] reads the block, once [`nesting`] has found
//! it plain enough, and [`markdown`] renders the body. A [`store`] keeps the articles of a pass, no slug twice, and hands
//! them out in chronological order. [`builder`] plans the site from them, as
//! a list of steps for the caller to carry out. In development mode a
//! [`watch`] session decides what a change to the static assets asks for,
//! once [`debounce`] has collapsed the changes that came in a burst.
//!
//! Nothing here touches a file, a clock or a socket: texts, names and
//! instants come in as values, and plans go out.

pub mod article;
pub mod builder;
pub mod config;
pub mod debounce;
pub mod error;
pub mod front_matter;
pub mod ingest;
pub mod markdown;
pub mod metadata;
pub mod nesting;
pub mod store;
pub mod text;
pub mod time;
pub mod watch;
