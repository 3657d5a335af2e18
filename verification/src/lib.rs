//! Terminal document reader core: markup layout, outline synchronisation,
//! regex search and the reader's navigation state.

pub mod app;
pub mod async_tasks;
pub mod bookmarks;
pub mod cli;
pub mod constants;
pub mod decimal;
pub mod epub;
pub mod error;
pub mod expand;
pub mod persistence;
pub mod search;
pub mod text;
pub mod toc;
pub mod types;
pub mod ui;
