//! Texts and numbers of the widgets.

pub mod bookmarks;
pub mod loading;
