//! Chapter markup: its node sequence, the layout engine, the outline
//! entries of a book, and syntax highlighting of code blocks.

pub mod blocks;
pub mod code_highlight;
pub mod inline;
pub mod lists;
pub mod markup;
pub mod parser;
pub mod renderer;
pub mod walk;
pub mod wrap;

pub use renderer::render_chapter;
