//! What the interface decides before anything is painted: how keys map to
//! commands, and the texts of the widgets.

pub mod input_handler;
pub mod layout;
pub mod widgets;

pub use input_handler::handle_key_event;
