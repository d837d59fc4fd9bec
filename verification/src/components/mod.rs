//! Interactive component state held by the host between frames.

pub mod columns;
pub mod flex;
pub mod form;
pub mod form_layout;
pub mod keyed_table;
pub mod keyed_table_layout;
pub mod md_flatten;
pub mod select;
pub mod select_list;
pub mod window;

pub use form::{FormOutcome, FormState};
pub use keyed_table::{KeyedMultiSelectState, KeyedSelectState};
pub use select::{MultiSelectState, SelectNavigation, SelectState};
pub use window::VirtualWindow;
