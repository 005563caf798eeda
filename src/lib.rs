//! An interactive picker over the local branches of a version-control
//! repository: reading the branch listing, mapping key presses to actions,
//! moving the selection, recording the outcome of delete attempts and laying
//! out the text of each frame. Running the commands and driving the terminal
//! are left to the caller.

pub mod branch;
pub mod keys;
pub mod listing;
pub mod picker;
pub mod render;

pub use branch::Branch;
pub use keys::{Action, DeleteMode, Key, key_to_action};
pub use listing::{branches_from_output, max_branch_name_len, parse_listing};
pub use picker::{BranchPicker, PickerView, Step};
pub use render::{branch_row_line, help_lines};
