//! The settings panels of the renaming window: their state, how each message
//! changes it, and the rename option each one describes.

pub mod add_view;
pub mod case_view;
pub mod date_view;
pub mod extension_view;
pub mod files;
pub mod folder_view;
pub mod name_view;
pub mod number_view;
pub mod regex_view;
pub mod remove_view;
pub mod replace_view;

use vstd::prelude::*;

verus! {

/// What a panel asks of the file list after a message: apply its option again,
/// or drop it.
#[derive(Clone, Copy, Debug, PartialEq, Eq, Structural)]
pub enum Action {
    Remove,
    Update,
}

} // verus!
