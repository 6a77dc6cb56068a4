//! Batch file renaming: each rename option rewrites a file's stem, and a
//! `Renamer` applies the chosen options in a fixed order.

pub mod add;
pub mod batch;
pub mod case;
pub mod date;
pub mod error;
pub mod extension;
pub mod folder;
pub mod name;
pub mod number;
pub mod order;
pub mod reg;
pub mod remove;
pub mod renamer;
pub mod renamer_builder;
pub mod replace;
pub mod text;
pub mod views;
pub mod paths;

pub use case::{Case, CaseOptions};
pub use date::DateOptions;
pub use error::{DirectoryError, FileError, RenamerError};
pub use extension::ExtensionOptions;
pub use folder::FolderOptions;
pub use name::NameOptions;
pub use number::NumberOptions;
pub use reg::RegexOptions;
pub use remove::RemoveOptions;
pub use renamer::{Process, RenameOption, Renamer};
pub use replace::ReplaceOptions;
