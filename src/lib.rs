//! Locates the local sync folders of a Dropbox client from its configuration
//! record, and resolves paths inside them, both on the local machine and on
//! the remote side.

mod config;
mod error;
mod locate;
mod path;
mod smart_path;

pub use crate::config::{
    business_dir, dir_result, get_dir, lemma_personal_only, lemma_read_error_passed_on,
    personal_dir, smart_path_result, Account, AccountKind, Info,
};
pub use crate::error::Error;
pub use crate::locate::{
    first_existing, pick_config_path, unix_config_candidates, unix_config_suffix,
    windows_config_candidates, windows_config_suffix,
};
pub use crate::path::{join, join_path, strip_leading_separators, trim_leading_separators};
pub use crate::smart_path::{
    lemma_empty_path_is_root, lemma_leading_separator_ignored, lemma_local_joins_relative,
    lemma_remote_is_rooted, SmartPath, SmartPathView,
};
