//! FocusTrail: focus-session timer, daily progress statistics, settings
//! normalisation and Git record synchronisation, with their contracts.

pub mod time;
pub mod text;
pub mod domain;
pub mod stats;
pub mod storage;
pub mod git_sync;
pub mod sync_run;
pub mod overlay;
pub mod file_picker;
pub mod laws;
