//! Versioned snapshots of game save directories: archive naming, retention,
//! restore with an undo snapshot, and the auto-backup schedule.

pub mod auto_backup;
pub mod backup;
pub mod clock;
pub mod config;
pub mod file_ops;
pub mod fsio;
pub mod laws;
pub mod model;
pub mod names;
pub mod order;
pub mod paths;
pub mod restore;
pub mod saves;
pub mod sizes;
pub mod text;
pub mod trees;
