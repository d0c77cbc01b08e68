//! Bracket detection, folder bookkeeping, naming and settings logic of
//! HDR Merge Master, a tool that merges bracketed exposures into HDR images.

pub mod text;
pub mod scan_folder;
pub mod config;
pub mod cli;
pub mod process;
pub mod ui;
