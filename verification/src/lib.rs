//! Beamish: the decisions behind a Quick Share desktop receiver/sender and its
//! privileged virtual-interface helper.
//!
//! - [`text`]: character-level string operations with exact specifications.
//! - [`vif`]: which interface names the helper accepts and the commands it runs.
//! - [`devices`]: the list of nearby devices that discovery maintains.
//! - [`backend`]: how the transfer backend reacts to library messages and UI commands.
//! - [`ui`]: what the window shows and which command each control sends.

pub mod text;
pub mod vif;
pub mod devices;
pub mod backend;
pub mod ui;
