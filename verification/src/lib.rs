//! Locates and installs community-made mods for one target game by patching
//! a game data file with a binary delta.
//!
//! The core is the install pipeline: resolving a mod reference to metadata,
//! staging the mod's archive, locating the delta-patch artifact in the
//! extracted tree, and applying it to the user's target file while keeping a
//! pristine backup. Every decision of that pipeline is made here, under
//! contract; the blocking outside work -- network transfers, filesystem
//! operations, the external archive and patch tools -- is performed by a
//! driver that obeys the install state machine in `install`.

pub mod backup;
pub mod errors;
pub mod install;
pub mod locate;
pub mod mods;
pub mod names;
pub mod paths;
pub mod reference;
pub mod text;
pub mod ui;
