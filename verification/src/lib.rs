//! Installing and uninstalling the Amethyst core: which release to take,
//! whether what was downloaded is what was announced, how to place it so that
//! the install target is never seen half-written, and how to take it away
//! again.
//!
//! The library decides and the caller acts. Versions, releases, records and
//! paths are values that the library reads and writes as bytes. The two
//! workflows, `install::Installer` and `uninstall::Uninstaller`, are state
//! machines: they hand out one action at a time and take the event that tells
//! how it went. The file system and the network stay with the caller; what
//! they are taken to do is written down in `model`, and what the workflows
//! guarantee on that footing is proved in `guarantees` and `uninstall`.

pub mod bytes;
pub mod error;
pub mod guarantees;
pub mod install;
pub mod model;
pub mod numeral;
pub mod platform;
pub mod precedence;
pub mod protocol;
pub mod record;
pub mod release;
pub mod target;
pub mod tool;
pub mod uninstall;
pub mod version;
