//! Provisioning of the `harper-ls` language server for an editor host.
//!
//! The library decides; the host acts. A resolution is a value of
//! [`resolver::Stage`]: it names the one thing the host is asked to do next
//! ([`protocol::Request`]) and moves on when [`extension::HarperExtension`]
//! is given the answer ([`protocol::Reply`]). Nothing here touches the
//! network or the disk.
//!
//! - [`platform`], [`layout`], [`release`]: the platforms, the names of
//!   assets, directories and binaries, and the choice of an asset.
//! - [`protocol`], [`resolver`], [`extension`]: the requests and replies,
//!   the stages of a resolution, and the step from one stage to the next.
//! - [`command`], [`settings`], [`error`]: what the host is handed in the
//!   end.
//! - [`host`], [`laws`]: a model of a host that does as it is asked, and
//!   what is proved of every resolution against it.

pub mod command;
pub mod error;
pub mod extension;
pub mod host;
pub mod laws;
pub mod layout;
pub mod platform;
pub mod protocol;
pub mod release;
pub mod resolver;
pub mod settings;
