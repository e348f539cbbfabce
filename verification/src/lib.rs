//! The command-and-control plane of a camera-equipped edge device, as a
//! library that decides and leaves acting to its caller.
//!
//! Requests arrive under subjects and are decoded into typed requests
//! (`subject`, `message`, `payload`, `json`); each is owned by an engine
//! (`handlers`): the version-controlled settings (`vcs`, `settings`), the
//! media pipelines (`pipeline`, `video`), the recordings (`recording`), the
//! units of the init system (`systemd`), and what the device knows of the
//! cloud and of its print server (`cloud`, `octoprint`). Every reply is
//! typed in turn (`reply`), and so is every failure (`errors`).
//!
//! Nothing in here reaches the disk, the bus or the network; of the system it
//! asks no more than the time and a random id. Where an
//! operation needs them, the library names the calls to make and turns
//! what comes back into the reply; the settings repository and the store
//! of recordings also stand here as plain values in memory, which is where
//! their laws are proved.

pub mod cloud;
pub mod errors;
pub mod handlers;
pub mod json;
pub mod message;
pub mod octoprint;
pub mod payload;
pub mod pipeline;
pub mod recording;
pub mod reply;
pub mod settings;
pub mod subject;
pub mod systemd;
pub mod text;
pub mod vcs;
pub mod video;
