//! Sans-I/O core of a small Windows multimedia player.
//!
//! The crate holds the decisions of three playback paths and leaves every
//! system call to its host: the chunked-container reader and the streaming
//! output protocol of the manual wave pipeline, the command scripts and the
//! session state of the media-control device, and the requests of the
//! fire-and-forget sound trigger.

pub mod device;
pub mod error;
pub mod fourcc;
pub mod mci;
pub mod playback;
pub mod playback_laws;
pub mod riff;
pub mod riff_laws;
pub mod sound;
pub mod text;
pub mod wave;
pub mod wave_laws;
