//! Configuration of a media edge node: the data model, its validation, the
//! split between operational settings and secrets, and the secrets' encryption
//! at rest.

pub mod accessors;
pub mod addr;
pub mod audio_transcode;
pub mod auth;
pub mod binary;
pub mod crypto;
pub mod defaults;
pub mod env_compat;
pub mod error;
pub mod id_map;
pub mod kinds;
pub mod lookup;
pub mod manager;
pub mod models;
pub mod number;
pub mod persistence;
pub mod pid_keys;
pub mod ratio;
pub mod resolve;
pub mod secrets;
pub mod srt_filter;
pub mod text;
pub mod tunnel;
pub mod validation;
pub mod webrtc;
