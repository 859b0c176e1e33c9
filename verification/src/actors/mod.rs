//! The decisions of the bridge's workers: Bilibili live control, the RTMP
//! ingest, the IRC side of the PS5 and the relay.
pub mod blive;
pub mod ffmpeg;
pub mod irc;
pub mod rtmp;
pub mod workers;
