//! Media acquisition and normalization: configuration store, tool release
//! selection, probe classification, transcode planning, slideshow planning and
//! the acquisition state machine.
pub mod config;
pub mod delivery;
pub mod executable;
pub mod matching;
pub mod pipeline;
pub mod probe;
pub mod release;
pub mod slideshow;
pub mod text;
pub mod transcode;
