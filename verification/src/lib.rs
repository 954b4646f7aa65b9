//! Resumable media transfer and assembly: URL classification, checkpointed
//! streaming transfers, progress accounting, batch orchestration and the
//! stream-copy merge step, each stated as a contract and proved.

pub mod args;
pub mod batch;
pub mod catalog;
pub mod error;
pub mod ffmpeg;
pub mod local;
pub mod pattern;
pub mod pipe;
pub mod progress;
pub mod queue;
pub mod resolve;
pub mod store;
pub mod text;
pub mod transfer;
