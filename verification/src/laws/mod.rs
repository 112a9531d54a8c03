//! What holds of the library as a whole.

pub mod attempt;
pub mod batch;
pub mod calls;
pub mod card;
pub mod control;
pub mod digest;
pub mod download;
pub mod downloader;
pub mod outcome;
pub mod pool;
pub mod progress;
pub mod protocol;
pub mod text;
pub mod units;
