//! An asynchronous file downloader, reduced to what it decides.
//!
//! Nothing here waits, sends or writes. A download and an attempt at it are state machines that
//! say what is to be done and take in what came of it; the rest is arithmetic and text.

pub mod attempt;
pub mod batch;
pub mod card;
pub mod digest;
pub mod download;
pub mod downloader;
pub mod job;
pub mod laws;
pub mod progress;
pub mod settings;
pub mod speed;
pub mod text;
pub mod units;
pub mod url;

pub use batch::{Batch, BatchProgress};
pub use download::Download;
pub use downloader::Downloader;
pub use job::Job;
pub use progress::{Outcome, Progress, Ratio, Verification};
pub use settings::{Settings, Threads};
pub use speed::Speed;
pub use units::{human_bytes, human_speed};
pub use url::file_name_from_url;
