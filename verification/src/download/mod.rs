//! Download planning: selection tracking and related decision logic.

pub mod selection;
pub mod types;
pub mod engine;
pub mod contract;
pub mod live;
pub mod hls;
pub mod recorder;
pub mod paging;
pub mod tasks;
