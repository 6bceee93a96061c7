//! What the library promises, stated over its inputs and results.
pub mod following;
pub mod histories;
pub mod json;
pub mod live_logs;
pub mod live_segments;
pub mod logs;
pub mod numbers;
pub mod parser;
pub mod results;
pub mod retries;
pub mod site;
pub mod steps;
pub mod tables;
pub mod texts;
pub mod uploads;
