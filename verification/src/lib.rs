//! Combat log uploading for the RPGLogs family of sites.

pub mod captures;
pub mod chunk;
pub mod fights;
pub mod game;
pub mod growing;
pub mod json;
pub mod laws;
pub mod lines;
pub mod live;
pub mod log_file;
pub mod multipart;
pub mod numbers;
pub mod outside;
pub mod overlay;
pub mod parser_page;
pub mod progress;
pub mod retry;
pub mod rotation;
pub mod segments;
pub mod sidecar;
pub mod tail;
pub mod text;
pub mod upload;
pub mod wcl;
