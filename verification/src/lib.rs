//! Verified core of a Linux desktop observation and automation toolkit:
//! geometry, selector parsing, capture-backend selection, DMA-BUF descriptor
//! validation, frame manipulation and the daemon's policy decisions.

pub mod atspi;
pub mod audit;
pub mod backends;
pub mod cache;
pub mod capture_plan;
pub mod capture_report;
pub mod capture_requests;
pub mod capture_run;
pub mod codec;
pub mod daemon;
pub mod dispatch;
pub mod dmabuf;
pub mod egl;
pub mod element;
pub mod fmt;
pub mod lookup;
pub mod matcher;
pub mod frame;
pub mod input_events;
pub mod numbers;
pub mod pointer;
pub mod portal;
pub mod query;
pub mod requests;
pub mod selector;
pub mod streams;
pub mod text;
pub mod tree;
pub mod types;
pub mod uri;
pub mod vision_requests;
