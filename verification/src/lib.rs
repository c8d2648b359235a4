pub mod art;
pub mod context;
pub mod errors;
pub mod info;
pub mod inject;
pub mod interpreter;
pub mod layout;
pub mod metrics;
pub mod misc;
pub mod panel;
pub mod render;
