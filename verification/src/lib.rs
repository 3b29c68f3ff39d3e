pub mod cli;
pub mod headers;
pub mod json;
pub mod logging;
pub mod proxy;
pub mod state;
pub mod target;
pub mod text;
pub mod transform;
