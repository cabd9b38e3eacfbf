pub mod lookup;
pub mod monitor;
pub mod messages;
pub mod parse;
pub mod paths;
pub mod reader;
pub mod render;
pub mod signal;
pub mod timing;
