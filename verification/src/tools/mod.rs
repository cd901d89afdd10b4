pub mod types;
pub mod paths;
pub mod file_read;
pub mod diff;
pub mod file_edit;
pub mod file_write;
pub mod directory;
pub mod search;
pub mod bash;
pub mod completion;
pub mod registry;

pub use registry::ToolRegistry;
