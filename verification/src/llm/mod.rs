pub mod types;
pub mod capabilities;
pub mod stream;
