pub mod color;
pub mod layout;
pub mod render;
pub mod snapshot;
pub mod update;
