//! The values that travel in frames: voices, formats, configurations.

pub mod model;
pub mod response;
pub mod session;
pub mod voice;
