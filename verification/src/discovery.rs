//! The discovery engine. It decides, descriptor by descriptor, what has to be
//! asked of the system next (is this path a file, what does the icon theme
//! say, render this image) and what the answers mean for the category index.
//! The engine asks and decides; the caller performs what is asked and hands
//! the answer back.

pub mod engine;
pub mod laws;
pub mod model;
pub mod protocol;

pub use engine::Discovery;
pub use protocol::{Action, Descriptor, DiscoveryError, Event};
