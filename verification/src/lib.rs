//! Discovery of the applications that are installed on a desktop system.
//!
//! Each application of the registry is reduced to a launchable command, a
//! display name and the best icon that can be had, put into exactly one
//! category, and kept once per category. The result is an index from
//! category to applications for a launcher to show.
//!
//! The library decides and the caller acts. [`discovery::Discovery`] asks
//! for what has to be learned from the system (the next descriptor, whether
//! a path exists, what the icon theme gives for a name, the rendered image)
//! and takes the answers as events, so that every decision is made here, on
//! plain values, and is proved against the model in [`discovery::model`].
//!
//! - [`command`]: cutting placeholders such as `%U` out of a command line
//! - [`category`]: picking the one category out of the declared tags
//! - [`icon`]: icon references and rendered bitmaps
//! - [`application`]: one application, and when two are the same
//! - [`index`]: the category index and its invariant
//! - [`discovery`]: the engine that builds the index
//! - [`finder`]: the finished index as a launcher reads it

pub mod application;
pub mod category;
pub mod command;
pub mod discovery;
pub mod finder;
pub mod icon;
pub mod index;
pub mod text;

pub use application::AppDetails;
pub use finder::InstalledAppsFinder;
