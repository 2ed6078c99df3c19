//! What passes between the engine and its caller: descriptors and events go
//! in, actions and errors come out.

use crate::icon::{bitmap_view, Bitmap, BitmapView, IconRef};
use crate::text::text_view;
use vstd::prelude::*;

verus! {

/// One application descriptor of the registry, as plain values. Any part may
/// be missing.
#[derive(Debug)]
pub struct Descriptor {
    /// The display name.
    pub name: Option<String>,
    /// The raw command line, placeholders included.
    pub command_line: Option<String>,
    /// The icon reference.
    pub icon: Option<IconRef>,
    /// The raw category string: tags separated by `;`.
    pub categories: Option<String>,
}

/// What a [`Descriptor`] holds.
pub struct DescriptorView {
    pub name: Option<Seq<char>>,
    pub command_line: Option<Seq<char>>,
    pub icon: Option<Option<Seq<char>>>,
    pub categories: Option<Seq<char>>,
}

impl View for Descriptor {
    type V = DescriptorView;

    open spec fn view(&self) -> DescriptorView {
        DescriptorView {
            name: text_view(self.name),
            command_line: text_view(self.command_line),
            icon: match self.icon {
                Some(icon) => Some(icon@),
                None => None,
            },
            categories: text_view(self.categories),
        }
    }
}

/// What the caller reports to the engine.
#[derive(Debug)]
pub enum Event {
    /// The next descriptor of the registry.
    Descriptor(Descriptor),
    /// The registry has no further descriptor.
    EndOfRegistry,
    /// Whether the probed path is an existing file-system path.
    PathProbed(bool),
    /// The file that the icon theme gave for the name, if it gave one.
    ThemeAnswered(Option<String>),
    /// The rendered image, or `None` where the file could not be read or
    /// decoded.
    Rasterized(Option<Bitmap>),
}

/// What an [`Event`] holds.
pub enum EventView {
    Descriptor(DescriptorView),
    EndOfRegistry,
    PathProbed(bool),
    ThemeAnswered(Option<Seq<char>>),
    Rasterized(Option<BitmapView>),
}

impl View for Event {
    type V = EventView;

    open spec fn view(&self) -> EventView {
        match self {
            Event::Descriptor(d) => EventView::Descriptor(d@),
            Event::EndOfRegistry => EventView::EndOfRegistry,
            Event::PathProbed(exists) => EventView::PathProbed(*exists),
            Event::ThemeAnswered(file) => EventView::ThemeAnswered(text_view(*file)),
            Event::Rasterized(bitmap) => EventView::Rasterized(bitmap_view(*bitmap)),
        }
    }
}

/// What the engine asks of the caller.
#[derive(Debug, PartialEq, Eq)]
pub enum Action {
    /// Hand over the next descriptor, or report the end of the registry.
    FetchDescriptor,
    /// Tell whether `path` is an existing file-system path.
    ProbePath { path: String },
    /// Ask the icon theme for the icon `name` at `size` pixels.
    LookupTheme { name: String, size: u32, prefer_scalable: bool },
    /// Load the image at `path` and scale it into `width` by `height` pixels.
    Rasterize { path: String, width: u32, height: u32 },
    /// Nothing: discovery is complete.
    Finish,
}

/// What an [`Action`] holds.
pub enum ActionView {
    FetchDescriptor,
    ProbePath { path: Seq<char> },
    LookupTheme { name: Seq<char>, size: u32, prefer_scalable: bool },
    Rasterize { path: Seq<char>, width: u32, height: u32 },
    Finish,
}

impl View for Action {
    type V = ActionView;

    open spec fn view(&self) -> ActionView {
        match self {
            Action::FetchDescriptor => ActionView::FetchDescriptor,
            Action::ProbePath { path } => ActionView::ProbePath { path: path@ },
            Action::LookupTheme { name, size, prefer_scalable } => ActionView::LookupTheme {
                name: name@,
                size: *size,
                prefer_scalable: *prefer_scalable,
            },
            Action::Rasterize { path, width, height } => ActionView::Rasterize {
                path: path@,
                width: *width,
                height: *height,
            },
            Action::Finish => ActionView::Finish,
        }
    }
}

/// Why a step was refused.
#[derive(Clone, Copy, Debug, PartialEq, Eq, Structural)]
pub enum DiscoveryError {
    /// A descriptor with icon, categories and command has no display name.
    /// The descriptor is dropped and the index is as it was.
    MissingName,
    /// The event answers nothing that the engine has asked. Nothing changed.
    UnexpectedEvent,
}

} // verus!
