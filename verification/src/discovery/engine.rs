//! The engine itself: the index under construction and the open question.

use crate::application::AppDetails;
use crate::category::classify;
use crate::command::sanitize;
use crate::discovery::model::{settled, CandidateView, DiscoveryView, StageView};
use crate::discovery::protocol::{Action, Descriptor, DiscoveryError, Event};
use crate::icon::{bitmap_view, icon_text, Bitmap, IconRef, ICON_SIZE};
use crate::index::CategoryIndex;
use crate::text::text_view;
use vstd::prelude::*;

verus! {

/// A descriptor with icon and categories, kept while its icon is resolved.
struct Candidate {
    name: Option<String>,
    command_line: Option<String>,
    icon: IconRef,
    categories: String,
}

impl View for Candidate {
    type V = CandidateView;

    closed spec fn view(&self) -> CandidateView {
        CandidateView {
            name: text_view(self.name),
            command_line: text_view(self.command_line),
            icon: self.icon@,
            categories: self.categories@,
        }
    }
}

impl Candidate {
    /// The text of the candidate's icon, empty where the icon has none.
    fn icon_text(&self) -> (text: String)
        ensures
            text@ == icon_text(self@.icon),
    {
        match &self.icon {
            IconRef::Text(text) => text.clone(),
            IconRef::Opaque => String::new(),
        }
    }
}

enum Stage {
    AwaitingDescriptor,
    ProbingPath(Candidate),
    LookingUpTheme(Candidate),
    Rasterizing(Candidate, String),
    Finished,
}

impl View for Stage {
    type V = StageView;

    closed spec fn view(&self) -> StageView {
        match self {
            Stage::AwaitingDescriptor => StageView::AwaitingDescriptor,
            Stage::ProbingPath(c) => StageView::ProbingPath(c@),
            Stage::LookingUpTheme(c) => StageView::LookingUpTheme(c@),
            Stage::Rasterizing(c, path) => StageView::Rasterizing(c@, path@),
            Stage::Finished => StageView::Finished,
        }
    }
}

/// Looks at a candidate whose icon has been resolved, and offers it to the
/// index if it has all it needs.
fn settle(
    index: &mut CategoryIndex,
    candidate: Candidate,
    icon_file_path: String,
    bitmap: Option<Bitmap>,
) -> (error: Option<DiscoveryError>)
    ensures
        (final(index)@, error) == settled(
            old(index)@,
            candidate@,
            icon_file_path@,
            bitmap_view(bitmap),
        ),
{
    let Candidate { name, command_line, icon, categories } = candidate;
    let command = match command_line {
        Some(command) => command,
        None => {
            return None;
        },
    };
    let name = match name {
        Some(name) => name,
        None => {
            return Some(DiscoveryError::MissingName);
        },
    };
    let category = match classify(categories.as_str()) {
        Some(category) => category,
        None => {
            return None;
        },
    };
    let app = AppDetails {
        app_name: name,
        cmd: sanitize(command.as_str()),
        icon,
        icon_file_path,
        icon_pix_buf: bitmap,
    };
    index.insert(category, app);
    None
}

/// The discovery engine: the index under construction and the question that
/// is open.
pub struct Discovery {
    index: CategoryIndex,
    stage: Stage,
}

impl View for Discovery {
    type V = DiscoveryView;

    closed spec fn view(&self) -> DiscoveryView {
        DiscoveryView { index: self.index@, stage: self.stage@ }
    }
}

impl Discovery {
    /// An engine with an empty index that waits for the first descriptor.
    pub fn new() -> (engine: Discovery)
        ensures
            engine@ == DiscoveryView::start(),
    {
        Discovery { index: CategoryIndex::new(), stage: Stage::AwaitingDescriptor }
    }

    /// What the engine is waiting for: the action whose outcome the next
    /// event has to report.
    pub fn pending(&self) -> (action: Action)
        ensures
            action@ == self@.pending(),
    {
        match &self.stage {
            Stage::AwaitingDescriptor => Action::FetchDescriptor,
            Stage::ProbingPath(c) => Action::ProbePath { path: c.icon_text() },
            Stage::LookingUpTheme(c) => Action::LookupTheme {
                name: c.icon_text(),
                size: ICON_SIZE,
                prefer_scalable: true,
            },
            Stage::Rasterizing(_, path) => Action::Rasterize {
                path: path.clone(),
                width: ICON_SIZE,
                height: ICON_SIZE,
            },
            Stage::Finished => Action::Finish,
        }
    }

    /// Goes on with a candidate whose icon has resolved to `icon_file_path`.
    fn resolve(&mut self, candidate: Candidate, icon_file_path: String) -> (error: Option<
        DiscoveryError,
    >)
        ensures
            (final(self)@, error) == old(self)@.resolved(candidate@, icon_file_path@),
    {
        if icon_file_path.as_str().is_empty() {
            self.stage = Stage::AwaitingDescriptor;
            settle(&mut self.index, candidate, icon_file_path, None)
        } else {
            self.stage = Stage::Rasterizing(candidate, icon_file_path);
            None
        }
    }

    /// Takes the answer to the pending action and moves on. On success the
    /// result is the next action to perform. A refused step reports why:
    /// after `UnexpectedEvent` the engine is as it was; after `MissingName`
    /// the descriptor is dropped, the index is as it was, and the engine
    /// waits for the next descriptor.
    pub fn step(&mut self, event: Event) -> (outcome: Result<Action, DiscoveryError>)
        ensures
            final(self)@ == old(self)@.next(event@).0,
            match outcome {
                Ok(action) => old(self)@.next(event@).1 is None
                    && action@ == final(self)@.pending(),
                Err(error) => old(self)@.next(event@).1 == Some(error),
            },
    {
        let mut stage = Stage::Finished;
        std::mem::swap(&mut self.stage, &mut stage);
        let error = match (stage, event) {
            (Stage::AwaitingDescriptor, Event::Descriptor(d)) => {
                let Descriptor { name, command_line, icon, categories } = d;
                match (icon, categories) {
                    (Some(icon), Some(categories)) => {
                        let candidate = Candidate { name, command_line, icon, categories };
                        match &candidate.icon {
                            IconRef::Text(_) => {
                                self.stage = Stage::ProbingPath(candidate);
                                None
                            },
                            IconRef::Opaque => self.resolve(candidate, String::new()),
                        }
                    },
                    _ => {
                        self.stage = Stage::AwaitingDescriptor;
                        None
                    },
                }
            },
            (Stage::AwaitingDescriptor, Event::EndOfRegistry) => {
                self.stage = Stage::Finished;
                None
            },
            (Stage::ProbingPath(candidate), Event::PathProbed(exists)) => {
                if exists {
                    let path = candidate.icon_text();
                    self.resolve(candidate, path)
                } else {
                    self.stage = Stage::LookingUpTheme(candidate);
                    None
                }
            },
            (Stage::LookingUpTheme(candidate), Event::ThemeAnswered(file)) => {
                let path = match file {
                    Some(path) => path,
                    None => String::new(),
                };
                self.resolve(candidate, path)
            },
            (Stage::Rasterizing(candidate, path), Event::Rasterized(bitmap)) => {
                self.stage = Stage::AwaitingDescriptor;
                settle(&mut self.index, candidate, path, bitmap)
            },
            (stage, _) => {
                self.stage = stage;
                Some(DiscoveryError::UnexpectedEvent)
            },
        };
        match error {
            Some(error) => Err(error),
            None => Ok(self.pending()),
        }
    }

    /// Whether the registry is exhausted and the index complete.
    pub fn is_finished(&self) -> (done: bool)
        ensures
            done == (self@.stage is Finished),
    {
        match &self.stage {
            Stage::Finished => true,
            _ => false,
        }
    }

    /// Hands the index over, once it is complete: `None` while discovery is
    /// still under way.
    pub fn finish(self) -> (index: Option<CategoryIndex>)
        ensures
            match index {
                Some(index) => self@.stage is Finished && index@ == self@.index
                    && index@.well_formed(),
                None => !(self@.stage is Finished),
            },
    {
        let Discovery { index, stage } = self;
        match stage {
            Stage::Finished => {
                proof {
                    use_type_invariant(&index);
                }
                Some(index)
            },
            _ => None,
        }
    }
}

} // verus!
