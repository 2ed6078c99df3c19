//! The engine as a transition system over plain values, and what a
//! descriptor and a whole registry come to when the caller plays its part.

use crate::application::AppDetailsView;
use crate::category::category_of;
use crate::command::strip_placeholders;
use crate::discovery::protocol::{ActionView, DescriptorView, DiscoveryError, EventView};
use crate::icon::{icon_text, BitmapView, ICON_SIZE};
use crate::index::IndexView;
use vstd::prelude::*;

verus! {

/// A descriptor that has an icon and categories, while its icon is resolved.
pub struct CandidateView {
    pub name: Option<Seq<char>>,
    pub command_line: Option<Seq<char>>,
    pub icon: Option<Seq<char>>,
    pub categories: Seq<char>,
}

/// Where the engine stands.
pub enum StageView {
    /// Between descriptors.
    AwaitingDescriptor,
    /// Asked whether the icon text of the candidate is an existing path.
    ProbingPath(CandidateView),
    /// Asked the icon theme for the icon text of the candidate.
    LookingUpTheme(CandidateView),
    /// Asked for the image at the path to which the candidate's icon resolved.
    Rasterizing(CandidateView, Seq<char>),
    /// The registry is exhausted.
    Finished,
}

/// The index after a candidate with a resolved icon has been looked at: a
/// candidate without command is skipped, one with a command and no name is an
/// error, one without category is skipped, and any other is offered to the
/// index under its category, with its command sanitized.
pub open spec fn settled(
    index: IndexView,
    candidate: CandidateView,
    icon_file_path: Seq<char>,
    bitmap: Option<BitmapView>,
) -> (IndexView, Option<DiscoveryError>) {
    match (candidate.command_line, candidate.name, category_of(candidate.categories)) {
        (None, _, _) => (index, None),
        (Some(_), None, _) => (index, Some(DiscoveryError::MissingName)),
        (Some(_), Some(_), None) => (index, None),
        (Some(command), Some(name), Some(category)) => (
            index.insert(
                category,
                AppDetailsView {
                    app_name: name,
                    cmd: strip_placeholders(command),
                    icon: candidate.icon,
                    icon_file_path,
                    icon_pix_buf: bitmap,
                },
            ),
            None,
        ),
    }
}

/// What a [`Discovery`] holds: the index built so far and the stage.
pub struct DiscoveryView {
    pub index: IndexView,
    pub stage: StageView,
}

impl DiscoveryView {
    /// The engine before the first descriptor.
    pub open spec fn start() -> DiscoveryView {
        DiscoveryView { index: IndexView::empty(), stage: StageView::AwaitingDescriptor }
    }

    /// What the engine is waiting for.
    pub open spec fn pending(self) -> ActionView {
        match self.stage {
            StageView::AwaitingDescriptor => ActionView::FetchDescriptor,
            StageView::ProbingPath(c) => ActionView::ProbePath { path: icon_text(c.icon) },
            StageView::LookingUpTheme(c) => ActionView::LookupTheme {
                name: icon_text(c.icon),
                size: ICON_SIZE,
                prefer_scalable: true,
            },
            StageView::Rasterizing(_, path) => ActionView::Rasterize {
                path,
                width: ICON_SIZE,
                height: ICON_SIZE,
            },
            StageView::Finished => ActionView::Finish,
        }
    }

    /// The engine once the icon of `candidate` has resolved to
    /// `icon_file_path`: an empty path has no image, so the candidate is
    /// settled at once; any other path is to be rendered first.
    pub open spec fn resolved(self, candidate: CandidateView, icon_file_path: Seq<char>) -> (
        DiscoveryView,
        Option<DiscoveryError>,
    ) {
        if icon_file_path.len() == 0 {
            let (index, error) = settled(self.index, candidate, icon_file_path, None);
            (DiscoveryView { index, stage: StageView::AwaitingDescriptor }, error)
        } else {
            (
                DiscoveryView {
                    index: self.index,
                    stage: StageView::Rasterizing(candidate, icon_file_path),
                },
                None,
            )
        }
    }

    /// The engine after `event`, and the error if the step was refused.
    pub open spec fn next(self, event: EventView) -> (DiscoveryView, Option<DiscoveryError>) {
        match (self.stage, event) {
            (StageView::AwaitingDescriptor, EventView::Descriptor(d)) => match (
                d.icon,
                d.categories,
            ) {
                (Some(icon), Some(categories)) => {
                    let candidate = CandidateView {
                        name: d.name,
                        command_line: d.command_line,
                        icon,
                        categories,
                    };
                    match icon {
                        Some(_) => (
                            DiscoveryView {
                                index: self.index,
                                stage: StageView::ProbingPath(candidate),
                            },
                            None,
                        ),
                        None => self.resolved(candidate, Seq::empty()),
                    }
                },
                _ => (self, None),
            },
            (StageView::AwaitingDescriptor, EventView::EndOfRegistry) => (
                DiscoveryView { index: self.index, stage: StageView::Finished },
                None,
            ),
            (StageView::ProbingPath(candidate), EventView::PathProbed(exists)) => if exists {
                self.resolved(candidate, icon_text(candidate.icon))
            } else {
                (
                    DiscoveryView {
                        index: self.index,
                        stage: StageView::LookingUpTheme(candidate),
                    },
                    None,
                )
            },
            (StageView::LookingUpTheme(candidate), EventView::ThemeAnswered(file)) => self.resolved(
                candidate,
                icon_text(file),
            ),
            (StageView::Rasterizing(candidate, path), EventView::Rasterized(bitmap)) => {
                let (index, error) = settled(self.index, candidate, path, bitmap);
                (DiscoveryView { index, stage: StageView::AwaitingDescriptor }, error)
            },
            _ => (self, Some(DiscoveryError::UnexpectedEvent)),
        }
    }
}

/// What the system answers while one descriptor is looked at. An answer that
/// is never asked for does not matter.
pub struct Answers {
    /// Whether the icon text is an existing file-system path.
    pub path_exists: bool,
    /// The file that the icon theme gives for the icon text.
    pub theme_file: Option<Seq<char>>,
    /// The image rendered from the icon file.
    pub image: Option<BitmapView>,
}

/// The file that an icon reference resolves to: none (the empty path) for
/// an icon without text; the text itself where it is an existing path;
/// else what the theme gives for the text, or none.
pub open spec fn resolved_icon_file(icon: Option<Seq<char>>, answers: Answers) -> Seq<char> {
    match icon {
        None => Seq::empty(),
        Some(text) => if answers.path_exists {
            text
        } else {
            icon_text(answers.theme_file)
        },
    }
}

/// The bitmap of the icon file at `path`: none for the empty path, else
/// what rendering gives.
pub open spec fn rendered(path: Seq<char>, answers: Answers) -> Option<BitmapView> {
    if path.len() == 0 {
        None
    } else {
        answers.image
    }
}

/// What one descriptor does to the index: a descriptor that lacks icon or
/// categories is skipped; any other has its icon resolved and rendered and is
/// then settled.
pub open spec fn discovered(index: IndexView, descriptor: DescriptorView, answers: Answers) -> (
    IndexView,
    Option<DiscoveryError>,
) {
    match (descriptor.icon, descriptor.categories) {
        (Some(icon), Some(categories)) => {
            let path = resolved_icon_file(icon, answers);
            settled(
                index,
                CandidateView {
                    name: descriptor.name,
                    command_line: descriptor.command_line,
                    icon,
                    categories,
                },
                path,
                rendered(path, answers),
            )
        },
        _ => (index, None),
    }
}

/// The events that a caller reports for one descriptor when it performs
/// each action that the engine asks for.
pub open spec fn dialogue(descriptor: DescriptorView, answers: Answers) -> Seq<EventView> {
    let offered = seq![EventView::Descriptor(descriptor)];
    match (descriptor.icon, descriptor.categories) {
        (Some(icon), Some(_)) => {
            let path = resolved_icon_file(icon, answers);
            let probed = if icon is None {
                offered
            } else if answers.path_exists {
                offered.push(EventView::PathProbed(true))
            } else {
                offered.push(EventView::PathProbed(false)).push(
                    EventView::ThemeAnswered(answers.theme_file),
                )
            };
            if path.len() == 0 {
                probed
            } else {
                probed.push(EventView::Rasterized(answers.image))
            }
        },
        _ => offered,
    }
}

impl DiscoveryView {
    /// The engine after a run of events, up to the first step that is
    /// refused, and the error of that step.
    pub open spec fn run(self, events: Seq<EventView>) -> (DiscoveryView, Option<DiscoveryError>)
        decreases events.len(),
    {
        if events.len() == 0 {
            (self, None)
        } else {
            let (after, error) = self.next(events.first());
            if error is Some {
                (after, error)
            } else {
                after.run(events.drop_first())
            }
        }
    }
}

/// What a whole registry does to the index: descriptor after descriptor, up
/// to the first one that is an error.
pub open spec fn discovered_all(index: IndexView, registry: Seq<(DescriptorView, Answers)>) -> (
    IndexView,
    Option<DiscoveryError>,
)
    decreases registry.len(),
{
    if registry.len() == 0 {
        (index, None)
    } else {
        let (after, error) = discovered(index, registry.first().0, registry.first().1);
        if error is Some {
            (after, error)
        } else {
            discovered_all(after, registry.drop_first())
        }
    }
}

/// The events of a whole discovery pass: the dialogue of each descriptor in
/// turn, then the end of the registry.
pub open spec fn session(registry: Seq<(DescriptorView, Answers)>) -> Seq<EventView>
    decreases registry.len(),
{
    if registry.len() == 0 {
        seq![EventView::EndOfRegistry]
    } else {
        dialogue(registry.first().0, registry.first().1) + session(registry.drop_first())
    }
}

} // verus!
