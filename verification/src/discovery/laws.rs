//! What holds of the engine, whatever the registry and the system answer.

use crate::application::AppDetailsView;
use crate::category::category_of;
use crate::command::strip_placeholders;
use crate::discovery::model::{
    dialogue, discovered, discovered_all, rendered, resolved_icon_file, session, settled, Answers,
    CandidateView, DiscoveryView, StageView,
};
use crate::discovery::protocol::{ActionView, DescriptorView, DiscoveryError, EventView};
use crate::icon::{icon_text, BitmapView, ICON_SIZE};
use crate::index::{
    first_seen_wins, insert_leaves_other_categories, listed_categories_have_apps, IndexView,
};
use vstd::prelude::*;

verus! {

/// One descriptor, start to end: when the caller answers what the engine
/// asks, the engine comes back to waiting for a descriptor, and the index
/// and the error are those of `discovered`. No step on the way is refused
/// as unexpected.
pub proof fn dialogue_discovers_descriptor(
    state: DiscoveryView,
    descriptor: DescriptorView,
    answers: Answers,
)
    requires
        state.stage is AwaitingDescriptor,
    ensures
        state.run(dialogue(descriptor, answers)) == (
            DiscoveryView {
                index: discovered(state.index, descriptor, answers).0,
                stage: StageView::AwaitingDescriptor,
            },
            discovered(state.index, descriptor, answers).1,
        ),
        state.run(dialogue(descriptor, answers)).1 != Some(DiscoveryError::UnexpectedEvent),
{
    reveal_with_fuel(DiscoveryView::run, 5);
    let events = dialogue(descriptor, answers);
    let first = events.first();
    assert(first == EventView::Descriptor(descriptor));
    if events.len() >= 2 {
        let second = events.drop_first();
        assert(second.first() == events[1]);
        if events.len() >= 3 {
            let third = second.drop_first();
            assert(third.first() == events[2]);
            if events.len() >= 4 {
                let fourth = third.drop_first();
                assert(fourth.first() == events[3]);
                assert(fourth.drop_first().len() == 0);
            } else {
                assert(third.drop_first().len() == 0);
            }
        } else {
            assert(second.drop_first().len() == 0);
        }
    } else {
        assert(events.drop_first().len() == 0);
    }
}

/// A run of two parts is the run of the first part and then, unless that was
/// refused, the run of the second part from where the first part ended.
pub proof fn run_in_two_parts(state: DiscoveryView, head: Seq<EventView>, tail: Seq<EventView>)
    ensures
        state.run(head + tail) == if state.run(head).1 is Some {
            state.run(head)
        } else {
            state.run(head).0.run(tail)
        },
    decreases head.len(),
{
    if head.len() == 0 {
        assert(head + tail == tail);
    } else {
        let all = head + tail;
        assert(all.first() == head.first());
        assert(all.drop_first() == head.drop_first() + tail);
        let (after, error) = state.next(head.first());
        if error is None {
            run_in_two_parts(after, head.drop_first(), tail);
        }
    }
}

/// A whole pass, start to end: when the caller answers what the engine asks,
/// descriptor after descriptor, and then reports the end of the registry,
/// the engine finishes with the index of `discovered_all`. A descriptor
/// that is an error stops the pass there, with the index as it was before
/// that descriptor.
pub proof fn session_discovers_registry(
    state: DiscoveryView,
    registry: Seq<(DescriptorView, Answers)>,
)
    requires
        state.stage is AwaitingDescriptor,
    ensures
        state.run(session(registry)) == (
            DiscoveryView {
                index: discovered_all(state.index, registry).0,
                stage: if discovered_all(state.index, registry).1 is None {
                    StageView::Finished
                } else {
                    StageView::AwaitingDescriptor
                },
            },
            discovered_all(state.index, registry).1,
        ),
    decreases registry.len(),
{
    if registry.len() == 0 {
        reveal_with_fuel(DiscoveryView::run, 2);
        let events = session(registry);
        assert(events.first() == EventView::EndOfRegistry);
        assert(events.drop_first().len() == 0);
    } else {
        let (descriptor, answers) = registry.first();
        dialogue_discovers_descriptor(state, descriptor, answers);
        run_in_two_parts(state, dialogue(descriptor, answers), session(registry.drop_first()));
        let (after, error) = state.run(dialogue(descriptor, answers));
        if error is None {
            session_discovers_registry(after, registry.drop_first());
        }
    }
}

/// Fast path: an icon text that is an existing path is the icon file itself.
/// The theme is not asked; the file is rendered, or, where the text is
/// empty, the candidate is settled without an image.
pub proof fn existing_path_skips_theme_lookup(state: DiscoveryView, candidate: CandidateView)
    requires
        state.stage == StageView::ProbingPath(candidate),
    ensures
        !(state.next(EventView::PathProbed(true)).0.pending() is LookupTheme),
        state.next(EventView::PathProbed(true)) == state.resolved(
            candidate,
            icon_text(candidate.icon),
        ),
        icon_text(candidate.icon).len() > 0 ==> state.next(EventView::PathProbed(true)).0.pending()
            == (ActionView::Rasterize {
            path: icon_text(candidate.icon),
            width: ICON_SIZE,
            height: ICON_SIZE,
        }),
{
}

/// The theme is asked in one situation only: the icon text was probed and is
/// no existing path. It is then asked for that text, at the icon size, with
/// scalable images preferred.
pub proof fn theme_lookup_follows_failed_probe(state: DiscoveryView, event: EventView)
    requires
        state.next(event).1 is None,
        state.next(event).0.pending() is LookupTheme,
    ensures
        state.stage matches StageView::ProbingPath(candidate) && event == EventView::PathProbed(
            false,
        ) && state.next(event).0.pending() == (ActionView::LookupTheme {
            name: icon_text(candidate.icon),
            size: ICON_SIZE,
            prefer_scalable: true,
        }),
{
}

/// A descriptor that lacks its icon or its category string is skipped: the
/// engine is after it as it was before it. No category gains an application
/// and the list of categories does not grow.
pub proof fn incomplete_descriptor_is_skipped(
    state: DiscoveryView,
    descriptor: DescriptorView,
    answers: Answers,
)
    requires
        state.stage is AwaitingDescriptor,
        descriptor.icon is None || descriptor.categories is None,
    ensures
        state.next(EventView::Descriptor(descriptor)) == (state, None::<DiscoveryError>),
        dialogue(descriptor, answers) == seq![EventView::Descriptor(descriptor)],
        discovered(state.index, descriptor, answers) == (state.index, None::<DiscoveryError>),
{
}

/// A category that no descriptor is classified into stays unknown to the
/// index, whatever else is discovered.
pub proof fn unclassified_category_stays_unknown(
    index: IndexView,
    registry: Seq<(DescriptorView, Answers)>,
    name: Seq<char>,
)
    requires
        index.well_formed(),
        index.apps_of(name) is None,
        forall|i: int|
            0 <= i < registry.len() ==> ((#[trigger] registry[i]).0.categories matches Some(tags)
                ==> category_of(tags) != Some(name)),
    ensures
        discovered_all(index, registry).0.apps_of(name) is None,
        !discovered_all(index, registry).0.names().contains(name),
    decreases registry.len(),
{
    if registry.len() == 0 {
        listed_categories_have_apps(index, name);
    } else {
        let (descriptor, answers) = registry.first();
        let (after, error) = discovered(index, descriptor, answers);
        assert(registry[0] == registry.first());
        if after != index {
            let category = category_of(descriptor.categories->0)->0;
            let path = resolved_icon_file(descriptor.icon->0, answers);
            let app = AppDetailsView {
                app_name: descriptor.name->0,
                cmd: strip_placeholders(descriptor.command_line->0),
                icon: descriptor.icon->0,
                icon_file_path: path,
                icon_pix_buf: rendered(path, answers),
            };
            assert(after == index.insert(category, app));
            insert_leaves_other_categories(index, category, app, name);
            index.insert_keeps_well_formed(category, app);
        }
        if error is None {
            let rest = registry.drop_first();
            assert forall|i: int| 0 <= i < rest.len() implies ((#[trigger] rest[i]).0.categories
                matches Some(tags) ==> category_of(tags) != Some(name)) by {
                assert(rest[i] == registry[i + 1]);
            }
            unclassified_category_stays_unknown(after, rest, name);
        } else {
            listed_categories_have_apps(after, name);
        }
    }
}

/// An image that cannot be rendered costs the application its bitmap and
/// nothing else: the step is accepted or refused as it would be with an
/// image, and an application that has command, name and category is offered
/// to the index without bitmap.
pub proof fn unreadable_image_keeps_the_application(
    state: DiscoveryView,
    candidate: CandidateView,
    path: Seq<char>,
    image: BitmapView,
)
    requires
        state.stage == StageView::Rasterizing(candidate, path),
    ensures
        state.next(EventView::Rasterized(None)).1 == state.next(
            EventView::Rasterized(Some(image)),
        ).1,
        state.next(EventView::Rasterized(None)).0.stage is AwaitingDescriptor,
        (candidate.command_line is Some && candidate.name is Some && category_of(
            candidate.categories,
        ) is Some) ==> state.next(EventView::Rasterized(None)).0.index == state.index.insert(
            category_of(candidate.categories)->0,
            AppDetailsView {
                app_name: candidate.name->0,
                cmd: strip_placeholders(candidate.command_line->0),
                icon: candidate.icon,
                icon_file_path: path,
                icon_pix_buf: None,
            },
        ),
{
}

/// Of two descriptors with the same name whose icons resolve to the same
/// file and which fall into the same category, the first one found stays:
/// the second one changes nothing, whatever its command and its bitmap.
pub proof fn same_application_is_kept_once(
    index: IndexView,
    first: DescriptorView,
    first_answers: Answers,
    second: DescriptorView,
    second_answers: Answers,
)
    requires
        index.well_formed(),
        first.icon matches Some(first_icon) && second.icon matches Some(second_icon)
            && resolved_icon_file(first_icon, first_answers) == resolved_icon_file(
            second_icon,
            second_answers,
        ),
        first.categories matches Some(first_tags) && second.categories matches Some(second_tags)
            && category_of(first_tags) is Some && category_of(first_tags) == category_of(
            second_tags,
        ),
        first.command_line is Some,
        second.command_line is Some,
        first.name is Some,
        first.name == second.name,
    ensures
        discovered(index, first, first_answers).1 is None,
        discovered(discovered(index, first, first_answers).0, second, second_answers) == (
            discovered(index, first, first_answers).0,
            None::<DiscoveryError>,
        ),
{
    let category = category_of(first.categories->0)->0;
    let path = resolved_icon_file(first.icon->0, first_answers);
    let app = |d: DescriptorView, answers: Answers|
        AppDetailsView {
            app_name: d.name->0,
            cmd: strip_placeholders(d.command_line->0),
            icon: d.icon->0,
            icon_file_path: path,
            icon_pix_buf: rendered(path, answers),
        };
    first_seen_wins(index, category, app(first, first_answers), app(second, second_answers));
}

/// Settling a candidate keeps the index well formed.
pub proof fn settling_keeps_index_well_formed(
    index: IndexView,
    candidate: CandidateView,
    path: Seq<char>,
    bitmap: Option<BitmapView>,
)
    requires
        index.well_formed(),
    ensures
        settled(index, candidate, path, bitmap).0.well_formed(),
{
    if candidate.command_line is Some && candidate.name is Some && category_of(
        candidate.categories,
    ) is Some {
        index.insert_keeps_well_formed(
            category_of(candidate.categories)->0,
            AppDetailsView {
                app_name: candidate.name->0,
                cmd: strip_placeholders(candidate.command_line->0),
                icon: candidate.icon,
                icon_file_path: path,
                icon_pix_buf: bitmap,
            },
        );
    }
}

/// Whatever the event, the index stays well formed.
pub proof fn step_keeps_index_well_formed(state: DiscoveryView, event: EventView)
    requires
        state.index.well_formed(),
    ensures
        state.next(event).0.index.well_formed(),
{
    assert forall|candidate: CandidateView, path: Seq<char>, bitmap: Option<BitmapView>|
        (#[trigger] settled(state.index, candidate, path, bitmap)).0.well_formed() by {
        settling_keeps_index_well_formed(state.index, candidate, path, bitmap);
    }
}

} // verus!
