use app_finder::discovery::{Action, Descriptor, Discovery, DiscoveryError, Event};
use app_finder::finder::InstalledAppsFinder;
use app_finder::icon::{Bitmap, IconRef, ICON_SIZE};

fn descriptor(name: &str, cmd: &str, icon: &str, categories: &str) -> Descriptor {
    Descriptor {
        name: Some(String::from(name)),
        command_line: Some(String::from(cmd)),
        icon: Some(IconRef::Text(String::from(icon))),
        categories: Some(String::from(categories)),
    }
}

fn probe(path: &str) -> Action {
    Action::ProbePath { path: String::from(path) }
}

fn lookup(name: &str) -> Action {
    Action::LookupTheme { name: String::from(name), size: 64, prefer_scalable: true }
}

fn rasterize(path: &str) -> Action {
    Action::Rasterize { path: String::from(path), width: 64, height: 64 }
}

/// Feeds a descriptor whose icon text is an existing file that cannot be rendered.
fn discover_with_direct_icon(engine: &mut Discovery, d: Descriptor, icon: &str) {
    assert_eq!(engine.step(Event::Descriptor(d)), Ok(probe(icon)));
    assert_eq!(engine.step(Event::PathProbed(true)), Ok(rasterize(icon)));
    assert_eq!(engine.step(Event::Rasterized(None)), Ok(Action::FetchDescriptor));
}

fn finish(mut engine: Discovery) -> InstalledAppsFinder {
    assert_eq!(engine.step(Event::EndOfRegistry), Ok(Action::Finish));
    assert!(engine.is_finished());
    InstalledAppsFinder::new(engine)
}

#[test]
fn icon_size_is_64() {
    assert_eq!(ICON_SIZE, 64);
}

#[test]
fn new_engine_waits_for_a_descriptor() {
    let engine = Discovery::new();
    assert_eq!(engine.pending(), Action::FetchDescriptor);
    assert!(!engine.is_finished());
}

#[test]
fn empty_registry_gives_empty_index() {
    let finder = finish(Discovery::new());
    assert!(finder.applications.is_some());
    assert!(finder.get_categories().is_empty());
    assert!(finder.get_apps_for_category(String::from("Office")).is_none());
}

#[test]
fn existing_icon_path_never_asks_the_theme() {
    let mut engine = Discovery::new();
    let d = descriptor("Editor", "edit %F", "/usr/share/pixmaps/edit.png", "GTK;Utility;");
    assert_eq!(engine.step(Event::Descriptor(d)), Ok(probe("/usr/share/pixmaps/edit.png")));
    assert_eq!(engine.pending(), probe("/usr/share/pixmaps/edit.png"));
    let next = engine.step(Event::PathProbed(true)).unwrap();
    assert!(!matches!(next, Action::LookupTheme { .. }));
    assert_eq!(next, rasterize("/usr/share/pixmaps/edit.png"));
    // an answer from the theme is not taken either
    assert_eq!(
        engine.step(Event::ThemeAnswered(Some(String::from("/x.svg")))),
        Err(DiscoveryError::UnexpectedEvent)
    );
    let bitmap = Bitmap::new(2, 1, vec![1, 2, 3, 4, 5, 6, 7, 8]);
    assert_eq!(engine.step(Event::Rasterized(bitmap)), Ok(Action::FetchDescriptor));
    let finder = finish(engine);
    let apps = finder.get_apps_for_category(String::from("Utility")).unwrap();
    assert_eq!(apps.len(), 1);
    assert_eq!(apps[0].app_name, "Editor");
    assert_eq!(apps[0].cmd, "edit ");
    assert_eq!(apps[0].icon, IconRef::Text(String::from("/usr/share/pixmaps/edit.png")));
    assert_eq!(apps[0].icon_file_path, "/usr/share/pixmaps/edit.png");
    let kept = apps[0].icon_pix_buf.as_ref().unwrap();
    assert_eq!((kept.width(), kept.height()), (2, 1));
    assert_eq!(kept.pixels(), &vec![1, 2, 3, 4, 5, 6, 7, 8]);
}

#[test]
fn symbolic_icon_name_goes_to_the_theme() {
    let mut engine = Discovery::new();
    let d = descriptor("Mail", "mail %u", "mail-client", "Network;Email");
    assert_eq!(engine.step(Event::Descriptor(d)), Ok(probe("mail-client")));
    assert_eq!(engine.step(Event::PathProbed(false)), Ok(lookup("mail-client")));
    assert_eq!(engine.pending(), lookup("mail-client"));
    assert_eq!(
        engine.step(Event::ThemeAnswered(Some(String::from("/theme/mail-client.svg")))),
        Ok(rasterize("/theme/mail-client.svg"))
    );
    assert_eq!(engine.pending(), rasterize("/theme/mail-client.svg"));
    assert_eq!(engine.step(Event::Rasterized(None)), Ok(Action::FetchDescriptor));
    let finder = finish(engine);
    let apps = finder.get_apps_for_category(String::from("Network")).unwrap();
    assert_eq!(apps[0].icon_file_path, "/theme/mail-client.svg");
    assert_eq!(apps[0].icon, IconRef::Text(String::from("mail-client")));
    assert_eq!(apps[0].cmd, "mail ");
}

#[test]
fn unreadable_image_gives_entry_without_bitmap() {
    let mut engine = Discovery::new();
    let d = descriptor("Viewer", "view", "/missing/view.png", "Graphics");
    discover_with_direct_icon(&mut engine, d, "/missing/view.png");
    let finder = finish(engine);
    let apps = finder.get_apps_for_category(String::from("Graphics")).unwrap();
    assert_eq!(apps.len(), 1);
    assert!(apps[0].icon_pix_buf.is_none());
    assert_eq!(apps[0].icon_file_path, "/missing/view.png");
}

#[test]
fn icon_unknown_to_the_theme_gives_entry_with_empty_path() {
    let mut engine = Discovery::new();
    let d = descriptor("Tool", "tool", "no-such-icon", "Utility");
    assert_eq!(engine.step(Event::Descriptor(d)), Ok(probe("no-such-icon")));
    assert_eq!(engine.step(Event::PathProbed(false)), Ok(lookup("no-such-icon")));
    // nothing to render: the engine goes on to the next descriptor
    assert_eq!(engine.step(Event::ThemeAnswered(None)), Ok(Action::FetchDescriptor));
    let finder = finish(engine);
    let apps = finder.get_apps_for_category(String::from("Utility")).unwrap();
    assert_eq!(apps[0].icon_file_path, "");
    assert!(apps[0].icon_pix_buf.is_none());
}

#[test]
fn theme_answer_with_empty_path_is_not_rendered() {
    let mut engine = Discovery::new();
    let d = descriptor("Tool", "tool", "odd", "Utility");
    assert_eq!(engine.step(Event::Descriptor(d)), Ok(probe("odd")));
    assert_eq!(engine.step(Event::PathProbed(false)), Ok(lookup("odd")));
    assert_eq!(engine.step(Event::ThemeAnswered(Some(String::new()))), Ok(Action::FetchDescriptor));
}

#[test]
fn icon_without_text_resolves_to_no_file() {
    let mut engine = Discovery::new();
    let mut d = descriptor("Tool", "tool", "", "Utility");
    d.icon = Some(IconRef::Opaque);
    // neither probe nor theme nor image: the entry is made at once
    assert_eq!(engine.step(Event::Descriptor(d)), Ok(Action::FetchDescriptor));
    let finder = finish(engine);
    let apps = finder.get_apps_for_category(String::from("Utility")).unwrap();
    assert_eq!(apps[0].icon, IconRef::Opaque);
    assert_eq!(apps[0].icon_file_path, "");
    assert!(apps[0].icon_pix_buf.is_none());
}

#[test]
fn empty_icon_text_is_probed_like_any_other() {
    let mut engine = Discovery::new();
    let d = descriptor("Tool", "tool", "", "Utility");
    assert_eq!(engine.step(Event::Descriptor(d)), Ok(probe("")));
    assert_eq!(engine.step(Event::PathProbed(false)), Ok(lookup("")));
    assert_eq!(engine.step(Event::ThemeAnswered(None)), Ok(Action::FetchDescriptor));
}

#[test]
fn descriptor_without_categories_is_skipped() {
    let mut engine = Discovery::new();
    discover_with_direct_icon(&mut engine, descriptor("A", "a", "/a.png", "Office"), "/a.png");
    let mut d = descriptor("B", "b", "/b.png", "");
    d.categories = None;
    assert_eq!(engine.step(Event::Descriptor(d)), Ok(Action::FetchDescriptor));
    let finder = finish(engine);
    assert_eq!(finder.get_categories(), vec![String::from("Office")]);
    let apps = finder.get_apps_for_category(String::from("Office")).unwrap();
    assert_eq!(apps.len(), 1);
    assert_eq!(apps[0].app_name, "A");
}

#[test]
fn descriptor_without_icon_is_skipped() {
    let mut engine = Discovery::new();
    let mut d = descriptor("B", "b", "", "Office");
    d.icon = None;
    assert_eq!(engine.step(Event::Descriptor(d)), Ok(Action::FetchDescriptor));
    let finder = finish(engine);
    assert!(finder.get_categories().is_empty());
}

#[test]
fn descriptor_without_command_is_skipped() {
    let mut engine = Discovery::new();
    let mut d = descriptor("B", "", "/b.png", "Office");
    d.command_line = None;
    discover_with_direct_icon(&mut engine, d, "/b.png");
    let finder = finish(engine);
    assert!(finder.get_categories().is_empty());
}

#[test]
fn descriptor_without_command_and_name_is_skipped() {
    let mut engine = Discovery::new();
    let mut d = descriptor("", "", "/b.png", "Office");
    d.command_line = None;
    d.name = None;
    discover_with_direct_icon(&mut engine, d, "/b.png");
    assert!(finish(engine).get_categories().is_empty());
}

#[test]
fn descriptor_without_effective_category_is_skipped() {
    let mut engine = Discovery::new();
    discover_with_direct_icon(&mut engine, descriptor("B", "b", "/b.png", "GTK;GNOME;"), "/b.png");
    discover_with_direct_icon(&mut engine, descriptor("C", "c", "/c.png", ""), "/c.png");
    assert!(finish(engine).get_categories().is_empty());
}

#[test]
fn missing_name_is_an_error_and_drops_the_descriptor() {
    let mut engine = Discovery::new();
    discover_with_direct_icon(&mut engine, descriptor("A", "a", "/a.png", "Office"), "/a.png");
    let mut d = descriptor("", "b", "/b.png", "Office");
    d.name = None;
    assert_eq!(engine.step(Event::Descriptor(d)), Ok(probe("/b.png")));
    assert_eq!(engine.step(Event::PathProbed(true)), Ok(rasterize("/b.png")));
    assert_eq!(engine.step(Event::Rasterized(None)), Err(DiscoveryError::MissingName));
    // the engine is ready for the next descriptor and the index is as it was
    assert_eq!(engine.pending(), Action::FetchDescriptor);
    discover_with_direct_icon(&mut engine, descriptor("C", "c", "/c.png", "Office"), "/c.png");
    let finder = finish(engine);
    let apps = finder.get_apps_for_category(String::from("Office")).unwrap();
    assert_eq!(apps.len(), 2);
    assert_eq!(apps[0].app_name, "A");
    assert_eq!(apps[1].app_name, "C");
}

#[test]
fn missing_name_is_reported_even_without_category() {
    let mut engine = Discovery::new();
    let mut d = descriptor("", "b", "b", "GTK");
    d.name = None;
    assert_eq!(engine.step(Event::Descriptor(d)), Ok(probe("b")));
    assert_eq!(engine.step(Event::PathProbed(false)), Ok(lookup("b")));
    assert_eq!(engine.step(Event::ThemeAnswered(None)), Err(DiscoveryError::MissingName));
    assert_eq!(engine.pending(), Action::FetchDescriptor);
}

#[test]
fn unexpected_event_changes_nothing() {
    let mut engine = Discovery::new();
    assert_eq!(engine.step(Event::PathProbed(true)), Err(DiscoveryError::UnexpectedEvent));
    assert_eq!(engine.step(Event::ThemeAnswered(None)), Err(DiscoveryError::UnexpectedEvent));
    assert_eq!(engine.step(Event::Rasterized(None)), Err(DiscoveryError::UnexpectedEvent));
    assert_eq!(engine.pending(), Action::FetchDescriptor);
    let d = descriptor("A", "a", "a", "Office");
    assert_eq!(engine.step(Event::Descriptor(d)), Ok(probe("a")));
    let e = descriptor("E", "e", "e", "Office");
    assert_eq!(engine.step(Event::Descriptor(e)), Err(DiscoveryError::UnexpectedEvent));
    assert_eq!(engine.step(Event::EndOfRegistry), Err(DiscoveryError::UnexpectedEvent));
    assert_eq!(engine.pending(), probe("a"));
    assert_eq!(engine.step(Event::PathProbed(false)), Ok(lookup("a")));
    assert_eq!(engine.step(Event::PathProbed(false)), Err(DiscoveryError::UnexpectedEvent));
    assert_eq!(engine.pending(), lookup("a"));
}

#[test]
fn finished_engine_takes_no_event() {
    let mut engine = Discovery::new();
    assert_eq!(engine.step(Event::EndOfRegistry), Ok(Action::Finish));
    assert_eq!(engine.pending(), Action::Finish);
    assert_eq!(engine.step(Event::EndOfRegistry), Err(DiscoveryError::UnexpectedEvent));
    let d = descriptor("A", "a", "a", "Office");
    assert_eq!(engine.step(Event::Descriptor(d)), Err(DiscoveryError::UnexpectedEvent));
    assert!(engine.is_finished());
}

#[test]
fn first_discovered_of_equal_apps_is_retained() {
    let mut engine = Discovery::new();
    discover_with_direct_icon(
        &mut engine,
        descriptor("Editor", "edit --one %U", "/e.png", "Utility"),
        "/e.png",
    );
    discover_with_direct_icon(
        &mut engine,
        descriptor("Editor", "edit --two", "/e.png", "GTK;Utility"),
        "/e.png",
    );
    let finder = finish(engine);
    let apps = finder.get_apps_for_category(String::from("Utility")).unwrap();
    assert_eq!(apps.len(), 1);
    assert_eq!(apps[0].cmd, "edit --one ");
}

#[test]
fn discovery_order_is_kept() {
    let mut engine = Discovery::new();
    discover_with_direct_icon(&mut engine, descriptor("C", "c", "/c.png", "Office"), "/c.png");
    discover_with_direct_icon(&mut engine, descriptor("A", "a", "/a.png", "Game"), "/a.png");
    discover_with_direct_icon(&mut engine, descriptor("B", "b", "/b.png", "Office"), "/b.png");
    let finder = finish(engine);
    assert_eq!(finder.get_categories(), vec![String::from("Office"), String::from("Game")]);
    let office = finder.get_apps_for_category(String::from("Office")).unwrap();
    let names: Vec<&str> = office.iter().map(|a| a.app_name.as_str()).collect();
    assert_eq!(names, vec!["C", "B"]);
}

#[test]
fn category_is_the_trimmed_first_effective_tag() {
    let mut engine = Discovery::new();
    discover_with_direct_icon(
        &mut engine,
        descriptor("A", "a", "/a.png", "GNOME; GTK ; Audio Video ;Player"),
        "/a.png",
    );
    let finder = finish(engine);
    assert_eq!(finder.get_categories(), vec![String::from("Audio Video")]);
}

#[test]
fn unfinished_discovery_hands_over_nothing() {
    let mut engine = Discovery::new();
    discover_with_direct_icon(&mut engine, descriptor("A", "a", "/a.png", "Office"), "/a.png");
    assert!(!engine.is_finished());
    let finder = InstalledAppsFinder::new(engine);
    assert!(finder.applications.is_none());
    assert!(finder.get_categories().is_empty());
    assert!(finder.get_apps_for_category(String::from("Office")).is_none());
    assert_eq!(finder.pretty_print(), Some(Vec::new()));
    assert!(Discovery::new().finish().is_none());
}

#[test]
fn finish_hands_the_index_over() {
    let mut engine = Discovery::new();
    discover_with_direct_icon(&mut engine, descriptor("A", "a", "/a.png", "Office"), "/a.png");
    assert_eq!(engine.step(Event::EndOfRegistry), Ok(Action::Finish));
    let index = engine.finish().unwrap();
    assert_eq!(index.categories(), vec![String::from("Office")]);
}

#[test]
fn report_lists_categories_and_apps() {
    let mut engine = Discovery::new();
    discover_with_direct_icon(&mut engine, descriptor("C", "c %U", "/c.png", "Office"), "/c.png");
    let d = descriptor("A", "a", "a-icon", "Game");
    assert_eq!(engine.step(Event::Descriptor(d)), Ok(probe("a-icon")));
    assert_eq!(engine.step(Event::PathProbed(false)), Ok(lookup("a-icon")));
    assert_eq!(engine.step(Event::ThemeAnswered(None)), Ok(Action::FetchDescriptor));
    discover_with_direct_icon(&mut engine, descriptor("B", "b", "/b.png", "Office"), "/b.png");
    let finder = finish(engine);
    assert_eq!(
        finder.pretty_print(),
        Some(vec![
            String::from("---- Category: Office"),
            String::from("Name: C, c , icon: /c.png, icon path: /c.png"),
            String::from("Name: B, b, icon: /b.png, icon path: /b.png"),
            String::from("---- Category: Game"),
            String::from("Name: A, a, icon: a-icon, icon path: "),
        ])
    );
}

#[test]
fn report_of_empty_index_is_empty() {
    assert_eq!(finish(Discovery::new()).pretty_print(), Some(Vec::new()));
}

#[test]
fn report_needs_icon_texts() {
    let mut engine = Discovery::new();
    discover_with_direct_icon(&mut engine, descriptor("C", "c", "/c.png", "Office"), "/c.png");
    let mut d = descriptor("T", "t", "", "Office");
    d.icon = Some(IconRef::Opaque);
    assert_eq!(engine.step(Event::Descriptor(d)), Ok(Action::FetchDescriptor));
    let finder = finish(engine);
    assert_eq!(finder.get_apps_for_category(String::from("Office")).unwrap().len(), 2);
    assert_eq!(finder.pretty_print(), None);
}
