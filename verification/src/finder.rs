//! The finished index as the presentation layer reads it.

use crate::application::{app_views, borrowed_app_views, AppDetails, AppDetailsView};
use crate::discovery::engine::Discovery;
use crate::icon::{icon_text, IconRef};
use crate::index::{listed_name_answers_its_category, CategoryIndex, CategoryView, IndexView};
use crate::text::text_views;
use vstd::prelude::*;
use vstd::string::StringExecFns;

verus! {

/// The line that heads a category in the report.
pub open spec fn category_line(name: Seq<char>) -> Seq<char> {
    "---- Category: "@ + name
}

/// The line that describes one application in the report.
pub open spec fn app_line(app: AppDetailsView) -> Seq<char> {
    "Name: "@ + app.app_name + ", "@ + app.cmd + ", icon: "@ + icon_text(app.icon)
        + ", icon path: "@ + app.icon_file_path
}

/// The lines of one category: its heading, then its applications in order.
pub open spec fn category_report(category: CategoryView) -> Seq<Seq<char>> {
    seq![category_line(category.name)] + category.apps.map_values(|a: AppDetailsView| app_line(a))
}

/// The lines of all categories, category after category.
pub open spec fn report(categories: Seq<CategoryView>) -> Seq<Seq<char>>
    decreases categories.len(),
{
    if categories.len() == 0 {
        Seq::empty()
    } else {
        report(categories.drop_last()) + category_report(categories.last())
    }
}

/// A report can be written when the icon of every application has a text.
pub open spec fn printable(categories: Seq<CategoryView>) -> bool {
    forall|i: int, j: int|
        0 <= i < categories.len() && 0 <= j < categories[i].apps.len() ==> (
        #[trigger] categories[i].apps[j]).icon is Some
}

/// Writes the line for `app`, if its icon has a text.
fn describe(app: &AppDetails) -> (line: Option<String>)
    ensures
        match line {
            Some(line) => app@.icon is Some && line@ == app_line(app@),
            None => app@.icon is None,
        },
{
    let icon = match &app.icon {
        IconRef::Text(text) => text,
        IconRef::Opaque => {
            return None;
        },
    };
    let mut line = String::from_str("Name: ");
    line.append(app.app_name.as_str());
    line.append(", ");
    line.append(app.cmd.as_str());
    line.append(", icon: ");
    line.append(icon.as_str());
    line.append(", icon path: ");
    line.append(app.icon_file_path.as_str());
    Some(line)
}

/// The applications found on this system, by category. `applications` is
/// `None` where discovery did not run to its end.
pub struct InstalledAppsFinder {
    pub applications: Option<CategoryIndex>,
}

impl InstalledAppsFinder {
    /// What the finder holds.
    pub open spec fn index(self) -> Option<IndexView> {
        match self.applications {
            Some(applications) => Some(applications@),
            None => None,
        }
    }

    /// Takes over what a discovery run has found. Discovery is all or
    /// nothing: a run that has not reached the end of the registry leaves
    /// the finder without applications.
    pub fn new(discovery: Discovery) -> (finder: InstalledAppsFinder)
        ensures
            finder.index() == if discovery@.stage is Finished {
                Some(discovery@.index)
            } else {
                None
            },
    {
        InstalledAppsFinder { applications: discovery.finish() }
    }

    /// The applications of `category` in discovery order. `None` for a
    /// category that no application was classified into, and where the
    /// finder has no applications at all. A list that is there is not empty.
    pub fn get_apps_for_category(&self, category: String) -> (apps: Option<Vec<&AppDetails>>)
        ensures
            match apps {
                Some(list) => self.index() matches Some(index) && index.apps_of(category@) == Some(
                    borrowed_app_views(list@),
                ) && list@.len() > 0,
                None => self.index() matches Some(index) ==> index.apps_of(category@) is None,
            },
    {
        let index = match &self.applications {
            Some(index) => index,
            None => {
                return None;
            },
        };
        let found = match index.apps_for_category(&category) {
            Some(found) => found,
            None => {
                return None;
            },
        };
        let mut list: Vec<&AppDetails> = Vec::new();
        let mut i: usize = 0;
        while i < found.len()
            invariant
                i <= found.len(),
                borrowed_app_views(list@) == app_views(found@).take(i as int),
            decreases found.len() - i,
        {
            let ghost listed = list@;
            list.push(&found[i]);
            assert(list@ == listed.push(&found[i as int]));
            assert(borrowed_app_views(list@) =~= borrowed_app_views(listed).push(found[i as int]@));
            assert(app_views(found@).take(i + 1) =~= app_views(found@).take(
                i as int,
            ).push(found[i as int]@));
            i = i + 1;
        }
        assert(app_views(found@).take(i as int) =~= app_views(found@));
        Some(list)
    }

    /// The names of all categories that hold an application, each once, in
    /// the order in which the categories were opened. Empty where the finder
    /// has no applications.
    pub fn get_categories(&self) -> (names: Vec<String>)
        ensures
            text_views(names@) == match self.index() {
                Some(index) => index.names(),
                None => Seq::empty(),
            },
    {
        match &self.applications {
            Some(index) => index.categories(),
            None => {
                let names: Vec<String> = Vec::new();
                assert(text_views(names@) =~= Seq::<Seq<char>>::empty());
                names
            },
        }
    }
}

impl InstalledAppsFinder {
    /// The report of all that was found, line by line: for each category a
    /// heading and then one line for each of its applications. `None` where
    /// an application has an icon without text, which no line can show. A
    /// finder without applications has an empty report.
    pub fn pretty_print(&self) -> (lines: Option<Vec<String>>)
        ensures
            match (lines, self.index()) {
                (Some(lines), Some(index)) => printable(index.categories) && text_views(lines@)
                    == report(index.categories),
                (Some(lines), None) => lines@.len() == 0,
                (None, Some(index)) => !printable(index.categories),
                (None, None) => false,
            },
    {
        let mut lines: Vec<String> = Vec::new();
        let index = match &self.applications {
            Some(index) => index,
            None => {
                return Some(lines);
            },
        };
        let names = index.categories();
        let ghost categories = index@.categories;
        assert(text_views(lines@) =~= report(categories.take(0)));
        assert(text_views(names@).len() == names@.len());
        let mut i: usize = 0;
        while i < names.len()
            invariant
                i <= names.len(),
                names.len() == categories.len(),
                self.index() == Some(index@),
                categories == index@.categories,
                index@.well_formed(),
                text_views(names@) == index@.names(),
                text_views(lines@) == report(categories.take(i as int)),
                printable(categories.take(i as int)),
            decreases names.len() - i,
        {
            proof {
                listed_name_answers_its_category(index@, i as int);
                assert(text_views(names@)[i as int] == names[i as int]@);
                assert(categories.take(i + 1).drop_last() == categories.take(i as int));
            }
            let apps = match index.apps_for_category(&names[i]) {
                Some(apps) => apps,
                None => {
                    return None;
                },
            };
            let mut heading = String::from_str("---- Category: ");
            heading.append(names[i].as_str());
            let ghost headed = lines@;
            lines.push(heading);
            assert(text_views(lines@) =~= text_views(headed).push(
                category_line(categories[i as int].name),
            ));
            let mut j: usize = 0;
            while j < apps.len()
                invariant
                    j <= apps.len(),
                    i < categories.len(),
                    categories == index@.categories,
                    self.index() == Some(index@),
                    app_views(apps@) == categories[i as int].apps,
                    text_views(lines@) == report(categories.take(i as int)) + category_report(
                        categories[i as int],
                    ).take(j + 1),
                    forall|k: int| 0 <= k < j ==> (#[trigger] categories[i as int].apps[k]).icon is Some,
                decreases apps.len() - j,
            {
                assert(app_views(apps@)[j as int] == apps[j as int]@);
                let line = match describe(&apps[j]) {
                    Some(line) => line,
                    None => {
                        assert(categories[i as int].apps[j as int].icon is None);
                        return None;
                    },
                };
                let ghost listed = lines@;
                lines.push(line);
                assert(text_views(lines@) =~= text_views(listed).push(
                    app_line(categories[i as int].apps[j as int]),
                ));
                assert(category_report(categories[i as int]).take(j + 2) =~= category_report(
                    categories[i as int],
                ).take(j + 1).push(app_line(categories[i as int].apps[j as int])));
                j = j + 1;
            }
            assert(category_report(categories[i as int]).take(j + 1) =~= category_report(
                categories[i as int],
            ));
            assert(categories.take(i + 1).last() == categories[i as int]);
            assert forall|a: int, b: int|
                0 <= a < categories.take(i + 1).len() && 0 <= b < categories.take(i + 1)[a].apps.len()
                implies (#[trigger] categories.take(i + 1)[a].apps[b]).icon is Some by {
                if a < i {
                    assert(categories.take(i as int)[a].apps[b].icon is Some);
                }
            }
            i = i + 1;
        }
        assert(categories.take(i as int) =~= categories);
        Some(lines)
    }
}

} // verus!
