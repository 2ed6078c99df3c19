//! The category index: for each category the applications classified into it,
//! in the order in which they were discovered, none of them twice.

use crate::application::{app_views, AppDetails, AppDetailsView};
use crate::text::text_views;
use vstd::prelude::*;

verus! {

/// One category of the index and its applications.
pub struct CategoryView {
    pub name: Seq<char>,
    pub apps: Seq<AppDetailsView>,
}

/// Whether `apps` holds an application that is the same as `app`.
pub open spec fn holds_app(apps: Seq<AppDetailsView>, app: AppDetailsView) -> bool {
    exists|i: int| 0 <= i < apps.len() && (#[trigger] apps[i]).same_app(app)
}

/// What a [`CategoryIndex`] holds: its categories in the order in which each
/// got its first application.
pub struct IndexView {
    pub categories: Seq<CategoryView>,
}

impl IndexView {
    /// The index without any category.
    pub open spec fn empty() -> IndexView {
        IndexView { categories: Seq::empty() }
    }

    /// Whether the index has a category of this name.
    pub open spec fn has(self, name: Seq<char>) -> bool {
        exists|i: int| 0 <= i < self.categories.len() && (#[trigger] self.categories[i]).name == name
    }

    /// The place of the category of this name, where the index has one.
    pub open spec fn place(self, name: Seq<char>) -> int {
        choose|i: int| 0 <= i < self.categories.len() && (#[trigger] self.categories[i]).name == name
    }

    /// The names of the categories, in index order.
    pub open spec fn names(self) -> Seq<Seq<char>> {
        self.categories.map_values(|c: CategoryView| c.name)
    }

    /// The applications of a category, or `None` for a name that the index
    /// does not have.
    pub open spec fn apps_of(self, name: Seq<char>) -> Option<Seq<AppDetailsView>> {
        if self.has(name) {
            Some(self.categories[self.place(name)].apps)
        } else {
            None
        }
    }

    /// Whether the category `name` holds an application that is the same as
    /// `app`.
    pub open spec fn holds(self, name: Seq<char>, app: AppDetailsView) -> bool {
        self.has(name) && holds_app(self.categories[self.place(name)].apps, app)
    }

    /// The index after `app` was offered to the category `name`: a new
    /// category is opened for a new name; the application goes to the end of
    /// its category unless the category holds the same application already.
    pub open spec fn insert(self, name: Seq<char>, app: AppDetailsView) -> IndexView {
        if !self.has(name) {
            IndexView { categories: self.categories.push(CategoryView { name, apps: seq![app] }) }
        } else {
            let at = self.place(name);
            let apps = self.categories[at].apps;
            if holds_app(apps, app) {
                self
            } else {
                IndexView {
                    categories: self.categories.update(
                        at,
                        CategoryView { name, apps: apps.push(app) },
                    ),
                }
            }
        }
    }

    /// The invariant of the index: category names are distinct, no category
    /// is empty, and no category holds the same application twice.
    pub open spec fn well_formed(self) -> bool {
        &&& forall|i: int, j: int|
            0 <= i < j < self.categories.len() ==> (#[trigger] self.categories[i]).name != (
            #[trigger] self.categories[j]).name
        &&& forall|i: int|
            0 <= i < self.categories.len() ==> (#[trigger] self.categories[i]).apps.len() > 0
        &&& forall|i: int, j: int, k: int|
            0 <= i < self.categories.len() && 0 <= j < k < self.categories[i].apps.len() ==> !(
            #[trigger] self.categories[i].apps[j]).same_app(#[trigger] self.categories[i].apps[k])
    }

    /// Inserting keeps the invariant of the index.
    pub proof fn insert_keeps_well_formed(self, name: Seq<char>, app: AppDetailsView)
        requires
            self.well_formed(),
        ensures
            self.insert(name, app).well_formed(),
    {
    }
}

/// The index without categories answers no name.
pub proof fn empty_index_has_no_category(name: Seq<char>)
    ensures
        IndexView::empty().apps_of(name) is None,
        IndexView::empty().names() == Seq::<Seq<char>>::empty(),
        IndexView::empty().well_formed(),
{
}

/// A category that the index answers for is never empty, and the index
/// answers exactly for the names it lists.
pub proof fn listed_categories_have_apps(index: IndexView, name: Seq<char>)
    requires
        index.well_formed(),
    ensures
        index.apps_of(name) is Some <==> index.names().contains(name),
        index.apps_of(name) matches Some(apps) ==> apps.len() > 0,
{
    if index.has(name) {
        let at = index.place(name);
        assert(index.names()[at] == name);
    }
    if index.names().contains(name) {
        let at = choose|i: int| 0 <= i < index.names().len() && index.names()[i] == name;
        assert(index.categories[at].name == name);
    }
}

/// Each listed name answers with the applications of its own category.
pub proof fn listed_name_answers_its_category(index: IndexView, at: int)
    requires
        index.well_formed(),
        0 <= at < index.categories.len(),
    ensures
        index.names()[at] == index.categories[at].name,
        index.apps_of(index.names()[at]) == Some(index.categories[at].apps),
{
    let name = index.categories[at].name;
    assert(index.has(name));
}

/// An insert into one category leaves every other category as it was.
pub proof fn insert_leaves_other_categories(
    index: IndexView,
    name: Seq<char>,
    app: AppDetailsView,
    other: Seq<char>,
)
    requires
        index.well_formed(),
        other != name,
    ensures
        index.insert(name, app).apps_of(other) == index.apps_of(other),
{
    let after = index.insert(name, app);
    index.insert_keeps_well_formed(name, app);
    if index.has(other) {
        let at = index.place(other);
        assert(after.categories[at].name == other);
    }
}

/// Discovery order is kept: an insert either leaves its category as it was,
/// because the category holds the same application already, or puts the
/// application behind all that the category held. The list of names grows by
/// the name, at its end, only when the category is new.
pub proof fn insert_appends_in_order(index: IndexView, name: Seq<char>, app: AppDetailsView)
    requires
        index.well_formed(),
    ensures
        index.insert(name, app).apps_of(name) == Some(
            match index.apps_of(name) {
                Some(apps) => if holds_app(apps, app) {
                    apps
                } else {
                    apps.push(app)
                },
                None => seq![app],
            },
        ),
        index.insert(name, app).names() == if index.has(name) {
            index.names()
        } else {
            index.names().push(name)
        },
{
    let after = index.insert(name, app);
    index.insert_keeps_well_formed(name, app);
    if index.has(name) {
        let at = index.place(name);
        assert(after.categories[at].name == name);
    } else {
        let at = index.categories.len() as int;
        assert(after.categories[at].name == name);
    }
}

/// The first one seen stays: once an application is in a category, offering
/// the same application again, whatever its command, changes nothing.
pub proof fn first_seen_wins(
    index: IndexView,
    name: Seq<char>,
    first: AppDetailsView,
    second: AppDetailsView,
)
    requires
        index.well_formed(),
        first.same_app(second),
    ensures
        index.insert(name, first).holds(name, second),
        index.insert(name, first).insert(name, second) == index.insert(name, first),
{
    let after = index.insert(name, first);
    insert_appends_in_order(index, name, first);
    let apps = after.apps_of(name)->0;
    match index.apps_of(name) {
        Some(before) => {
            if holds_app(before, first) {
                let i = choose|i: int| 0 <= i < before.len() && (#[trigger] before[i]).same_app(first);
                assert(apps[i].same_app(second));
            } else {
                assert(apps[before.len() as int].same_app(second));
            }
        },
        None => {
            assert(apps[0].same_app(second));
        },
    }
}

/// A category of the index.
struct Category {
    name: String,
    apps: Vec<AppDetails>,
}

impl Category {
    /// Tells whether this category holds an application that is the same as
    /// `app`.
    fn contains(&self, app: &AppDetails) -> (found: bool)
        ensures
            found == holds_app(self@.apps, app@),
    {
        let mut i: usize = 0;
        while i < self.apps.len()
            invariant
                i <= self.apps.len(),
                forall|k: int| 0 <= k < i ==> !(#[trigger] self@.apps[k]).same_app(app@),
            decreases self.apps.len() - i,
        {
            if self.apps[i] == *app {
                assert(self@.apps[i as int].same_app(app@));
                return true;
            }
            i = i + 1;
        }
        false
    }
}

impl View for Category {
    type V = CategoryView;

    closed spec fn view(&self) -> CategoryView {
        CategoryView { name: self.name@, apps: app_views(self.apps@) }
    }
}

/// The mapping from category name to the applications of that category.
pub struct CategoryIndex {
    categories: Vec<Category>,
}

impl View for CategoryIndex {
    type V = IndexView;

    closed spec fn view(&self) -> IndexView {
        IndexView { categories: self.categories@.map_values(|c: Category| c@) }
    }
}

impl CategoryIndex {
    /// Every index is well formed, at all times.
    #[verifier::type_invariant]
    pub open spec fn inv(self) -> bool {
        self@.well_formed()
    }

    /// An index without categories.
    pub fn new() -> (index: CategoryIndex)
        ensures
            index@ == IndexView::empty(),
            index@.well_formed(),
    {
        let index = CategoryIndex { categories: Vec::new() };
        assert(index@.categories =~= Seq::empty());
        index
    }

    /// The place of the category `name`, if the index has it.
    fn find(&self, name: &String) -> (at: Option<usize>)
        ensures
            self@.well_formed(),
            match at {
                Some(i) => self@.has(name@) && self@.place(name@) == i && i < self.categories.len(),
                None => !self@.has(name@),
            },
    {
        proof {
            use_type_invariant(self);
        }
        let mut i: usize = 0;
        while i < self.categories.len()
            invariant
                i <= self.categories.len(),
                self@.well_formed(),
                forall|k: int| 0 <= k < i ==> (#[trigger] self@.categories[k]).name != name@,
            decreases self.categories.len() - i,
        {
            if self.categories[i].name == *name {
                assert(self@.categories[i as int].name == name@);
                return Some(i);
            }
            i = i + 1;
        }
        None
    }

    /// Offers `app` to the category `category`. A category is opened on its
    /// first application. The application is appended unless the category
    /// already holds the same application: the first one seen stays. Tells
    /// whether the application was added.
    pub fn insert(&mut self, category: String, app: AppDetails) -> (added: bool)
        ensures
            final(self)@ == old(self)@.insert(category@, app@),
            added == !old(self)@.holds(category@, app@),
            final(self)@.well_formed(),
    {
        let found = self.find(&category);
        let ghost before = self@;
        let mut categories: Vec<Category> = Vec::new();
        std::mem::swap(&mut self.categories, &mut categories);
        let added = match found {
            None => {
                let mut apps: Vec<AppDetails> = Vec::new();
                apps.push(app);
                let opened = Category { name: category, apps };
                assert(opened@.apps =~= seq![app@]);
                categories.push(opened);
                assert(categories@.map_values(|c: Category| c@) =~= before.categories.push(
                    opened@,
                ));
                true
            },
            Some(i) => {
                if categories[i].contains(&app) {
                    false
                } else {
                    categories[i].apps.push(app);
                    assert(categories@[i as int]@.apps =~= before.categories[i as int].apps.push(
                        app@,
                    ));
                    assert(categories@.map_values(|c: Category| c@) =~= before.categories.update(
                        i as int,
                        CategoryView {
                            name: category@,
                            apps: before.categories[i as int].apps.push(app@),
                        },
                    ));
                    true
                }
            },
        };
        proof {
            before.insert_keeps_well_formed(category@, app@);
        }
        self.categories = categories;
        added
    }

    /// The names of all categories, each once, in the order in which the
    /// categories were opened.
    pub fn categories(&self) -> (names: Vec<String>)
        ensures
            text_views(names@) == self@.names(),
            self@.well_formed(),
    {
        proof {
            use_type_invariant(self);
        }
        let mut names: Vec<String> = Vec::new();
        let mut i: usize = 0;
        while i < self.categories.len()
            invariant
                i <= self.categories.len(),
                text_views(names@) == self@.names().take(i as int),
            decreases self.categories.len() - i,
        {
            let ghost listed = names@;
            let name = self.categories[i].name.clone();
            names.push(name);
            assert(text_views(names@) =~= text_views(listed).push(
                name@,
            ));
            i = i + 1;
        }
        names
    }

    /// The applications of the category `name` in discovery order, or `None`
    /// where the index has no such category. A category that is there is
    /// never empty.
    pub fn apps_for_category(&self, name: &String) -> (apps: Option<&Vec<AppDetails>>)
        ensures
            match apps {
                Some(list) => self@.apps_of(name@) == Some(app_views(list@)) && list@.len() > 0,
                None => self@.apps_of(name@) is None,
            },
            self@.well_formed(),
    {
        match self.find(name) {
            Some(i) => {
                Some(&self.categories[i].apps)
            },
            None => None,
        }
    }
}

} // verus!
