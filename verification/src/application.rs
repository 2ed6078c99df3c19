//! One discovered application, and what makes two of them the same.

use crate::icon::{bitmap_view, Bitmap, BitmapView, IconRef};
use vstd::prelude::*;
use vstd::std_specs::cmp::PartialEqSpecImpl;

verus! {

/// A launchable application: its display name, its sanitized command, its icon
/// reference, the image file the icon resolved to (empty where it resolved to
/// none) and the rendered icon, where the file could be rendered.
#[derive(Debug)]
pub struct AppDetails {
    pub app_name: String,
    pub cmd: String,
    pub icon: IconRef,
    pub icon_file_path: String,
    pub icon_pix_buf: Option<Bitmap>,
}

/// What an [`AppDetails`] holds.
pub struct AppDetailsView {
    pub app_name: Seq<char>,
    pub cmd: Seq<char>,
    pub icon: Option<Seq<char>>,
    pub icon_file_path: Seq<char>,
    pub icon_pix_buf: Option<BitmapView>,
}

impl AppDetailsView {
    /// Two entries are the same application when name and icon file agree.
    /// Command, icon reference and bitmap do not count.
    pub open spec fn same_app(self, other: AppDetailsView) -> bool {
        self.app_name == other.app_name && self.icon_file_path == other.icon_file_path
    }
}

impl View for AppDetails {
    type V = AppDetailsView;

    open spec fn view(&self) -> AppDetailsView {
        AppDetailsView {
            app_name: self.app_name@,
            cmd: self.cmd@,
            icon: self.icon@,
            icon_file_path: self.icon_file_path@,
            icon_pix_buf: bitmap_view(self.icon_pix_buf),
        }
    }
}

impl PartialEq for AppDetails {
    fn eq(&self, other: &Self) -> (same: bool) {
        self.app_name == other.app_name && self.icon_file_path == other.icon_file_path
    }
}

impl PartialEqSpecImpl for AppDetails {
    open spec fn obeys_eq_spec() -> bool {
        true
    }

    open spec fn eq_spec(&self, other: &Self) -> bool {
        self@.same_app(other@)
    }
}

/// What each of `apps` holds, in order.
pub open spec fn app_views(apps: Seq<AppDetails>) -> Seq<AppDetailsView> {
    apps.map_values(|a: AppDetails| a@)
}

/// What each of the applications borrowed in `apps` holds, in order.
pub open spec fn borrowed_app_views(apps: Seq<&AppDetails>) -> Seq<AppDetailsView> {
    apps.map_values(|a: &AppDetails| a@)
}

/// `==` on applications is an equivalence.
pub proof fn same_app_is_equivalence(a: AppDetailsView, b: AppDetailsView, c: AppDetailsView)
    ensures
        a.same_app(a),
        a.same_app(b) ==> b.same_app(a),
        a.same_app(b) && b.same_app(c) ==> a.same_app(c),
{
}

} // verus!
