//! A catalogued working directory and the version-control system that owns it.

use vstd::prelude::*;
use crate::text::opt_text;
use crate::text::copy_opt;

verus! {

/// The version-control system a working directory belongs to.
#[derive(Debug, Clone, Copy, PartialEq, Eq, Structural)]
pub enum VersionControl {
    Git,
    Svn,
    Mercurial,
    /// Not under version control.
    Unversioned,
}

/// One discovered or manually added working directory.
#[derive(Debug)]
pub struct Project {
    pub name: String,
    pub path: String,
    pub project_type: Option<String>,
    pub version_control: VersionControl,
    pub hits: u32,
    pub launcher_id: Option<String>,
    pub top: bool,
    pub is_custom: bool,
    pub last_opened: Option<String>,
    pub alias: Option<String>,
}

/// The mathematical content of a [`Project`]: every string by its text.
pub struct ProjectView {
    pub name: Seq<char>,
    pub path: Seq<char>,
    pub project_type: Option<Seq<char>>,
    pub version_control: VersionControl,
    pub hits: u32,
    pub launcher_id: Option<Seq<char>>,
    pub top: bool,
    pub is_custom: bool,
    pub last_opened: Option<Seq<char>>,
    pub alias: Option<Seq<char>>,
}

impl ProjectView {
    /// The record a scan emits for a directory: identity and version control
    /// from disk, every user-owned field at its default.
    pub open spec fn scanned(path: Seq<char>, name: Seq<char>, vc: VersionControl) -> ProjectView {
        ProjectView {
            name,
            path,
            project_type: None,
            version_control: vc,
            hits: 0,
            launcher_id: None,
            top: false,
            is_custom: false,
            last_opened: None,
            alias: None,
        }
    }

    /// Whether the user-owned fields are all at their defaults and the entry
    /// is not marked as manually added, as in a record fresh from a scan.
    pub open spec fn is_scan_record(self) -> bool {
        self == ProjectView::scanned(self.path, self.name, self.version_control)
    }
}

impl View for Project {
    type V = ProjectView;

    open spec fn view(&self) -> ProjectView {
        ProjectView {
            name: self.name@,
            path: self.path@,
            project_type: opt_text(self.project_type),
            version_control: self.version_control,
            hits: self.hits,
            launcher_id: opt_text(self.launcher_id),
            top: self.top,
            is_custom: self.is_custom,
            last_opened: opt_text(self.last_opened),
            alias: opt_text(self.alias),
        }
    }
}

/// The mathematical content of a catalog: the views of its projects, in order.
pub open spec fn catalog_view(catalog: Seq<Project>) -> Seq<ProjectView> {
    catalog.map_values(|p: Project| p@)
}

impl Clone for Project {
    fn clone(&self) -> (r: Self)
        ensures
            r == *self,
    {
        Project {
            name: self.name.clone(),
            path: self.path.clone(),
            project_type: copy_opt(&self.project_type),
            version_control: self.version_control,
            hits: self.hits,
            launcher_id: copy_opt(&self.launcher_id),
            top: self.top,
            is_custom: self.is_custom,
            last_opened: copy_opt(&self.last_opened),
            alias: copy_opt(&self.alias),
        }
    }
}

impl Project {
    /// A project as a scan first sees it: no classification, never opened,
    /// not pinned, not custom.
    pub fn new(path: String, name: String, vc: VersionControl) -> (r: Self)
        ensures
            r@ == ProjectView::scanned(path@, name@, vc),
            r.path == path,
            r.name == name,
    {
        Self {
            name,
            path,
            project_type: None,
            version_control: vc,
            hits: 0,
            launcher_id: None,
            top: false,
            is_custom: false,
            last_opened: None,
            alias: None,
        }
    }
}

} // verus!
