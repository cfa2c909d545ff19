//! The application's configuration.

use vstd::prelude::*;
use crate::text::texts;
use crate::text::copy_list;
use crate::models::launcher::Launcher;
use crate::models::launcher::LauncherView;
use crate::models::launcher::launchers_view;
use crate::models::launcher::copy_launchers;

verus! {

/// What the user has configured: where to scan, what to skip, which
/// launchers exist and how the catalog is shown.
#[derive(Debug)]
pub struct Config {
    pub workspaces: Vec<String>,
    pub ignore_dirs: Vec<String>,
    /// Project paths that stay hidden across rescans.
    pub excluded_projects: Vec<String>,
    pub launchers: Vec<Launcher>,
    pub autostart: bool,
    pub theme: String,
    /// How the catalog is sorted: `hits`, `last_opened` or `name`.
    pub project_sort_by: String,
}

/// The mathematical content of a [`Config`].
pub struct ConfigView {
    pub workspaces: Seq<Seq<char>>,
    pub ignore_dirs: Seq<Seq<char>>,
    pub excluded_projects: Seq<Seq<char>>,
    pub launchers: Seq<LauncherView>,
    pub autostart: bool,
    pub theme: Seq<char>,
    pub project_sort_by: Seq<char>,
}

impl View for Config {
    type V = ConfigView;

    open spec fn view(&self) -> ConfigView {
        ConfigView {
            workspaces: texts(self.workspaces@),
            ignore_dirs: texts(self.ignore_dirs@),
            excluded_projects: texts(self.excluded_projects@),
            launchers: launchers_view(self.launchers@),
            autostart: self.autostart,
            theme: self.theme@,
            project_sort_by: self.project_sort_by@,
        }
    }
}

/// The directory names a new configuration ignores.
pub open spec fn default_ignore_dirs() -> Seq<Seq<char>> {
    seq!["node_modules"@, "dist"@, "build"@, "target"@, ".git"@]
}

/// The configuration of a first run: nothing to scan, the usual build
/// directories ignored, no launchers, light theme, sorted by open count.
pub open spec fn default_config() -> ConfigView {
    ConfigView {
        workspaces: Seq::empty(),
        ignore_dirs: default_ignore_dirs(),
        excluded_projects: Seq::empty(),
        launchers: Seq::empty(),
        autostart: false,
        theme: "light"@,
        project_sort_by: "hits"@,
    }
}

/// The sort order of a configuration that names none.
pub fn default_project_sort_by() -> (r: String)
    ensures
        r@ == "hits"@,
{
    "hits".to_string()
}

impl Default for Config {
    fn default() -> (r: Self)
        ensures
            r@ == default_config(),
    {
        let mut ignore_dirs: Vec<String> = Vec::new();
        ignore_dirs.push("node_modules".to_string());
        ignore_dirs.push("dist".to_string());
        ignore_dirs.push("build".to_string());
        ignore_dirs.push("target".to_string());
        ignore_dirs.push(".git".to_string());
        let config = Self {
            workspaces: Vec::new(),
            ignore_dirs,
            excluded_projects: Vec::new(),
            launchers: Vec::new(),
            autostart: false,
            theme: "light".to_string(),
            project_sort_by: default_project_sort_by(),
        };
        assert(config@.ignore_dirs =~= default_ignore_dirs());
        assert(config@.workspaces =~= Seq::<Seq<char>>::empty());
        assert(config@.excluded_projects =~= Seq::<Seq<char>>::empty());
        assert(config@.launchers =~= Seq::<LauncherView>::empty());
        config
    }
}

impl Clone for Config {
    fn clone(&self) -> (r: Self)
        ensures
            r@ == self@,
    {
        Config {
            workspaces: copy_list(&self.workspaces),
            ignore_dirs: copy_list(&self.ignore_dirs),
            excluded_projects: copy_list(&self.excluded_projects),
            launchers: copy_launchers(&self.launchers),
            autostart: self.autostart,
            theme: self.theme.clone(),
            project_sort_by: self.project_sort_by.clone(),
        }
    }
}

} // verus!
