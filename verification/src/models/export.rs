//! The settings bundle that export writes and import reads.

use vstd::prelude::*;
use crate::text::texts;
use crate::models::cache::CacheData;
use crate::models::cache::CacheDataView;
use crate::models::cache::opt_cache;
use crate::models::launcher::Launcher;
use crate::models::launcher::LauncherView;
use crate::models::launcher::launchers_view;

verus! {

/// The general settings of a bundle.
#[derive(Debug)]
pub struct GeneralSettings {
    pub autostart: bool,
    pub theme: String,
    pub project_sort_by: String,
}

/// The workspace settings of a bundle.
#[derive(Debug)]
pub struct WorkspaceSettings {
    pub workspaces: Vec<String>,
    pub ignore_dirs: Vec<String>,
}

/// Which sections an export includes or an import applies.
#[derive(Debug, Clone, Copy, PartialEq, Eq, Structural)]
pub struct ExportOptions {
    pub general_settings: bool,
    pub workspaces: bool,
    pub launchers: bool,
    pub cache: bool,
}

/// A settings bundle. Each section is present only where it was exported.
#[derive(Debug)]
pub struct ExportData {
    pub version: String,
    pub exported_at: String,
    pub general_settings: Option<GeneralSettings>,
    pub workspaces: Option<WorkspaceSettings>,
    pub launchers: Option<Vec<Launcher>>,
    pub cache: Option<CacheData>,
}

/// The mathematical content of a [`GeneralSettings`].
pub struct GeneralSettingsView {
    pub autostart: bool,
    pub theme: Seq<char>,
    pub project_sort_by: Seq<char>,
}

/// The mathematical content of a [`WorkspaceSettings`].
pub struct WorkspaceSettingsView {
    pub workspaces: Seq<Seq<char>>,
    pub ignore_dirs: Seq<Seq<char>>,
}

/// The mathematical content of an [`ExportData`].
pub struct ExportDataView {
    pub version: Seq<char>,
    pub exported_at: Seq<char>,
    pub general_settings: Option<GeneralSettingsView>,
    pub workspaces: Option<WorkspaceSettingsView>,
    pub launchers: Option<Seq<LauncherView>>,
    pub cache: Option<CacheDataView>,
}

impl View for GeneralSettings {
    type V = GeneralSettingsView;

    open spec fn view(&self) -> GeneralSettingsView {
        GeneralSettingsView {
            autostart: self.autostart,
            theme: self.theme@,
            project_sort_by: self.project_sort_by@,
        }
    }
}

impl View for WorkspaceSettings {
    type V = WorkspaceSettingsView;

    open spec fn view(&self) -> WorkspaceSettingsView {
        WorkspaceSettingsView {
            workspaces: texts(self.workspaces@),
            ignore_dirs: texts(self.ignore_dirs@),
        }
    }
}

impl View for ExportData {
    type V = ExportDataView;

    open spec fn view(&self) -> ExportDataView {
        ExportDataView {
            version: self.version@,
            exported_at: self.exported_at@,
            general_settings: match self.general_settings {
                Some(g) => Some(g@),
                None => None,
            },
            workspaces: match self.workspaces {
                Some(w) => Some(w@),
                None => None,
            },
            launchers: match self.launchers {
                Some(l) => Some(launchers_view(l@)),
                None => None,
            },
            cache: opt_cache(self.cache),
        }
    }
}

} // verus!
