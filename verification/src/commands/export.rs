//! Exporting the settings as a bundle and importing one.

use vstd::prelude::*;
use crate::models::cache::CacheData;
use crate::models::cache::CacheDataView;
use crate::models::cache::opt_cache;
use crate::models::config::Config;
use crate::models::config::ConfigView;
use crate::models::export::ExportData;
use crate::models::export::ExportDataView;
use crate::models::export::ExportOptions;
use crate::models::export::GeneralSettings;
use crate::models::export::GeneralSettingsView;
use crate::models::export::WorkspaceSettings;
use crate::models::export::WorkspaceSettingsView;
use crate::models::launcher::copy_launchers;
use crate::services::clock::ClockError;
use crate::services::clock::checked_instant;
use crate::services::clock::read_clock;
use crate::services::clock::usable;
use crate::text::opt_text;
use crate::text::copy_list;
use crate::text::same_text;

verus! {

/// The bundle format that export writes and import accepts.
pub const EXPORT_VERSION: &'static str = "1.0";

/// Why a bundle was refused.
#[derive(Debug, Clone, Copy, PartialEq, Eq, Structural)]
pub enum ExportError {
    /// The bundle is of a format version other than [`EXPORT_VERSION`].
    UnsupportedVersion,
}

impl ExportError {
    /// The message shown to the user, for a bundle of the given version.
    pub fn message(&self, version: &str) -> (r: String)
        ensures
            r@ == "不支持的配置文件版本: "@ + version@,
    {
        let mut text = "不支持的配置文件版本: ".to_string();
        text.append(version);
        text
    }
}

/// The bundle that an export at the given time makes of a configuration
/// and the stored snapshot: each section present exactly where the options
/// ask for it, the snapshot only where one is stored.
pub open spec fn exported(
    config: ConfigView,
    cache: Option<CacheDataView>,
    options: ExportOptions,
    exported_at: Seq<char>,
) -> ExportDataView {
    ExportDataView {
        version: EXPORT_VERSION@,
        exported_at,
        general_settings: if options.general_settings {
            Some(
                GeneralSettingsView {
                    autostart: config.autostart,
                    theme: config.theme,
                    project_sort_by: config.project_sort_by,
                },
            )
        } else {
            None
        },
        workspaces: if options.workspaces {
            Some(
                WorkspaceSettingsView {
                    workspaces: config.workspaces,
                    ignore_dirs: config.ignore_dirs,
                },
            )
        } else {
            None
        },
        launchers: if options.launchers {
            Some(config.launchers)
        } else {
            None
        },
        cache: if options.cache {
            cache
        } else {
            None
        },
    }
}

/// The configuration after an import: each section that the options ask
/// for and the bundle holds replaces its counterpart; everything else
/// stays. The exclusion list is not part of a bundle and always stays.
pub open spec fn imported(
    config: ConfigView,
    data: ExportDataView,
    options: ExportOptions,
) -> ConfigView {
    let general = if options.general_settings {
        data.general_settings
    } else {
        None
    };
    let workspaces = if options.workspaces {
        data.workspaces
    } else {
        None
    };
    let launchers = if options.launchers {
        data.launchers
    } else {
        None
    };
    ConfigView {
        autostart: match general {
            Some(g) => g.autostart,
            None => config.autostart,
        },
        theme: match general {
            Some(g) => g.theme,
            None => config.theme,
        },
        project_sort_by: match general {
            Some(g) => g.project_sort_by,
            None => config.project_sort_by,
        },
        workspaces: match workspaces {
            Some(w) => w.workspaces,
            None => config.workspaces,
        },
        ignore_dirs: match workspaces {
            Some(w) => w.ignore_dirs,
            None => config.ignore_dirs,
        },
        launchers: match launchers {
            Some(l) => l,
            None => config.launchers,
        },
        excluded_projects: config.excluded_projects,
    }
}

/// The snapshot that an import stores: the bundle's, where the options ask
/// for it and the bundle holds one.
pub open spec fn imported_cache(data: ExportDataView, options: ExportOptions) -> Option<
    CacheDataView,
> {
    if options.cache {
        data.cache
    } else {
        None
    }
}

/// Bundles the chosen sections of the settings, stamped with the given
/// time. `cache` is the stored snapshot, where one could be read.
pub fn export_settings_at(
    config: &Config,
    cache: Option<CacheData>,
    options: &ExportOptions,
    exported_at: String,
) -> (r: ExportData)
    ensures
        r@ == exported(config@, opt_cache(cache), *options, exported_at@),
{
    let general_settings = if options.general_settings {
        Some(
            GeneralSettings {
                autostart: config.autostart,
                theme: config.theme.clone(),
                project_sort_by: config.project_sort_by.clone(),
            },
        )
    } else {
        None
    };
    let workspaces = if options.workspaces {
        Some(
            WorkspaceSettings {
                workspaces: copy_list(&config.workspaces),
                ignore_dirs: copy_list(&config.ignore_dirs),
            },
        )
    } else {
        None
    };
    let launchers = if options.launchers {
        Some(copy_launchers(&config.launchers))
    } else {
        None
    };
    let cache = if options.cache {
        cache
    } else {
        None
    };
    ExportData {
        version: EXPORT_VERSION.to_string(),
        exported_at,
        general_settings,
        workspaces,
        launchers,
        cache,
    }
}

/// What an export comes to by a reading of the clock: the bundle stamped
/// with the time the reading shows where it is an RFC 3339 instant, an
/// error otherwise.
pub open spec fn export_outcome(
    config: ConfigView,
    cache: Option<CacheDataView>,
    options: ExportOptions,
    reading: Option<Seq<char>>,
) -> Result<ExportDataView, ClockError> {
    match usable(reading) {
        Some(stamp) => Ok(exported(config, cache, options, stamp)),
        None => Err(ClockError::Unreadable),
    }
}

/// The view of what an export came to.
pub open spec fn bundle_outcome(r: Result<ExportData, ClockError>) -> Result<
    ExportDataView,
    ClockError,
> {
    match r {
        Ok(bundle) => Ok(bundle@),
        Err(e) => Err(e),
    }
}

/// Bundles the chosen sections of the settings, stamped with the time
/// that a reading of the clock shows.
pub fn export_settings_stamped(
    config: &Config,
    cache: Option<CacheData>,
    options: &ExportOptions,
    reading: Option<String>,
) -> (r: Result<ExportData, ClockError>)
    ensures
        bundle_outcome(r) == export_outcome(
            config@,
            opt_cache(cache),
            *options,
            opt_text(reading),
        ),
{
    match checked_instant(reading) {
        Some(now) => Ok(export_settings_at(config, cache, options, now)),
        None => Err(ClockError::Unreadable),
    }
}

/// Bundles the chosen sections of the settings, stamped with the time the
/// clock shows. A clock that shows no RFC 3339 time gives an error.
pub fn export_settings(config: &Config, cache: Option<CacheData>, options: &ExportOptions) -> (r:
    Result<ExportData, ClockError>)
    ensures
        exists|reading: Option<Seq<char>>|
            bundle_outcome(r) == #[trigger] export_outcome(
                config@,
                opt_cache(cache),
                *options,
                reading,
            ),
{
    let reading = read_clock();
    let ghost seen = opt_text(reading);
    let outcome = export_settings_stamped(config, cache, options, reading);
    assert(bundle_outcome(outcome) == export_outcome(config@, opt_cache(cache), *options, seen));
    outcome
}

/// Applies the chosen sections of a bundle to the configuration and
/// returns the snapshot to store, if the bundle's is to replace the
/// stored one.
pub fn import_settings(config: &mut Config, data: &ExportData, options: &ExportOptions) -> (r:
    Option<CacheData>)
    ensures
        final(config)@ == imported(old(config)@, data@, *options),
        opt_cache(r) == imported_cache(data@, *options),
{
    if options.general_settings {
        match &data.general_settings {
            Some(general) => {
                config.autostart = general.autostart;
                config.theme = general.theme.clone();
                config.project_sort_by = general.project_sort_by.clone();
            },
            None => {},
        }
    }
    if options.workspaces {
        match &data.workspaces {
            Some(ws) => {
                config.workspaces = copy_list(&ws.workspaces);
                config.ignore_dirs = copy_list(&ws.ignore_dirs);
            },
            None => {},
        }
    }
    if options.launchers {
        match &data.launchers {
            Some(launchers) => {
                config.launchers = copy_launchers(launchers);
            },
            None => {},
        }
    }
    if options.cache {
        match &data.cache {
            Some(cache) => Some(cache.clone()),
            None => None,
        }
    } else {
        None
    }
}

/// Accepts a bundle for import if it is of the supported format version,
/// and hands it back unchanged.
pub fn preview_import(data: ExportData) -> (r: Result<ExportData, ExportError>)
    ensures
        match r {
            Ok(bundle) => data@.version == EXPORT_VERSION@ && bundle == data,
            Err(e) => data@.version != EXPORT_VERSION@ && e == ExportError::UnsupportedVersion,
        },
{
    if same_text(data.version.as_str(), EXPORT_VERSION) {
        Ok(data)
    } else {
        Err(ExportError::UnsupportedVersion)
    }
}

} // verus!
