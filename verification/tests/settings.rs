use std::path::PathBuf;

use project_launcher::commands::export::{
    export_settings, export_settings_at, export_settings_stamped, import_settings,
    preview_import, ExportError, EXPORT_VERSION,
};
use project_launcher::commands::launcher::{
    add_launcher, add_launcher_with_id, get_launchers, launch_project, launcher_position,
    remove_launcher, select_launcher, update_launcher, LauncherError,
};
use project_launcher::models::cache::{copy_projects, CacheData};
use project_launcher::models::config::{default_project_sort_by, Config};
use project_launcher::models::export::{ExportData, ExportOptions, GeneralSettings, WorkspaceSettings};
use project_launcher::models::launcher::Launcher;
use project_launcher::models::project::{Project, VersionControl};
use project_launcher::services::cache_manager::{CacheManager, CACHE_FILE_NAME, CACHE_VERSION};
use project_launcher::services::clock::{checked_instant, is_instant, ClockError};
use project_launcher::services::launcher_service::{LaunchPlan, LauncherService};
use project_launcher::services::platform::Platform;

fn launcher(id: &str) -> Launcher {
    Launcher::new(id.to_string(), format!("name-{}", id), format!("/apps/{}", id))
}

fn command_launcher(id: &str, command: Option<&str>) -> Launcher {
    let mut l = launcher(id);
    l.is_command = true;
    l.command = command.map(|c| c.to_string());
    l
}

fn all(on: bool) -> ExportOptions {
    ExportOptions { general_settings: on, workspaces: on, launchers: on, cache: on }
}

fn cache_of(paths: &[&str], last_scan: &str) -> CacheData {
    CacheData {
        projects: paths
            .iter()
            .map(|p| Project::new(p.to_string(), "n".to_string(), VersionControl::Git))
            .collect(),
        last_scan: last_scan.to_string(),
        version: "0".to_string(),
    }
}

#[test]
fn default_config() {
    let c = Config::default();
    assert!(c.workspaces.is_empty());
    assert_eq!(c.ignore_dirs, vec!["node_modules", "dist", "build", "target", ".git"]);
    assert!(c.excluded_projects.is_empty());
    assert!(c.launchers.is_empty());
    assert!(!c.autostart);
    assert_eq!(c.theme, "light");
    assert_eq!(c.project_sort_by, "hits");
    assert_eq!(default_project_sort_by(), "hits");
    let d = c.clone();
    assert_eq!(d.ignore_dirs, c.ignore_dirs);
    assert_eq!(d.theme, "light");
}

#[test]
fn new_launcher_starts_an_application() {
    let l = Launcher::new("i".to_string(), "n".to_string(), "/p".to_string());
    assert_eq!((l.id.as_str(), l.name.as_str(), l.path.as_str()), ("i", "n", "/p"));
    assert_eq!(l.command, None);
    assert!(!l.is_command);
    assert_eq!(l.icon_path, None);
    assert_eq!(l.shortcut, None);
    let m = l.clone();
    assert_eq!(m.id, "i");
}

#[test]
fn launcher_is_chosen_by_id_or_first() {
    let list = vec![launcher("a"), launcher("b"), launcher("b")];
    assert_eq!(select_launcher(&list, &Some("b".to_string())).unwrap().name, "name-b");
    assert_eq!(launcher_position(&list, "b"), Some(1));
    assert_eq!(select_launcher(&list, &None).unwrap().id, "a");
    assert_eq!(select_launcher(&list, &Some("z".to_string())).err(), Some(LauncherError::NotFound));
    assert_eq!(select_launcher(&vec![], &None).err(), Some(LauncherError::NoneConfigured));
    assert_eq!(select_launcher(&vec![], &Some("a".to_string())).err(), Some(LauncherError::NotFound));
    assert_eq!(LauncherError::NotFound.message(), "启动器不存在");
    assert_eq!(LauncherError::NoneConfigured.message(), "没有配置启动器");
}

#[test]
fn launch_plans() {
    match LauncherService::launch(&launcher("a"), "/ws/p") {
        LaunchPlan::Open { app_path, project_path } => {
            assert_eq!(app_path, "/apps/a");
            assert_eq!(project_path, "/ws/p");
        }
        other => panic!("unexpected plan {:?}", other),
    }
    match LauncherService::launch(&command_launcher("c", Some("code {project} && echo {project}!")), "/ws/p") {
        LaunchPlan::Command { line } => assert_eq!(line, "code /ws/p && echo /ws/p!"),
        other => panic!("unexpected plan {:?}", other),
    }
    match LauncherService::launch(&command_launcher("c", Some("ls")), "/ws/p") {
        LaunchPlan::Command { line } => assert_eq!(line, "ls"),
        other => panic!("unexpected plan {:?}", other),
    }
    assert!(matches!(LauncherService::launch(&command_launcher("c", None), "/ws/p"), LaunchPlan::Nothing));
}

#[test]
fn launch_project_chooses_and_plans() {
    let mut config = Config::default();
    assert_eq!(launch_project(&config, "/p", &None).err(), Some(LauncherError::NoneConfigured));
    config.launchers = vec![launcher("a"), command_launcher("c", Some("run {project}"))];
    assert!(matches!(launch_project(&config, "/p", &None), Ok(LaunchPlan::Open { .. })));
    match launch_project(&config, "/p", &Some("c".to_string())) {
        Ok(LaunchPlan::Command { line }) => assert_eq!(line, "run /p"),
        other => panic!("unexpected {:?}", other),
    }
    assert_eq!(launch_project(&config, "/p", &Some("x".to_string())).err(), Some(LauncherError::NotFound));
}

#[test]
fn applications_are_started_the_platform_way() {
    let i = LauncherService::open_with_app(Platform::MacOs, "/Applications/Zed.app", "/ws/p");
    assert_eq!(i.program, "open");
    assert_eq!(i.args, vec!["-a", "/Applications/Zed.app", "/ws/p"]);
    assert_eq!(i.raw_args, None);
    assert!(!i.hide_window);
    let i = LauncherService::open_with_app(Platform::Linux, "/usr/bin/code", "/ws/p");
    assert_eq!(i.program, "/usr/bin/code");
    assert_eq!(i.args, vec!["/ws/p"]);
    let i = LauncherService::open_with_app_named(Platform::Windows, "C:\\x\\WT.exe", "WT.exe", "C:\\p");
    assert_eq!(i.program, "C:\\x\\WT.exe");
    assert_eq!(i.args, vec!["-d", "C:\\p"]);
    let i = LauncherService::open_with_app_named(Platform::Windows, "w", "WindowsTerminal.EXE", "p");
    assert_eq!(i.args, vec!["-d", "p"]);
    let i = LauncherService::open_with_app_named(Platform::Windows, "code.exe", "code.exe", "p");
    assert_eq!(i.args, vec!["p"]);
    let i = LauncherService::open_with_app_named(Platform::Linux, "wt.exe", "wt.exe", "p");
    assert_eq!(i.args, vec!["p"]);
    let i = LauncherService::open_with_app_lowered(Platform::Windows, "W", "wt.exe", "p");
    assert_eq!(i.args, vec!["-d", "p"]);
    let i = LauncherService::open_with_app_lowered(Platform::Windows, "W", "WT.exe", "p");
    assert_eq!(i.args, vec!["p"]);
    let i = LauncherService::open_with_app_lowered(Platform::Windows, "W", "windowsterminal.exe", "p");
    assert_eq!((i.program.as_str(), i.args.len()), ("W", 2));
    let i = LauncherService::open_with_app(Platform::Windows, "/tools/wt.exe", "p");
    assert_eq!(i.args, vec!["-d", "p"]);
}

#[test]
fn command_lines_are_run_the_platform_way() {
    let i = LauncherService::execute_command(Platform::Linux, "code /ws/p").unwrap();
    assert_eq!(i.program, "sh");
    assert_eq!(i.args, vec!["-c", "code /ws/p"]);
    assert_eq!(i.raw_args, None);
    assert!(!i.hide_window);
    let i = LauncherService::execute_command(Platform::MacOs, "").unwrap();
    assert_eq!(i.args, vec!["-c", ""]);
    let i = LauncherService::execute_command(Platform::Windows, "code.exe  --new \"C:\\my p\"  ").unwrap();
    assert_eq!(i.program, "code.exe");
    assert!(i.args.is_empty());
    assert_eq!(i.raw_args, Some("--new \"C:\\my p\"".to_string()));
    assert!(i.hide_window);
    let i = LauncherService::execute_command(Platform::Windows, "abab x").unwrap();
    assert_eq!(i.program, "abab");
    assert_eq!(i.raw_args, Some("x".to_string()));
    let i = LauncherService::execute_command(Platform::Windows, "ab ab").unwrap();
    assert_eq!(i.raw_args, Some("ab".to_string()));
    let i = LauncherService::execute_command(Platform::Windows, "  code x").unwrap();
    assert_eq!(i.program, "code");
    assert_eq!(i.raw_args, Some("code x".to_string()));
    assert!(LauncherService::execute_command(Platform::Windows, " \t ").is_none());
    assert!(LauncherService::execute_command(Platform::Windows, "").is_none());
}

#[test]
fn plans_become_invocations() {
    assert!(LauncherService::invocation(Platform::Linux, &LaunchPlan::Nothing).is_none());
    let i = LauncherService::invocation(Platform::Linux, &LaunchPlan::Command { line: "ls".to_string() }).unwrap();
    assert_eq!(i.program, "sh");
    let plan = LaunchPlan::Open { app_path: "/a".to_string(), project_path: "/p".to_string() };
    let i = LauncherService::invocation(Platform::MacOs, &plan).unwrap();
    assert_eq!(i.args, vec!["-a", "/a", "/p"]);
}

#[test]
fn launchers_are_added_updated_and_removed() {
    let mut config = Config::default();
    let stored = add_launcher_with_id(&mut config, launcher("draft"), "id-1".to_string());
    assert_eq!(stored.id, "id-1");
    assert_eq!(stored.name, "name-draft");
    let random = add_launcher(&mut config, launcher("draft"));
    assert_eq!(random.id.len(), 36);
    assert_ne!(random.id, "draft");
    assert!(uuid::Uuid::parse_str(&random.id).is_ok());
    assert_eq!(config.launchers.len(), 2);
    assert_eq!(config.launchers[1].id, random.id);
    assert_eq!(get_launchers(&config).len(), 2);

    let mut changed = launcher("id-1");
    changed.name = "renamed".to_string();
    assert_eq!(update_launcher(&mut config, changed), Ok(()));
    assert_eq!(config.launchers[0].name, "renamed");
    assert_eq!(update_launcher(&mut config, launcher("nope")), Err(LauncherError::NotFound));
    assert_eq!(config.launchers.len(), 2);

    add_launcher_with_id(&mut config, launcher("x"), "id-1".to_string());
    remove_launcher(&mut config, "id-1");
    assert_eq!(config.launchers.len(), 1);
    assert_eq!(config.launchers[0].id, random.id);
    remove_launcher(&mut config, "absent");
    assert_eq!(config.launchers.len(), 1);
    assert_eq!(config.theme, "light");
}

#[test]
fn export_includes_exactly_the_chosen_sections() {
    let mut config = Config::default();
    config.workspaces = vec!["/ws".to_string()];
    config.launchers = vec![launcher("a")];
    config.autostart = true;
    let bundle = export_settings_at(&config, Some(cache_of(&["/p"], "t")), &all(true), "now".to_string());
    assert_eq!(bundle.version, "1.0");
    assert_eq!(EXPORT_VERSION, "1.0");
    assert_eq!(bundle.exported_at, "now");
    let g = bundle.general_settings.unwrap();
    assert!(g.autostart);
    assert_eq!(g.theme, "light");
    assert_eq!(g.project_sort_by, "hits");
    let w = bundle.workspaces.unwrap();
    assert_eq!(w.workspaces, vec!["/ws"]);
    assert_eq!(w.ignore_dirs.len(), 5);
    assert_eq!(bundle.launchers.unwrap()[0].id, "a");
    assert_eq!(bundle.cache.unwrap().projects[0].path, "/p");

    let bundle = export_settings_at(&config, Some(cache_of(&["/p"], "t")), &all(false), "now".to_string());
    assert!(bundle.general_settings.is_none() && bundle.workspaces.is_none());
    assert!(bundle.launchers.is_none() && bundle.cache.is_none());
    let bundle = export_settings_at(&config, None, &all(true), "now".to_string());
    assert!(bundle.cache.is_none());
    let stamped = export_settings_stamped(&config, None, &all(false), Some("2024-01-01T00:00:00Z".to_string()))
        .expect("a usable reading");
    assert_eq!(stamped.exported_at, "2024-01-01T00:00:00Z");
    assert_eq!(
        export_settings_stamped(&config, None, &all(true), Some("x".to_string())).err(),
        Some(ClockError::Unreadable)
    );
    assert_eq!(
        export_settings_stamped(&config, None, &all(true), None).err(),
        Some(ClockError::Unreadable)
    );
    let bundle = export_settings(&config, None, &all(false)).expect("a readable clock");
    assert!(chrono::DateTime::parse_from_rfc3339(&bundle.exported_at).is_ok());
}

#[test]
fn import_applies_exactly_the_chosen_sections() {
    let data = ExportData {
        version: "1.0".to_string(),
        exported_at: "t".to_string(),
        general_settings: Some(GeneralSettings {
            autostart: true,
            theme: "dark".to_string(),
            project_sort_by: "name".to_string(),
        }),
        workspaces: Some(WorkspaceSettings {
            workspaces: vec!["/w".to_string()],
            ignore_dirs: vec!["out".to_string()],
        }),
        launchers: Some(vec![launcher("z")]),
        cache: Some(cache_of(&["/p"], "t")),
    };
    let mut config = Config::default();
    config.excluded_projects = vec!["/e".to_string()];
    let cache = import_settings(&mut config, &data, &all(true));
    assert!(config.autostart);
    assert_eq!(config.theme, "dark");
    assert_eq!(config.project_sort_by, "name");
    assert_eq!(config.workspaces, vec!["/w"]);
    assert_eq!(config.ignore_dirs, vec!["out"]);
    assert_eq!(config.launchers[0].id, "z");
    assert_eq!(config.excluded_projects, vec!["/e"]);
    assert_eq!(cache.unwrap().projects[0].path, "/p");

    let mut config = Config::default();
    let only_ws = ExportOptions { general_settings: false, workspaces: true, launchers: false, cache: false };
    assert!(import_settings(&mut config, &data, &only_ws).is_none());
    assert_eq!(config.theme, "light");
    assert_eq!(config.workspaces, vec!["/w"]);
    assert!(config.launchers.is_empty());

    let empty = ExportData {
        version: "1.0".to_string(),
        exported_at: "t".to_string(),
        general_settings: None,
        workspaces: None,
        launchers: None,
        cache: None,
    };
    let mut config = Config::default();
    assert!(import_settings(&mut config, &empty, &all(true)).is_none());
    assert_eq!(config.ignore_dirs.len(), 5);
}

#[test]
fn only_the_supported_bundle_version_is_accepted() {
    let bundle = |v: &str| ExportData {
        version: v.to_string(),
        exported_at: "t".to_string(),
        general_settings: None,
        workspaces: None,
        launchers: None,
        cache: None,
    };
    assert_eq!(preview_import(bundle("1.0")).unwrap().exported_at, "t");
    assert_eq!(preview_import(bundle("2.0")).err(), Some(ExportError::UnsupportedVersion));
    assert_eq!(preview_import(bundle("")).err(), Some(ExportError::UnsupportedVersion));
    assert_eq!(ExportError::UnsupportedVersion.message("2.0"), "不支持的配置文件版本: 2.0");
}

#[test]
fn store_builds_the_snapshot_to_write() {
    let store = CacheManager::new(PathBuf::from("/data/app"));
    assert_eq!(store.data_dir(), &PathBuf::from("/data/app"));
    assert_eq!(CACHE_FILE_NAME, "cache.json");
    let projects = cache_of(&["/a", "/b"], "t").projects;
    let snapshot = store.save_at(copy_projects(&projects), "2024-01-01T00:00:00+00:00".to_string());
    assert_eq!(snapshot.projects.len(), 2);
    assert_eq!(snapshot.projects[1].path, "/b");
    assert_eq!(snapshot.last_scan, "2024-01-01T00:00:00+00:00");
    assert_eq!(snapshot.version, CACHE_VERSION);
    let snapshot = store.save(projects).expect("a readable clock");
    assert_eq!(snapshot.projects.len(), 2);
    assert_eq!(snapshot.projects[0].path, "/a");
    assert_eq!(snapshot.version, CACHE_VERSION);
    assert!(!snapshot.last_scan.is_empty());
    assert!(chrono::DateTime::parse_from_rfc3339(&snapshot.last_scan).is_ok());
    assert!(!store.is_stale_at(Some(&snapshot), &snapshot.last_scan, 0));
    assert_eq!(ClockError::Unreadable.message(), "the system clock shows no usable time");
    let now = snapshot.last_scan.clone();
    assert!(is_instant(&now));
    assert!(is_instant("2024-01-01T00:00:00Z"));
    assert!(!is_instant(""));
    assert!(!is_instant("2024-01-01"));
    assert_eq!(checked_instant(Some(now.clone())), Some(now));
    assert_eq!(checked_instant(Some("soon".to_string())), None);
    assert_eq!(checked_instant(None), None);

    let stamped = store
        .save_stamped(cache_of(&["/a"], "t").projects, Some("2024-05-01T10:00:00+02:00".to_string()))
        .expect("a usable reading");
    assert_eq!(stamped.last_scan, "2024-05-01T10:00:00+02:00");
    assert_eq!(stamped.version, CACHE_VERSION);
    assert_eq!(stamped.projects[0].path, "/a");
    assert_eq!(store.save_stamped(vec![], Some("".to_string())).err(), Some(ClockError::Unreadable));
    assert_eq!(store.save_stamped(vec![], None).err(), Some(ClockError::Unreadable));
    let copy = snapshot.clone();
    assert_eq!(copy.last_scan, snapshot.last_scan);
}

#[test]
fn staleness_counts_whole_hours() {
    let store = CacheManager::new(PathBuf::from("/d"));
    let cache = cache_of(&[], "2024-01-01T00:00:00Z");
    assert!(store.is_stale_at(Some(&cache), "2024-01-02T01:00:00Z", 24));
    assert!(!store.is_stale_at(Some(&cache), "2024-01-02T00:59:59Z", 24));
    assert!(!store.is_stale_at(Some(&cache), "2024-01-02T01:00:00Z", 25));
    assert!(store.is_stale_at(Some(&cache), "2024-01-01T01:00:00Z", 0));
    assert!(!store.is_stale_at(Some(&cache), "2024-01-01T00:59:59.999Z", 0));
    assert!(!store.is_stale_at(Some(&cache), "2024-01-02T02:30:00+02:00", 24));
    assert!(store.is_stale_at(Some(&cache), "2024-01-02T03:00:00+02:00", 24));
    assert!(!store.is_stale_at(Some(&cache), "2023-12-01T00:00:00Z", 0));
    assert!(!store.is_stale_at(Some(&cache), "2030-01-01T00:00:00Z", u64::MAX));
}

#[test]
fn unreadable_or_missing_snapshots_are_stale() {
    let store = CacheManager::new(PathBuf::from("/d"));
    assert!(store.is_stale_at(None, "2024-01-01T00:00:00Z", 1000));
    assert!(store.is_stale_at(Some(&cache_of(&[], "yesterday")), "2024-01-01T00:00:00Z", 1000));
    assert!(store.is_stale_at(Some(&cache_of(&[], "2024-01-01T00:00:00Z")), "soon", 1000));
    let cache = cache_of(&[], "2024-01-01T00:00:00Z");
    let at = |t: &str| Some(t.to_string());
    assert!(store.is_stale_stamped(Some(&cache), &at("2024-01-02T01:00:00Z"), 24));
    assert!(!store.is_stale_stamped(Some(&cache), &at("2024-01-02T00:00:00Z"), 24));
    assert!(store.is_stale_stamped(Some(&cache), &at("not a time"), 24));
    assert!(store.is_stale_stamped(Some(&cache), &None, 24));
    assert!(store.is_stale_stamped(None, &at("2024-01-02T00:00:00Z"), 24));
    assert!(store.is_stale(None, u64::MAX));
    assert!(store.is_stale(Some(&cache_of(&[], "2000-01-01T00:00:00Z")), 24));
    assert!(!store.is_stale(Some(&cache_of(&[], "2000-01-01T00:00:00Z")), u64::MAX));
    assert!(!store.is_stale(Some(&cache_of(&[], "2999-01-01T00:00:00Z")), 0));
}
