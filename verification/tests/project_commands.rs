use project_launcher::commands::project::{
    add_custom_project, batch_detect_types, custom_position_of, detect_into, detect_project_type,
    force_rescan, get_cached_projects, increment_project_hits, increment_project_hits_at,
    increment_project_hits_stamped,
    position_of, progress_percent, remove_custom_project, update_project_launcher,
    update_project_top, FolderProbe, ProjectError,
};
use project_launcher::models::cache::CacheData;
use project_launcher::services::clock::ClockError;
use project_launcher::models::config::Config;
use project_launcher::models::project::{Project, VersionControl};
use project_launcher::services::scanner::{VcsMarkers, WalkEntry};
use project_launcher::services::type_detector::{DirSnapshot, EntryKind, TreeEntry};

fn project(path: &str) -> Project {
    Project::new(path.to_string(), "n".to_string(), VersionControl::Git)
}

fn listing(names: &[&str]) -> DirSnapshot {
    DirSnapshot {
        entries: Some(
            names
                .iter()
                .map(|n| TreeEntry {
                    name: n.to_string(),
                    extension: None,
                    kind: EntryKind::File,
                    content: None,
                    children: vec![],
                })
                .collect(),
        ),
    }
}

fn probe(exists: bool, is_dir: bool, name: Option<&str>) -> FolderProbe {
    FolderProbe {
        exists,
        is_dir,
        file_name: name.map(|n| n.to_string()),
        markers: VcsMarkers { git: false, svn: false, hg: false },
        snapshot: listing(&["Cargo.toml"]),
    }
}

fn entry(path: &str, name: &str, components: &[&str], depth: usize) -> WalkEntry {
    WalkEntry {
        path: path.to_string(),
        components: components.iter().map(|c| c.to_string()).collect(),
        file_name: Some(name.to_string()),
        depth,
        is_dir: true,
        markers: VcsMarkers { git: true, svn: false, hg: false },
    }
}

#[test]
fn adding_a_missing_path_is_refused_and_changes_nothing() {
    let mut catalog = vec![project("/ws/a")];
    let r = add_custom_project(&mut catalog, "/nowhere".to_string(), &probe(false, false, Some("nowhere")));
    assert_eq!(r.err(), Some(ProjectError::PathDoesNotExist));
    assert_eq!(ProjectError::PathDoesNotExist.message(), "path does not exist");
    assert_eq!(catalog.len(), 1);
    assert_eq!(catalog[0].path, "/ws/a");
}

#[test]
fn adding_a_file_is_refused() {
    let mut catalog = vec![];
    let r = add_custom_project(&mut catalog, "/f.txt".to_string(), &probe(true, false, Some("f.txt")));
    assert_eq!(r.err(), Some(ProjectError::NotADirectory));
    assert_eq!(ProjectError::NotADirectory.message(), "path is not a directory");
    assert!(catalog.is_empty());
}

#[test]
fn adding_a_known_path_is_refused() {
    let mut catalog = vec![project("/ws/a")];
    let r = add_custom_project(&mut catalog, "/ws/a".to_string(), &probe(true, true, Some("a")));
    assert_eq!(r.err(), Some(ProjectError::AlreadyPresent));
    assert_eq!(ProjectError::AlreadyPresent.message(), "already present");
    assert_eq!(catalog.len(), 1);
}

#[test]
fn adding_a_path_without_a_name_is_refused() {
    let mut catalog = vec![];
    let r = add_custom_project(&mut catalog, "/".to_string(), &probe(true, true, None));
    assert_eq!(r.err(), Some(ProjectError::NoFolderName));
    assert!(catalog.is_empty());
}

#[test]
fn checks_run_in_order() {
    let mut catalog = vec![project("/ws/a")];
    let r = add_custom_project(&mut catalog, "/ws/a".to_string(), &probe(false, false, None));
    assert_eq!(r.err(), Some(ProjectError::PathDoesNotExist));
    let r = add_custom_project(&mut catalog, "/ws/a".to_string(), &probe(true, false, None));
    assert_eq!(r.err(), Some(ProjectError::NotADirectory));
    let r = add_custom_project(&mut catalog, "/ws/a".to_string(), &probe(true, true, None));
    assert_eq!(r.err(), Some(ProjectError::AlreadyPresent));
}

#[test]
fn added_folder_becomes_a_classified_custom_entry() {
    let mut catalog = vec![project("/ws/a")];
    let added = add_custom_project(&mut catalog, "/c/x".to_string(), &probe(true, true, Some("x"))).unwrap();
    assert_eq!(added.path, "/c/x");
    assert_eq!(added.name, "x");
    assert!(added.is_custom);
    assert_eq!(added.version_control, VersionControl::Unversioned);
    assert_eq!(added.project_type, Some("rust".to_string()));
    assert_eq!(added.hits, 0);
    assert_eq!(catalog.len(), 2);
    assert_eq!(catalog[1].path, "/c/x");
    assert!(catalog[1].is_custom);

    let mut marked = probe(true, true, Some("y"));
    marked.markers = VcsMarkers { git: false, svn: false, hg: true };
    marked.snapshot = DirSnapshot { entries: None };
    let added = add_custom_project(&mut catalog, "/c/y".to_string(), &marked).unwrap();
    assert_eq!(added.version_control, VersionControl::Mercurial);
    assert_eq!(added.project_type, None);
}

#[test]
fn probe_takes_the_folder_name_from_the_path() {
    let found = FolderProbe::for_path(
        "/c/my folder",
        true,
        true,
        VcsMarkers { git: true, svn: false, hg: false },
        listing(&[]),
    );
    assert_eq!(found.file_name, Some("my folder".to_string()));
    assert!(found.exists && found.is_dir && found.markers.git);
    let mut catalog = vec![];
    let added = add_custom_project(&mut catalog, "/c/my folder".to_string(), &found).unwrap();
    assert_eq!(added.name, "my folder");
    assert_eq!(added.version_control, VersionControl::Git);
    assert_eq!(added.project_type, Some("unknown".to_string()));
    let rootless = FolderProbe::for_path("/", true, true, found.markers, listing(&[]));
    assert_eq!(rootless.file_name, None);
}

#[test]
fn removing_takes_the_first_custom_entry_with_the_path() {
    let mut c = project("/c/x");
    c.is_custom = true;
    let mut catalog = vec![project("/ws/a"), project("/c/x"), c, project("/ws/b")];
    assert_eq!(custom_position_of(&catalog, "/c/x"), Some(2));
    assert_eq!(remove_custom_project(&mut catalog, "/c/x"), Ok(()));
    let paths: Vec<&str> = catalog.iter().map(|p| p.path.as_str()).collect();
    assert_eq!(paths, vec!["/ws/a", "/c/x", "/ws/b"]);
    assert!(!catalog[1].is_custom);
}

#[test]
fn removing_a_scanned_or_unknown_entry_is_refused() {
    let mut catalog = vec![project("/ws/a")];
    assert_eq!(remove_custom_project(&mut catalog, "/ws/a"), Err(ProjectError::NotFoundOrNotCustom));
    assert_eq!(remove_custom_project(&mut catalog, "/nope"), Err(ProjectError::NotFoundOrNotCustom));
    assert_eq!(ProjectError::NotFoundOrNotCustom.message(), "not found or not custom");
    assert_eq!(catalog.len(), 1);
}

#[test]
fn opening_counts_and_stamps_the_first_entry_with_the_path() {
    let mut catalog = vec![project("/ws/a"), project("/ws/b"), project("/ws/b")];
    assert_eq!(position_of(&catalog, "/ws/b"), Some(1));
    assert_eq!(position_of(&catalog, "/ws/c"), None);
    increment_project_hits_at(&mut catalog, "/ws/b", "2024-01-01T00:00:00+00:00".to_string());
    increment_project_hits_at(&mut catalog, "/ws/b", "2024-01-02T00:00:00+00:00".to_string());
    assert_eq!(catalog[1].hits, 2);
    assert_eq!(catalog[1].last_opened, Some("2024-01-02T00:00:00+00:00".to_string()));
    assert_eq!(catalog[0].hits, 0);
    assert_eq!(catalog[2].hits, 0);
    assert_eq!(catalog[2].last_opened, None);
    increment_project_hits_at(&mut catalog, "/ws/none", "t".to_string());
    assert_eq!(catalog.iter().map(|p| p.hits).sum::<u32>(), 2);
}

#[test]
fn open_count_stays_at_its_maximum() {
    let mut catalog = vec![project("/ws/a")];
    catalog[0].hits = u32::MAX - 1;
    increment_project_hits_at(&mut catalog, "/ws/a", "t".to_string());
    assert_eq!(catalog[0].hits, u32::MAX);
    increment_project_hits_at(&mut catalog, "/ws/a", "t".to_string());
    assert_eq!(catalog[0].hits, u32::MAX);
}

#[test]
fn opening_by_the_clock_stamps_an_rfc3339_time() {
    let mut catalog = vec![project("/ws/a")];
    assert_eq!(increment_project_hits(&mut catalog, "/ws/a"), Ok(()));
    assert_eq!(catalog[0].hits, 1);
    let reading = Some("2024-03-03T03:03:03Z".to_string());
    assert_eq!(increment_project_hits_stamped(&mut catalog, "/ws/a", reading), Ok(()));
    assert_eq!(catalog[0].hits, 2);
    assert_eq!(catalog[0].last_opened, Some("2024-03-03T03:03:03Z".to_string()));
    assert_eq!(
        increment_project_hits_stamped(&mut catalog, "/ws/a", Some("noon".to_string())),
        Err(ClockError::Unreadable)
    );
    assert_eq!(increment_project_hits_stamped(&mut catalog, "/ws/a", None), Err(ClockError::Unreadable));
    assert_eq!(catalog[0].hits, 2);
    assert_eq!(catalog[0].last_opened, Some("2024-03-03T03:03:03Z".to_string()));
    let stamp = catalog[0].last_opened.clone().expect("a time");
    assert!(chrono::DateTime::parse_from_rfc3339(&stamp).is_ok());
}

#[test]
fn launcher_binding_and_pin() {
    let mut catalog = vec![project("/ws/a"), project("/ws/b")];
    assert_eq!(update_project_launcher(&mut catalog, "/ws/b", Some("code".to_string())), Ok(()));
    assert_eq!(catalog[1].launcher_id, Some("code".to_string()));
    assert_eq!(catalog[0].launcher_id, None);
    assert_eq!(update_project_launcher(&mut catalog, "/ws/b", None), Ok(()));
    assert_eq!(catalog[1].launcher_id, None);
    assert_eq!(update_project_top(&mut catalog, "/ws/a", true), Ok(()));
    assert!(catalog[0].top && !catalog[1].top);
    assert_eq!(update_project_top(&mut catalog, "/ws/a", false), Ok(()));
    assert!(!catalog[0].top);
    assert_eq!(update_project_launcher(&mut catalog, "/x", None), Err(ProjectError::NotFound));
    assert_eq!(update_project_top(&mut catalog, "/x", true), Err(ProjectError::NotFound));
    assert_eq!(ProjectError::NotFound.message(), "项目不存在");
}

#[test]
fn progress_is_the_floor_of_the_share_in_percent() {
    assert_eq!(progress_percent(1, 3), 33);
    assert_eq!(progress_percent(2, 3), 66);
    assert_eq!(progress_percent(3, 3), 100);
    assert_eq!(progress_percent(0, 5), 0);
    assert_eq!(progress_percent(1, 1), 100);
    assert_eq!(progress_percent(199, 200), 99);
    assert_eq!(progress_percent(6, 3), 200);
    assert_eq!(progress_percent(usize::MAX, 1), u32::MAX);
}

#[test]
fn batch_classification_updates_entries_and_reports_progress() {
    let mut catalog = vec![project("/a"), project("/b"), project("/c"), project("/d")];
    catalog[1].project_type = Some("old".to_string());
    let dirs = vec![listing(&["go.mod"]), DirSnapshot { entries: None }, listing(&[])];
    let progress = batch_detect_types(&mut catalog, &dirs);
    assert_eq!(progress, vec![25, 50, 75, 100]);
    assert_eq!(catalog[0].project_type, Some("go".to_string()));
    assert_eq!(catalog[1].project_type, Some("old".to_string()));
    assert_eq!(catalog[2].project_type, Some("unknown".to_string()));
    assert_eq!(catalog[3].project_type, None);
    let mut none: Vec<Project> = vec![];
    assert!(batch_detect_types(&mut none, &dirs).is_empty());
}

#[test]
fn single_classification() {
    assert_eq!(detect_project_type(&listing(&["go.mod"])), Ok("go".to_string()));
    assert_eq!(
        detect_project_type(&DirSnapshot { entries: None }),
        Err(ProjectError::CannotClassify)
    );
    assert_eq!(ProjectError::CannotClassify.message(), "无法检测项目类型");
    assert_eq!(ProjectError::NoFolderName.message(), "无法获取文件夹名称");
    let mut p = project("/a");
    detect_into(&mut p, &listing(&["build.zig"]));
    assert_eq!(p.project_type, Some("zig".to_string()));
    detect_into(&mut p, &DirSnapshot { entries: None });
    assert_eq!(p.project_type, Some("zig".to_string()));
}

#[test]
fn cached_projects_default_to_empty() {
    assert!(get_cached_projects(None).is_empty());
    let cache = CacheData {
        projects: vec![project("/a")],
        last_scan: "t".to_string(),
        version: "v".to_string(),
    };
    assert_eq!(get_cached_projects(Some(cache)).len(), 1);
}

#[test]
fn rescan_applies_the_configuration_and_keeps_user_state() {
    let mut config = Config::default();
    config.excluded_projects = vec!["/ws/hidden".to_string()];
    let mut a = project("/ws/a");
    a.hits = 5;
    a.top = true;
    let mut c = project("/custom/x");
    c.is_custom = true;
    let previous = vec![a, project("/ws/gone"), c];
    let walks = vec![vec![
        entry("/ws/a", "a", &["/", "ws", "a"], 1),
        entry("/ws/a/node_modules/b", "b", &["/", "ws", "a", "node_modules", "b"], 3),
        entry("/ws/hidden", "hidden", &["/", "ws", "hidden"], 1),
        entry("/ws/new", "new", &["/", "ws", "new"], 1),
    ]];
    let catalog = force_rescan(&config, &previous, &walks);
    let paths: Vec<&str> = catalog.iter().map(|p| p.path.as_str()).collect();
    assert_eq!(paths, vec!["/ws/a", "/ws/new", "/custom/x"]);
    let nested = vec![vec![
        entry("/ws/new/inner", "inner", &["/", "ws", "new", "inner"], 2),
        entry("/ws/new", "new", &["/", "ws", "new"], 1),
    ]];
    let only_outer = force_rescan(&config, &Vec::new(), &nested);
    assert_eq!(only_outer.len(), 1);
    assert_eq!(only_outer[0].path, "/ws/new");
    assert_eq!(catalog[0].hits, 5);
    assert!(catalog[0].top);
    assert_eq!(catalog[0].name, "a");
    let again = force_rescan(&config, &catalog, &walks);
    let paths: Vec<&str> = again.iter().map(|p| p.path.as_str()).collect();
    assert_eq!(paths, vec!["/ws/a", "/ws/new", "/custom/x"]);
    assert_eq!(again[0].hits, 5);
}
