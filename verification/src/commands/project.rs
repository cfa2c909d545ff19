//! Catalog operations: rescanning, classifying, and the edits a user makes
//! to single entries.

use vstd::prelude::*;
use crate::models::cache::CacheData;
use crate::models::config::Config;
use crate::models::project::Project;
use crate::models::project::ProjectView;
use crate::models::project::VersionControl;
use crate::models::project::catalog_view;
use crate::paths::file_name_of;
use crate::paths::path_file_name;
use crate::services::clock::ClockError;
use crate::services::clock::checked_instant;
use crate::services::clock::read_clock;
use crate::services::clock::usable;
use crate::services::clock::is_rfc3339;
use crate::services::reconciler::distinct_paths;
use crate::services::reconciler::has_path;
use crate::services::reconciler::lemma_reconcile_idempotent;
use crate::services::reconciler::reconcile;
use crate::services::reconciler::reconciled;
use crate::services::scanner::ProjectScanner;
use crate::services::scanner::VcsClassifier;
use crate::services::scanner::VcsMarkers;
use crate::services::scanner::WalkEntry;
use crate::services::scanner::lemma_scan_emits_scan_records;
use crate::services::scanner::owner_of;
use crate::services::scanner::scan_of_all;
use crate::services::type_detector::DirSnapshot;
use crate::services::type_detector::TypeDetector;
use crate::services::type_detector::detected_tag;
use crate::text::copy_list;
use crate::text::opt_text;
use crate::text::same_text;

verus! {

/// Why a catalog operation was refused.
#[derive(Debug, Clone, Copy, PartialEq, Eq, Structural)]
pub enum ProjectError {
    /// The folder to add does not exist.
    PathDoesNotExist,
    /// The path to add is not a directory.
    NotADirectory,
    /// The catalog already holds an entry with the path.
    AlreadyPresent,
    /// The path to add does not end in a folder name.
    NoFolderName,
    /// The catalog holds no entry with the path.
    NotFound,
    /// The catalog holds no custom entry with the path.
    NotFoundOrNotCustom,
    /// The directory could not be listed, so it has no tag.
    CannotClassify,
}

impl ProjectError {
    /// The message shown to the user.
    pub fn message(&self) -> (r: String)
        ensures
            r@ == match *self {
                ProjectError::PathDoesNotExist => "path does not exist"@,
                ProjectError::NotADirectory => "path is not a directory"@,
                ProjectError::AlreadyPresent => "already present"@,
                ProjectError::NoFolderName => "无法获取文件夹名称"@,
                ProjectError::NotFound => "项目不存在"@,
                ProjectError::NotFoundOrNotCustom => "not found or not custom"@,
                ProjectError::CannotClassify => "无法检测项目类型"@,
            },
    {
        match self {
            ProjectError::PathDoesNotExist => "path does not exist".to_string(),
            ProjectError::NotADirectory => "path is not a directory".to_string(),
            ProjectError::AlreadyPresent => "already present".to_string(),
            ProjectError::NoFolderName => "无法获取文件夹名称".to_string(),
            ProjectError::NotFound => "项目不存在".to_string(),
            ProjectError::NotFoundOrNotCustom => "not found or not custom".to_string(),
            ProjectError::CannotClassify => "无法检测项目类型".to_string(),
        }
    }
}

/// The position of the first entry of a catalog with the path.
pub open spec fn first_with_path(catalog: Seq<ProjectView>, path: Seq<char>) -> Option<int>
    decreases catalog.len(),
{
    if catalog.len() == 0 {
        None
    } else if catalog[0].path == path {
        Some(0)
    } else {
        match first_with_path(catalog.drop_first(), path) {
            Some(i) => Some(i + 1),
            None => None,
        }
    }
}

/// The position of the first custom entry of a catalog with the path.
pub open spec fn first_custom_with_path(catalog: Seq<ProjectView>, path: Seq<char>) -> Option<int>
    decreases catalog.len(),
{
    if catalog.len() == 0 {
        None
    } else if catalog[0].path == path && catalog[0].is_custom {
        Some(0)
    } else {
        match first_custom_with_path(catalog.drop_first(), path) {
            Some(i) => Some(i + 1),
            None => None,
        }
    }
}

/// `first_with_path` finds an entry exactly when one has the path, and the
/// one it finds is the first.
pub proof fn lemma_first_with_path(catalog: Seq<ProjectView>, path: Seq<char>)
    ensures
        match first_with_path(catalog, path) {
            Some(i) => 0 <= i < catalog.len() && catalog[i].path == path && forall|j: int|
                0 <= j < i ==> (#[trigger] catalog[j]).path != path,
            None => !has_path(catalog, path),
        },
    decreases catalog.len(),
{
    if catalog.len() > 0 && catalog[0].path != path {
        let rest = catalog.drop_first();
        lemma_first_with_path(rest, path);
        match first_with_path(rest, path) {
            Some(i) => {
                assert(rest[i] == catalog[i + 1]);
                assert forall|j: int| 0 <= j < i + 1 implies (#[trigger] catalog[j]).path
                    != path by {
                    if j > 0 {
                        assert(rest[j - 1] == catalog[j]);
                    }
                }
            },
            None => {
                if has_path(catalog, path) {
                    let k = choose|k: int|
                        0 <= k < catalog.len() && (#[trigger] catalog[k]).path == path;
                    assert(rest[k - 1].path == path);
                }
            },
        }
    }
}

/// `first_custom_with_path` finds an entry exactly when a custom entry has
/// the path, and the one it finds is the first such.
pub proof fn lemma_first_custom_with_path(catalog: Seq<ProjectView>, path: Seq<char>)
    ensures
        match first_custom_with_path(catalog, path) {
            Some(i) => 0 <= i < catalog.len() && catalog[i].path == path && catalog[i].is_custom
                && forall|j: int|
                0 <= j < i ==> !((#[trigger] catalog[j]).path == path && catalog[j].is_custom),
            None => forall|j: int|
                0 <= j < catalog.len() ==> !((#[trigger] catalog[j]).path == path
                    && catalog[j].is_custom),
        },
    decreases catalog.len(),
{
    if catalog.len() > 0 && !(catalog[0].path == path && catalog[0].is_custom) {
        let rest = catalog.drop_first();
        lemma_first_custom_with_path(rest, path);
        match first_custom_with_path(rest, path) {
            Some(i) => {
                assert(rest[i] == catalog[i + 1]);
                assert forall|j: int| 0 <= j < i + 1 implies !((#[trigger] catalog[j]).path == path
                    && catalog[j].is_custom) by {
                    if j > 0 {
                        assert(rest[j - 1] == catalog[j]);
                    }
                }
            },
            None => {
                assert forall|j: int| 0 <= j < catalog.len() implies !((#[trigger] catalog[j]).path
                    == path && catalog[j].is_custom) by {
                    if j > 0 {
                        assert(rest[j - 1] == catalog[j]);
                    }
                }
            },
        }
    }
}

/// The position of the first entry of a catalog with the path.
pub fn position_of(catalog: &Vec<Project>, path: &str) -> (r: Option<usize>)
    ensures
        match r {
            Some(i) => first_with_path(catalog_view(catalog@), path@) == Some(i as int) && i
                < catalog.len(),
            None => first_with_path(catalog_view(catalog@), path@) is None,
        },
{
    let ghost views = catalog_view(catalog@);
    let mut i: usize = 0;
    while i < catalog.len()
        invariant
            i <= catalog.len(),
            views == catalog_view(catalog@),
            forall|j: int| 0 <= j < i ==> (#[trigger] views[j]).path != path@,
        decreases catalog.len() - i,
    {
        if same_text(catalog[i].path.as_str(), path) {
            proof {
                lemma_first_with_path(views, path@);
                assert(views[i as int].path == path@);
            }
            return Some(i);
        }
        i += 1;
    }
    proof {
        lemma_first_with_path(views, path@);
    }
    None
}

/// The position of the first custom entry of a catalog with the path.
pub fn custom_position_of(catalog: &Vec<Project>, path: &str) -> (r: Option<usize>)
    ensures
        match r {
            Some(i) => first_custom_with_path(catalog_view(catalog@), path@) == Some(i as int)
                && i < catalog.len(),
            None => first_custom_with_path(catalog_view(catalog@), path@) is None,
        },
{
    let ghost views = catalog_view(catalog@);
    let mut i: usize = 0;
    while i < catalog.len()
        invariant
            i <= catalog.len(),
            views == catalog_view(catalog@),
            forall|j: int|
                0 <= j < i ==> !((#[trigger] views[j]).path == path@ && views[j].is_custom),
        decreases catalog.len() - i,
    {
        if same_text(catalog[i].path.as_str(), path) && catalog[i].is_custom {
            proof {
                lemma_first_custom_with_path(views, path@);
                assert(views[i as int].path == path@ && views[i as int].is_custom);
            }
            return Some(i);
        }
        i += 1;
    }
    proof {
        lemma_first_custom_with_path(views, path@);
    }
    None
}

/// The catalog of a stored snapshot; the empty catalog where nothing is
/// stored yet.
pub fn get_cached_projects(cache: Option<CacheData>) -> (r: Vec<Project>)
    ensures
        catalog_view(r@) == match cache {
            Some(c) => c@.projects,
            None => Seq::empty(),
        },
{
    match cache {
        Some(c) => c.projects,
        None => {
            let empty: Vec<Project> = Vec::new();
            assert(catalog_view(empty@) =~= Seq::<ProjectView>::empty());
            empty
        },
    }
}

/// The catalog after a full rescan: what the configured scanner finds in
/// the walks of the workspace roots, reconciled with the previous catalog.
pub fn force_rescan(config: &Config, previous: &Vec<Project>, walks: &Vec<Vec<WalkEntry>>) -> (r:
    Vec<Project>)
    ensures
        catalog_view(r@) == reconciled(
            catalog_view(previous@),
            scan_of_all(config@.ignore_dirs, config@.excluded_projects.to_set(), walks@),
        ),
{
    let scanner = ProjectScanner::new(
        copy_list(&config.ignore_dirs),
        copy_list(&config.excluded_projects),
    );
    let found = scanner.scan_parallel(walks);
    reconcile(previous, &found)
}

/// A rescan is idempotent: rescanning an unchanged filesystem right after
/// a rescan gives the same catalog, entry for entry and in the same order.
pub proof fn lemma_rescan_idempotent(
    ignore: Seq<Seq<char>>,
    excluded: Set<Seq<char>>,
    walks: Seq<Vec<WalkEntry>>,
    previous: Seq<ProjectView>,
)
    ensures
        reconciled(
            reconciled(previous, scan_of_all(ignore, excluded, walks)),
            scan_of_all(ignore, excluded, walks),
        ) == reconciled(previous, scan_of_all(ignore, excluded, walks)),
{
    lemma_scan_emits_scan_records(ignore, excluded, walks);
    lemma_reconcile_idempotent(previous, scan_of_all(ignore, excluded, walks));
}

/// The tag of a single project directory, or the reason there is none.
pub fn detect_project_type(dir: &DirSnapshot) -> (r: Result<String, ProjectError>)
    ensures
        match r {
            Ok(tag) => detected_tag(*dir) == Some(tag@),
            Err(e) => detected_tag(*dir) is None && e == ProjectError::CannotClassify,
        },
{
    match TypeDetector::detect(dir) {
        Some(tag) => Ok(tag),
        None => Err(ProjectError::CannotClassify),
    }
}

/// The share of a batch that is done after `done` of `total` items, as a
/// whole percentage, rounded down.
pub open spec fn percent_done(done: int, total: int) -> int {
    done * 100 / total
}

/// Progress never goes back: more items done is never a lower percentage.
pub proof fn lemma_progress_monotonic(earlier: int, later: int, total: int)
    requires
        0 <= earlier <= later,
        0 < total,
    ensures
        0 <= percent_done(earlier, total) <= percent_done(later, total),
        later <= total ==> percent_done(later, total) <= 100,
        percent_done(total, total) == 100,
{
    assert(0 <= earlier * 100 / total <= later * 100 / total) by (nonlinear_arith)
        requires
            0 <= earlier <= later,
            0 < total,
    ;
    assert(later <= total ==> later * 100 / total <= 100) by (nonlinear_arith)
        requires
            0 <= later,
            0 < total,
    ;
    assert(total * 100 / total == 100) by (nonlinear_arith)
        requires
            0 < total,
    ;
}

/// The progress to report once `done` of `total` items are classified.
/// A count beyond the total gives more than 100, up to the largest value
/// the result can hold.
pub fn progress_percent(done: usize, total: usize) -> (r: u32)
    requires
        0 < total,
    ensures
        r == if percent_done(done as int, total as int) <= u32::MAX {
            percent_done(done as int, total as int)
        } else {
            u32::MAX as int
        },
        done <= total ==> r <= 100,
{
    proof {
        lemma_progress_monotonic(done as int, done as int, total as int);
    }
    let scaled: u128 = (done as u128) * 100;
    let percent: u128 = scaled / (total as u128);
    if percent > u32::MAX as u128 {
        u32::MAX
    } else {
        percent as u32
    }
}

/// The entry after its directory was classified: the new tag where there
/// is one, the entry as it was otherwise.
pub open spec fn with_detected_type(project: ProjectView, tag: Option<Seq<char>>) -> ProjectView {
    match tag {
        Some(t) => ProjectView { project_type: Some(t), ..project },
        None => project,
    }
}

/// The catalog after a batch classification: entry `i` classified from
/// snapshot `i`; entries without a snapshot stay as they were.
pub open spec fn with_detected_types(
    catalog: Seq<ProjectView>,
    dirs: Seq<DirSnapshot>,
) -> Seq<ProjectView> {
    Seq::new(
        catalog.len(),
        |i: int|
            if i < dirs.len() {
                with_detected_type(catalog[i], detected_tag(dirs[i]))
            } else {
                catalog[i]
            },
    )
}

/// Classifies one entry from a snapshot of its directory.
pub fn detect_into(project: &mut Project, dir: &DirSnapshot)
    ensures
        final(project)@ == with_detected_type(old(project)@, detected_tag(*dir)),
{
    match TypeDetector::detect(dir) {
        Some(tag) => {
            project.project_type = Some(tag);
        },
        None => {},
    }
}

/// Classifies every entry of the catalog from the snapshot of its
/// directory, in order, and returns the progress reported after each
/// entry: `(i + 1) * 100 / total`, rounded down.
pub fn batch_detect_types(catalog: &mut Vec<Project>, dirs: &Vec<DirSnapshot>) -> (progress: Vec<
    u32,
>)
    ensures
        catalog_view(final(catalog)@) == with_detected_types(
            catalog_view(old(catalog)@),
            dirs@,
        ),
        progress@.len() == old(catalog)@.len(),
        forall|i: int|
            0 <= i < progress@.len() ==> #[trigger] progress@[i] == percent_done(
                i + 1,
                old(catalog)@.len() as int,
            ),
{
    let total = catalog.len();
    let ghost before = catalog_view(catalog@);
    let mut progress: Vec<u32> = Vec::new();
    let mut i: usize = 0;
    while i < total
        invariant
            i <= total,
            total == catalog.len(),
            before.len() == total,
            progress@.len() == i,
            forall|j: int|
                0 <= j < i ==> #[trigger] progress@[j] == percent_done(j + 1, total as int),
            forall|j: int|
                0 <= j < i ==> (#[trigger] catalog_view(catalog@)[j]) == with_detected_types(
                    before,
                    dirs@,
                )[j],
            forall|j: int| i <= j < total ==> (#[trigger] catalog_view(catalog@)[j]) == before[j],
        decreases total - i,
    {
        let ghost views = catalog_view(catalog@);
        let ghost goal = with_detected_types(before, dirs@);
        assert(views[i as int] == before[i as int]);
        if i < dirs.len() {
            detect_into(&mut catalog[i], &dirs[i]);
            assert(catalog_view(catalog@)[i as int] == goal[i as int]);
        }
        assert(catalog_view(catalog@)[i as int] == goal[i as int]);
        assert forall|j: int| 0 <= j < total && j != i implies (#[trigger] catalog_view(
            catalog@,
        )[j]) == views[j] by {}
        proof {
            lemma_progress_monotonic(i + 1, i + 1, total as int);
        }
        progress.push(progress_percent(i + 1, total));
        i += 1;
    }
    assert(catalog_view(catalog@) =~= with_detected_types(before, dirs@));
    progress
}

/// The entry after it was opened once more at the given time.
pub open spec fn opened(project: ProjectView, now: Seq<char>) -> ProjectView {
    ProjectView {
        hits: if project.hits < u32::MAX {
            (project.hits + 1) as u32
        } else {
            project.hits
        },
        last_opened: Some(now),
        ..project
    }
}

/// The catalog after the project with the path was opened once more at
/// the given time; the catalog as it was where no entry has the path.
pub open spec fn with_opening(
    catalog: Seq<ProjectView>,
    path: Seq<char>,
    now: Seq<char>,
) -> Seq<ProjectView> {
    match first_with_path(catalog, path) {
        Some(i) => catalog.update(i, opened(catalog[i], now)),
        None => catalog,
    }
}

/// Counts one more opening of the project with the path, at the given
/// time. The count never decreases; it stays at its maximum once reached.
/// A path that the catalog does not hold changes nothing.
pub fn increment_project_hits_at(catalog: &mut Vec<Project>, project_path: &str, now: String)
    ensures
        catalog_view(final(catalog)@) == with_opening(
            catalog_view(old(catalog)@),
            project_path@,
            now@,
        ),
{
    let ghost before = catalog_view(catalog@);
    match position_of(catalog, project_path) {
        Some(i) => {
            let hits = catalog[i].hits;
            catalog[i].hits = if hits < u32::MAX {
                hits + 1
            } else {
                hits
            };
            catalog[i].last_opened = Some(now);
            assert(catalog_view(catalog@) =~= before.update(
                i as int,
                opened(before[i as int], now@),
            ));
        },
        None => {},
    }
}

/// What counting an opening comes to by a reading of the clock: the
/// catalog with the opening counted at the time the reading shows, or the
/// catalog as it was and an error where the reading is no RFC 3339
/// instant.
pub open spec fn opening_outcome(
    catalog: Seq<ProjectView>,
    path: Seq<char>,
    reading: Option<Seq<char>>,
) -> (Seq<ProjectView>, Result<(), ClockError>) {
    match usable(reading) {
        Some(now) => (with_opening(catalog, path, now), Ok(())),
        None => (catalog, Err(ClockError::Unreadable)),
    }
}

/// Counts one more opening of the project with the path, at the time
/// that a reading of the clock shows.
pub fn increment_project_hits_stamped(
    catalog: &mut Vec<Project>,
    project_path: &str,
    reading: Option<String>,
) -> (r: Result<(), ClockError>)
    ensures
        (catalog_view(final(catalog)@), r) == opening_outcome(
            catalog_view(old(catalog)@),
            project_path@,
            opt_text(reading),
        ),
{
    match checked_instant(reading) {
        Some(now) => {
            increment_project_hits_at(catalog, project_path, now);
            Ok(())
        },
        None => Err(ClockError::Unreadable),
    }
}

/// Counts one more opening of the project with the path, at the time the
/// clock shows. A clock that shows no RFC 3339 time gives an error and
/// leaves the catalog as it is.
pub fn increment_project_hits(catalog: &mut Vec<Project>, project_path: &str) -> (r: Result<
    (),
    ClockError,
>)
    ensures
        match r {
            Ok(_) => exists|now: Seq<char>|
                is_rfc3339(now) && catalog_view(final(catalog)@) == #[trigger] with_opening(
                    catalog_view(old(catalog)@),
                    project_path@,
                    now,
                ),
            Err(e) => e == ClockError::Unreadable && catalog_view(final(catalog)@)
                == catalog_view(old(catalog)@),
        },
        exists|reading: Option<Seq<char>>|
            (catalog_view(final(catalog)@), r) == #[trigger] opening_outcome(
                catalog_view(old(catalog)@),
                project_path@,
                reading,
            ),
{
    let reading = read_clock();
    let ghost seen = opt_text(reading);
    let outcome = increment_project_hits_stamped(catalog, project_path, reading);
    assert((catalog_view(catalog@), outcome) == opening_outcome(
        catalog_view(old(catalog)@),
        project_path@,
        seen,
    ));
    proof {
        if outcome is Ok {
            let now = usable(seen)->0;
            assert(is_rfc3339(now) && catalog_view(catalog@) == with_opening(
                catalog_view(old(catalog)@),
                project_path@,
                now,
            ));
        }
    }
    outcome
}

/// Binds the project with the path to a launcher, or clears the binding.
/// The launcher is named by its id only and need not exist.
pub fn update_project_launcher(
    catalog: &mut Vec<Project>,
    project_path: &str,
    launcher_id: Option<String>,
) -> (r: Result<(), ProjectError>)
    ensures
        match first_with_path(catalog_view(old(catalog)@), project_path@) {
            Some(i) => r is Ok && catalog_view(final(catalog)@) == catalog_view(
                old(catalog)@,
            ).update(
                i,
                ProjectView {
                    launcher_id: opt_text(launcher_id),
                    ..catalog_view(old(catalog)@)[i]
                },
            ),
            None => r == Err::<(), ProjectError>(ProjectError::NotFound) && catalog_view(
                final(catalog)@,
            ) == catalog_view(old(catalog)@),
        },
{
    let ghost before = catalog_view(catalog@);
    match position_of(catalog, project_path) {
        Some(i) => {
            catalog[i].launcher_id = launcher_id;
            assert(catalog_view(catalog@) =~= before.update(
                i as int,
                ProjectView { launcher_id: opt_text(launcher_id), ..before[i as int] },
            ));
            Ok(())
        },
        None => Err(ProjectError::NotFound),
    }
}

/// Pins or unpins the project with the path.
pub fn update_project_top(catalog: &mut Vec<Project>, project_path: &str, top: bool) -> (r: Result<
    (),
    ProjectError,
>)
    ensures
        match first_with_path(catalog_view(old(catalog)@), project_path@) {
            Some(i) => r is Ok && catalog_view(final(catalog)@) == catalog_view(
                old(catalog)@,
            ).update(i, ProjectView { top, ..catalog_view(old(catalog)@)[i] }),
            None => r == Err::<(), ProjectError>(ProjectError::NotFound) && catalog_view(
                final(catalog)@,
            ) == catalog_view(old(catalog)@),
        },
{
    let ghost before = catalog_view(catalog@);
    match position_of(catalog, project_path) {
        Some(i) => {
            catalog[i].top = top;
            assert(catalog_view(catalog@) =~= before.update(
                i as int,
                ProjectView { top, ..before[i as int] },
            ));
            Ok(())
        },
        None => Err(ProjectError::NotFound),
    }
}

/// What was found on disk at the path of a folder that is to be added.
#[derive(Debug)]
pub struct FolderProbe {
    /// Whether anything exists at the path.
    pub exists: bool,
    /// Whether it is a directory.
    pub is_dir: bool,
    /// The final component of the path, where it has one.
    pub file_name: Option<String>,
    /// The version-control markers directly under it.
    pub markers: VcsMarkers,
    /// Its listing, for classification.
    pub snapshot: DirSnapshot,
}

impl FolderProbe {
    /// What was found at a path, with the final name of that path.
    pub fn for_path(
        folder_path: &str,
        exists: bool,
        is_dir: bool,
        markers: VcsMarkers,
        snapshot: DirSnapshot,
    ) -> (r: Self)
        ensures
            r.exists == exists,
            r.is_dir == is_dir,
            r.markers == markers,
            r.snapshot == snapshot,
            opt_text(r.file_name) == path_file_name(folder_path@),
    {
        Self { exists, is_dir, file_name: file_name_of(folder_path), markers, snapshot }
    }
}

/// What adding a folder comes to: the new entry, or the reason for
/// refusing. The checks run in this order: the path exists, it is a
/// directory, the catalog does not hold it yet, it ends in a folder name.
pub open spec fn custom_entry_for(
    catalog: Seq<ProjectView>,
    folder_path: Seq<char>,
    probe: FolderProbe,
) -> Result<ProjectView, ProjectError> {
    if !probe.exists {
        Err(ProjectError::PathDoesNotExist)
    } else if !probe.is_dir {
        Err(ProjectError::NotADirectory)
    } else if has_path(catalog, folder_path) {
        Err(ProjectError::AlreadyPresent)
    } else {
        match probe.file_name {
            None => Err(ProjectError::NoFolderName),
            Some(name) => Ok(
                ProjectView {
                    name: name@,
                    path: folder_path,
                    project_type: detected_tag(probe.snapshot),
                    version_control: match owner_of(probe.markers) {
                        Some(vc) => vc,
                        None => VersionControl::Unversioned,
                    },
                    hits: 0,
                    launcher_id: None,
                    top: false,
                    is_custom: true,
                    last_opened: None,
                    alias: None,
                },
            ),
        }
    }
}

/// Adding keeps paths unique: the entry that is added has a path that the
/// catalog did not hold.
pub proof fn lemma_added_entry_keeps_paths_distinct(
    catalog: Seq<ProjectView>,
    folder_path: Seq<char>,
    probe: FolderProbe,
)
    requires
        distinct_paths(catalog),
        custom_entry_for(catalog, folder_path, probe) is Ok,
    ensures
        distinct_paths(catalog.push(custom_entry_for(catalog, folder_path, probe)->Ok_0)),
        custom_entry_for(catalog, folder_path, probe)->Ok_0.is_custom,
        custom_entry_for(catalog, folder_path, probe)->Ok_0.path == folder_path,
{
    let entry = custom_entry_for(catalog, folder_path, probe)->Ok_0;
    let after = catalog.push(entry);
    assert forall|i: int, j: int| 0 <= i < j < after.len() implies (#[trigger] after[i]).path != (
    #[trigger] after[j]).path by {
        if j == catalog.len() {
            assert(catalog[i].path != folder_path);
        } else {
            assert(after[i] == catalog[i] && after[j] == catalog[j]);
        }
    }
}

/// Opening never lowers a count: after an opening every entry has at
/// least the open count it had.
pub proof fn lemma_hits_never_decrease(catalog: Seq<ProjectView>, path: Seq<char>, now: Seq<char>)
    ensures
        with_opening(catalog, path, now).len() == catalog.len(),
        forall|i: int|
            0 <= i < catalog.len() ==> (#[trigger] with_opening(catalog, path, now)[i]).hits
                >= catalog[i].hits,
{
    lemma_first_with_path(catalog, path);
}

/// Adds a folder to the catalog as a custom project and returns the new
/// entry. A refusal leaves the catalog unchanged.
pub fn add_custom_project(catalog: &mut Vec<Project>, folder_path: String, probe: &FolderProbe) -> (r:
    Result<Project, ProjectError>)
    ensures
        match r {
            Ok(project) => custom_entry_for(catalog_view(old(catalog)@), folder_path@, *probe)
                == Ok::<ProjectView, ProjectError>(project@) && catalog_view(final(catalog)@)
                == catalog_view(old(catalog)@).push(project@),
            Err(e) => custom_entry_for(catalog_view(old(catalog)@), folder_path@, *probe)
                == Err::<ProjectView, ProjectError>(e) && catalog_view(final(catalog)@)
                == catalog_view(old(catalog)@),
        },
{
    let ghost before = catalog_view(catalog@);
    if !probe.exists {
        return Err(ProjectError::PathDoesNotExist);
    }
    if !probe.is_dir {
        return Err(ProjectError::NotADirectory);
    }
    proof {
        lemma_first_with_path(before, folder_path@);
    }
    if position_of(catalog, folder_path.as_str()).is_some() {
        return Err(ProjectError::AlreadyPresent);
    }
    let name = match &probe.file_name {
        Some(name) => name.clone(),
        None => {
            return Err(ProjectError::NoFolderName);
        },
    };
    let vc = match VcsClassifier::classify(&probe.markers) {
        Some(vc) => vc,
        None => VersionControl::Unversioned,
    };
    let project_type = TypeDetector::detect(&probe.snapshot);
    let mut project = Project::new(folder_path, name, vc);
    project.is_custom = true;
    project.project_type = project_type;
    catalog.push(project.clone());
    assert(catalog_view(catalog@) =~= before.push(project@));
    Ok(project)
}

/// Removes the first custom entry with the path from the catalog. Where
/// there is none, the catalog stays as it is.
pub fn remove_custom_project(catalog: &mut Vec<Project>, project_path: &str) -> (r: Result<
    (),
    ProjectError,
>)
    ensures
        match first_custom_with_path(catalog_view(old(catalog)@), project_path@) {
            Some(i) => r is Ok && catalog_view(final(catalog)@) == catalog_view(
                old(catalog)@,
            ).remove(i),
            None => r == Err::<(), ProjectError>(ProjectError::NotFoundOrNotCustom)
                && catalog_view(final(catalog)@) == catalog_view(old(catalog)@),
        },
{
    let ghost before = catalog_view(catalog@);
    match custom_position_of(catalog, project_path) {
        Some(i) => {
            catalog.remove(i);
            assert(catalog_view(catalog@) =~= before.remove(i as int));
            Ok(())
        },
        None => Err(ProjectError::NotFoundOrNotCustom),
    }
}

} // verus!
