//! Workspace scanning: which of the entries a directory walk visits are
//! project roots.
//!
//! The walk itself is the caller's: it hands over what it saw of each entry
//! as a [`WalkEntry`]. The scanner applies the depth bound, the ignore and
//! exclusion filters and the version-control classifier, and emits one
//! [`Project`] per outermost project root: a project root is a unit
//! boundary, and nothing below it is a project of its own.

use vstd::prelude::*;
use vstd::hash_set::StringHashSet;
use crate::models::project::Project;
use crate::models::project::ProjectView;
use crate::models::project::VersionControl;
use crate::models::project::catalog_view;
use crate::paths::file_name_of;
use crate::paths::path_file_name;
use crate::paths::path_parts;
use crate::paths::path_components;
use crate::text::opt_text;
use crate::text::texts;
use crate::text::same_text;
use crate::text::list_contains;
use crate::services::reconciler::has_path;

verus! {

/// How many levels below a workspace root a scan reaches.
pub const MAX_SCAN_DEPTH: usize = 4;

/// Which version-control marker entries lie directly under a directory.
#[derive(Debug, Clone, Copy, PartialEq, Eq, Structural)]
pub struct VcsMarkers {
    /// A `.git` entry.
    pub git: bool,
    /// A `.svn` entry.
    pub svn: bool,
    /// A `.hg` entry.
    pub hg: bool,
}

/// The system that owns a directory with these markers: Git before
/// Subversion before Mercurial; none where no marker is present.
pub open spec fn owner_of(markers: VcsMarkers) -> Option<VersionControl> {
    if markers.git {
        Some(VersionControl::Git)
    } else if markers.svn {
        Some(VersionControl::Svn)
    } else if markers.hg {
        Some(VersionControl::Mercurial)
    } else {
        None
    }
}

/// Decides whether a directory is a version-controlled project root.
pub struct VcsClassifier;

impl VcsClassifier {
    /// The system that owns a directory with these markers, or `None` where
    /// the directory is not a project root.
    pub fn classify(markers: &VcsMarkers) -> (r: Option<VersionControl>)
        ensures
            r == owner_of(*markers),
    {
        if markers.git {
            Some(VersionControl::Git)
        } else if markers.svn {
            Some(VersionControl::Svn)
        } else if markers.hg {
            Some(VersionControl::Mercurial)
        } else {
            None
        }
    }
}

/// What a directory walk saw of one entry.
#[derive(Debug)]
pub struct WalkEntry {
    /// The entry's full path.
    pub path: String,
    /// The components of that path, root first.
    pub components: Vec<String>,
    /// The final component, where the path has one.
    pub file_name: Option<String>,
    /// How many levels below the workspace root the entry lies.
    pub depth: usize,
    /// Whether the entry is a directory.
    pub is_dir: bool,
    /// The version-control markers directly under it.
    pub markers: VcsMarkers,
}

/// Whether a component names something hidden: it begins with a dot and is
/// not the current-directory marker itself.
pub open spec fn is_hidden(name: Seq<char>) -> bool {
    name.len() > 0 && name[0] == '.' && name != "."@
}

/// Whether some component of a path is an ignore name or hidden.
pub open spec fn ignored_path(ignore: Seq<Seq<char>>, components: Seq<Seq<char>>) -> bool {
    exists|i: int|
        0 <= i < components.len() && (ignore.contains(#[trigger] components[i]) || is_hidden(
            components[i],
        ))
}

/// Whether an entry is a project root: it lies within the depth bound, no
/// component of its path is ignored or hidden, it is a directory, its path
/// is not excluded, it carries a version-control marker and its path ends
/// in a name.
pub open spec fn is_root(
    ignore: Seq<Seq<char>>,
    excluded: Set<Seq<char>>,
    entry: WalkEntry,
) -> bool {
    &&& entry.depth <= MAX_SCAN_DEPTH
    &&& !ignored_path(ignore, texts(entry.components@))
    &&& entry.is_dir
    &&& !excluded.contains(entry.path@)
    &&& owner_of(entry.markers) is Some
    &&& entry.file_name is Some
}

/// The record of a project root, fresh from the scan.
pub open spec fn record_of(entry: WalkEntry) -> ProjectView {
    ProjectView::scanned(entry.path@, entry.file_name->0@, owner_of(entry.markers)->0)
}

/// Whether the path with components `inner` lies strictly below the path
/// with components `outer`: `outer` is shorter and `inner` begins with it.
pub open spec fn lies_below(inner: Seq<Seq<char>>, outer: Seq<Seq<char>>) -> bool {
    outer.len() < inner.len() && forall|k: int| 0 <= k < outer.len() ==> inner[k] == outer[k]
}

/// Whether an entry lies below a project root of the walk. A project root
/// is a unit boundary: nothing below it is a project of its own.
pub open spec fn nested(
    ignore: Seq<Seq<char>>,
    excluded: Set<Seq<char>>,
    walk: Seq<WalkEntry>,
    entry: WalkEntry,
) -> bool {
    exists|j: int|
        0 <= j < walk.len() && is_root(ignore, excluded, #[trigger] walk[j]) && lies_below(
            texts(entry.components@),
            texts(walk[j].components@),
        )
}

/// The project that a scan emits for an entry of a walk, if any: the entry
/// is a project root and lies below no other project root of the walk.
/// Which roots the walk holds decides, not the order in which it holds
/// them.
pub open spec fn emitted(
    ignore: Seq<Seq<char>>,
    excluded: Set<Seq<char>>,
    walk: Seq<WalkEntry>,
    entry: WalkEntry,
) -> Option<ProjectView> {
    if is_root(ignore, excluded, entry) && !nested(ignore, excluded, walk, entry) {
        Some(record_of(entry))
    } else {
        None
    }
}

/// The projects that a scan emits for the first `n` entries of a walk, in
/// the order of the walk.
pub open spec fn scan_upto(
    ignore: Seq<Seq<char>>,
    excluded: Set<Seq<char>>,
    walk: Seq<WalkEntry>,
    n: nat,
) -> Seq<ProjectView>
    decreases n,
{
    if n == 0 {
        Seq::empty()
    } else {
        let rest = scan_upto(ignore, excluded, walk, (n - 1) as nat);
        match emitted(ignore, excluded, walk, walk[n - 1]) {
            Some(project) => rest.push(project),
            None => rest,
        }
    }
}

/// The projects that a scan emits for a walk, in the order of the walk.
pub open spec fn scan_of(
    ignore: Seq<Seq<char>>,
    excluded: Set<Seq<char>>,
    walk: Seq<WalkEntry>,
) -> Seq<ProjectView> {
    scan_upto(ignore, excluded, walk, walk.len())
}

/// The projects that a scan emits for the walks of several workspace roots:
/// those of each walk, one walk after the other.
pub open spec fn scan_of_all(
    ignore: Seq<Seq<char>>,
    excluded: Set<Seq<char>>,
    walks: Seq<Vec<WalkEntry>>,
) -> Seq<ProjectView>
    decreases walks.len(),
{
    if walks.len() == 0 {
        Seq::empty()
    } else {
        scan_of_all(ignore, excluded, walks.drop_last()) + scan_of(
            ignore,
            excluded,
            walks.last()@,
        )
    }
}

impl WalkEntry {
    /// Whether the components and the final name that the entry carries
    /// are those of its path.
    pub open spec fn well_formed(self) -> bool {
        texts(self.components@) == path_parts(self.path@) && opt_text(self.file_name)
            == path_file_name(self.path@)
    }

    /// What a walk saw of the entry at a path, with the components and the
    /// final name of that path.
    pub fn from_path(path: String, depth: usize, is_dir: bool, markers: VcsMarkers) -> (r: Self)
        ensures
            r.path == path,
            r.depth == depth,
            r.is_dir == is_dir,
            r.markers == markers,
            r.well_formed(),
    {
        let components = path_components(path.as_str());
        let file_name = file_name_of(path.as_str());
        Self { path, components, file_name, depth, is_dir, markers }
    }
}

/// Whether one path lies strictly below another, by their components.
pub fn components_below(inner: &Vec<String>, outer: &Vec<String>) -> (r: bool)
    ensures
        r == lies_below(texts(inner@), texts(outer@)),
{
    if outer.len() >= inner.len() {
        return false;
    }
    let mut k: usize = 0;
    while k < outer.len()
        invariant
            k <= outer.len(),
            outer.len() < inner.len(),
            forall|m: int| 0 <= m < k ==> texts(inner@)[m] == texts(outer@)[m],
        decreases outer.len() - k,
    {
        if !same_text(inner[k].as_str(), outer[k].as_str()) {
            assert(texts(inner@)[k as int] != texts(outer@)[k as int]);
            return false;
        }
        k += 1;
    }
    true
}

/// Finds the project roots among the entries of a directory walk.
pub struct ProjectScanner {
    ignore_dirs: Vec<String>,
    excluded_projects: StringHashSet,
}

/// Whether a path component names something hidden.
pub fn hidden_name(name: &str) -> (r: bool)
    ensures
        r == is_hidden(name@),
{
    if name.is_empty() {
        false
    } else {
        name.get_char(0) == '.' && !same_text(name, ".")
    }
}

impl ProjectScanner {
    /// The ignore names: a path is skipped where one of its components is
    /// among them.
    pub closed spec fn ignored(&self) -> Seq<Seq<char>> {
        texts(self.ignore_dirs@)
    }

    /// The excluded paths: a project root is skipped where its path is among
    /// them.
    pub closed spec fn excluded(&self) -> Set<Seq<char>> {
        self.excluded_projects@
    }

    /// A scanner with the given ignore names and excluded project paths.
    pub fn new(ignore_dirs: Vec<String>, excluded_projects: Vec<String>) -> (r: Self)
        ensures
            r.ignored() == texts(ignore_dirs@),
            r.excluded() == texts(excluded_projects@).to_set(),
    {
        let mut excluded = StringHashSet::new();
        let mut i: usize = 0;
        let ghost paths = texts(excluded_projects@);
        assert(paths.take(0).to_set() =~= Set::<Seq<char>>::empty());
        while i < excluded_projects.len()
            invariant
                i <= excluded_projects.len(),
                paths == texts(excluded_projects@),
                excluded@ == paths.take(i as int).to_set(),
            decreases excluded_projects.len() - i,
        {
            let ghost before = paths.take(i as int);
            let ghost upto = paths.take(i + 1);
            excluded.insert(excluded_projects[i].clone());
            assert(upto == before.push(paths[i as int]));
            assert(upto.to_set() =~= before.to_set().insert(paths[i as int])) by {
                assert forall|p: Seq<char>| upto.to_set().contains(p) <==> before.to_set().insert(
                    paths[i as int],
                ).contains(p) by {
                    if upto.contains(p) {
                        let k = choose|k: int| 0 <= k < upto.len() && upto[k] == p;
                        if k < i {
                            assert(before[k] == p);
                        }
                    }
                    if before.contains(p) {
                        let k = choose|k: int| 0 <= k < before.len() && before[k] == p;
                        assert(upto[k] == p);
                    }
                    if p == paths[i as int] {
                        assert(upto[i as int] == p);
                    }
                }
            }
            i += 1;
        }
        assert(paths.take(excluded_projects.len() as int) == paths);
        Self { ignore_dirs, excluded_projects: excluded }
    }

    /// Whether a path is skipped because one of its components is an ignore
    /// name or hidden.
    pub fn should_ignore(&self, components: &Vec<String>) -> (r: bool)
        ensures
            r == ignored_path(self.ignored(), texts(components@)),
    {
        let mut i: usize = 0;
        while i < components.len()
            invariant
                i <= components.len(),
                forall|j: int|
                    0 <= j < i ==> !(self.ignored().contains(#[trigger] texts(components@)[j])
                        || is_hidden(texts(components@)[j])),
            decreases components.len() - i,
        {
            let name = components[i].as_str();
            assert(texts(components@)[i as int] == name@);
            if list_contains(&self.ignore_dirs, name) || hidden_name(name) {
                return true;
            }
            i += 1;
        }
        false
    }

    /// Whether a path is on the exclusion list.
    pub fn is_excluded_project(&self, path: &str) -> (r: bool)
        ensures
            r == self.excluded().contains(path@),
    {
        self.excluded_projects.contains(path)
    }

    /// The project record of a directory, where it carries a
    /// version-control marker and its path ends in a name.
    pub fn detect_version_control(&self, entry: &WalkEntry) -> (r: Option<Project>)
        ensures
            match r {
                Some(project) => (owner_of(entry.markers), entry.file_name) matches (
                    Some(vc),
                    Some(name),
                ) && project@ == ProjectView::scanned(entry.path@, name@, vc),
                None => owner_of(entry.markers) is None || entry.file_name is None,
            },
    {
        match (VcsClassifier::classify(&entry.markers), &entry.file_name) {
            (Some(vc), Some(name)) => Some(Project::new(entry.path.clone(), name.clone(), vc)),
            _ => None,
        }
    }

    /// Whether a path is skipped because one of its components is an
    /// ignore name or hidden.
    pub fn should_ignore_path(&self, path: &str) -> (r: bool)
        ensures
            r == ignored_path(self.ignored(), path_parts(path@)),
    {
        let components = path_components(path);
        self.should_ignore(&components)
    }

    /// Whether an entry is a project root.
    pub fn is_project_root(&self, entry: &WalkEntry) -> (r: bool)
        ensures
            r == is_root(self.ignored(), self.excluded(), *entry),
    {
        entry.depth <= MAX_SCAN_DEPTH && !self.should_ignore(&entry.components) && entry.is_dir
            && !self.is_excluded_project(entry.path.as_str()) && VcsClassifier::classify(
            &entry.markers,
        ).is_some() && entry.file_name.is_some()
    }

    /// For every entry of a walk, whether it is a project root.
    fn mark_roots(&self, walk: &Vec<WalkEntry>) -> (marks: Vec<bool>)
        ensures
            marks.len() == walk.len(),
            forall|j: int|
                0 <= j < walk.len() ==> #[trigger] marks[j] == is_root(
                    self.ignored(),
                    self.excluded(),
                    walk[j],
                ),
    {
        let mut marks: Vec<bool> = Vec::new();
        let mut j: usize = 0;
        while j < walk.len()
            invariant
                j <= walk.len(),
                marks.len() == j,
                forall|m: int|
                    0 <= m < j ==> #[trigger] marks[m] == is_root(
                        self.ignored(),
                        self.excluded(),
                        walk[m],
                    ),
            decreases walk.len() - j,
        {
            marks.push(self.is_project_root(&walk[j]));
            j += 1;
        }
        marks
    }

    /// Whether an entry lies below one of the marked entries of a walk.
    fn lies_below_marked(walk: &Vec<WalkEntry>, marks: &Vec<bool>, entry: &WalkEntry) -> (r: bool)
        requires
            marks.len() == walk.len(),
        ensures
            r == exists|j: int|
                0 <= j < walk.len() && marks[j] && lies_below(
                    texts(entry.components@),
                    texts((#[trigger] walk[j]).components@),
                ),
    {
        let mut j: usize = 0;
        while j < walk.len()
            invariant
                j <= walk.len(),
                marks.len() == walk.len(),
                forall|m: int|
                    0 <= m < j ==> !(marks[m] && lies_below(
                        texts(entry.components@),
                        texts((#[trigger] walk[m]).components@),
                    )),
            decreases walk.len() - j,
        {
            if marks[j] && components_below(&entry.components, &walk[j].components) {
                return true;
            }
            j += 1;
        }
        false
    }

    /// Whether an entry lies below a project root of the walk.
    pub fn is_nested(&self, walk: &Vec<WalkEntry>, entry: &WalkEntry) -> (r: bool)
        ensures
            r == nested(self.ignored(), self.excluded(), walk@, *entry),
    {
        let marks = self.mark_roots(walk);
        let found = Self::lies_below_marked(walk, &marks, entry);
        proof {
            let ignore = self.ignored();
            let excluded = self.excluded();
            if found {
                let j = choose|j: int|
                    0 <= j < walk.len() && marks[j] && lies_below(
                        texts(entry.components@),
                        texts((#[trigger] walk[j]).components@),
                    );
                assert(is_root(ignore, excluded, walk@[j]));
            }
            if nested(ignore, excluded, walk@, *entry) {
                let j = choose|j: int|
                    0 <= j < walk@.len() && is_root(ignore, excluded, #[trigger] walk@[j])
                        && lies_below(texts(entry.components@), texts(walk@[j].components@));
                assert(marks[j]);
                assert(lies_below(texts(entry.components@), texts(walk[j].components@)));
            }
        }
        found
    }

    /// The project that the scan emits for an entry of a walk, if any.
    pub fn visit(&self, walk: &Vec<WalkEntry>, entry: &WalkEntry) -> (r: Option<Project>)
        ensures
            match r {
                Some(project) => emitted(self.ignored(), self.excluded(), walk@, *entry) == Some(
                    project@,
                ),
                None => emitted(self.ignored(), self.excluded(), walk@, *entry) is None,
            },
    {
        if self.is_project_root(entry) && !self.is_nested(walk, entry) {
            self.detect_version_control(entry)
        } else {
            None
        }
    }

    /// The projects among the entries of the walk of one workspace root, in
    /// the order of the walk: the project roots that lie below no other
    /// project root of the walk.
    pub fn scan_workspace(&self, entries: &Vec<WalkEntry>) -> (r: Vec<Project>)
        ensures
            catalog_view(r@) == scan_of(self.ignored(), self.excluded(), entries@),
    {
        let marks = self.mark_roots(entries);
        let mut out: Vec<Project> = Vec::new();
        let mut i: usize = 0;
        let ghost ignore = self.ignored();
        let ghost excluded = self.excluded();
        while i < entries.len()
            invariant
                i <= entries.len(),
                ignore == self.ignored(),
                excluded == self.excluded(),
                marks.len() == entries.len(),
                forall|j: int|
                    0 <= j < entries.len() ==> #[trigger] marks[j] == is_root(
                        ignore,
                        excluded,
                        entries[j],
                    ),
                catalog_view(out@) == scan_upto(ignore, excluded, entries@, i as nat),
            decreases entries.len() - i,
        {
            let entry = &entries[i];
            let ghost before = catalog_view(out@);
            if marks[i] {
                let below = Self::lies_below_marked(entries, &marks, entry);
                proof {
                    if below {
                        let j = choose|j: int|
                            0 <= j < entries.len() && marks[j] && lies_below(
                                texts(entry.components@),
                                texts((#[trigger] entries[j]).components@),
                            );
                        assert(is_root(ignore, excluded, entries@[j]));
                    }
                    if nested(ignore, excluded, entries@, *entry) {
                        let j = choose|j: int|
                            0 <= j < entries@.len() && is_root(
                                ignore,
                                excluded,
                                #[trigger] entries@[j],
                            ) && lies_below(
                                texts(entry.components@),
                                texts(entries@[j].components@),
                            );
                        assert(marks[j]);
                        assert(lies_below(
                            texts(entry.components@),
                            texts(entries[j].components@),
                        ));
                    }
                    assert(below == nested(ignore, excluded, entries@, *entry));
                }
                if !below {
                    match self.detect_version_control(entry) {
                        Some(project) => {
                            out.push(project);
                            assert(catalog_view(out@) =~= before.push(project@));
                        },
                        None => {},
                    }
                }
            }
            i += 1;
        }
        out
    }

    /// The project roots among the walks of several workspace roots: those
    /// of each walk, one walk after the other. Roots that overlap give the
    /// same project more than once.
    pub fn scan_parallel(&self, walks: &Vec<Vec<WalkEntry>>) -> (r: Vec<Project>)
        ensures
            catalog_view(r@) == scan_of_all(self.ignored(), self.excluded(), walks@),
    {
        let mut out: Vec<Project> = Vec::new();
        let mut i: usize = 0;
        assert(catalog_view(out@) =~= scan_of_all(
            self.ignored(),
            self.excluded(),
            walks@.take(0),
        ));
        while i < walks.len()
            invariant
                i <= walks.len(),
                catalog_view(out@) == scan_of_all(
                    self.ignored(),
                    self.excluded(),
                    walks@.take(i as int),
                ),
            decreases walks.len() - i,
        {
            let ghost upto = walks@.take(i + 1);
            let ghost before = catalog_view(out@);
            assert(upto.drop_last() == walks@.take(i as int));
            assert(upto.last() == walks@[i as int]);
            let mut found = self.scan_workspace(&walks[i]);
            let ghost added = catalog_view(found@);
            out.append(&mut found);
            assert(catalog_view(out@) =~= before + added);
            i += 1;
        }
        assert(walks@.take(walks.len() as int) == walks@);
        out
    }
}

/// A scan emits exactly what its entries emit: a project is among the
/// results for the first `n` entries of a walk if and only if one of them
/// emits it.
proof fn lemma_scan_upto_origin(
    ignore: Seq<Seq<char>>,
    excluded: Set<Seq<char>>,
    walk: Seq<WalkEntry>,
    n: nat,
    project: ProjectView,
)
    requires
        n <= walk.len(),
    ensures
        scan_upto(ignore, excluded, walk, n).contains(project) <==> exists|i: int|
            0 <= i < n && emitted(ignore, excluded, walk, #[trigger] walk[i]) == Some(project),
    decreases n,
{
    let found = scan_upto(ignore, excluded, walk, n);
    if n > 0 {
        let rest = scan_upto(ignore, excluded, walk, (n - 1) as nat);
        lemma_scan_upto_origin(ignore, excluded, walk, (n - 1) as nat, project);
        if rest.contains(project) {
            let k = choose|k: int| 0 <= k < rest.len() && rest[k] == project;
            assert(found[k] == project);
        }
        if emitted(ignore, excluded, walk, walk[n - 1]) == Some(project) {
            assert(found[found.len() - 1] == project);
        }
        if found.contains(project) {
            let k = choose|k: int| 0 <= k < found.len() && found[k] == project;
            if k < rest.len() {
                assert(rest[k] == project);
            } else {
                assert(emitted(ignore, excluded, walk, walk[n - 1]) == Some(project));
            }
        }
    }
}

/// A scan emits exactly what its entries emit: a project is among the
/// results of a walk if and only if some entry of the walk emits it.
pub proof fn lemma_scan_origin(
    ignore: Seq<Seq<char>>,
    excluded: Set<Seq<char>>,
    walk: Seq<WalkEntry>,
    project: ProjectView,
)
    ensures
        scan_of(ignore, excluded, walk).contains(project) <==> exists|i: int|
            0 <= i < walk.len() && emitted(ignore, excluded, walk, #[trigger] walk[i]) == Some(
                project,
            ),
{
    lemma_scan_upto_origin(ignore, excluded, walk, walk.len(), project);
}

/// The same for several walks: a project is among the results if and only
/// if some entry of some walk emits it within that walk.
pub proof fn lemma_scan_all_origin(
    ignore: Seq<Seq<char>>,
    excluded: Set<Seq<char>>,
    walks: Seq<Vec<WalkEntry>>,
    project: ProjectView,
)
    ensures
        scan_of_all(ignore, excluded, walks).contains(project) <==> exists|w: int, i: int|
            0 <= w < walks.len() && 0 <= i < walks[w]@.len() && emitted(
                ignore,
                excluded,
                walks[w]@,
                #[trigger] walks[w]@[i],
            ) == Some(project),
    decreases walks.len(),
{
    let found = scan_of_all(ignore, excluded, walks);
    if walks.len() > 0 {
        let init = walks.drop_last();
        let head = scan_of_all(ignore, excluded, init);
        let tail = scan_of(ignore, excluded, walks.last()@);
        let last = walks.len() - 1;
        lemma_scan_all_origin(ignore, excluded, init, project);
        lemma_scan_origin(ignore, excluded, walks.last()@, project);
        if head.contains(project) {
            let k = choose|k: int| 0 <= k < head.len() && head[k] == project;
            assert(found[k] == project);
            let (w, i) = choose|w: int, i: int|
                0 <= w < init.len() && 0 <= i < init[w]@.len() && emitted(
                    ignore,
                    excluded,
                    init[w]@,
                    #[trigger] init[w]@[i],
                ) == Some(project);
            assert(walks[w] == init[w]);
            assert(emitted(ignore, excluded, walks[w]@, walks[w]@[i]) == Some(project));
        }
        if tail.contains(project) {
            let k = choose|k: int| 0 <= k < tail.len() && tail[k] == project;
            assert(found[head.len() + k] == project);
            let i = choose|i: int|
                0 <= i < walks.last()@.len() && emitted(
                    ignore,
                    excluded,
                    walks.last()@,
                    #[trigger] walks.last()@[i],
                ) == Some(project);
            assert(emitted(ignore, excluded, walks[last]@, walks[last]@[i]) == Some(project));
        }
        if found.contains(project) {
            let k = choose|k: int| 0 <= k < found.len() && found[k] == project;
            if k < head.len() {
                assert(head[k] == project);
            } else {
                assert(tail[k - head.len()] == project);
            }
        }
        if exists|w: int, i: int|
            0 <= w < walks.len() && 0 <= i < walks[w]@.len() && emitted(
                ignore,
                excluded,
                walks[w]@,
                #[trigger] walks[w]@[i],
            ) == Some(project) {
            let (w, i) = choose|w: int, i: int|
                0 <= w < walks.len() && 0 <= i < walks[w]@.len() && emitted(
                    ignore,
                    excluded,
                    walks[w]@,
                    #[trigger] walks[w]@[i],
                ) == Some(project);
            if w < init.len() {
                assert(init[w] == walks[w]);
                assert(emitted(ignore, excluded, init[w]@, init[w]@[i]) == Some(project));
            } else {
                assert(emitted(ignore, excluded, walks.last()@, walks.last()@[i]) == Some(
                    project,
                ));
            }
        }
    }
}

/// Ignore names prune: an entry with an ignore name among the components
/// of its path emits nothing, whatever else holds of it. The components of
/// a descendant include those of its ancestors, so the whole subtree goes.
pub proof fn lemma_ignored_entry_emits_nothing(
    ignore: Seq<Seq<char>>,
    excluded: Set<Seq<char>>,
    walk: Seq<WalkEntry>,
    entry: WalkEntry,
    name: Seq<char>,
)
    requires
        ignore.contains(name),
        texts(entry.components@).contains(name),
    ensures
        !is_root(ignore, excluded, entry),
        emitted(ignore, excluded, walk, entry) is None,
{
    let components = texts(entry.components@);
    let k = choose|k: int| 0 <= k < components.len() && components[k] == name;
    assert(ignore.contains(components[k]));
}

/// A project root is a unit boundary: an entry that lies below a project
/// root of its walk emits nothing, wherever in the walk the two stand.
pub proof fn lemma_nested_entry_emits_nothing(
    ignore: Seq<Seq<char>>,
    excluded: Set<Seq<char>>,
    walk: Seq<WalkEntry>,
    j: int,
    entry: WalkEntry,
)
    requires
        0 <= j < walk.len(),
        is_root(ignore, excluded, walk[j]),
        lies_below(texts(entry.components@), texts(walk[j].components@)),
    ensures
        emitted(ignore, excluded, walk, entry) is None,
{
}

/// An outermost project root is emitted: a project root of the walk that
/// lies below no other has its record among the results.
pub proof fn lemma_outermost_root_emitted(
    ignore: Seq<Seq<char>>,
    excluded: Set<Seq<char>>,
    walk: Seq<WalkEntry>,
    i: int,
)
    requires
        0 <= i < walk.len(),
        is_root(ignore, excluded, walk[i]),
        !nested(ignore, excluded, walk, walk[i]),
    ensures
        scan_of(ignore, excluded, walk).contains(record_of(walk[i])),
{
    lemma_scan_origin(ignore, excluded, walk, record_of(walk[i]));
}

/// Nothing below a project root is emitted: a path that a walk reports
/// only below project roots of that walk is the path of no project in its
/// results.
pub proof fn lemma_nested_paths_absent(
    ignore: Seq<Seq<char>>,
    excluded: Set<Seq<char>>,
    walk: Seq<WalkEntry>,
    path: Seq<char>,
)
    requires
        forall|i: int|
            0 <= i < walk.len() && (#[trigger] walk[i]).path@ == path ==> nested(
                ignore,
                excluded,
                walk,
                walk[i],
            ),
    ensures
        !has_path(scan_of(ignore, excluded, walk), path),
{
    let found = scan_of(ignore, excluded, walk);
    if has_path(found, path) {
        let k = choose|k: int| 0 <= k < found.len() && (#[trigger] found[k]).path == path;
        assert(found.contains(found[k]));
        lemma_scan_origin(ignore, excluded, walk, found[k]);
        let i = choose|i: int|
            0 <= i < walk.len() && emitted(ignore, excluded, walk, #[trigger] walk[i]) == Some(
                found[k],
            );
        assert(walk[i].path@ == path);
    }
}

/// Ignored paths are absent from scan results: a path that the walks
/// report only with an ignore name among its components is the path of no
/// project in the results.
pub proof fn lemma_ignored_paths_absent(
    ignore: Seq<Seq<char>>,
    excluded: Set<Seq<char>>,
    walks: Seq<Vec<WalkEntry>>,
    name: Seq<char>,
    path: Seq<char>,
)
    requires
        ignore.contains(name),
        forall|w: int, i: int|
            0 <= w < walks.len() && 0 <= i < walks[w]@.len() && (#[trigger] walks[w]@[i]).path@
                == path ==> texts(walks[w]@[i].components@).contains(name),
    ensures
        !has_path(scan_of_all(ignore, excluded, walks), path),
{
    let found = scan_of_all(ignore, excluded, walks);
    if has_path(found, path) {
        let k = choose|k: int| 0 <= k < found.len() && (#[trigger] found[k]).path == path;
        assert(found.contains(found[k]));
        lemma_scan_all_origin(ignore, excluded, walks, found[k]);
        let (w, i) = choose|w: int, i: int|
            0 <= w < walks.len() && 0 <= i < walks[w]@.len() && emitted(
                ignore,
                excluded,
                walks[w]@,
                #[trigger] walks[w]@[i],
            ) == Some(found[k]);
        lemma_ignored_entry_emits_nothing(ignore, excluded, walks[w]@, walks[w]@[i], name);
    }
}

/// A path with an ignore name among its components is absent from scan
/// results, whatever the walks report of it, as long as every entry
/// carries the components of its own path.
pub proof fn lemma_ignored_component_hides_path(
    ignore: Seq<Seq<char>>,
    excluded: Set<Seq<char>>,
    walks: Seq<Vec<WalkEntry>>,
    name: Seq<char>,
    path: Seq<char>,
)
    requires
        ignore.contains(name),
        path_parts(path).contains(name),
        forall|w: int, i: int|
            0 <= w < walks.len() && 0 <= i < walks[w]@.len() ==> (
            #[trigger] walks[w]@[i]).well_formed(),
    ensures
        !has_path(scan_of_all(ignore, excluded, walks), path),
{
    lemma_ignored_paths_absent(ignore, excluded, walks, name, path);
}

/// Excluded paths are absent from scan results, even where the directory
/// is a valid project root.
pub proof fn lemma_excluded_paths_absent(
    ignore: Seq<Seq<char>>,
    excluded: Set<Seq<char>>,
    walks: Seq<Vec<WalkEntry>>,
    path: Seq<char>,
)
    requires
        excluded.contains(path),
    ensures
        !has_path(scan_of_all(ignore, excluded, walks), path),
{
    let found = scan_of_all(ignore, excluded, walks);
    if has_path(found, path) {
        let k = choose|k: int| 0 <= k < found.len() && (#[trigger] found[k]).path == path;
        assert(found.contains(found[k]));
        lemma_scan_all_origin(ignore, excluded, walks, found[k]);
    }
}

/// Everything a scan emits is a scan record: no classification, no user
/// state, not custom.
pub proof fn lemma_scan_emits_scan_records(
    ignore: Seq<Seq<char>>,
    excluded: Set<Seq<char>>,
    walks: Seq<Vec<WalkEntry>>,
)
    ensures
        forall|k: int|
            0 <= k < scan_of_all(ignore, excluded, walks).len() ==> (#[trigger] scan_of_all(
                ignore,
                excluded,
                walks,
            )[k]).is_scan_record(),
{
    let found = scan_of_all(ignore, excluded, walks);
    assert forall|k: int| 0 <= k < found.len() implies (#[trigger] found[k]).is_scan_record() by {
        assert(found.contains(found[k]));
        lemma_scan_all_origin(ignore, excluded, walks, found[k]);
    }
}

} // verus!
