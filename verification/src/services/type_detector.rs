//! Stack classification of a project directory.
//!
//! Classification works on a snapshot of the directory ([`DirSnapshot`]),
//! reduced to the facts the rules consult ([`Evidence`]). The rules form an
//! ordered table ([`precedence`]); the first one that applies gives the tag.

use vstd::prelude::*;
use crate::text::texts;
use crate::text::opt_text;
use crate::text::lowercase;
use crate::text::same_text;
use crate::text::list_contains;
use crate::text::to_lowercase;
use crate::services::manifest::NodeManifest;
use crate::services::manifest::NodeManifestView;
use crate::services::manifest::opt_manifest;
use crate::services::manifest::opt_texts;
use crate::services::manifest::node_manifest_of;
use crate::services::manifest::composer_require_of;
use crate::services::manifest::read_composer_require;
use crate::services::stack_rules::first_applicable;
use crate::services::stack_rules::precedence;
use crate::services::stack_rules::rule_table;
use crate::services::stack_rules::stack_tag;

verus! {

/// What kind of thing a directory entry is.
#[derive(Debug, Clone, Copy, PartialEq, Eq, Structural)]
pub enum EntryKind {
    /// A regular file.
    File,
    /// A directory.
    Directory,
    /// Something that exists but is neither.
    Other,
}

/// One entry of a directory listing.
///
/// `content` is the text of a file where it was read, `children` the listing
/// of a directory where it was read; both stay empty otherwise.
#[derive(Debug)]
pub struct TreeEntry {
    pub name: String,
    pub extension: Option<String>,
    pub kind: EntryKind,
    pub content: Option<String>,
    pub children: Vec<TreeEntry>,
}

/// A project directory as last seen on disk. `entries` is `None` where the
/// path is missing, is not a directory or cannot be listed.
#[derive(Debug)]
pub struct DirSnapshot {
    pub entries: Option<Vec<TreeEntry>>,
}

/// The first entry of a listing with the given name.
pub open spec fn entry_named(entries: Seq<TreeEntry>, name: Seq<char>) -> Option<TreeEntry>
    decreases entries.len(),
{
    if entries.len() == 0 {
        None
    } else if entries[0].name@ == name {
        Some(entries[0])
    } else {
        entry_named(entries.drop_first(), name)
    }
}

/// The text that was read from the entry with the given name.
pub open spec fn content_of(entries: Seq<TreeEntry>, name: Seq<char>) -> Option<Seq<char>> {
    match entry_named(entries, name) {
        Some(e) => opt_text(e.content),
        None => None,
    }
}

/// The names of the entries of a listing, in order.
pub open spec fn names_of(entries: Seq<TreeEntry>) -> Seq<Seq<char>> {
    entries.map_values(|e: TreeEntry| e.name@)
}

/// The extensions of the entries of a listing that have one, in order.
pub open spec fn extensions_of(entries: Seq<TreeEntry>) -> Seq<Seq<char>>
    decreases entries.len(),
{
    if entries.len() == 0 {
        Seq::empty()
    } else {
        let rest = extensions_of(entries.drop_last());
        match entries.last().extension {
            Some(x) => rest.push(x@),
            None => rest,
        }
    }
}

/// Whether some entry of the listing carries the extension.
pub open spec fn lists_extension(entries: Seq<TreeEntry>, ext: Seq<char>) -> bool {
    exists|i: int|
        0 <= i < entries.len() && #[trigger] opt_text(entries[i].extension) == Some(ext)
}

/// Whether a file with the extension lies within `depth` levels of a
/// listing: in the listing itself at depth 1, in its subdirectories too at
/// depth 2, and so on. Depth 0 finds nothing.
pub open spec fn finds_extension(entries: Seq<TreeEntry>, ext: Seq<char>, depth: nat) -> bool
    decreases depth,
{
    depth > 0 && exists|i: int|
        #![trigger entries[i]]
        0 <= i < entries.len() && (match entries[i].kind {
            EntryKind::File => opt_text(entries[i].extension) == Some(ext),
            EntryKind::Directory => finds_extension(
                entries[i].children@,
                ext,
                (depth - 1) as nat,
            ),
            EntryKind::Other => false,
        })
}

/// Whether a directory holds sources with the extension: searched two
/// levels deep under `src` where the directory has such an entry, else among
/// the directory's own entries.
pub open spec fn has_source(entries: Seq<TreeEntry>, ext: Seq<char>) -> bool {
    match entry_named(entries, "src"@) {
        Some(src) => finds_extension(src.children@, ext, 2),
        None => lists_extension(entries, ext),
    }
}

/// The lowercase form of an optional text.
pub open spec fn lowered(text: Option<Seq<char>>) -> Option<Seq<char>> {
    match text {
        Some(t) => Some(lowercase(t)),
        None => None,
    }
}

/// The facts the classification rules consult, as plain values.
#[derive(Debug)]
pub struct Evidence {
    /// Names of the entries directly under the project root.
    pub names: Vec<String>,
    /// Extensions of those entries.
    pub extensions: Vec<String>,
    /// Whether `config/routes.rb` is present.
    pub rails_routes: bool,
    /// Whether Kotlin sources (`kt`) were found.
    pub kotlin_source: bool,
    /// Whether C++ sources (`cpp`, `cxx`, `cc`) were found.
    pub cpp_source: bool,
    /// Whether C sources (`c`) were found.
    pub c_source: bool,
    /// Text of `pubspec.yaml`, where it was read.
    pub pubspec: Option<String>,
    /// Lowercased text of `requirements.txt`, where it was read.
    pub requirements: Option<String>,
    /// Lowercased text of `pyproject.toml`, where it was read.
    pub pyproject: Option<String>,
    /// Lowercased text of `pom.xml`, where it was read.
    pub pom: Option<String>,
    /// What `package.json` declares, where it was read and parsed.
    pub package: Option<NodeManifest>,
    /// The `require` keys of `composer.json`, where it was read and parsed.
    pub composer: Option<Vec<String>>,
}

/// The mathematical content of an [`Evidence`].
pub struct EvidenceView {
    pub names: Seq<Seq<char>>,
    pub extensions: Seq<Seq<char>>,
    pub rails_routes: bool,
    pub kotlin_source: bool,
    pub cpp_source: bool,
    pub c_source: bool,
    pub pubspec: Option<Seq<char>>,
    pub requirements: Option<Seq<char>>,
    pub pyproject: Option<Seq<char>>,
    pub pom: Option<Seq<char>>,
    pub package: Option<NodeManifestView>,
    pub composer: Option<Seq<Seq<char>>>,
}

impl View for Evidence {
    type V = EvidenceView;

    open spec fn view(&self) -> EvidenceView {
        EvidenceView {
            names: texts(self.names@),
            extensions: texts(self.extensions@),
            rails_routes: self.rails_routes,
            kotlin_source: self.kotlin_source,
            cpp_source: self.cpp_source,
            c_source: self.c_source,
            pubspec: opt_text(self.pubspec),
            requirements: opt_text(self.requirements),
            pyproject: opt_text(self.pyproject),
            pom: opt_text(self.pom),
            package: opt_manifest(self.package),
            composer: opt_texts(self.composer),
        }
    }
}

/// The evidence that a listing of a project root gives.
pub open spec fn evidence_of(entries: Seq<TreeEntry>) -> EvidenceView {
    EvidenceView {
        names: names_of(entries),
        extensions: extensions_of(entries),
        rails_routes: match entry_named(entries, "config"@) {
            Some(config) => names_of(config.children@).contains("routes.rb"@),
            None => false,
        },
        kotlin_source: has_source(entries, "kt"@),
        cpp_source: has_source(entries, "cpp"@) || has_source(entries, "cxx"@) || has_source(
            entries,
            "cc"@,
        ),
        c_source: has_source(entries, "c"@),
        pubspec: content_of(entries, "pubspec.yaml"@),
        requirements: lowered(content_of(entries, "requirements.txt"@)),
        pyproject: lowered(content_of(entries, "pyproject.toml"@)),
        pom: lowered(content_of(entries, "pom.xml"@)),
        package: node_manifest_of(content_of(entries, "package.json"@)),
        composer: composer_require_of(content_of(entries, "composer.json"@)),
    }
}

/// The first entry of a listing with the given name.
pub fn find_entry<'a>(entries: &'a Vec<TreeEntry>, name: &str) -> (r: Option<&'a TreeEntry>)
    ensures
        match r {
            Some(e) => entry_named(entries@, name@) == Some(*e),
            None => entry_named(entries@, name@) is None,
        },
{
    let mut i: usize = 0;
    assert(entries@.skip(0) == entries@);
    while i < entries.len()
        invariant
            i <= entries.len(),
            entry_named(entries@, name@) == entry_named(entries@.skip(i as int), name@),
        decreases entries.len() - i,
    {
        let ghost rest = entries@.skip(i as int);
        assert(rest[0] == entries@[i as int]);
        assert(rest.drop_first() == entries@.skip(i + 1));
        if same_text(entries[i].name.as_str(), name) {
            return Some(&entries[i]);
        }
        i += 1;
    }
    None
}

/// The text that was read from the entry with the given name.
pub fn read_content<'a>(entries: &'a Vec<TreeEntry>, name: &str) -> (r: Option<&'a String>)
    ensures
        match r {
            Some(t) => content_of(entries@, name@) == Some(t@),
            None => content_of(entries@, name@) is None,
        },
{
    match find_entry(entries, name) {
        Some(e) => e.content.as_ref(),
        None => None,
    }
}

/// The names of the entries of a listing.
pub fn list_names(entries: &Vec<TreeEntry>) -> (r: Vec<String>)
    ensures
        texts(r@) == names_of(entries@),
{
    let mut out: Vec<String> = Vec::new();
    let mut i: usize = 0;
    while i < entries.len()
        invariant
            i <= entries.len(),
            out.len() == i,
            forall|j: int| 0 <= j < i ==> out[j]@ == entries[j].name@,
        decreases entries.len() - i,
    {
        out.push(entries[i].name.clone());
        i += 1;
    }
    assert(texts(out@) =~= names_of(entries@));
    out
}

/// The extensions of the entries of a listing that have one.
pub fn list_extensions(entries: &Vec<TreeEntry>) -> (r: Vec<String>)
    ensures
        texts(r@) == extensions_of(entries@),
{
    let mut out: Vec<String> = Vec::new();
    let mut i: usize = 0;
    assert(texts(out@) =~= extensions_of(entries@.take(0)));
    while i < entries.len()
        invariant
            i <= entries.len(),
            texts(out@) == extensions_of(entries@.take(i as int)),
        decreases entries.len() - i,
    {
        let ghost before = texts(out@);
        let ghost upto = entries@.take(i + 1);
        assert(upto.drop_last() == entries@.take(i as int));
        assert(upto.last() == entries@[i as int]);
        match &entries[i].extension {
            Some(x) => {
                out.push(x.clone());
                assert(texts(out@) =~= before.push(x@));
            },
            None => {},
        }
        i += 1;
    }
    assert(entries@.take(entries.len() as int) == entries@);
    out
}

/// Whether an optional string holds exactly the given text.
pub fn holds_text(value: &Option<String>, text: &str) -> (r: bool)
    ensures
        r == (opt_text(*value) == Some(text@)),
{
    match value {
        Some(s) => same_text(s.as_str(), text),
        None => false,
    }
}

/// The lowercase form of an optional text.
pub fn lowered_copy(text: Option<&String>) -> (r: Option<String>)
    ensures
        opt_text(r) == lowered(
            match text {
                Some(t) => Some(t@),
                None => None,
            },
        ),
{
    match text {
        Some(t) => Some(to_lowercase(t.as_str())),
        None => None,
    }
}

/// The tag of a project directory: nothing where the directory could not
/// be listed, else the tag of the evidence its listing gives.
pub open spec fn detected_tag(dir: DirSnapshot) -> Option<Seq<char>> {
    match dir.entries {
        Some(entries) => Some(stack_tag(evidence_of(entries@))),
        None => None,
    }
}

/// How many levels below `src` are searched for source files.
pub const SOURCE_SEARCH_DEPTH: u32 = 2;

/// Classifies project directories by technology stack.
pub struct TypeDetector;

impl TypeDetector {
    /// Whether some entry of the listing carries the extension.
    pub fn has_extension(entries: &Vec<TreeEntry>, ext: &str) -> (r: bool)
        ensures
            r == lists_extension(entries@, ext@),
    {
        let mut i: usize = 0;
        while i < entries.len()
            invariant
                i <= entries.len(),
                forall|j: int| 0 <= j < i ==> opt_text(entries[j].extension) != Some(ext@),
            decreases entries.len() - i,
        {
            if holds_text(&entries[i].extension, ext) {
                return true;
            }
            i += 1;
        }
        false
    }

    /// Whether a file with the extension lies within `depth` levels of the
    /// listing.
    pub fn find_files_with_extension_depth(entries: &Vec<TreeEntry>, ext: &str, depth: u32) -> (r:
        bool)
        ensures
            r == finds_extension(entries@, ext@, depth as nat),
        decreases depth,
    {
        if depth == 0 {
            return false;
        }
        let mut i: usize = 0;
        while i < entries.len()
            invariant
                depth > 0,
                i <= entries.len(),
                forall|j: int|
                    #![trigger entries@[j]]
                    0 <= j < i ==> !(match entries@[j].kind {
                        EntryKind::File => opt_text(entries@[j].extension) == Some(ext@),
                        EntryKind::Directory => finds_extension(
                            entries@[j].children@,
                            ext@,
                            (depth - 1) as nat,
                        ),
                        EntryKind::Other => false,
                    }),
            decreases entries.len() - i,
        {
            let entry = &entries[i];
            let hit = match entry.kind {
                EntryKind::File => holds_text(&entry.extension, ext),
                EntryKind::Directory => Self::find_files_with_extension_depth(
                    &entry.children,
                    ext,
                    depth - 1,
                ),
                EntryKind::Other => false,
            };
            if hit {
                return true;
            }
            i += 1;
        }
        false
    }

    /// Whether a file with the extension lies in the listing or in one of
    /// its subdirectories.
    pub fn find_files_with_extension(entries: &Vec<TreeEntry>, ext: &str) -> (r: bool)
        ensures
            r == finds_extension(entries@, ext@, 2),
    {
        Self::find_files_with_extension_depth(entries, ext, SOURCE_SEARCH_DEPTH)
    }

    /// Whether the project holds sources with the extension: under `src`
    /// where the project has such an entry, else directly in its root.
    pub fn has_source_with(entries: &Vec<TreeEntry>, ext: &str) -> (r: bool)
        ensures
            r == has_source(entries@, ext@),
    {
        match find_entry(entries, "src") {
            Some(src) => Self::find_files_with_extension(&src.children, ext),
            None => Self::has_extension(entries, ext),
        }
    }

    /// Whether the project holds Kotlin sources.
    pub fn has_kotlin_source(entries: &Vec<TreeEntry>) -> (r: bool)
        ensures
            r == has_source(entries@, "kt"@),
    {
        Self::has_source_with(entries, "kt")
    }

    /// Whether the project holds C++ sources.
    pub fn has_cpp_source(entries: &Vec<TreeEntry>) -> (r: bool)
        ensures
            r == (has_source(entries@, "cpp"@) || has_source(entries@, "cxx"@) || has_source(
                entries@,
                "cc"@,
            )),
    {
        Self::has_source_with(entries, "cpp") || Self::has_source_with(entries, "cxx")
            || Self::has_source_with(entries, "cc")
    }

    /// Whether the project holds C sources.
    pub fn has_c_source(entries: &Vec<TreeEntry>) -> (r: bool)
        ensures
            r == has_source(entries@, "c"@),
    {
        Self::has_source_with(entries, "c")
    }

    /// Reduces a listing of a project root to the facts the rules consult.
    pub fn gather(entries: &Vec<TreeEntry>) -> (r: Evidence)
        ensures
            r@ == evidence_of(entries@),
    {
        let rails_routes = match find_entry(entries, "config") {
            Some(config) => {
                let names = list_names(&config.children);
                list_contains(&names, "routes.rb")
            },
            None => false,
        };
        let pubspec = match read_content(entries, "pubspec.yaml") {
            Some(t) => Some(t.clone()),
            None => None,
        };
        Evidence {
            names: list_names(entries),
            extensions: list_extensions(entries),
            rails_routes,
            kotlin_source: Self::has_kotlin_source(entries),
            cpp_source: Self::has_cpp_source(entries),
            c_source: Self::has_c_source(entries),
            pubspec,
            requirements: lowered_copy(read_content(entries, "requirements.txt")),
            pyproject: lowered_copy(read_content(entries, "pyproject.toml")),
            pom: lowered_copy(read_content(entries, "pom.xml")),
            package: NodeManifest::read(read_content(entries, "package.json")),
            composer: read_composer_require(read_content(entries, "composer.json")),
        }
    }

    /// The tag of the evidence: that of the first rule, in order of
    /// precedence, that applies; `unknown` where none does.
    pub fn classify(ev: &Evidence) -> (r: String)
        ensures
            r@ == stack_tag(ev@),
    {
        let rules = rule_table();
        let mut i: usize = 0;
        assert(rules@.skip(0) == rules@);
        while i < rules.len()
            invariant
                i <= rules.len(),
                rules@ == precedence(),
                first_applicable(precedence(), ev@) == first_applicable(
                    rules@.skip(i as int),
                    ev@,
                ),
            decreases rules.len() - i,
        {
            let ghost rest = rules@.skip(i as int);
            assert(rest[0] == rules@[i as int]);
            assert(rest.drop_first() == rules@.skip(i + 1));
            let rule = rules[i];
            if rule.applies_to(ev) {
                return rule.tag().to_string();
            }
            i += 1;
        }
        "unknown".to_string()
    }

    /// Classifies a project directory. A directory that could not be listed
    /// gives `None`; every other gives exactly one tag.
    pub fn detect(dir: &DirSnapshot) -> (r: Option<String>)
        ensures
            opt_text(r) == detected_tag(*dir),
    {
        match &dir.entries {
            Some(entries) => {
                let ev = Self::gather(entries);
                Some(Self::classify(&ev))
            },
            None => None,
        }
    }

    /// Whether the rules read the text of a root entry with this name. A
    /// snapshot needs `content` only for these.
    pub fn reads_content(name: &str) -> (r: bool)
        ensures
            r == (name@ == "pubspec.yaml"@ || name@ == "requirements.txt"@ || name@
                == "pyproject.toml"@ || name@ == "pom.xml"@ || name@ == "package.json"@ || name@
                == "composer.json"@),
    {
        same_text(name, "pubspec.yaml") || same_text(name, "requirements.txt") || same_text(
            name,
            "pyproject.toml",
        ) || same_text(name, "pom.xml") || same_text(name, "package.json") || same_text(
            name,
            "composer.json",
        )
    }

    /// How many levels of listing the rules read below a root entry with
    /// this name: the source tree under `src`, one level under `config`,
    /// nothing elsewhere. A snapshot needs `children` only that far.
    pub fn listing_depth(name: &str) -> (r: u32)
        ensures
            r == if name@ == "src"@ {
                SOURCE_SEARCH_DEPTH
            } else if name@ == "config"@ {
                1u32
            } else {
                0u32
            },
    {
        if same_text(name, "src") {
            SOURCE_SEARCH_DEPTH
        } else if same_text(name, "config") {
            1
        } else {
            0
        }
    }
}

} // verus!
