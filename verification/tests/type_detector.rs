use project_launcher::services::manifest::{read_composer_require, NodeManifest};
use project_launcher::services::stack_rules::{rule_table, StackRule};
use project_launcher::services::type_detector::{
    DirSnapshot, EntryKind, Evidence, TreeEntry, TypeDetector, SOURCE_SEARCH_DEPTH,
};

fn ext_of(name: &str) -> Option<String> {
    std::path::Path::new(name).extension().and_then(|e| e.to_str()).map(|e| e.to_string())
}

fn file(name: &str) -> TreeEntry {
    TreeEntry {
        name: name.to_string(),
        extension: ext_of(name),
        kind: EntryKind::File,
        content: None,
        children: vec![],
    }
}

fn text_file(name: &str, content: &str) -> TreeEntry {
    TreeEntry { content: Some(content.to_string()), ..file(name) }
}

fn dir(name: &str, children: Vec<TreeEntry>) -> TreeEntry {
    TreeEntry {
        name: name.to_string(),
        extension: ext_of(name),
        kind: EntryKind::Directory,
        content: None,
        children,
    }
}

fn tag_of(entries: Vec<TreeEntry>) -> String {
    TypeDetector::detect(&DirSnapshot { entries: Some(entries) }).expect("a listed directory")
}

fn bare_evidence(names: &[&str]) -> Evidence {
    Evidence {
        names: names.iter().map(|n| n.to_string()).collect(),
        extensions: vec![],
        rails_routes: false,
        kotlin_source: false,
        cpp_source: false,
        c_source: false,
        pubspec: None,
        requirements: None,
        pyproject: None,
        pom: None,
        package: None,
        composer: None,
    }
}

#[test]
fn test_detect_rust_project() {
    assert_eq!(
        TypeDetector::detect(&DirSnapshot {
            entries: Some(vec![file("Cargo.toml"), dir("src", vec![file("main.rs")])])
        }),
        Some("rust".to_string())
    );
}

#[test]
fn unlisted_directory_has_no_tag() {
    assert_eq!(TypeDetector::detect(&DirSnapshot { entries: None }), None);
}

#[test]
fn directory_without_markers_is_unknown() {
    assert_eq!(tag_of(vec![]), "unknown");
    assert_eq!(tag_of(vec![file("README.md"), dir("docs", vec![])]), "unknown");
}

#[test]
fn shell_config_beats_cargo_manifest() {
    assert_eq!(tag_of(vec![file("Cargo.toml"), file("tauri.conf.json")]), "tauri");
    assert_eq!(tag_of(vec![file("Cargo.toml"), dir("src-tauri", vec![])]), "tauri");
}

#[test]
fn framework_config_beats_generic_package_manifest() {
    assert_eq!(tag_of(vec![text_file("package.json", "{}"), file("nuxt.config.js")]), "nuxt");
    assert_eq!(tag_of(vec![text_file("package.json", "{}"), file("astro.config.mjs")]), "astro");
    assert_eq!(tag_of(vec![text_file("package.json", "{}"), file("svelte.config.ts")]), "svelte");
    assert_eq!(tag_of(vec![text_file("package.json", "{}"), file("angular.json")]), "angular");
    assert_eq!(tag_of(vec![text_file("package.json", "{}"), file("vue.config.js")]), "vue");
    assert_eq!(tag_of(vec![text_file("package.json", "{}")]), "javascript");
}

#[test]
fn single_marker_rules() {
    assert_eq!(tag_of(vec![file("deno.json")]), "deno");
    assert_eq!(tag_of(vec![file("deno.jsonc")]), "deno");
    assert_eq!(tag_of(vec![file("bun.lockb")]), "bun");
    assert_eq!(tag_of(vec![dir("App.xcodeproj", vec![])]), "xcode");
    assert_eq!(tag_of(vec![dir("App.xcworkspace", vec![])]), "xcode");
    assert_eq!(tag_of(vec![dir("app", vec![]), dir("gradle", vec![])]), "android");
    assert_eq!(tag_of(vec![dir("Assets", vec![]), dir("ProjectSettings", vec![])]), "unity");
    assert_eq!(tag_of(vec![file("Game.uproject")]), "unreal");
    assert_eq!(tag_of(vec![file("project.godot")]), "godot");
    assert_eq!(tag_of(vec![file("tsconfig.json")]), "typescript");
    assert_eq!(tag_of(vec![file("go.mod")]), "go");
    assert_eq!(tag_of(vec![file("App.csproj")]), "dotnet");
    assert_eq!(tag_of(vec![file("App.sln")]), "dotnet");
    assert_eq!(tag_of(vec![file("App.fsproj")]), "dotnet");
    assert_eq!(tag_of(vec![file("build.sbt")]), "scala");
    assert_eq!(tag_of(vec![file("mix.exs")]), "elixir");
    assert_eq!(tag_of(vec![file("pkg.cabal")]), "haskell");
    assert_eq!(tag_of(vec![file("stack.yaml")]), "haskell");
    assert_eq!(tag_of(vec![file("build.zig")]), "zig");
    assert_eq!(tag_of(vec![file("App.vcxproj")]), "cpp");
    assert_eq!(tag_of(vec![file("init.lua")]), "lua");
    assert_eq!(tag_of(vec![file("main.lua")]), "lua");
    assert_eq!(tag_of(vec![file(".luarc.json")]), "lua");
    assert_eq!(tag_of(vec![file("notes.ipynb")]), "jupyter");
    assert_eq!(tag_of(vec![file("Dockerfile")]), "docker");
    assert_eq!(tag_of(vec![file("docker-compose.yml")]), "docker");
    assert_eq!(tag_of(vec![file("docker-compose.yaml")]), "docker");
}

#[test]
fn one_marker_of_a_pair_is_not_enough() {
    assert_eq!(tag_of(vec![dir("app", vec![])]), "unknown");
    assert_eq!(tag_of(vec![dir("Assets", vec![])]), "unknown");
}

#[test]
fn flutter_needs_both_phrases_in_the_pubspec() {
    let flutter = "dependencies:\n  flutter:\n    sdk: flutter\n";
    assert_eq!(tag_of(vec![text_file("pubspec.yaml", flutter)]), "flutter");
    assert_eq!(tag_of(vec![text_file("pubspec.yaml", "name: x\nflutter:\n")]), "dart");
    assert_eq!(tag_of(vec![text_file("pubspec.yaml", "FLUTTER:\n sdk: flutter")]), "dart");
    assert_eq!(tag_of(vec![file("pubspec.yaml")]), "dart");
}

#[test]
fn node_frameworks_by_dependency() {
    let pkg = |body: &str| vec![text_file("package.json", body)];
    assert_eq!(tag_of(pkg(r#"{"dependencies":{"nuxt":"3"}}"#)), "nuxt");
    assert_eq!(tag_of(pkg(r#"{"devDependencies":{"nuxt":"3"}}"#)), "nuxt");
    assert_eq!(tag_of(pkg(r#"{"dependencies":{"next":"14","react":"18"}}"#)), "nextjs");
    assert_eq!(tag_of(pkg(r#"{"devDependencies":{"@remix-run/react":"2"}}"#)), "remix");
    assert_eq!(tag_of(pkg(r#"{"dependencies":{"astro":"4"}}"#)), "astro");
    assert_eq!(tag_of(pkg(r#"{"devDependencies":{"svelte":"4"}}"#)), "svelte");
    assert_eq!(tag_of(pkg(r#"{"dependencies":{"@builder.io/qwik":"1"}}"#)), "qwik");
    assert_eq!(tag_of(pkg(r#"{"dependencies":{"solid-js":"1"}}"#)), "solidjs");
    assert_eq!(tag_of(pkg(r#"{"dependencies":{"@angular/core":"17"}}"#)), "angular");
    assert_eq!(tag_of(pkg(r#"{"dependencies":{"@nestjs/core":"10"}}"#)), "nest");
    assert_eq!(tag_of(pkg(r#"{"dependencies":{"vue":"3"}}"#)), "vue");
    assert_eq!(tag_of(pkg(r#"{"dependencies":{"react":"18"}}"#)), "react");
    assert_eq!(tag_of(pkg(r#"{"dependencies":{"electron":"30"}}"#)), "electron");
    assert_eq!(tag_of(pkg(r#"{"devDependencies":{"electron":"30"}}"#)), "electron");
    assert_eq!(tag_of(pkg(r#"{"dependencies":{"hexo":"7"}}"#)), "hexo");
    assert_eq!(tag_of(pkg(r#"{"devDependencies":{"vite":"5"}}"#)), "vite");
    assert_eq!(tag_of(pkg(r#"{"dependencies":{"left-pad":"1"}}"#)), "javascript");
}

#[test]
fn production_only_rules_ignore_dev_dependencies() {
    let pkg = |body: &str| vec![text_file("package.json", body)];
    assert_eq!(tag_of(pkg(r#"{"devDependencies":{"@angular/core":"17"}}"#)), "javascript");
    assert_eq!(tag_of(pkg(r#"{"devDependencies":{"vue":"3"}}"#)), "javascript");
    assert_eq!(tag_of(pkg(r#"{"devDependencies":{"react":"18"}}"#)), "javascript");
    assert_eq!(tag_of(pkg(r#"{"devDependencies":{"hexo":"7"}}"#)), "javascript");
    assert_eq!(tag_of(pkg(r#"{"dependencies":{"vite":"5"}}"#)), "javascript");
}

#[test]
fn react_with_typescript() {
    let pkg = |body: &str| vec![text_file("package.json", body)];
    assert_eq!(
        tag_of(pkg(r#"{"dependencies":{"react":"18"},"devDependencies":{"typescript":"5"}}"#)),
        "react_ts"
    );
    assert_eq!(tag_of(pkg(r#"{"dependencies":{"react":"18","typescript":"5"}}"#)), "react_ts");
    assert_eq!(
        tag_of(pkg(r#"{"dependencies":{"react":"18"},"devDependencies":{"typescript":5}}"#)),
        "react"
    );
}

#[test]
fn sections_that_are_not_objects_declare_nothing() {
    let pkg = |body: &str| vec![text_file("package.json", body)];
    assert_eq!(tag_of(pkg(r#"{"dependencies":["react"]}"#)), "javascript");
    assert_eq!(tag_of(pkg(r#"{"dependencies":"react"}"#)), "javascript");
    assert_eq!(tag_of(pkg(r#"["react"]"#)), "javascript");
}

#[test]
fn malformed_package_manifest_falls_through() {
    assert_eq!(tag_of(vec![text_file("package.json", "{ not json"), file("tsconfig.json")]), "typescript");
    assert_eq!(tag_of(vec![text_file("package.json", "{ not json"), file("nuxt.config.js")]), "unknown");
    assert_eq!(tag_of(vec![file("package.json"), file("go.mod")]), "go");
}

#[test]
fn python_by_manifest_content() {
    assert_eq!(tag_of(vec![text_file("requirements.txt", "FastAPI==0.110\nDjango\n")]), "fastapi");
    assert_eq!(tag_of(vec![text_file("requirements.txt", "Django>=4\nflask\n")]), "django");
    assert_eq!(tag_of(vec![text_file("requirements.txt", "Flask\n")]), "flask");
    assert_eq!(tag_of(vec![text_file("requirements.txt", "numpy\n")]), "python");
    assert_eq!(tag_of(vec![file("requirements.txt")]), "python");
    assert_eq!(tag_of(vec![text_file("pyproject.toml", "deps = [\"fastapi\"]")]), "fastapi");
    assert_eq!(tag_of(vec![text_file("pyproject.toml", "deps = [\"DJANGO\"]")]), "django");
    assert_eq!(tag_of(vec![text_file("pyproject.toml", "deps = [\"flask\"]")]), "flask");
    assert_eq!(tag_of(vec![text_file("pyproject.toml", "[project]")]), "python");
    assert_eq!(tag_of(vec![file("manage.py")]), "django");
    assert_eq!(tag_of(vec![file("setup.py")]), "python");
    assert_eq!(tag_of(vec![file("Pipfile")]), "python");
}

#[test]
fn requirements_file_decides_before_pyproject() {
    assert_eq!(
        tag_of(vec![
            text_file("pyproject.toml", "fastapi"),
            text_file("requirements.txt", "numpy")
        ]),
        "python"
    );
}

#[test]
fn ruby_and_rails() {
    assert_eq!(tag_of(vec![file("Gemfile")]), "ruby");
    assert_eq!(tag_of(vec![file("Gemfile"), dir("config", vec![file("routes.rb")])]), "rails");
    assert_eq!(tag_of(vec![file("Gemfile"), dir("config", vec![file("boot.rb")])]), "ruby");
}

#[test]
fn php_and_laravel() {
    assert_eq!(tag_of(vec![text_file("composer.json", r#"{"require":{"laravel/framework":"11"}}"#)]), "laravel");
    assert_eq!(tag_of(vec![text_file("composer.json", "{}"), file("artisan")]), "laravel");
    assert_eq!(tag_of(vec![text_file("composer.json", "{}")]), "php");
    assert_eq!(tag_of(vec![text_file("composer.json", "{ broken"), file("artisan")]), "php");
    assert_eq!(tag_of(vec![file("composer.json"), file("artisan")]), "php");
}

#[test]
fn maven_and_spring() {
    assert_eq!(tag_of(vec![text_file("pom.xml", "<artifactId>Spring-Boot-starter</artifactId>")]), "spring");
    assert_eq!(tag_of(vec![text_file("pom.xml", "<groupId>org.springframework</groupId>")]), "spring");
    assert_eq!(tag_of(vec![text_file("pom.xml", "<project/>")]), "maven");
    assert_eq!(tag_of(vec![file("pom.xml")]), "maven");
}

#[test]
fn gradle_and_kotlin() {
    assert_eq!(tag_of(vec![file("build.gradle")]), "gradle");
    assert_eq!(tag_of(vec![file("build.gradle.kts"), dir("src", vec![file("Main.kt")])]), "kotlin");
    assert_eq!(
        tag_of(vec![file("build.gradle"), dir("src", vec![dir("main", vec![file("Main.kt")])])]),
        "kotlin"
    );
    assert_eq!(tag_of(vec![file("build.gradle"), file("Main.kt")]), "kotlin");
    assert_eq!(
        tag_of(vec![file("build.gradle"), dir("src", vec![file("Main.kt")]), dir("app", vec![])]),
        "gradle"
    );
}

#[test]
fn source_search_stops_two_levels_below_src() {
    assert_eq!(SOURCE_SEARCH_DEPTH, 2);
    let deep = dir("src", vec![dir("main", vec![dir("kotlin", vec![file("Main.kt")])])]);
    assert_eq!(tag_of(vec![file("build.gradle"), deep]), "gradle");
    let shadowed = vec![file("build.gradle"), dir("src", vec![]), file("Main.kt")];
    assert_eq!(tag_of(shadowed), "gradle");
}

#[test]
fn source_search_counts_files_only() {
    let entries = vec![dir("a.kt", vec![]), dir("sub", vec![file("b.kt")])];
    assert!(!TypeDetector::find_files_with_extension_depth(&entries, "kt", 1));
    assert!(TypeDetector::find_files_with_extension_depth(&entries, "kt", 2));
    assert!(!TypeDetector::find_files_with_extension_depth(&entries, "kt", 0));
    assert!(TypeDetector::find_files_with_extension(&entries, "kt"));
    assert!(TypeDetector::has_extension(&entries, "kt"));
    assert!(!TypeDetector::has_extension(&entries, "rs"));
}

#[test]
fn cmake_projects() {
    assert_eq!(tag_of(vec![file("CMakeLists.txt"), dir("src", vec![file("main.cpp")])]), "cpp");
    assert_eq!(tag_of(vec![file("CMakeLists.txt"), dir("src", vec![file("main.cc")])]), "cpp");
    assert_eq!(tag_of(vec![file("CMakeLists.txt"), file("main.cxx")]), "cpp");
    assert_eq!(tag_of(vec![file("CMakeLists.txt"), dir("src", vec![file("main.c")])]), "c");
    assert_eq!(tag_of(vec![file("CMakeLists.txt")]), "cpp");
    let both = vec![file("CMakeLists.txt"), dir("src", vec![file("a.c"), file("b.cpp")])];
    assert_eq!(tag_of(both), "cpp");
}

#[test]
fn source_probes() {
    let entries = vec![dir("src", vec![file("a.c"), dir("x", vec![file("b.cxx")])])];
    assert!(TypeDetector::has_c_source(&entries));
    assert!(TypeDetector::has_cpp_source(&entries));
    assert!(!TypeDetector::has_kotlin_source(&entries));
    assert!(TypeDetector::has_kotlin_source(&vec![file("Main.kt")]));
}

#[test]
fn precedence_follows_the_order_of_the_table() {
    assert_eq!(tag_of(vec![file("Dockerfile"), file("go.mod")]), "go");
    assert_eq!(tag_of(vec![file("go.mod"), file("requirements.txt")]), "python");
    assert_eq!(tag_of(vec![file("tsconfig.json"), text_file("package.json", "{}")]), "javascript");
    assert_eq!(tag_of(vec![file("Cargo.toml"), text_file("package.json", "{}")]), "rust");
    assert_eq!(tag_of(vec![file("pubspec.yaml"), file("deno.json")]), "deno");
}

#[test]
fn table_lists_every_rule_once_in_order() {
    let table = rule_table();
    assert_eq!(table.len(), 59);
    assert_eq!(table[0], StackRule::Tauri);
    assert_eq!(table[1], StackRule::Rust);
    assert_eq!(table[58], StackRule::Docker);
    for (i, a) in table.iter().enumerate() {
        for b in table.iter().skip(i + 1) {
            assert_ne!(a, b);
        }
    }
    assert_eq!(StackRule::ReactTs.tag(), "react_ts");
    assert_eq!(StackRule::CMakeC.tag(), "c");
}

#[test]
fn classify_works_on_plain_evidence() {
    assert_eq!(TypeDetector::classify(&bare_evidence(&[])), "unknown");
    assert_eq!(TypeDetector::classify(&bare_evidence(&["Cargo.toml"])), "rust");
    let mut ev = bare_evidence(&["package.json", "tsconfig.json"]);
    assert_eq!(TypeDetector::classify(&ev), "typescript");
    ev.package = Some(NodeManifest {
        dependencies: vec!["react".to_string()],
        dev_dependencies: vec![],
        typescript: true,
    });
    assert_eq!(TypeDetector::classify(&ev), "react_ts");
    assert!(StackRule::React.applies_to(&ev));
    assert!(!StackRule::Vue.applies_to(&ev));
}

#[test]
fn gather_reports_what_the_listing_holds() {
    let entries = vec![
        text_file("requirements.txt", "FastAPI"),
        text_file("pubspec.yaml", "Flutter"),
        text_file("package.json", r#"{"dependencies":{"b":"1","a":"2"},"devDependencies":{"typescript":"5"}}"#),
        text_file("composer.json", r#"{"require":{"php":"8"}}"#),
        dir("config", vec![file("routes.rb")]),
        file("x.tar.gz"),
        file("Makefile"),
    ];
    let ev = TypeDetector::gather(&entries);
    assert_eq!(ev.names.len(), 7);
    assert_eq!(ev.names[0], "requirements.txt");
    assert_eq!(ev.extensions, vec!["txt", "yaml", "json", "json", "gz"]);
    assert!(ev.rails_routes);
    assert_eq!(ev.requirements, Some("fastapi".to_string()));
    assert_eq!(ev.pubspec, Some("Flutter".to_string()));
    assert_eq!(ev.pyproject, None);
    let package = ev.package.expect("a parsed manifest");
    let mut deps = package.dependencies.clone();
    deps.sort();
    assert_eq!(deps, vec!["a", "b"]);
    assert_eq!(package.dev_dependencies, vec!["typescript"]);
    assert!(package.typescript);
    assert_eq!(ev.composer, Some(vec!["php".to_string()]));
}

#[test]
fn manifest_readers_reject_what_is_not_json() {
    assert!(NodeManifest::read(None).is_none());
    assert!(NodeManifest::read(Some(&"not json".to_string())).is_none());
    assert!(NodeManifest::read(Some(&"".to_string())).is_none());
    let ok = NodeManifest::read(Some(&"{}".to_string())).expect("valid JSON");
    assert!(ok.dependencies.is_empty() && ok.dev_dependencies.is_empty() && !ok.typescript);
    assert_eq!(read_composer_require(Some(&"{".to_string())), None);
    assert_eq!(read_composer_require(Some(&"{}".to_string())), Some(vec![]));
    assert_eq!(read_composer_require(None), None);
}

#[test]
fn manifest_document_is_read_section_by_section() {
    let doc = serde_json::from_str::<serde_json::Value>(
        r#"{"dependencies":{"x":"1"},"devDependencies":{"typescript":null}}"#,
    )
    .unwrap();
    let manifest = NodeManifest::from_document(&doc);
    assert_eq!(manifest.dependencies, vec!["x"]);
    assert_eq!(manifest.dev_dependencies, vec!["typescript"]);
    assert!(!manifest.typescript);
}

#[test]
fn snapshot_requirements() {
    for name in ["pubspec.yaml", "requirements.txt", "pyproject.toml", "pom.xml", "package.json", "composer.json"] {
        assert!(TypeDetector::reads_content(name));
    }
    assert!(!TypeDetector::reads_content("Cargo.toml"));
    assert_eq!(TypeDetector::listing_depth("src"), 2);
    assert_eq!(TypeDetector::listing_depth("config"), 1);
    assert_eq!(TypeDetector::listing_depth("node_modules"), 0);
}
