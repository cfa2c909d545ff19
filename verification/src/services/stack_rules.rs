//! The classification rules and their order of precedence.
//!
//! Each [`StackRule`] pairs a predicate over the [`Evidence`] with a tag.
//! [`precedence`] lists the rules from most to least specific; the first
//! rule in that order whose predicate holds decides the tag.

use vstd::prelude::*;
use crate::text::occurs_in;
use crate::text::opt_text;
use crate::text::list_contains;
use crate::text::contains_text;
use crate::services::type_detector::Evidence;
use crate::services::type_detector::EvidenceView;

verus! {

/// Whether an optional text holds `word` somewhere.
pub open spec fn mentions(text: Option<Seq<char>>, word: Seq<char>) -> bool {
    text matches Some(t) && occurs_in(word, t)
}

impl EvidenceView {
    /// An entry with this name lies directly under the project root.
    pub open spec fn has(self, name: Seq<char>) -> bool {
        self.names.contains(name)
    }

    /// Some entry under the project root carries this extension.
    pub open spec fn has_ext(self, ext: Seq<char>) -> bool {
        self.extensions.contains(ext)
    }

    /// A `package.json` is present and was read and parsed.
    pub open spec fn node(self) -> bool {
        self.has("package.json"@) && self.package is Some
    }

    /// The package manifest lists `name` under `dependencies`.
    pub open spec fn depends_on(self, name: Seq<char>) -> bool {
        self.package matches Some(m) && m.dependencies.contains(name)
    }

    /// The package manifest lists `name` under `devDependencies`.
    pub open spec fn dev_depends_on(self, name: Seq<char>) -> bool {
        self.package matches Some(m) && m.dev_dependencies.contains(name)
    }

    /// The package manifest lists `name` under either dependency section.
    pub open spec fn uses(self, name: Seq<char>) -> bool {
        self.depends_on(name) || self.dev_depends_on(name)
    }

    /// The package manifest declares TypeScript.
    pub open spec fn typescript(self) -> bool {
        self.package matches Some(m) && m.typescript
    }

    /// The Composer manifest lists `name` under `require`.
    pub open spec fn composer_requires(self, name: Seq<char>) -> bool {
        self.composer matches Some(keys) && keys.contains(name)
    }
}

/// Whether an optional text holds `word` somewhere.
pub fn text_mentions(text: &Option<String>, word: &str) -> (r: bool)
    ensures
        r == mentions(opt_text(*text), word@),
{
    match text {
        Some(t) => contains_text(t.as_str(), word),
        None => false,
    }
}

impl Evidence {
    /// Whether an entry with this name lies directly under the project root.
    pub fn has(&self, name: &str) -> (r: bool)
        ensures
            r == self@.has(name@),
    {
        list_contains(&self.names, name)
    }

    /// Whether some entry under the project root carries this extension.
    pub fn has_ext(&self, ext: &str) -> (r: bool)
        ensures
            r == self@.has_ext(ext@),
    {
        list_contains(&self.extensions, ext)
    }

    /// Whether a `package.json` is present and was read and parsed.
    pub fn node(&self) -> (r: bool)
        ensures
            r == self@.node(),
    {
        self.has("package.json") && self.package.is_some()
    }

    /// Whether the package manifest lists `name` under `dependencies`.
    pub fn depends_on(&self, name: &str) -> (r: bool)
        ensures
            r == self@.depends_on(name@),
    {
        match &self.package {
            Some(m) => list_contains(&m.dependencies, name),
            None => false,
        }
    }

    /// Whether the package manifest lists `name` under `devDependencies`.
    pub fn dev_depends_on(&self, name: &str) -> (r: bool)
        ensures
            r == self@.dev_depends_on(name@),
    {
        match &self.package {
            Some(m) => list_contains(&m.dev_dependencies, name),
            None => false,
        }
    }

    /// Whether the package manifest lists `name` under either dependency
    /// section.
    pub fn uses(&self, name: &str) -> (r: bool)
        ensures
            r == self@.uses(name@),
    {
        self.depends_on(name) || self.dev_depends_on(name)
    }

    /// Whether the package manifest declares TypeScript.
    pub fn typescript(&self) -> (r: bool)
        ensures
            r == self@.typescript(),
    {
        match &self.package {
            Some(m) => m.typescript,
            None => false,
        }
    }

    /// Whether the Composer manifest lists `name` under `require`.
    pub fn composer_requires(&self, name: &str) -> (r: bool)
        ensures
            r == self@.composer_requires(name@),
    {
        match &self.composer {
            Some(keys) => list_contains(keys, name),
            None => false,
        }
    }
}

/// One classification rule. The variants are declared in order of
/// precedence.
#[derive(Debug, Clone, Copy, PartialEq, Eq, Structural)]
pub enum StackRule {
    /// A desktop-shell configuration or its source directory.
    Tauri,
    /// A Cargo manifest.
    Rust,
    /// A Deno configuration.
    Deno,
    /// A Bun lockfile.
    Bun,
    /// A pubspec that pulls in the Flutter SDK.
    Flutter,
    /// Any other pubspec.
    Dart,
    /// An Xcode project or workspace.
    Xcode,
    /// An `app` module beside a Gradle wrapper directory.
    Android,
    /// Unity's asset and settings directories.
    Unity,
    /// An Unreal project file.
    Unreal,
    /// A Godot project file.
    Godot,
    /// Nuxt, by configuration file or dependency.
    Nuxt,
    /// Next.js, by dependency.
    NextJs,
    /// Remix, by dependency.
    Remix,
    /// Astro, by configuration file or dependency.
    Astro,
    /// Svelte or SvelteKit, by configuration file or dependency.
    Svelte,
    /// Qwik, by dependency.
    Qwik,
    /// SolidJS, by dependency.
    SolidJs,
    /// Angular, by workspace file or production dependency.
    Angular,
    /// NestJS, by production dependency.
    Nest,
    /// Vue, by configuration file or production dependency.
    Vue,
    /// React together with a declared TypeScript.
    ReactTs,
    /// React, by production dependency.
    React,
    /// Electron, by dependency.
    Electron,
    /// Hexo, by production dependency.
    Hexo,
    /// Vite as the only signal, by development dependency.
    Vite,
    /// Any other readable package manifest.
    JavaScript,
    /// A TypeScript configuration without a readable package manifest.
    TypeScript,
    /// A requirements file that names FastAPI.
    RequirementsFastApi,
    /// A requirements file that names Django.
    RequirementsDjango,
    /// A requirements file that names Flask.
    RequirementsFlask,
    /// Any other requirements file.
    Requirements,
    /// A pyproject that names FastAPI.
    PyprojectFastApi,
    /// A pyproject that names Django.
    PyprojectDjango,
    /// A pyproject that names Flask.
    PyprojectFlask,
    /// Any other pyproject.
    Pyproject,
    /// Django's management script.
    ManagePy,
    /// A setup script or a Pipfile.
    PythonSetup,
    /// A Go module file.
    Go,
    /// A Gemfile beside Rails routes.
    Rails,
    /// Any other Gemfile.
    Ruby,
    /// A readable Composer manifest that requires Laravel or sits beside `artisan`.
    Laravel,
    /// Any other Composer manifest.
    Php,
    /// A .NET project or solution file.
    Dotnet,
    /// A Maven descriptor that names Spring.
    Spring,
    /// Any other Maven descriptor.
    Maven,
    /// A Gradle build with Kotlin sources and no `app` module.
    Kotlin,
    /// Any other Gradle build.
    Gradle,
    /// An sbt build.
    Scala,
    /// A Mix project file.
    Elixir,
    /// A Cabal package or a Stack configuration.
    Haskell,
    /// A Zig build script.
    Zig,
    /// A CMake build with C++ sources.
    CMakeCpp,
    /// A CMake build with C sources only.
    CMakeC,
    /// A CMake build with no sources found.
    CMake,
    /// A Visual Studio C++ project.
    VisualCpp,
    /// A Lua entry script or language-server configuration.
    Lua,
    /// A notebook.
    Jupyter,
    /// A Dockerfile or a Compose file.
    Docker,
}

impl StackRule {
    /// Whether the rule's predicate holds of the evidence.
    pub open spec fn applies(self, ev: EvidenceView) -> bool {
        match self {
            StackRule::Tauri => ev.has("tauri.conf.json"@) || ev.has("src-tauri"@),
            StackRule::Rust => ev.has("Cargo.toml"@),
            StackRule::Deno => ev.has("deno.json"@) || ev.has("deno.jsonc"@),
            StackRule::Bun => ev.has("bun.lockb"@),
            StackRule::Flutter => ev.has("pubspec.yaml"@)
                && mentions(ev.pubspec, "flutter:"@)
                && mentions(ev.pubspec, "sdk: flutter"@),
            StackRule::Dart => ev.has("pubspec.yaml"@),
            StackRule::Xcode => ev.has_ext("xcodeproj"@) || ev.has_ext("xcworkspace"@),
            StackRule::Android => ev.has("app"@) && ev.has("gradle"@),
            StackRule::Unity => ev.has("Assets"@) && ev.has("ProjectSettings"@),
            StackRule::Unreal => ev.has_ext("uproject"@),
            StackRule::Godot => ev.has("project.godot"@),
            StackRule::Nuxt => ev.node()
                && (ev.has("nuxt.config.js"@) || ev.has("nuxt.config.ts"@) || ev.uses("nuxt"@)),
            StackRule::NextJs => ev.node() && ev.uses("next"@),
            StackRule::Remix => ev.node() && ev.uses("@remix-run/react"@),
            StackRule::Astro => ev.node()
                && (ev.has("astro.config.mjs"@)
                    || ev.has("astro.config.ts"@)
                    || ev.has("astro.config.js"@)
                    || ev.uses("astro"@)),
            StackRule::Svelte => ev.node()
                && (ev.has("svelte.config.js"@)
                    || ev.has("svelte.config.ts"@)
                    || ev.uses("svelte"@)),
            StackRule::Qwik => ev.node() && ev.uses("@builder.io/qwik"@),
            StackRule::SolidJs => ev.node() && ev.uses("solid-js"@),
            StackRule::Angular => ev.node()
                && (ev.has("angular.json"@) || ev.depends_on("@angular/core"@)),
            StackRule::Nest => ev.node() && ev.depends_on("@nestjs/core"@),
            StackRule::Vue => ev.node() && (ev.has("vue.config.js"@) || ev.depends_on("vue"@)),
            StackRule::ReactTs => ev.node() && ev.depends_on("react"@) && ev.typescript(),
            StackRule::React => ev.node() && ev.depends_on("react"@),
            StackRule::Electron => ev.node() && ev.uses("electron"@),
            StackRule::Hexo => ev.node() && ev.depends_on("hexo"@),
            StackRule::Vite => ev.node() && ev.dev_depends_on("vite"@),
            StackRule::JavaScript => ev.node(),
            StackRule::TypeScript => ev.has("tsconfig.json"@),
            StackRule::RequirementsFastApi => ev.has("requirements.txt"@)
                && mentions(ev.requirements, "fastapi"@),
            StackRule::RequirementsDjango => ev.has("requirements.txt"@)
                && mentions(ev.requirements, "django"@),
            StackRule::RequirementsFlask => ev.has("requirements.txt"@)
                && mentions(ev.requirements, "flask"@),
            StackRule::Requirements => ev.has("requirements.txt"@),
            StackRule::PyprojectFastApi => ev.has("pyproject.toml"@)
                && mentions(ev.pyproject, "fastapi"@),
            StackRule::PyprojectDjango => ev.has("pyproject.toml"@)
                && mentions(ev.pyproject, "django"@),
            StackRule::PyprojectFlask => ev.has("pyproject.toml"@)
                && mentions(ev.pyproject, "flask"@),
            StackRule::Pyproject => ev.has("pyproject.toml"@),
            StackRule::ManagePy => ev.has("manage.py"@),
            StackRule::PythonSetup => ev.has("setup.py"@) || ev.has("Pipfile"@),
            StackRule::Go => ev.has("go.mod"@),
            StackRule::Rails => ev.has("Gemfile"@) && ev.rails_routes,
            StackRule::Ruby => ev.has("Gemfile"@),
            StackRule::Laravel => ev.has("composer.json"@)
                && ev.composer is Some
                && (ev.composer_requires("laravel/framework"@) || ev.has("artisan"@)),
            StackRule::Php => ev.has("composer.json"@),
            StackRule::Dotnet => ev.has_ext("csproj"@)
                || ev.has_ext("sln"@)
                || ev.has_ext("fsproj"@),
            StackRule::Spring => ev.has("pom.xml"@)
                && (mentions(ev.pom, "spring-boot"@) || mentions(ev.pom, "springframework"@)),
            StackRule::Maven => ev.has("pom.xml"@),
            StackRule::Kotlin => (ev.has("build.gradle"@) || ev.has("build.gradle.kts"@))
                && ev.kotlin_source
                && !ev.has("app"@),
            StackRule::Gradle => ev.has("build.gradle"@) || ev.has("build.gradle.kts"@),
            StackRule::Scala => ev.has("build.sbt"@),
            StackRule::Elixir => ev.has("mix.exs"@),
            StackRule::Haskell => ev.has_ext("cabal"@) || ev.has("stack.yaml"@),
            StackRule::Zig => ev.has("build.zig"@),
            StackRule::CMakeCpp => ev.has("CMakeLists.txt"@) && ev.cpp_source,
            StackRule::CMakeC => ev.has("CMakeLists.txt"@) && ev.c_source,
            StackRule::CMake => ev.has("CMakeLists.txt"@),
            StackRule::VisualCpp => ev.has_ext("vcxproj"@),
            StackRule::Lua => ev.has("init.lua"@) || ev.has("main.lua"@) || ev.has(".luarc.json"@),
            StackRule::Jupyter => ev.has_ext("ipynb"@),
            StackRule::Docker => ev.has("Dockerfile"@)
                || ev.has("docker-compose.yml"@)
                || ev.has("docker-compose.yaml"@),
        }
    }

    /// The tag the rule assigns.
    pub open spec fn label(self) -> Seq<char> {
        match self {
            StackRule::Tauri => "tauri"@,
            StackRule::Rust => "rust"@,
            StackRule::Deno => "deno"@,
            StackRule::Bun => "bun"@,
            StackRule::Flutter => "flutter"@,
            StackRule::Dart => "dart"@,
            StackRule::Xcode => "xcode"@,
            StackRule::Android => "android"@,
            StackRule::Unity => "unity"@,
            StackRule::Unreal => "unreal"@,
            StackRule::Godot => "godot"@,
            StackRule::Nuxt => "nuxt"@,
            StackRule::NextJs => "nextjs"@,
            StackRule::Remix => "remix"@,
            StackRule::Astro => "astro"@,
            StackRule::Svelte => "svelte"@,
            StackRule::Qwik => "qwik"@,
            StackRule::SolidJs => "solidjs"@,
            StackRule::Angular => "angular"@,
            StackRule::Nest => "nest"@,
            StackRule::Vue => "vue"@,
            StackRule::ReactTs => "react_ts"@,
            StackRule::React => "react"@,
            StackRule::Electron => "electron"@,
            StackRule::Hexo => "hexo"@,
            StackRule::Vite => "vite"@,
            StackRule::JavaScript => "javascript"@,
            StackRule::TypeScript => "typescript"@,
            StackRule::RequirementsFastApi => "fastapi"@,
            StackRule::RequirementsDjango => "django"@,
            StackRule::RequirementsFlask => "flask"@,
            StackRule::Requirements => "python"@,
            StackRule::PyprojectFastApi => "fastapi"@,
            StackRule::PyprojectDjango => "django"@,
            StackRule::PyprojectFlask => "flask"@,
            StackRule::Pyproject => "python"@,
            StackRule::ManagePy => "django"@,
            StackRule::PythonSetup => "python"@,
            StackRule::Go => "go"@,
            StackRule::Rails => "rails"@,
            StackRule::Ruby => "ruby"@,
            StackRule::Laravel => "laravel"@,
            StackRule::Php => "php"@,
            StackRule::Dotnet => "dotnet"@,
            StackRule::Spring => "spring"@,
            StackRule::Maven => "maven"@,
            StackRule::Kotlin => "kotlin"@,
            StackRule::Gradle => "gradle"@,
            StackRule::Scala => "scala"@,
            StackRule::Elixir => "elixir"@,
            StackRule::Haskell => "haskell"@,
            StackRule::Zig => "zig"@,
            StackRule::CMakeCpp => "cpp"@,
            StackRule::CMakeC => "c"@,
            StackRule::CMake => "cpp"@,
            StackRule::VisualCpp => "cpp"@,
            StackRule::Lua => "lua"@,
            StackRule::Jupyter => "jupyter"@,
            StackRule::Docker => "docker"@,
        }
    }

    /// Whether the rule's predicate holds of the evidence.
    pub fn applies_to(&self, ev: &Evidence) -> (r: bool)
        ensures
            r == self.applies(ev@),
    {
        match self {
            StackRule::Tauri => ev.has("tauri.conf.json") || ev.has("src-tauri"),
            StackRule::Rust => ev.has("Cargo.toml"),
            StackRule::Deno => ev.has("deno.json") || ev.has("deno.jsonc"),
            StackRule::Bun => ev.has("bun.lockb"),
            StackRule::Flutter => ev.has("pubspec.yaml")
                && text_mentions(&ev.pubspec, "flutter:")
                && text_mentions(&ev.pubspec, "sdk: flutter"),
            StackRule::Dart => ev.has("pubspec.yaml"),
            StackRule::Xcode => ev.has_ext("xcodeproj") || ev.has_ext("xcworkspace"),
            StackRule::Android => ev.has("app") && ev.has("gradle"),
            StackRule::Unity => ev.has("Assets") && ev.has("ProjectSettings"),
            StackRule::Unreal => ev.has_ext("uproject"),
            StackRule::Godot => ev.has("project.godot"),
            StackRule::Nuxt => ev.node()
                && (ev.has("nuxt.config.js") || ev.has("nuxt.config.ts") || ev.uses("nuxt")),
            StackRule::NextJs => ev.node() && ev.uses("next"),
            StackRule::Remix => ev.node() && ev.uses("@remix-run/react"),
            StackRule::Astro => ev.node()
                && (ev.has("astro.config.mjs")
                    || ev.has("astro.config.ts")
                    || ev.has("astro.config.js")
                    || ev.uses("astro")),
            StackRule::Svelte => ev.node()
                && (ev.has("svelte.config.js") || ev.has("svelte.config.ts") || ev.uses("svelte")),
            StackRule::Qwik => ev.node() && ev.uses("@builder.io/qwik"),
            StackRule::SolidJs => ev.node() && ev.uses("solid-js"),
            StackRule::Angular => ev.node()
                && (ev.has("angular.json") || ev.depends_on("@angular/core")),
            StackRule::Nest => ev.node() && ev.depends_on("@nestjs/core"),
            StackRule::Vue => ev.node() && (ev.has("vue.config.js") || ev.depends_on("vue")),
            StackRule::ReactTs => ev.node() && ev.depends_on("react") && ev.typescript(),
            StackRule::React => ev.node() && ev.depends_on("react"),
            StackRule::Electron => ev.node() && ev.uses("electron"),
            StackRule::Hexo => ev.node() && ev.depends_on("hexo"),
            StackRule::Vite => ev.node() && ev.dev_depends_on("vite"),
            StackRule::JavaScript => ev.node(),
            StackRule::TypeScript => ev.has("tsconfig.json"),
            StackRule::RequirementsFastApi => ev.has("requirements.txt")
                && text_mentions(&ev.requirements, "fastapi"),
            StackRule::RequirementsDjango => ev.has("requirements.txt")
                && text_mentions(&ev.requirements, "django"),
            StackRule::RequirementsFlask => ev.has("requirements.txt")
                && text_mentions(&ev.requirements, "flask"),
            StackRule::Requirements => ev.has("requirements.txt"),
            StackRule::PyprojectFastApi => ev.has("pyproject.toml")
                && text_mentions(&ev.pyproject, "fastapi"),
            StackRule::PyprojectDjango => ev.has("pyproject.toml")
                && text_mentions(&ev.pyproject, "django"),
            StackRule::PyprojectFlask => ev.has("pyproject.toml")
                && text_mentions(&ev.pyproject, "flask"),
            StackRule::Pyproject => ev.has("pyproject.toml"),
            StackRule::ManagePy => ev.has("manage.py"),
            StackRule::PythonSetup => ev.has("setup.py") || ev.has("Pipfile"),
            StackRule::Go => ev.has("go.mod"),
            StackRule::Rails => ev.has("Gemfile") && ev.rails_routes,
            StackRule::Ruby => ev.has("Gemfile"),
            StackRule::Laravel => ev.has("composer.json")
                && ev.composer.is_some()
                && (ev.composer_requires("laravel/framework") || ev.has("artisan")),
            StackRule::Php => ev.has("composer.json"),
            StackRule::Dotnet => ev.has_ext("csproj") || ev.has_ext("sln") || ev.has_ext("fsproj"),
            StackRule::Spring => ev.has("pom.xml")
                && (text_mentions(&ev.pom, "spring-boot")
                    || text_mentions(&ev.pom, "springframework")),
            StackRule::Maven => ev.has("pom.xml"),
            StackRule::Kotlin => (ev.has("build.gradle") || ev.has("build.gradle.kts"))
                && ev.kotlin_source
                && !ev.has("app"),
            StackRule::Gradle => ev.has("build.gradle") || ev.has("build.gradle.kts"),
            StackRule::Scala => ev.has("build.sbt"),
            StackRule::Elixir => ev.has("mix.exs"),
            StackRule::Haskell => ev.has_ext("cabal") || ev.has("stack.yaml"),
            StackRule::Zig => ev.has("build.zig"),
            StackRule::CMakeCpp => ev.has("CMakeLists.txt") && ev.cpp_source,
            StackRule::CMakeC => ev.has("CMakeLists.txt") && ev.c_source,
            StackRule::CMake => ev.has("CMakeLists.txt"),
            StackRule::VisualCpp => ev.has_ext("vcxproj"),
            StackRule::Lua => ev.has("init.lua") || ev.has("main.lua") || ev.has(".luarc.json"),
            StackRule::Jupyter => ev.has_ext("ipynb"),
            StackRule::Docker => ev.has("Dockerfile")
                || ev.has("docker-compose.yml")
                || ev.has("docker-compose.yaml"),
        }
    }

    /// The tag the rule assigns.
    pub fn tag(&self) -> (r: &'static str)
        ensures
            r@ == self.label(),
    {
        match self {
            StackRule::Tauri => "tauri",
            StackRule::Rust => "rust",
            StackRule::Deno => "deno",
            StackRule::Bun => "bun",
            StackRule::Flutter => "flutter",
            StackRule::Dart => "dart",
            StackRule::Xcode => "xcode",
            StackRule::Android => "android",
            StackRule::Unity => "unity",
            StackRule::Unreal => "unreal",
            StackRule::Godot => "godot",
            StackRule::Nuxt => "nuxt",
            StackRule::NextJs => "nextjs",
            StackRule::Remix => "remix",
            StackRule::Astro => "astro",
            StackRule::Svelte => "svelte",
            StackRule::Qwik => "qwik",
            StackRule::SolidJs => "solidjs",
            StackRule::Angular => "angular",
            StackRule::Nest => "nest",
            StackRule::Vue => "vue",
            StackRule::ReactTs => "react_ts",
            StackRule::React => "react",
            StackRule::Electron => "electron",
            StackRule::Hexo => "hexo",
            StackRule::Vite => "vite",
            StackRule::JavaScript => "javascript",
            StackRule::TypeScript => "typescript",
            StackRule::RequirementsFastApi => "fastapi",
            StackRule::RequirementsDjango => "django",
            StackRule::RequirementsFlask => "flask",
            StackRule::Requirements => "python",
            StackRule::PyprojectFastApi => "fastapi",
            StackRule::PyprojectDjango => "django",
            StackRule::PyprojectFlask => "flask",
            StackRule::Pyproject => "python",
            StackRule::ManagePy => "django",
            StackRule::PythonSetup => "python",
            StackRule::Go => "go",
            StackRule::Rails => "rails",
            StackRule::Ruby => "ruby",
            StackRule::Laravel => "laravel",
            StackRule::Php => "php",
            StackRule::Dotnet => "dotnet",
            StackRule::Spring => "spring",
            StackRule::Maven => "maven",
            StackRule::Kotlin => "kotlin",
            StackRule::Gradle => "gradle",
            StackRule::Scala => "scala",
            StackRule::Elixir => "elixir",
            StackRule::Haskell => "haskell",
            StackRule::Zig => "zig",
            StackRule::CMakeCpp => "cpp",
            StackRule::CMakeC => "c",
            StackRule::CMake => "cpp",
            StackRule::VisualCpp => "cpp",
            StackRule::Lua => "lua",
            StackRule::Jupyter => "jupyter",
            StackRule::Docker => "docker",
        }
    }
}

/// The rules from most to least specific.
pub open spec fn precedence() -> Seq<StackRule> {
    seq![
        StackRule::Tauri,
        StackRule::Rust,
        StackRule::Deno,
        StackRule::Bun,
        StackRule::Flutter,
        StackRule::Dart,
        StackRule::Xcode,
        StackRule::Android,
        StackRule::Unity,
        StackRule::Unreal,
        StackRule::Godot,
        StackRule::Nuxt,
        StackRule::NextJs,
        StackRule::Remix,
        StackRule::Astro,
        StackRule::Svelte,
        StackRule::Qwik,
        StackRule::SolidJs,
        StackRule::Angular,
        StackRule::Nest,
        StackRule::Vue,
        StackRule::ReactTs,
        StackRule::React,
        StackRule::Electron,
        StackRule::Hexo,
        StackRule::Vite,
        StackRule::JavaScript,
        StackRule::TypeScript,
        StackRule::RequirementsFastApi,
        StackRule::RequirementsDjango,
        StackRule::RequirementsFlask,
        StackRule::Requirements,
        StackRule::PyprojectFastApi,
        StackRule::PyprojectDjango,
        StackRule::PyprojectFlask,
        StackRule::Pyproject,
        StackRule::ManagePy,
        StackRule::PythonSetup,
        StackRule::Go,
        StackRule::Rails,
        StackRule::Ruby,
        StackRule::Laravel,
        StackRule::Php,
        StackRule::Dotnet,
        StackRule::Spring,
        StackRule::Maven,
        StackRule::Kotlin,
        StackRule::Gradle,
        StackRule::Scala,
        StackRule::Elixir,
        StackRule::Haskell,
        StackRule::Zig,
        StackRule::CMakeCpp,
        StackRule::CMakeC,
        StackRule::CMake,
        StackRule::VisualCpp,
        StackRule::Lua,
        StackRule::Jupyter,
        StackRule::Docker,
    ]
}

/// The rules from most to least specific.
pub fn rule_table() -> (r: Vec<StackRule>)
    ensures
        r@ == precedence(),
{
    let table = vec![
        StackRule::Tauri,
        StackRule::Rust,
        StackRule::Deno,
        StackRule::Bun,
        StackRule::Flutter,
        StackRule::Dart,
        StackRule::Xcode,
        StackRule::Android,
        StackRule::Unity,
        StackRule::Unreal,
        StackRule::Godot,
        StackRule::Nuxt,
        StackRule::NextJs,
        StackRule::Remix,
        StackRule::Astro,
        StackRule::Svelte,
        StackRule::Qwik,
        StackRule::SolidJs,
        StackRule::Angular,
        StackRule::Nest,
        StackRule::Vue,
        StackRule::ReactTs,
        StackRule::React,
        StackRule::Electron,
        StackRule::Hexo,
        StackRule::Vite,
        StackRule::JavaScript,
        StackRule::TypeScript,
        StackRule::RequirementsFastApi,
        StackRule::RequirementsDjango,
        StackRule::RequirementsFlask,
        StackRule::Requirements,
        StackRule::PyprojectFastApi,
        StackRule::PyprojectDjango,
        StackRule::PyprojectFlask,
        StackRule::Pyproject,
        StackRule::ManagePy,
        StackRule::PythonSetup,
        StackRule::Go,
        StackRule::Rails,
        StackRule::Ruby,
        StackRule::Laravel,
        StackRule::Php,
        StackRule::Dotnet,
        StackRule::Spring,
        StackRule::Maven,
        StackRule::Kotlin,
        StackRule::Gradle,
        StackRule::Scala,
        StackRule::Elixir,
        StackRule::Haskell,
        StackRule::Zig,
        StackRule::CMakeCpp,
        StackRule::CMakeC,
        StackRule::CMake,
        StackRule::VisualCpp,
        StackRule::Lua,
        StackRule::Jupyter,
        StackRule::Docker,
    ];
    assert(table@ =~= precedence());
    table
}

/// The first rule of a list whose predicate holds of the evidence.
pub open spec fn first_applicable(rules: Seq<StackRule>, ev: EvidenceView) -> Option<StackRule>
    decreases rules.len(),
{
    if rules.len() == 0 {
        None
    } else if rules[0].applies(ev) {
        Some(rules[0])
    } else {
        first_applicable(rules.drop_first(), ev)
    }
}

/// The tag of the evidence: that of the first applicable rule in order of
/// precedence, or `unknown` where no rule applies.
pub open spec fn stack_tag(ev: EvidenceView) -> Seq<char> {
    match first_applicable(precedence(), ev) {
        Some(rule) => rule.label(),
        None => "unknown"@,
    }
}

impl StackRule {
    /// The position of the rule in the order of precedence.
    pub open spec fn rank(self) -> int {
        match self {
            StackRule::Tauri => 0,
            StackRule::Rust => 1,
            StackRule::Deno => 2,
            StackRule::Bun => 3,
            StackRule::Flutter => 4,
            StackRule::Dart => 5,
            StackRule::Xcode => 6,
            StackRule::Android => 7,
            StackRule::Unity => 8,
            StackRule::Unreal => 9,
            StackRule::Godot => 10,
            StackRule::Nuxt => 11,
            StackRule::NextJs => 12,
            StackRule::Remix => 13,
            StackRule::Astro => 14,
            StackRule::Svelte => 15,
            StackRule::Qwik => 16,
            StackRule::SolidJs => 17,
            StackRule::Angular => 18,
            StackRule::Nest => 19,
            StackRule::Vue => 20,
            StackRule::ReactTs => 21,
            StackRule::React => 22,
            StackRule::Electron => 23,
            StackRule::Hexo => 24,
            StackRule::Vite => 25,
            StackRule::JavaScript => 26,
            StackRule::TypeScript => 27,
            StackRule::RequirementsFastApi => 28,
            StackRule::RequirementsDjango => 29,
            StackRule::RequirementsFlask => 30,
            StackRule::Requirements => 31,
            StackRule::PyprojectFastApi => 32,
            StackRule::PyprojectDjango => 33,
            StackRule::PyprojectFlask => 34,
            StackRule::Pyproject => 35,
            StackRule::ManagePy => 36,
            StackRule::PythonSetup => 37,
            StackRule::Go => 38,
            StackRule::Rails => 39,
            StackRule::Ruby => 40,
            StackRule::Laravel => 41,
            StackRule::Php => 42,
            StackRule::Dotnet => 43,
            StackRule::Spring => 44,
            StackRule::Maven => 45,
            StackRule::Kotlin => 46,
            StackRule::Gradle => 47,
            StackRule::Scala => 48,
            StackRule::Elixir => 49,
            StackRule::Haskell => 50,
            StackRule::Zig => 51,
            StackRule::CMakeCpp => 52,
            StackRule::CMakeC => 53,
            StackRule::CMake => 54,
            StackRule::VisualCpp => 55,
            StackRule::Lua => 56,
            StackRule::Jupyter => 57,
            StackRule::Docker => 58,
        }
    }
}

/// `rank` and `precedence` describe the same order: every rule stands in
/// the table once, at its rank.
pub proof fn lemma_rank_is_position()
    ensures
        precedence().len() == 59,
        forall|i: int| 0 <= i < precedence().len() ==> (#[trigger] precedence()[i]).rank() == i,
        forall|rule: StackRule|
            0 <= #[trigger] rule.rank() < precedence().len() && precedence()[rule.rank()] == rule,
{
}

/// First match wins: a rule that applies while no rule listed before it
/// does is the one that decides.
pub proof fn lemma_first_rule_wins(rules: Seq<StackRule>, ev: EvidenceView, i: int)
    requires
        0 <= i < rules.len(),
        rules[i].applies(ev),
        forall|j: int| 0 <= j < i ==> !(#[trigger] rules[j]).applies(ev),
    ensures
        first_applicable(rules, ev) == Some(rules[i]),
    decreases i,
{
    if i > 0 {
        let rest = rules.drop_first();
        assert(rest[i - 1] == rules[i]);
        assert forall|j: int| 0 <= j < i - 1 implies !(#[trigger] rest[j]).applies(ev) by {
            assert(rest[j] == rules[j + 1]);
        }
        assert(!rules[0].applies(ev));
        lemma_first_rule_wins(rest, ev, i - 1);
    }
}

/// The rule that decides applies and is the first in the list to do so;
/// where no rule decides, none in the list applies.
pub proof fn lemma_winner_is_first(rules: Seq<StackRule>, ev: EvidenceView)
    ensures
        match first_applicable(rules, ev) {
            Some(winner) => exists|i: int|
                0 <= i < rules.len() && #[trigger] rules[i] == winner && winner.applies(ev)
                    && forall|j: int| 0 <= j < i ==> !(#[trigger] rules[j]).applies(ev),
            None => forall|j: int| 0 <= j < rules.len() ==> !(#[trigger] rules[j]).applies(ev),
        },
    decreases rules.len(),
{
    if rules.len() == 0 {
    } else if rules[0].applies(ev) {
        assert(rules[0] == rules[0]);
    } else {
        let rest = rules.drop_first();
        lemma_winner_is_first(rest, ev);
        match first_applicable(rest, ev) {
            Some(winner) => {
                let i = choose|i: int|
                    0 <= i < rest.len() && #[trigger] rest[i] == winner && winner.applies(ev)
                        && forall|j: int| 0 <= j < i ==> !(#[trigger] rest[j]).applies(ev);
                assert(rules[i + 1] == winner);
                assert forall|j: int| 0 <= j < i + 1 implies !(#[trigger] rules[j]).applies(
                    ev,
                ) by {
                    if j > 0 {
                        assert(rest[j - 1] == rules[j]);
                    }
                }
            },
            None => {
                assert forall|j: int| 0 <= j < rules.len() implies !(#[trigger] rules[j]).applies(
                    ev,
                ) by {
                    if j > 0 {
                        assert(rest[j - 1] == rules[j]);
                    }
                }
            },
        }
    }
}

/// Classification always ends with a value: the tag is that of a rule that
/// applies, or `unknown` exactly when no rule applies.
pub proof fn lemma_tag_is_total(ev: EvidenceView)
    ensures
        (exists|rule: StackRule| rule.applies(ev) && stack_tag(ev) == rule.label()) || (
        stack_tag(ev) == "unknown"@ && forall|rule: StackRule| !rule.applies(ev)),
{
    lemma_winner_is_first(precedence(), ev);
    lemma_rank_is_position();
    match first_applicable(precedence(), ev) {
        Some(winner) => {
            assert(winner.applies(ev) && stack_tag(ev) == winner.label());
        },
        None => {
            assert forall|rule: StackRule| !rule.applies(ev) by {
                assert(precedence()[rule.rank()] == rule);
            }
        },
    }
}

/// Precedence: a rule that applies keeps every rule of lower precedence from
/// deciding. The rule that decides is the applicable one or one listed
/// before it.
pub proof fn lemma_earlier_rule_shadows_later(
    ev: EvidenceView,
    earlier: StackRule,
    later: StackRule,
)
    requires
        earlier.applies(ev),
        earlier.rank() < later.rank(),
    ensures
        first_applicable(precedence(), ev) matches Some(winner) && winner.rank() <= earlier.rank()
            && winner != later,
{
    lemma_rank_is_position();
    lemma_winner_is_first(precedence(), ev);
    let rules = precedence();
    assert(rules[earlier.rank()] == earlier);
    match first_applicable(rules, ev) {
        Some(winner) => {
            let i = choose|i: int|
                0 <= i < rules.len() && #[trigger] rules[i] == winner && winner.applies(ev)
                    && forall|j: int| 0 <= j < i ==> !(#[trigger] rules[j]).applies(ev);
            assert(rules[i].rank() == i);
            if i > earlier.rank() {
                assert(!rules[earlier.rank()].applies(ev));
            }
        },
        None => {
            assert(!rules[earlier.rank()].applies(ev));
        },
    }
}

/// No rule but the generic one assigns the tag `javascript`.
pub proof fn lemma_generic_node_label_is_unique(rule: StackRule)
    requires
        rule != StackRule::JavaScript,
    ensures
        rule.label() != "javascript"@,
{
    reveal_strlit("android");
    reveal_strlit("angular");
    reveal_strlit("astro");
    reveal_strlit("bun");
    reveal_strlit("c");
    reveal_strlit("cpp");
    reveal_strlit("dart");
    reveal_strlit("deno");
    reveal_strlit("django");
    reveal_strlit("docker");
    reveal_strlit("dotnet");
    reveal_strlit("electron");
    reveal_strlit("elixir");
    reveal_strlit("fastapi");
    reveal_strlit("flask");
    reveal_strlit("flutter");
    reveal_strlit("go");
    reveal_strlit("godot");
    reveal_strlit("gradle");
    reveal_strlit("haskell");
    reveal_strlit("hexo");
    reveal_strlit("javascript");
    reveal_strlit("jupyter");
    reveal_strlit("kotlin");
    reveal_strlit("laravel");
    reveal_strlit("lua");
    reveal_strlit("maven");
    reveal_strlit("nest");
    reveal_strlit("nextjs");
    reveal_strlit("nuxt");
    reveal_strlit("php");
    reveal_strlit("python");
    reveal_strlit("qwik");
    reveal_strlit("rails");
    reveal_strlit("react");
    reveal_strlit("react_ts");
    reveal_strlit("remix");
    reveal_strlit("ruby");
    reveal_strlit("rust");
    reveal_strlit("scala");
    reveal_strlit("solidjs");
    reveal_strlit("spring");
    reveal_strlit("svelte");
    reveal_strlit("tauri");
    reveal_strlit("typescript");
    reveal_strlit("unity");
    reveal_strlit("unreal");
    reveal_strlit("vite");
    reveal_strlit("vue");
    reveal_strlit("xcode");
    reveal_strlit("zig");
    assert(rule.label().len() != 10 || rule.label()[0] != 'j' || rule.label()[1] != 'a');
}

/// A framework beats the generic manifest: where a package manifest was
/// read and a framework's configuration file lies beside it, the tag is not
/// the generic `javascript`.
pub proof fn lemma_framework_config_beats_generic_manifest(ev: EvidenceView)
    requires
        ev.node(),
        ev.has("nuxt.config.js"@) || ev.has("nuxt.config.ts"@) || ev.has("astro.config.mjs"@)
            || ev.has("astro.config.ts"@) || ev.has("astro.config.js"@) || ev.has(
            "svelte.config.js"@,
        ) || ev.has("svelte.config.ts"@) || ev.has("angular.json"@) || ev.has("vue.config.js"@),
    ensures
        stack_tag(ev) != "javascript"@,
{
    let specific = if StackRule::Nuxt.applies(ev) {
        StackRule::Nuxt
    } else if StackRule::Astro.applies(ev) {
        StackRule::Astro
    } else if StackRule::Svelte.applies(ev) {
        StackRule::Svelte
    } else if StackRule::Angular.applies(ev) {
        StackRule::Angular
    } else {
        StackRule::Vue
    };
    assert(specific.applies(ev));
    lemma_earlier_rule_shadows_later(ev, specific, StackRule::JavaScript);
    let winner = first_applicable(precedence(), ev)->0;
    lemma_generic_node_label_is_unique(winner);
}

/// The desktop shell beats the language underneath: a shell configuration
/// decides the tag even beside a Cargo manifest.
pub proof fn lemma_shell_config_beats_native_manifest(ev: EvidenceView)
    requires
        ev.has("tauri.conf.json"@) || ev.has("src-tauri"@),
    ensures
        stack_tag(ev) == "tauri"@,
{
    lemma_first_rule_wins(precedence(), ev, 0);
}

} // verus!
