//! Opening a project with a launcher.
//!
//! The service decides what is to be run; running it is the caller's.

use vstd::prelude::*;
use crate::models::launcher::Launcher;
use crate::models::launcher::LauncherView;
use crate::paths::file_name_of;
use crate::paths::path_file_name;
use crate::services::platform::Platform;
use crate::text::first_word;
use crate::text::first_word_of;
use crate::text::lowercase;
use crate::text::opt_text;
use crate::text::replace_all;
use crate::text::replace_text;
use crate::text::same_text;
use crate::text::strip_prefix_text;
use crate::text::strip_prefixes;
use crate::text::texts;
use crate::text::to_lowercase;
use crate::text::trim_text;
use crate::text::trimmed;

verus! {

/// The placeholder that a command template holds in place of the project
/// path.
pub const PROJECT_PLACEHOLDER: &'static str = "{project}";

/// What opening a project comes to.
#[derive(Debug)]
pub enum LaunchPlan {
    /// Nothing to run: the launcher is in command mode and has no command.
    Nothing,
    /// Run a command line through the system's shell.
    Command { line: String },
    /// Open the project with an application.
    Open { app_path: String, project_path: String },
}

/// The mathematical content of a [`LaunchPlan`].
pub enum LaunchPlanView {
    Nothing,
    Command { line: Seq<char> },
    Open { app_path: Seq<char>, project_path: Seq<char> },
}

impl View for LaunchPlan {
    type V = LaunchPlanView;

    open spec fn view(&self) -> LaunchPlanView {
        match self {
            LaunchPlan::Nothing => LaunchPlanView::Nothing,
            LaunchPlan::Command { line } => LaunchPlanView::Command { line: line@ },
            LaunchPlan::Open { app_path, project_path } => LaunchPlanView::Open {
                app_path: app_path@,
                project_path: project_path@,
            },
        }
    }
}

/// What a launcher is to run for a project. In command mode, the command
/// template with every placeholder replaced by the project path; otherwise
/// the launcher's application on the project path.
pub open spec fn planned(launcher: LauncherView, project_path: Seq<char>) -> LaunchPlanView {
    if launcher.is_command {
        match launcher.command {
            Some(template) => LaunchPlanView::Command {
                line: replace_all(template, PROJECT_PLACEHOLDER@, project_path),
            },
            None => LaunchPlanView::Nothing,
        }
    } else {
        LaunchPlanView::Open { app_path: launcher.path, project_path }
    }
}

/// A process to start.
#[derive(Debug)]
pub struct Invocation {
    /// The program to run.
    pub program: String,
    /// Its arguments, one by one.
    pub args: Vec<String>,
    /// On Windows, an argument string handed over as it is, unquoted.
    pub raw_args: Option<String>,
    /// On Windows, whether the process starts without a console window.
    pub hide_window: bool,
}

/// The mathematical content of an [`Invocation`].
pub struct InvocationView {
    pub program: Seq<char>,
    pub args: Seq<Seq<char>>,
    pub raw_args: Option<Seq<char>>,
    pub hide_window: bool,
}

impl View for Invocation {
    type V = InvocationView;

    open spec fn view(&self) -> InvocationView {
        InvocationView {
            program: self.program@,
            args: texts(self.args@),
            raw_args: opt_text(self.raw_args),
            hide_window: self.hide_window,
        }
    }
}

/// The view of an optional invocation.
pub open spec fn opt_invocation(invocation: Option<Invocation>) -> Option<InvocationView> {
    match invocation {
        Some(i) => Some(i@),
        None => None,
    }
}

/// Whether a file name, in lowercase, is that of Windows Terminal, which
/// takes the directory to open after `-d`.
pub open spec fn is_windows_terminal(lowered_name: Seq<char>) -> bool {
    lowered_name == "wt.exe"@ || lowered_name == "windowsterminal.exe"@
}

/// How an application is started on a project, given the lowercase form
/// of its file name. On macOS through `open -a`; on Windows and Linux the
/// application itself with the project path as its argument, after `-d`
/// for Windows Terminal.
pub open spec fn app_invocation(
    platform: Platform,
    app_path: Seq<char>,
    lowered_name: Seq<char>,
    project_path: Seq<char>,
) -> InvocationView {
    match platform {
        Platform::MacOs => InvocationView {
            program: "open"@,
            args: seq!["-a"@, app_path, project_path],
            raw_args: None,
            hide_window: false,
        },
        Platform::Windows => InvocationView {
            program: app_path,
            args: if is_windows_terminal(lowered_name) {
                seq!["-d"@, project_path]
            } else {
                seq![project_path]
            },
            raw_args: None,
            hide_window: false,
        },
        Platform::Linux => InvocationView {
            program: app_path,
            args: seq![project_path],
            raw_args: None,
            hide_window: false,
        },
    }
}

/// The file name of an application: the final component of its path, or
/// the empty text where the path ends in no name.
pub open spec fn app_file_name(app_path: Seq<char>) -> Seq<char> {
    match path_file_name(app_path) {
        Some(name) => name,
        None => Seq::empty(),
    }
}

/// How an application is started on a project.
pub open spec fn app_start(
    platform: Platform,
    app_path: Seq<char>,
    project_path: Seq<char>,
) -> InvocationView {
    app_invocation(platform, app_path, lowercase(app_file_name(app_path)), project_path)
}

/// How a command line is run. On Windows its first word is the program and
/// the rest of the line, trimmed, goes to it unquoted, without a console
/// window; a line without a word runs nothing. Elsewhere the line goes to
/// `sh -c`.
pub open spec fn command_invocation(platform: Platform, line: Seq<char>) -> Option<
    InvocationView,
> {
    match platform {
        Platform::Windows => match first_word(line) {
            Some(program) => Some(
                InvocationView {
                    program,
                    args: Seq::empty(),
                    raw_args: Some(trimmed(strip_prefixes(line, program))),
                    hide_window: true,
                },
            ),
            None => None,
        },
        _ => Some(
            InvocationView {
                program: "sh"@,
                args: seq!["-c"@, line],
                raw_args: None,
                hide_window: false,
            },
        ),
    }
}

/// Opens projects with launchers.
pub struct LauncherService;

impl LauncherService {
    /// What the launcher is to run to open the project.
    pub fn launch(launcher: &Launcher, project_path: &str) -> (r: LaunchPlan)
        ensures
            r@ == planned(launcher@, project_path@),
    {
        if launcher.is_command {
            match &launcher.command {
                Some(template) => {
                    proof {
                        reveal_strlit("{project}");
                    }
                    LaunchPlan::Command {
                        line: replace_text(template.as_str(), PROJECT_PLACEHOLDER, project_path),
                    }
                },
                None => LaunchPlan::Nothing,
            }
        } else {
            LaunchPlan::Open {
                app_path: launcher.path.clone(),
                project_path: project_path.to_string(),
            }
        }
    }

    /// How an application with the given file name is started on a
    /// project.
    pub fn open_with_app_named(
        platform: Platform,
        app_path: &str,
        app_file_name: &str,
        project_path: &str,
    ) -> (r: Invocation)
        ensures
            r@ == app_invocation(platform, app_path@, lowercase(app_file_name@), project_path@),
    {
        let lowered = to_lowercase(app_file_name);
        Self::open_with_app_lowered(platform, app_path, lowered.as_str(), project_path)
    }

    /// How an application is started on a project, given the lowercase
    /// form of its file name.
    pub fn open_with_app_lowered(
        platform: Platform,
        app_path: &str,
        lowered_name: &str,
        project_path: &str,
    ) -> (r: Invocation)
        ensures
            r@ == app_invocation(platform, app_path@, lowered_name@, project_path@),
    {
        let mut args: Vec<String> = Vec::new();
        let program = match platform {
            Platform::MacOs => {
                args.push("-a".to_string());
                args.push(app_path.to_string());
                args.push(project_path.to_string());
                assert(texts(args@) =~= seq!["-a"@, app_path@, project_path@]);
                "open".to_string()
            },
            Platform::Windows => {
                if same_text(lowered_name, "wt.exe") || same_text(
                    lowered_name,
                    "windowsterminal.exe",
                ) {
                    args.push("-d".to_string());
                    args.push(project_path.to_string());
                    assert(texts(args@) =~= seq!["-d"@, project_path@]);
                } else {
                    args.push(project_path.to_string());
                    assert(texts(args@) =~= seq![project_path@]);
                }
                app_path.to_string()
            },
            Platform::Linux => {
                args.push(project_path.to_string());
                assert(texts(args@) =~= seq![project_path@]);
                app_path.to_string()
            },
        };
        Invocation { program, args, raw_args: None, hide_window: false }
    }

    /// How an application is started on a project. The application's file
    /// name is the final component of its path, or empty where the path
    /// has none.
    pub fn open_with_app(platform: Platform, app_path: &str, project_path: &str) -> (r: Invocation)
        ensures
            r@ == app_start(platform, app_path@, project_path@),
    {
        let name = match file_name_of(app_path) {
            Some(name) => name,
            None => String::new(),
        };
        Self::open_with_app_named(platform, app_path, name.as_str(), project_path)
    }

    /// How a command line is run.
    pub fn execute_command(platform: Platform, line: &str) -> (r: Option<Invocation>)
        ensures
            opt_invocation(r) == command_invocation(platform, line@),
    {
        match platform {
            Platform::Windows => match first_word_of(line) {
                Some(program) => {
                    let rest = strip_prefix_text(line, program.as_str());
                    let raw = trim_text(rest.as_str());
                    let args: Vec<String> = Vec::new();
                    assert(texts(args@) =~= Seq::<Seq<char>>::empty());
                    Some(Invocation { program, args, raw_args: Some(raw), hide_window: true })
                },
                None => None,
            },
            _ => {
                let mut args: Vec<String> = Vec::new();
                args.push("-c".to_string());
                args.push(line.to_string());
                assert(texts(args@) =~= seq!["-c"@, line@]);
                Some(
                    Invocation {
                        program: "sh".to_string(),
                        args,
                        raw_args: None,
                        hide_window: false,
                    },
                )
            },
        }
    }

    /// The process to start for a plan, if it asks for one.
    pub fn invocation(platform: Platform, plan: &LaunchPlan) -> (r: Option<Invocation>)
        ensures
            match plan@ {
                LaunchPlanView::Nothing => r is None,
                LaunchPlanView::Command { line } => opt_invocation(r) == command_invocation(
                    platform,
                    line,
                ),
                LaunchPlanView::Open { app_path, project_path } => opt_invocation(r) == Some(
                    app_start(platform, app_path, project_path),
                ),
            },
    {
        match plan {
            LaunchPlan::Nothing => None,
            LaunchPlan::Command { line } => Self::execute_command(platform, line.as_str()),
            LaunchPlan::Open { app_path, project_path } => Some(
                Self::open_with_app(platform, app_path.as_str(), project_path.as_str()),
            ),
        }
    }
}

} // verus!
