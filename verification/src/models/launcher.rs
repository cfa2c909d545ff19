//! A launcher: an editor or command that opens a project.

use vstd::prelude::*;
use crate::text::opt_text;
use crate::text::copy_opt;

verus! {

/// An application or command template that a project can be opened with.
#[derive(Debug)]
pub struct Launcher {
    pub id: String,
    pub name: String,
    pub path: String,
    pub command: Option<String>,
    pub is_command: bool,
    pub icon_path: Option<String>,
    pub shortcut: Option<String>,
}

/// The mathematical content of a [`Launcher`].
pub struct LauncherView {
    pub id: Seq<char>,
    pub name: Seq<char>,
    pub path: Seq<char>,
    pub command: Option<Seq<char>>,
    pub is_command: bool,
    pub icon_path: Option<Seq<char>>,
    pub shortcut: Option<Seq<char>>,
}

impl View for Launcher {
    type V = LauncherView;

    open spec fn view(&self) -> LauncherView {
        LauncherView {
            id: self.id@,
            name: self.name@,
            path: self.path@,
            command: opt_text(self.command),
            is_command: self.is_command,
            icon_path: opt_text(self.icon_path),
            shortcut: opt_text(self.shortcut),
        }
    }
}

/// The views of a list of launchers, in order.
pub open spec fn launchers_view(launchers: Seq<Launcher>) -> Seq<LauncherView> {
    launchers.map_values(|l: Launcher| l@)
}

impl Clone for Launcher {
    fn clone(&self) -> (r: Self)
        ensures
            r == *self,
    {
        Launcher {
            id: self.id.clone(),
            name: self.name.clone(),
            path: self.path.clone(),
            command: copy_opt(&self.command),
            is_command: self.is_command,
            icon_path: copy_opt(&self.icon_path),
            shortcut: copy_opt(&self.shortcut),
        }
    }
}

impl Launcher {
    /// An application launcher: opens projects with the program at `path`,
    /// has no command template, no icon and no shortcut.
    pub fn new(id: String, name: String, path: String) -> (r: Self)
        ensures
            r@ == (LauncherView {
                id: id@,
                name: name@,
                path: path@,
                command: None,
                is_command: false,
                icon_path: None,
                shortcut: None,
            }),
    {
        Self { id, name, path, command: None, is_command: false, icon_path: None, shortcut: None }
    }
}

/// A copy of a list of launchers.
pub fn copy_launchers(launchers: &Vec<Launcher>) -> (r: Vec<Launcher>)
    ensures
        r@ == launchers@,
{
    let mut out: Vec<Launcher> = Vec::new();
    let mut i: usize = 0;
    while i < launchers.len()
        invariant
            i <= launchers.len(),
            out@ == launchers@.subrange(0, i as int),
        decreases launchers.len() - i,
    {
        out.push(launchers[i].clone());
        i += 1;
    }
    assert(launchers@.subrange(0, launchers.len() as int) == launchers@);
    out
}

} // verus!
