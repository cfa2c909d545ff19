//! Launcher operations: choosing the launcher for a project and keeping
//! the configured list.

use vstd::prelude::*;
use crate::models::config::Config;
use crate::models::config::ConfigView;
use crate::models::launcher::Launcher;
use crate::models::launcher::LauncherView;
use crate::models::launcher::copy_launchers;
use crate::models::launcher::launchers_view;
use crate::services::launcher_service::LaunchPlan;
use crate::services::launcher_service::LauncherService;
use crate::services::launcher_service::planned;
use crate::text::opt_text;
use crate::text::same_text;

verus! {

/// Why a launcher operation was refused.
#[derive(Debug, Clone, Copy, PartialEq, Eq, Structural)]
pub enum LauncherError {
    /// No configured launcher has the id.
    NotFound,
    /// No launcher is configured at all.
    NoneConfigured,
}

impl LauncherError {
    /// The message shown to the user.
    pub fn message(&self) -> (r: String)
        ensures
            r@ == match *self {
                LauncherError::NotFound => "启动器不存在"@,
                LauncherError::NoneConfigured => "没有配置启动器"@,
            },
    {
        match self {
            LauncherError::NotFound => "启动器不存在".to_string(),
            LauncherError::NoneConfigured => "没有配置启动器".to_string(),
        }
    }
}

/// A configuration with another list of launchers and everything else as
/// it was.
pub open spec fn with_launchers(config: ConfigView, launchers: Seq<LauncherView>) -> ConfigView {
    ConfigView { launchers, ..config }
}

/// The position of the first launcher with the id.
pub open spec fn first_with_id(launchers: Seq<LauncherView>, id: Seq<char>) -> Option<int>
    decreases launchers.len(),
{
    if launchers.len() == 0 {
        None
    } else if launchers[0].id == id {
        Some(0)
    } else {
        match first_with_id(launchers.drop_first(), id) {
            Some(i) => Some(i + 1),
            None => None,
        }
    }
}

/// `first_with_id` finds a launcher exactly when one has the id, and the
/// one it finds is the first.
pub proof fn lemma_first_with_id(launchers: Seq<LauncherView>, id: Seq<char>)
    ensures
        match first_with_id(launchers, id) {
            Some(i) => 0 <= i < launchers.len() && launchers[i].id == id && forall|j: int|
                0 <= j < i ==> (#[trigger] launchers[j]).id != id,
            None => forall|j: int| 0 <= j < launchers.len() ==> (#[trigger] launchers[j]).id != id,
        },
    decreases launchers.len(),
{
    if launchers.len() > 0 && launchers[0].id != id {
        let rest = launchers.drop_first();
        lemma_first_with_id(rest, id);
        match first_with_id(rest, id) {
            Some(i) => {
                assert(rest[i] == launchers[i + 1]);
                assert forall|j: int| 0 <= j < i + 1 implies (#[trigger] launchers[j]).id != id by {
                    if j > 0 {
                        assert(rest[j - 1] == launchers[j]);
                    }
                }
            },
            None => {
                assert forall|j: int| 0 <= j < launchers.len() implies (#[trigger] launchers[j]).id
                    != id by {
                    if j > 0 {
                        assert(rest[j - 1] == launchers[j]);
                    }
                }
            },
        }
    }
}

/// Which launcher opens a project: the first with the requested id, or the
/// first configured one where none is requested.
pub open spec fn chosen_launcher(
    launchers: Seq<LauncherView>,
    launcher_id: Option<Seq<char>>,
) -> Result<int, LauncherError> {
    match launcher_id {
        Some(id) => match first_with_id(launchers, id) {
            Some(i) => Ok(i),
            None => Err(LauncherError::NotFound),
        },
        None => if launchers.len() > 0 {
            Ok(0)
        } else {
            Err(LauncherError::NoneConfigured)
        },
    }
}

/// The position of the first launcher with the id.
pub fn launcher_position(launchers: &Vec<Launcher>, id: &str) -> (r: Option<usize>)
    ensures
        match r {
            Some(i) => first_with_id(launchers_view(launchers@), id@) == Some(i as int) && i
                < launchers.len(),
            None => first_with_id(launchers_view(launchers@), id@) is None,
        },
{
    let ghost views = launchers_view(launchers@);
    let mut i: usize = 0;
    while i < launchers.len()
        invariant
            i <= launchers.len(),
            views == launchers_view(launchers@),
            forall|j: int| 0 <= j < i ==> (#[trigger] views[j]).id != id@,
        decreases launchers.len() - i,
    {
        if same_text(launchers[i].id.as_str(), id) {
            proof {
                lemma_first_with_id(views, id@);
                assert(views[i as int].id == id@);
            }
            return Some(i);
        }
        i += 1;
    }
    proof {
        lemma_first_with_id(views, id@);
    }
    None
}

/// Chooses the launcher that opens a project.
pub fn select_launcher<'a>(launchers: &'a Vec<Launcher>, launcher_id: &Option<String>) -> (r: Result<
    &'a Launcher,
    LauncherError,
>)
    ensures
        match chosen_launcher(launchers_view(launchers@), opt_text(*launcher_id)) {
            Ok(i) => 0 <= i < launchers.len() && r == Ok::<&Launcher, LauncherError>(
                &launchers[i],
            ),
            Err(e) => r == Err::<&Launcher, LauncherError>(e),
        },
{
    match launcher_id {
        Some(id) => match launcher_position(launchers, id.as_str()) {
            Some(i) => Ok(&launchers[i]),
            None => Err(LauncherError::NotFound),
        },
        None => if launchers.len() > 0 {
            Ok(&launchers[0])
        } else {
            Err(LauncherError::NoneConfigured)
        },
    }
}

/// Plans the opening of a project: chooses the launcher and says what it
/// is to run.
pub fn launch_project(config: &Config, project_path: &str, launcher_id: &Option<String>) -> (r:
    Result<LaunchPlan, LauncherError>)
    ensures
        match chosen_launcher(config@.launchers, opt_text(*launcher_id)) {
            Ok(i) => r matches Ok(plan) && plan@ == planned(config@.launchers[i], project_path@),
            Err(e) => r matches Err(f) && f == e,
        },
{
    match select_launcher(&config.launchers, launcher_id) {
        Ok(launcher) => Ok(LauncherService::launch(launcher, project_path)),
        Err(e) => Err(e),
    }
}

/// The configured launchers.
pub fn get_launchers(config: &Config) -> (r: Vec<Launcher>)
    ensures
        launchers_view(r@) == config@.launchers,
{
    copy_launchers(&config.launchers)
}

/// `uuid::Uuid::new_v4` and its `to_string`: a random identifier in
/// hyphenated hexadecimal form, which is 36 characters long. Which
/// identifier comes out is up to the system's random source, on which
/// `new_v4` relies.
#[verifier::external_body]
fn fresh_id() -> (r: String)
    ensures
        r@.len() == 36,
{
    uuid::Uuid::new_v4().to_string()
}

/// Appends a launcher to the configuration under the given id and returns
/// it as stored. Whatever id the launcher came with is replaced.
pub fn add_launcher_with_id(config: &mut Config, launcher: Launcher, id: String) -> (r: Launcher)
    ensures
        r@ == (LauncherView { id: id@, ..launcher@ }),
        final(config)@ == with_launchers(old(config)@, old(config)@.launchers.push(r@)),
{
    let ghost before = launchers_view(config.launchers@);
    let mut stored = launcher;
    stored.id = id;
    config.launchers.push(stored.clone());
    assert(launchers_view(config.launchers@) =~= before.push(stored@));
    stored
}

/// Appends a launcher to the configuration under a fresh random id and
/// returns it as stored.
pub fn add_launcher(config: &mut Config, launcher: Launcher) -> (r: Launcher)
    ensures
        r@.id.len() == 36,
        r@ == (LauncherView { id: r@.id, ..launcher@ }),
        final(config)@ == with_launchers(old(config)@, old(config)@.launchers.push(r@)),
{
    add_launcher_with_id(config, launcher, fresh_id())
}

/// Replaces the first launcher that has the id of the given one. Where no
/// launcher has it, the configuration stays as it is.
pub fn update_launcher(config: &mut Config, launcher: Launcher) -> (r: Result<(), LauncherError>)
    ensures
        match first_with_id(old(config)@.launchers, launcher@.id) {
            Some(i) => r is Ok && final(config)@ == with_launchers(
                old(config)@,
                old(config)@.launchers.update(i, launcher@),
            ),
            None => r == Err::<(), LauncherError>(LauncherError::NotFound) && final(config)@
                == old(config)@,
        },
{
    let ghost before = launchers_view(config.launchers@);
    match launcher_position(&config.launchers, launcher.id.as_str()) {
        Some(i) => {
            config.launchers[i] = launcher;
            assert(launchers_view(config.launchers@) =~= before.update(i as int, launcher@));
            Ok(())
        },
        None => Err(LauncherError::NotFound),
    }
}

/// The launchers that do not have the id, in their order.
pub open spec fn without_id(launchers: Seq<LauncherView>, id: Seq<char>) -> Seq<LauncherView>
    decreases launchers.len(),
{
    if launchers.len() == 0 {
        Seq::empty()
    } else {
        let rest = without_id(launchers.drop_last(), id);
        if launchers.last().id == id {
            rest
        } else {
            rest.push(launchers.last())
        }
    }
}

/// Removes every launcher with the id from the configuration.
pub fn remove_launcher(config: &mut Config, launcher_id: &str)
    ensures
        final(config)@ == with_launchers(
            old(config)@,
            without_id(old(config)@.launchers, launcher_id@),
        ),
{
    let ghost before = launchers_view(config.launchers@);
    let mut kept: Vec<Launcher> = Vec::new();
    let mut i: usize = 0;
    assert(launchers_view(kept@) =~= without_id(before.take(0), launcher_id@));
    while i < config.launchers.len()
        invariant
            i <= config.launchers.len(),
            *config == *old(config),
            before == launchers_view(config.launchers@),
            launchers_view(kept@) == without_id(before.take(i as int), launcher_id@),
        decreases config.launchers.len() - i,
    {
        let ghost upto = before.take(i + 1);
        let ghost so_far = launchers_view(kept@);
        assert(upto.drop_last() == before.take(i as int));
        assert(upto.last() == config.launchers[i as int]@);
        if !same_text(config.launchers[i].id.as_str(), launcher_id) {
            kept.push(config.launchers[i].clone());
            assert(launchers_view(kept@) =~= so_far.push(config.launchers[i as int]@));
        }
        i += 1;
    }
    assert(before.take(config.launchers.len() as int) == before);
    config.launchers = kept;
}

} // verus!
