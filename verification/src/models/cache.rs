//! The persisted catalog.

use vstd::prelude::*;
use crate::models::project::Project;
use crate::models::project::ProjectView;
use crate::models::project::catalog_view;

verus! {

/// The catalog as it is stored: the projects, the time of the scan that
/// produced them (RFC 3339) and the version of the format.
#[derive(Debug)]
pub struct CacheData {
    pub projects: Vec<Project>,
    pub last_scan: String,
    pub version: String,
}

/// The mathematical content of a [`CacheData`].
pub struct CacheDataView {
    pub projects: Seq<ProjectView>,
    pub last_scan: Seq<char>,
    pub version: Seq<char>,
}

impl View for CacheData {
    type V = CacheDataView;

    open spec fn view(&self) -> CacheDataView {
        CacheDataView {
            projects: catalog_view(self.projects@),
            last_scan: self.last_scan@,
            version: self.version@,
        }
    }
}

/// The view of an optional snapshot.
pub open spec fn opt_cache(cache: Option<CacheData>) -> Option<CacheDataView> {
    match cache {
        Some(c) => Some(c@),
        None => None,
    }
}

/// The view of an optional borrowed snapshot.
pub open spec fn opt_cache_ref(cache: Option<&CacheData>) -> Option<CacheDataView> {
    match cache {
        Some(c) => Some(c@),
        None => None,
    }
}

/// A copy of a catalog.
pub fn copy_projects(projects: &Vec<Project>) -> (r: Vec<Project>)
    ensures
        r@ == projects@,
{
    let mut out: Vec<Project> = Vec::new();
    let mut i: usize = 0;
    while i < projects.len()
        invariant
            i <= projects.len(),
            out@ == projects@.subrange(0, i as int),
        decreases projects.len() - i,
    {
        out.push(projects[i].clone());
        i += 1;
    }
    assert(projects@.subrange(0, projects.len() as int) == projects@);
    out
}

impl Clone for CacheData {
    fn clone(&self) -> (r: Self)
        ensures
            r@ == self@,
    {
        CacheData {
            projects: copy_projects(&self.projects),
            last_scan: self.last_scan.clone(),
            version: self.version.clone(),
        }
    }
}

} // verus!
