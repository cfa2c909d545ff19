//! The store of the catalog: where the snapshot lives, what is written on
//! a save, and when a stored snapshot counts as stale.
//!
//! Reading and writing the file is the caller's. The store says where the
//! file is, builds the snapshot to write and judges the one that was read.

use vstd::prelude::*;
use std::path::PathBuf;
use crate::models::cache::CacheData;
use crate::models::cache::CacheDataView;
use crate::models::cache::opt_cache_ref;
use crate::models::project::Project;
use crate::models::project::ProjectView;
use crate::models::project::catalog_view;
use crate::text::opt_text;
use crate::services::clock::ClockError;
use crate::services::clock::checked_instant;
use crate::services::clock::is_instant;
use crate::services::clock::read_clock;
use crate::services::clock::usable;
use crate::services::clock::hours_between;
use crate::services::clock::is_rfc3339;
use crate::services::clock::rfc3339_hours_between;

verus! {

/// A filesystem path, `std::path::PathBuf`, carried opaquely.
#[verifier::external_type_specification]
#[verifier::external_body]
pub struct ExPathBuf(PathBuf);

/// The name of the snapshot file inside the data directory.
pub const CACHE_FILE_NAME: &'static str = "cache.json";

/// The format version written into every snapshot.
pub const CACHE_VERSION: &'static str = "0.1.0";

/// The store of the catalog.
pub struct CacheManager {
    data_dir: PathBuf,
}

/// Whether a snapshot is stale at a given time: its scan lies more than
/// `max_age_hours` whole hours back. A snapshot that is missing, or whose
/// scan time or the given time cannot be read, counts as stale.
pub open spec fn stale_at(
    cache: Option<CacheDataView>,
    now: Seq<char>,
    max_age_hours: u64,
) -> bool {
    match cache {
        Some(c) => match rfc3339_hours_between(c.last_scan, now) {
            Some(age) => age > max_age_hours,
            None => true,
        },
        None => true,
    }
}

/// Whether a snapshot is stale by a reading of the clock: judged at the
/// time the reading shows where it is an RFC 3339 instant, stale
/// otherwise.
pub open spec fn stale_by(
    cache: Option<CacheDataView>,
    reading: Option<Seq<char>>,
    max_age_hours: u64,
) -> bool {
    match usable(reading) {
        Some(now) => stale_at(cache, now, max_age_hours),
        None => true,
    }
}

/// What a save comes to by a reading of the clock: the catalog stamped
/// with the time the reading shows and the format version where the
/// reading is an RFC 3339 instant, an error otherwise.
pub open spec fn stamped_snapshot(
    projects: Seq<ProjectView>,
    reading: Option<Seq<char>>,
) -> Result<CacheDataView, ClockError> {
    match usable(reading) {
        Some(now) => Ok(CacheDataView { projects, last_scan: now, version: CACHE_VERSION@ }),
        None => Err(ClockError::Unreadable),
    }
}

/// The view of what a save came to.
pub open spec fn snapshot_outcome(r: Result<CacheData, ClockError>) -> Result<
    CacheDataView,
    ClockError,
> {
    match r {
        Ok(snapshot) => Ok(snapshot@),
        Err(e) => Err(e),
    }
}

impl CacheManager {
    /// The directory that holds the snapshot file.
    pub closed spec fn spec_data_dir(&self) -> PathBuf {
        self.data_dir
    }

    /// A store whose snapshot file is [`CACHE_FILE_NAME`] in the given
    /// directory.
    pub fn new(app_data_dir: PathBuf) -> (r: Self)
        ensures
            r.spec_data_dir() == app_data_dir,
    {
        Self { data_dir: app_data_dir }
    }

    /// The directory that holds the snapshot file.
    pub fn data_dir(&self) -> (r: &PathBuf)
        ensures
            *r == self.spec_data_dir(),
    {
        &self.data_dir
    }

    /// The snapshot to write for a catalog scanned at the given time. It
    /// replaces whatever was stored before.
    pub fn save_at(&self, projects: Vec<Project>, now: String) -> (r: CacheData)
        ensures
            r@ == (CacheDataView {
                projects: catalog_view(projects@),
                last_scan: now@,
                version: CACHE_VERSION@,
            }),
    {
        CacheData { projects, last_scan: now, version: CACHE_VERSION.to_string() }
    }

    /// The snapshot to write for a catalog scanned at the time that a
    /// reading of the clock shows. A reading that is no RFC 3339 instant
    /// gives an error and no snapshot.
    pub fn save_stamped(&self, projects: Vec<Project>, reading: Option<String>) -> (r: Result<
        CacheData,
        ClockError,
    >)
        ensures
            snapshot_outcome(r) == stamped_snapshot(catalog_view(projects@), opt_text(reading)),
    {
        match checked_instant(reading) {
            Some(now) => Ok(self.save_at(projects, now)),
            None => Err(ClockError::Unreadable),
        }
    }

    /// The snapshot to write for a catalog scanned just now: the catalog
    /// as given, stamped with the RFC 3339 time that the clock shows and
    /// the format version. A clock that shows no time of that form gives
    /// an error and no snapshot.
    pub fn save(&self, projects: Vec<Project>) -> (r: Result<CacheData, ClockError>)
        ensures
            match r {
                Ok(snapshot) => snapshot@.projects == catalog_view(projects@) && snapshot@.version
                    == CACHE_VERSION@ && is_rfc3339(snapshot@.last_scan),
                Err(e) => e == ClockError::Unreadable,
            },
            exists|reading: Option<Seq<char>>|
                snapshot_outcome(r) == #[trigger] stamped_snapshot(
                    catalog_view(projects@),
                    reading,
                ),
    {
        let reading = read_clock();
        let ghost seen = opt_text(reading);
        let outcome = self.save_stamped(projects, reading);
        assert(snapshot_outcome(outcome) == stamped_snapshot(catalog_view(projects@), seen));
        outcome
    }

    /// Whether a stored snapshot is stale at the given time.
    pub fn is_stale_at(&self, cache: Option<&CacheData>, now: &str, max_age_hours: u64) -> (r:
        bool)
        ensures
            r == stale_at(
                opt_cache_ref(cache),
                now@,
                max_age_hours,
            ),
    {
        match cache {
            Some(c) => match hours_between(c.last_scan.as_str(), now) {
                Some(age) => age >= 0 && (age as u64) > max_age_hours,
                None => true,
            },
            None => true,
        }
    }

    /// Whether a stored snapshot is stale at the time that a reading of
    /// the clock shows. A reading that is no RFC 3339 instant tells
    /// nothing, so the snapshot counts as stale.
    pub fn is_stale_stamped(
        &self,
        cache: Option<&CacheData>,
        reading: &Option<String>,
        max_age_hours: u64,
    ) -> (r: bool)
        ensures
            r == stale_by(opt_cache_ref(cache), opt_text(*reading), max_age_hours),
    {
        match reading {
            Some(now) => if is_instant(now.as_str()) {
                self.is_stale_at(cache, now.as_str(), max_age_hours)
            } else {
                true
            },
            None => true,
        }
    }

    /// Whether a stored snapshot is stale by the clock. A missing snapshot
    /// is stale whatever the clock shows, and so is every snapshot while
    /// the clock shows no RFC 3339 time.
    pub fn is_stale(&self, cache: Option<&CacheData>, max_age_hours: u64) -> (r: bool)
        ensures
            cache is None ==> r,
            !r ==> exists|now: Seq<char>|
                is_rfc3339(now) && !(#[trigger] stale_at(opt_cache_ref(cache), now, max_age_hours)),
            exists|reading: Option<Seq<char>>|
                r == #[trigger] stale_by(opt_cache_ref(cache), reading, max_age_hours),
    {
        let reading = read_clock();
        let stale = self.is_stale_stamped(cache, &reading, max_age_hours);
        assert(stale == stale_by(opt_cache_ref(cache), opt_text(reading), max_age_hours));
        proof {
            if !stale {
                let now = reading->0@;
                assert(is_rfc3339(now) && !stale_at(opt_cache_ref(cache), now, max_age_hours));
            }
        }
        stale
    }
}

} // verus!
