//! The options of a query of the local database, and the filter that they
//! select installed packages by.
use crate::package::{
    is_unrequired, is_upgrade_candidate, locality, locality_of, db_has, Package, PackageLocality,
    PackageReason, SyncDb,
};
use vstd::prelude::*;

verus! {

/// Query operations.
#[derive(Clone, Debug, PartialEq, Eq)]
pub struct Command {
    /// View the changelog.
    pub changelog: bool,
    /// List packages installed as dependencies [filter].
    pub deps: bool,
    /// List packages explicitly installed [filter].
    pub explicit: bool,
    /// View all members of a group.
    pub groups: bool,
    /// View package information (given twice for backup files).
    pub info: isize,
    /// Check that package files exist (given twice for file properties).
    pub check: isize,
    /// List the files owned by the package.
    pub list: bool,
    /// List installed packages not found in sync databases [filter].
    pub foreign: bool,
    /// List installed packages only found in sync databases [filter].
    pub native: bool,
    /// Query the packages that own the target files.
    pub owns: bool,
    /// Query a package file instead of the database.
    pub file: Option<String>,
    /// Show less information for query and search.
    pub quiet: bool,
    /// Search installed packages for matching strings.
    pub search: bool,
    /// List packages not (optionally) required by any package; given twice,
    /// optional dependencies are ignored [filter].
    pub unrequired: isize,
    /// List outdated packages [filter].
    pub upgrade: bool,
    /// The packages to query.
    pub targets: Vec<String>,
}

impl PackageLocality {
    /// The locality that the native and foreign filters ask for, if either.
    pub fn new(native: bool, foreign: bool) -> (r: Option<Self>)
        requires
            !(native && foreign),
        ensures
            r == (if native {
                Some(PackageLocality::Native)
            } else if foreign {
                Some(PackageLocality::Foreign)
            } else {
                None
            }),
    {
        match (native, foreign) {
            (true, _) => Some(PackageLocality::Native),
            (false, true) => Some(PackageLocality::Foreign),
            (false, false) => None,
        }
    }
}

impl Command {
    /// Whether `package` passes every filter that is set. `newer` is as for
    /// `is_upgrade_candidate`.
    pub open spec fn keeps(self, package: Package, sync_dbs: Seq<SyncDb>, newer: Seq<bool>) -> bool {
        &&& self.explicit ==> package.reason == PackageReason::Explicit
        &&& self.deps ==> package.reason == PackageReason::Depend
        &&& self.native ==> locality_of(sync_dbs, package.name@) == PackageLocality::Native
        &&& self.foreign ==> locality_of(sync_dbs, package.name@) == PackageLocality::Foreign
        &&& self.unrequired >= 1 ==> package.required_by@.len() == 0 && (self.unrequired >= 2
            || package.optional_for@.len() == 0)
        &&& self.upgrade ==> exists|d: int|
            0 <= d < sync_dbs.len() && #[trigger] db_has(sync_dbs[d], package.name@) && newer[d]
    }

    /// Whether `package` passes every filter that is set; the filters
    /// combine by AND.
    pub fn filter_package(&self, package: &Package, sync_dbs: &Vec<SyncDb>, newer: &Vec<bool>) -> (r: bool)
        requires
            !(self.native && self.foreign),
            newer@.len() == sync_dbs@.len(),
        ensures
            r == self.keeps(*package, sync_dbs@, newer@),
    {
        if self.explicit && package.reason != PackageReason::Explicit {
            return false;
        }
        if self.deps && package.reason != PackageReason::Depend {
            return false;
        }
        if let Some(wanted) = PackageLocality::new(self.native, self.foreign) {
            if wanted != locality(package, sync_dbs) {
                return false;
            }
        }
        if self.unrequired >= 1 && !is_unrequired(package, self.unrequired >= 2) {
            return false;
        }
        !self.upgrade || is_upgrade_candidate(package, sync_dbs, newer)
    }
}

} // verus!
