//! Installed packages and sync databases as plain values, and the pure
//! functions that classify a package against the sync databases.
use crate::text::concat2;
use vstd::prelude::*;

verus! {

/// Why a package is installed.
#[derive(Clone, Copy, Debug, PartialEq, Eq, Structural)]
pub enum PackageReason {
    /// Asked for by the user.
    Explicit,
    /// Pulled in as a dependency.
    Depend,
}

/// An installed package, as the local database records it.
#[derive(Clone, Debug, PartialEq, Eq)]
pub struct Package {
    pub name: String,
    pub version: String,
    pub reason: PackageReason,
    /// Paths of the installed files, relative to the installation root.
    pub files: Vec<String>,
    /// Installed packages that depend on this one.
    pub required_by: Vec<String>,
    /// Installed packages that optionally depend on this one.
    pub optional_for: Vec<String>,
    pub groups: Vec<String>,
}

/// A package offered by a sync database.
#[derive(Clone, Debug, PartialEq, Eq)]
pub struct SyncPackage {
    pub name: String,
    pub version: String,
}

/// A sync database: the catalogue of one repository.
#[derive(Clone, Debug, PartialEq, Eq)]
pub struct SyncDb {
    pub name: String,
    pub packages: Vec<SyncPackage>,
}

/// Whether an installed package is still offered by a sync database.
#[derive(Clone, Copy, Debug, PartialEq, Eq, Structural)]
pub enum PackageLocality {
    Native,
    Foreign,
}

/// Whether `db` offers a package named `name`.
pub open spec fn db_has(db: SyncDb, name: Seq<char>) -> bool {
    exists|k: int| 0 <= k < db.packages@.len() && #[trigger] db.packages@[k].name@ == name
}

/// Whether some database of `dbs` offers a package named `name`.
pub open spec fn offered(dbs: Seq<SyncDb>, name: Seq<char>) -> bool {
    exists|d: int| 0 <= d < dbs.len() && #[trigger] db_has(dbs[d], name)
}

/// `k` is the first package of `pkgs` named `name`.
pub open spec fn first_named(pkgs: Seq<SyncPackage>, name: Seq<char>, k: int) -> bool {
    &&& 0 <= k < pkgs.len()
    &&& pkgs[k].name@ == name
    &&& forall|j: int| 0 <= j < k ==> #[trigger] pkgs[j].name@ != name
}

/// The locality of a package named `name`.
pub open spec fn locality_of(dbs: Seq<SyncDb>, name: Seq<char>) -> PackageLocality {
    if offered(dbs, name) {
        PackageLocality::Native
    } else {
        PackageLocality::Foreign
    }
}

/// Whether `db` offers a package named like `pkg`.
pub fn db_offers(db: &SyncDb, name: &String) -> (r: bool)
    ensures
        r == db_has(*db, name@),
{
    let mut k: usize = 0;
    while k < db.packages.len()
        invariant
            k <= db.packages@.len(),
            forall|j: int| 0 <= j < k ==> #[trigger] db.packages@[j].name@ != name@,
        decreases db.packages.len() - k,
    {
        if db.packages[k].name == *name {
            return true;
        }
        k += 1;
    }
    false
}

/// Native when some sync database offers a package of the same name,
/// Foreign otherwise.
pub fn locality(pkg: &Package, sync_dbs: &Vec<SyncDb>) -> (r: PackageLocality)
    ensures
        r == locality_of(sync_dbs@, pkg.name@),
        (r == PackageLocality::Native) <==> (exists|d: int|
            0 <= d < sync_dbs@.len() && #[trigger] db_has(sync_dbs@[d], pkg.name@)),
{
    let mut d: usize = 0;
    while d < sync_dbs.len()
        invariant
            d <= sync_dbs@.len(),
            forall|j: int| 0 <= j < d ==> !#[trigger] db_has(sync_dbs@[j], pkg.name@),
        decreases sync_dbs.len() - d,
    {
        if db_offers(&sync_dbs[d], &pkg.name) {
            return PackageLocality::Native;
        }
        d += 1;
    }
    PackageLocality::Foreign
}

/// The version of the first package of `db` named `name`, if any.
pub fn first_version(db: &SyncDb, name: &String) -> (r: Option<String>)
    ensures
        match r {
            None => !db_has(*db, name@),
            Some(v) => exists|k: int|
                first_named(db.packages@, name@, k) && db.packages@[k].version@ == v@,
        },
{
    let mut k: usize = 0;
    while k < db.packages.len()
        invariant
            k <= db.packages@.len(),
            forall|j: int| 0 <= j < k ==> #[trigger] db.packages@[j].name@ != name@,
        decreases db.packages.len() - k,
    {
        if db.packages[k].name == *name {
            assert(first_named(db.packages@, name@, k as int));
            return Some(db.packages[k].version.clone());
        }
        k += 1;
    }
    None
}

/// For each sync database in order, the version of its first package named
/// like `pkg`, if it has one. These are the versions to compare with the
/// installed one before asking `is_upgrade_candidate`.
pub fn sync_versions(pkg: &Package, sync_dbs: &Vec<SyncDb>) -> (r: Vec<Option<String>>)
    ensures
        r@.len() == sync_dbs@.len(),
        forall|d: int|
            0 <= d < r@.len() ==> match #[trigger] r@[d] {
                None => !db_has(sync_dbs@[d], pkg.name@),
                Some(v) => exists|k: int|
                    first_named(sync_dbs@[d].packages@, pkg.name@, k)
                        && sync_dbs@[d].packages@[k].version@ == v@,
            },
{
    let mut r: Vec<Option<String>> = Vec::new();
    let mut d: usize = 0;
    while d < sync_dbs.len()
        invariant
            d <= sync_dbs@.len(),
            r@.len() == d,
            forall|e: int|
                0 <= e < d ==> match #[trigger] r@[e] {
                    None => !db_has(sync_dbs@[e], pkg.name@),
                    Some(v) => exists|k: int|
                        first_named(sync_dbs@[e].packages@, pkg.name@, k)
                            && sync_dbs@[e].packages@[k].version@ == v@,
                },
        decreases sync_dbs.len() - d,
    {
        let found = first_version(&sync_dbs[d], &pkg.name);
        r.push(found);
        d += 1;
    }
    r
}

/// Whether a sync database offers a newer version of `pkg`. `newer[d]` is
/// whether the version that `sync_versions` found in database `d` compares
/// greater than the installed version (it is ignored where that database
/// does not offer the package). Under a total order of versions, this is
/// whether the greatest version offered is greater than the installed one.
pub fn is_upgrade_candidate(pkg: &Package, sync_dbs: &Vec<SyncDb>, newer: &Vec<bool>) -> (r: bool)
    requires
        newer@.len() == sync_dbs@.len(),
    ensures
        r == exists|d: int|
            0 <= d < sync_dbs@.len() && #[trigger] db_has(sync_dbs@[d], pkg.name@) && newer@[d],
        !offered(sync_dbs@, pkg.name@) ==> !r,
{
    let mut d: usize = 0;
    while d < sync_dbs.len()
        invariant
            d <= sync_dbs@.len(),
            newer@.len() == sync_dbs@.len(),
            forall|j: int|
                0 <= j < d ==> !(#[trigger] db_has(sync_dbs@[j], pkg.name@) && newer@[j]),
        decreases sync_dbs.len() - d,
    {
        if newer[d] && db_offers(&sync_dbs[d], &pkg.name) {
            return true;
        }
        d += 1;
    }
    false
}

/// Whether no installed package requires `pkg`, nor, unless `strict`,
/// optionally requires it.
pub fn is_unrequired(pkg: &Package, strict: bool) -> (r: bool)
    ensures
        r == (pkg.required_by@.len() == 0 && (strict || pkg.optional_for@.len() == 0)),
{
    pkg.required_by.len() == 0 && (strict || pkg.optional_for.len() == 0)
}

/// Whether the installed entry `file` placed under `root` is `path`: `root`
/// followed by the entry, where a directory entry (ending in a slash) also
/// matches without its trailing slash.
pub open spec fn entry_is(root: Seq<char>, file: Seq<char>, path: Seq<char>) -> bool {
    root + file == path || (file.len() > 0 && file.last() == '/' && root + file.drop_last()
        == path)
}

/// Whether `path` is one of `pkg`'s files or directories placed under
/// `root`, compared as paths: `root` followed by the entry's relative path,
/// a directory matching with or without its trailing slash.
pub fn owns_file(pkg: &Package, path: &str, root: &str) -> (r: bool)
    ensures
        r == exists|i: int|
            0 <= i < pkg.files@.len() && entry_is(root@, #[trigger] pkg.files@[i]@, path@),
{
    let target = String::from_str(path);
    let mut i: usize = 0;
    while i < pkg.files.len()
        invariant
            i <= pkg.files@.len(),
            target@ == path@,
            forall|j: int| 0 <= j < i ==> !entry_is(root@, #[trigger] pkg.files@[j]@, path@),
        decreases pkg.files.len() - i,
    {
        let file = pkg.files[i].as_str();
        let full = concat2(root, file);
        if full == target {
            return true;
        }
        let flen = file.unicode_len();
        if flen > 0 && file.get_char(flen - 1) == '/' {
            let len = full.as_str().unicode_len();
            let trimmed = String::from_str(full.as_str().substring_char(0, len - 1));
            assert(trimmed@ =~= root@ + file@.drop_last());
            if trimmed == target {
                return true;
            }
        }
        i += 1;
    }
    false
}

} // verus!

verus! {

/// `le` is a total preorder: reflexive, transitive and total.
pub open spec fn total_preorder(le: spec_fn(Seq<char>, Seq<char>) -> bool) -> bool {
    &&& forall|a: Seq<char>| #[trigger] le(a, a)
    &&& forall|a: Seq<char>, b: Seq<char>, c: Seq<char>|
        #[trigger] le(a, b) && #[trigger] le(b, c) ==> le(a, c)
    &&& forall|a: Seq<char>, b: Seq<char>| le(a, b) || #[trigger] le(b, a)
}

/// Database `d` of `dbs` offers version `v` of the package named `name`:
/// its first package of that name has that version.
pub open spec fn offers_version(dbs: Seq<SyncDb>, name: Seq<char>, d: int, v: Seq<char>) -> bool {
    &&& 0 <= d < dbs.len()
    &&& exists|k: int|
        first_named(dbs[d].packages@, name, k) && #[trigger] dbs[d].packages@[k].version@ == v
}

/// `m` is the greatest version of `name` that the first `n` databases offer.
pub open spec fn greatest_among(
    dbs: Seq<SyncDb>,
    name: Seq<char>,
    le: spec_fn(Seq<char>, Seq<char>) -> bool,
    n: int,
    m: Seq<char>,
) -> bool {
    &&& exists|d: int| d < n && #[trigger] offers_version(dbs, name, d, m)
    &&& forall|d: int, v: Seq<char>| d < n && #[trigger] offers_version(dbs, name, d, v) ==> le(v, m)
}

proof fn lemma_first_named_exists(pkgs: Seq<SyncPackage>, name: Seq<char>, k: int)
    requires
        0 <= k < pkgs.len(),
        pkgs[k].name@ == name,
    ensures
        exists|j: int| first_named(pkgs, name, j),
    decreases k,
{
    if exists|j: int| 0 <= j < k && #[trigger] pkgs[j].name@ == name {
        let j = choose|j: int| 0 <= j < k && #[trigger] pkgs[j].name@ == name;
        lemma_first_named_exists(pkgs, name, j);
    } else {
        assert(first_named(pkgs, name, k));
    }
}

proof fn lemma_offers_unique(dbs: Seq<SyncDb>, name: Seq<char>, d: int, v: Seq<char>, w: Seq<char>)
    requires
        offers_version(dbs, name, d, v),
        offers_version(dbs, name, d, w),
    ensures
        v == w,
{
    let k = choose|k: int|
        first_named(dbs[d].packages@, name, k) && #[trigger] dbs[d].packages@[k].version@ == v;
    let j = choose|j: int|
        first_named(dbs[d].packages@, name, j) && #[trigger] dbs[d].packages@[j].version@ == w;
    if k < j {
        assert(dbs[d].packages@[k].name@ != name);
    } else if j < k {
        assert(dbs[d].packages@[j].name@ != name);
    }
}

proof fn lemma_greatest_exists(
    dbs: Seq<SyncDb>,
    name: Seq<char>,
    le: spec_fn(Seq<char>, Seq<char>) -> bool,
    n: int,
)
    requires
        total_preorder(le),
        0 <= n <= dbs.len(),
        exists|d: int, v: Seq<char>| d < n && #[trigger] offers_version(dbs, name, d, v),
    ensures
        exists|m: Seq<char>| greatest_among(dbs, name, le, n, m),
    decreases n,
{
    let last = n - 1;
    let prefix_has = exists|d: int, v: Seq<char>| d < last && #[trigger] offers_version(dbs, name, d, v);
    let last_has = exists|v: Seq<char>| offers_version(dbs, name, last, v);
    if !last_has {
        lemma_greatest_exists(dbs, name, le, last);
        let m = choose|m: Seq<char>| greatest_among(dbs, name, le, last, m);
        assert forall|d: int, v: Seq<char>| d < n && #[trigger] offers_version(dbs, name, d, v) implies le(v, m) by {
            assert(d != last);
        }
        assert(greatest_among(dbs, name, le, n, m));
    } else {
        let v = choose|v: Seq<char>| offers_version(dbs, name, last, v);
        if prefix_has {
            lemma_greatest_exists(dbs, name, le, last);
            let m = choose|m: Seq<char>| greatest_among(dbs, name, le, last, m);
            if le(v, m) {
                assert forall|d: int, w: Seq<char>| d < n && #[trigger] offers_version(dbs, name, d, w) implies le(w, m) by {
                    if d == last {
                        lemma_offers_unique(dbs, name, d, v, w);
                    }
                }
                assert(greatest_among(dbs, name, le, n, m));
            } else {
                assert(le(m, v));
                assert forall|d: int, w: Seq<char>| d < n && #[trigger] offers_version(dbs, name, d, w) implies le(w, v) by {
                    if d == last {
                        lemma_offers_unique(dbs, name, d, v, w);
                    } else {
                        assert(le(w, m));
                    }
                }
                assert(greatest_among(dbs, name, le, n, v));
            }
        } else {
            assert forall|d: int, w: Seq<char>| d < n && #[trigger] offers_version(dbs, name, d, w) implies le(w, v) by {
                if d == last {
                    lemma_offers_unique(dbs, name, d, v, w);
                } else {
                    assert(d < last);
                }
            }
            assert(greatest_among(dbs, name, le, n, v));
        }
    }
}

/// Whatever total preorder `le` orders versions, provided `newer[d]` says
/// whether the version that database `d` offers is not at most the
/// installed one, a package is an upgrade candidate exactly when some
/// database offers it and the greatest version offered is greater than the
/// installed one; with no database offering it, it is none.
pub proof fn lemma_upgrade_iff_greatest_newer(
    pkg: Package,
    dbs: Seq<SyncDb>,
    newer: Seq<bool>,
    le: spec_fn(Seq<char>, Seq<char>) -> bool,
)
    requires
        newer.len() == dbs.len(),
        total_preorder(le),
        forall|d: int, v: Seq<char>|
            #[trigger] offers_version(dbs, pkg.name@, d, v) ==> newer[d] == !le(v, pkg.version@),
    ensures
        (exists|d: int| 0 <= d < dbs.len() && #[trigger] db_has(dbs[d], pkg.name@) && newer[d])
            <==> (exists|m: Seq<char>|
            greatest_among(dbs, pkg.name@, le, dbs.len() as int, m) && !le(m, pkg.version@)),
        !offered(dbs, pkg.name@) ==> !exists|d: int|
            0 <= d < dbs.len() && #[trigger] db_has(dbs[d], pkg.name@) && newer[d],
{
    let name = pkg.name@;
    let n = dbs.len() as int;
    if exists|d: int| 0 <= d < n && #[trigger] db_has(dbs[d], name) && newer[d] {
        let d = choose|d: int| 0 <= d < n && #[trigger] db_has(dbs[d], name) && newer[d];
        let k0 = choose|k: int| 0 <= k < dbs[d].packages@.len() && #[trigger] dbs[d].packages@[k].name@ == name;
        lemma_first_named_exists(dbs[d].packages@, name, k0);
        let k = choose|k: int| first_named(dbs[d].packages@, name, k);
        let v = dbs[d].packages@[k].version@;
        assert(offers_version(dbs, name, d, v));
        lemma_greatest_exists(dbs, name, le, n);
        let m = choose|m: Seq<char>| greatest_among(dbs, name, le, n, m);
        assert(le(v, m));
        if le(m, pkg.version@) {
            assert(le(v, pkg.version@));
        }
        assert(greatest_among(dbs, name, le, n, m) && !le(m, pkg.version@));
    }
    if exists|m: Seq<char>| greatest_among(dbs, name, le, n, m) && !le(m, pkg.version@) {
        let m = choose|m: Seq<char>| greatest_among(dbs, name, le, n, m) && !le(m, pkg.version@);
        let d = choose|d: int| d < n && #[trigger] offers_version(dbs, name, d, m);
        let k = choose|k: int|
            first_named(dbs[d].packages@, name, k) && #[trigger] dbs[d].packages@[k].version@ == m;
        assert(db_has(dbs[d], name));
    }
}

} // verus!
