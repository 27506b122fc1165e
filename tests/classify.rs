use rpac::commands::query::Command;
use rpac::package::{
    is_unrequired, is_upgrade_candidate, locality, owns_file, sync_versions, Package,
    PackageLocality, PackageReason, SyncDb, SyncPackage,
};

fn package(name: &str, reason: PackageReason) -> Package {
    Package {
        name: name.to_string(),
        version: "1.0-1".to_string(),
        reason,
        files: vec![],
        required_by: vec![],
        optional_for: vec![],
        groups: vec![],
    }
}

fn db(name: &str, pkgs: &[(&str, &str)]) -> SyncDb {
    SyncDb {
        name: name.to_string(),
        packages: pkgs
            .iter()
            .map(|(n, v)| SyncPackage { name: n.to_string(), version: v.to_string() })
            .collect(),
    }
}

fn query() -> Command {
    Command {
        changelog: false,
        deps: false,
        explicit: false,
        groups: false,
        info: 0,
        check: 0,
        list: false,
        foreign: false,
        native: false,
        owns: false,
        file: None,
        quiet: false,
        search: false,
        unrequired: 0,
        upgrade: false,
        targets: vec![],
    }
}

#[test]
fn locality_follows_sync_membership() {
    let dbs = vec![db("core", &[("bash", "5")]), db("extra", &[("vim", "9")])];
    assert_eq!(locality(&package("vim", PackageReason::Explicit), &dbs), PackageLocality::Native);
    assert_eq!(locality(&package("yay", PackageReason::Explicit), &dbs), PackageLocality::Foreign);
    assert_eq!(locality(&package("vim", PackageReason::Explicit), &vec![]), PackageLocality::Foreign);
}

#[test]
fn sync_versions_per_database() {
    let dbs = vec![
        db("core", &[("bash", "5")]),
        db("extra", &[("vim", "9.1"), ("vim", "8")]),
        db("testing", &[("vim", "9.2")]),
    ];
    let p = package("vim", PackageReason::Explicit);
    assert_eq!(
        sync_versions(&p, &dbs),
        vec![None, Some("9.1".to_string()), Some("9.2".to_string())]
    );
}

#[test]
fn upgrade_needs_an_offered_newer_version() {
    let dbs = vec![db("core", &[("bash", "5")]), db("extra", &[("vim", "9")])];
    let vim = package("vim", PackageReason::Explicit);
    assert!(is_upgrade_candidate(&vim, &dbs, &vec![false, true]));
    assert!(!is_upgrade_candidate(&vim, &dbs, &vec![false, false]));
    assert!(!is_upgrade_candidate(&vim, &dbs, &vec![true, false]));
    let yay = package("yay", PackageReason::Explicit);
    assert!(!is_upgrade_candidate(&yay, &dbs, &vec![true, true]));
}

#[test]
fn unrequired_strictness() {
    let mut p = package("lib", PackageReason::Depend);
    assert!(is_unrequired(&p, false));
    assert!(is_unrequired(&p, true));
    p.optional_for = vec!["app".to_string()];
    assert!(!is_unrequired(&p, false));
    assert!(is_unrequired(&p, true));
    p.required_by = vec!["other".to_string()];
    assert!(!is_unrequired(&p, false));
    assert!(!is_unrequired(&p, true));
}

#[test]
fn owns_file_matches_whole_path() {
    let mut p = package("foo", PackageReason::Explicit);
    p.files = vec!["usr/".to_string(), "usr/bin/".to_string(), "usr/bin/foo".to_string()];
    assert!(owns_file(&p, "/usr/bin/foo", "/"));
    assert!(!owns_file(&p, "/usr/bin/foobar", "/"));
    assert!(!owns_file(&p, "/usr/bin/fo", "/"));
    assert!(owns_file(&p, "/mnt/usr/bin/foo", "/mnt/"));
    assert!(owns_file(&p, "/usr/bin", "/"));
    assert!(owns_file(&p, "/usr/bin/", "/"));
    assert!(!owns_file(&p, "/usr/bin/foo/", "/"));
}

#[test]
fn filters_combine() {
    let dbs = vec![db("core", &[("bash", "5")])];
    let bash = package("bash", PackageReason::Explicit);
    let mut dep = package("yay", PackageReason::Depend);
    let mut q = query();
    assert!(q.filter_package(&bash, &dbs, &vec![false]));
    q.explicit = true;
    assert!(q.filter_package(&bash, &dbs, &vec![false]));
    assert!(!q.filter_package(&dep, &dbs, &vec![false]));
    q.explicit = false;
    q.deps = true;
    q.foreign = true;
    assert!(q.filter_package(&dep, &dbs, &vec![false]));
    assert!(!q.filter_package(&bash, &dbs, &vec![false]));
    q.unrequired = 1;
    dep.optional_for = vec!["x".to_string()];
    assert!(!q.filter_package(&dep, &dbs, &vec![false]));
    q.unrequired = 2;
    assert!(q.filter_package(&dep, &dbs, &vec![false]));
}

#[test]
fn upgrade_filter_keeps_upgradable() {
    let dbs = vec![db("core", &[("bash", "5")])];
    let bash = package("bash", PackageReason::Explicit);
    let mut q = query();
    q.upgrade = true;
    q.native = true;
    assert!(q.filter_package(&bash, &dbs, &vec![true]));
    assert!(!q.filter_package(&bash, &dbs, &vec![false]));
}

#[test]
fn locality_filter_choice() {
    assert_eq!(PackageLocality::new(true, false), Some(PackageLocality::Native));
    assert_eq!(PackageLocality::new(false, true), Some(PackageLocality::Foreign));
    assert_eq!(PackageLocality::new(false, false), None);
}
