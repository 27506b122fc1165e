use rpac::config::{
    arch, color, download_timeout, no_confirm, parse_mirror_line, parse_mirrorlist, replace_all, syslog,
    verbose, Database, PathConfig, ServerSource,
};
use rpac::package::{Package, PackageReason};
use rpac::utils::{check, count_errors, EnumFormatter, FileProblem, FileStatus, Join, PackageValidation};

#[test]
fn defaults() {
    assert_eq!(verbose(), 0);
    assert!(!no_confirm());
    assert!(!syslog());
    assert!(color());
    assert!(download_timeout());
    assert_eq!(arch(), "x86_64");
    let p = PathConfig::default();
    assert_eq!(p.root, "/");
    assert_eq!(p.database, "/var/lib/pacman");
    assert_eq!(p.gpg, "/etc/pacman.d/gnupg");
    assert_eq!(p.logfile, "/var/log/rpac.log");
    assert_eq!(p.hook_dirs, vec!["/etc/pacman.d/hooks".to_string()]);
    assert_eq!(p.cache_dirs, vec!["/var/cache/pacman/pkg".to_string()]);
}

#[test]
fn mirror_lines() {
    assert_eq!(
        parse_mirror_line("Server = https://m/$repo/os/$arch"),
        Some("https://m/$repo/os/$arch".to_string())
    );
    assert_eq!(parse_mirror_line("Server = Server = x"), Some("x".to_string()));
    assert_eq!(parse_mirror_line("#Server = https://m"), None);
    assert_eq!(parse_mirror_line("Server = #off"), None);
    assert_eq!(parse_mirror_line(""), None);
    assert_eq!(parse_mirror_line("Server = "), None);
    assert_eq!(parse_mirror_line("https://plain"), Some("https://plain".to_string()));
}

#[test]
fn database_servers_in_order() {
    let lines = vec![
        "## mirrors".to_string(),
        "Server = https://a".to_string(),
        "".to_string(),
        "Server = https://b".to_string(),
    ];
    assert_eq!(parse_mirrorlist(&lines), vec!["https://a".to_string(), "https://b".to_string()]);
    let d = Database::new(
        "core".to_string(),
        vec![
            ServerSource::Url("https://first".to_string()),
            ServerSource::Mirrorlist(lines),
            ServerSource::Url("https://last".to_string()),
        ],
        1,
        2,
        3,
    );
    assert_eq!(d.name, "core");
    assert_eq!(
        d.servers,
        vec![
            "https://first".to_string(),
            "https://a".to_string(),
            "https://b".to_string(),
            "https://last".to_string()
        ]
    );
    assert_eq!((d.usage, d.siglevel, d.siglevel_mask), (1, 2, 3));
}

#[test]
fn join_lists() {
    let v = vec!["a".to_string(), "b".to_string(), "c".to_string()];
    assert_eq!(Join::join(&v, " "), "a b c");
    assert_eq!(Join::join(&vec!["x".to_string()], ", "), "x");
    assert_eq!(Join::join(&Vec::<String>::new(), " "), "None");
}

#[test]
fn formatter_words() {
    assert_eq!(EnumFormatter::from(PackageReason::Explicit).to_string(), "Explicit");
    assert_eq!(EnumFormatter::from(PackageReason::Depend).to_string(), "Dependency");
    let v = PackageValidation { none: false, md5sum: true, sha256sum: true, signature: true };
    assert_eq!(EnumFormatter::from(v).to_string(), "MD5 SHA256 Signature");
    let v = PackageValidation { none: true, md5sum: false, sha256sum: false, signature: false };
    assert_eq!(EnumFormatter::from(v).to_string(), "None");
    let v = PackageValidation { none: false, md5sum: false, sha256sum: false, signature: false };
    assert_eq!(EnumFormatter::from(v).to_string(), "");
}

#[test]
fn file_check_problems() {
    let p = Package {
        name: "p".to_string(),
        version: "1".to_string(),
        reason: PackageReason::Explicit,
        files: vec!["etc/".to_string(), "etc/p.conf".to_string(), "usr/".to_string(), "bin/p".to_string()],
        required_by: vec![],
        optional_for: vec![],
        groups: vec![],
    };
    let statuses = vec![FileStatus::Directory, FileStatus::Directory, FileStatus::File, FileStatus::Missing];
    let problems = check(&p, &statuses);
    assert_eq!(
        problems,
        vec![None, Some(FileProblem::TypeMismatch), Some(FileProblem::TypeMismatch), Some(FileProblem::Missing)]
    );
    assert_eq!(count_errors(&problems), 3);
}

#[test]
fn server_urls_expand_placeholders() {
    let d = Database::new(
        "extra".to_string(),
        vec![
            ServerSource::Url("https://m/$repo/os/$arch".to_string()),
            ServerSource::Url("https://plain/".to_string()),
            ServerSource::Url("$repo$repo-$ar$arch".to_string()),
        ],
        0,
        0,
        0,
    );
    assert_eq!(
        d.server_urls("aarch64"),
        vec![
            "https://m/extra/os/aarch64".to_string(),
            "https://plain/".to_string(),
            "extraextra-$araarch64".to_string(),
        ]
    );
}

#[test]
fn replace_all_is_left_to_right() {
    assert_eq!(replace_all("aaa", "aa", "b"), "ba");
    assert_eq!(replace_all("", "x", "y"), "");
    assert_eq!(replace_all("xyx", "x", ""), "y");
}
