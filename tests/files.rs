use rpac::files::FileMatcher;

fn strings(v: &[&str]) -> Vec<String> {
    v.iter().map(|s| s.to_string()).collect()
}

#[test]
fn matching_files_filters_by_any_pattern() {
    let m = FileMatcher::new(&strings(&["bin/vi", r"\.conf$"])).unwrap();
    let files = strings(&["usr/bin/vim", "usr/share/doc/", "etc/vimrc.conf", "etc/x.conf.d/"]);
    assert_eq!(m.matching_files(&files), strings(&["usr/bin/vim", "etc/vimrc.conf"]));
}

#[test]
fn no_pattern_matches_nothing() {
    let m = FileMatcher::new(&Vec::new()).unwrap();
    assert!(m.matching_files(&strings(&["a", ""])).is_empty());
}

#[test]
fn invalid_pattern_is_rejected() {
    assert!(FileMatcher::new(&strings(&["ok", "(unclosed"])).is_err());
}
