use rpac::callbacks::event::{
    added_items, Event, EventCallback, EventType, HookWhen, Narration, OpPackage,
    PackageOperation,
};
use rpac::callbacks::logging::{LogCallback, LogLevel, Severity};

fn line(s: &str) -> Vec<Narration> {
    vec![Narration::Line(s.to_string())]
}

fn pkg(name: &str, deps: &[&str]) -> OpPackage {
    OpPackage {
        name: name.to_string(),
        optdepends: deps.iter().map(|d| d.to_string()).collect(),
    }
}

#[test]
fn hooks_are_announced() {
    let mut cb = EventCallback::new();
    assert_eq!(
        cb.update(&Event::Hook(HookWhen::PreTransaction)),
        line("Running pre-transaction hooks...")
    );
    assert_eq!(
        cb.update(&Event::Hook(HookWhen::PostTransaction)),
        line("Running post-transaction hooks...")
    );
}

#[test]
fn hook_steps_are_zero_padded() {
    let mut cb = EventCallback::new();
    let e = Event::HookRun { position: 3, total: 12, desc: "Updating icons".to_string() };
    assert_eq!(cb.update(&e), line("03/12 Updating icons"));
    let e = Event::HookRun { position: 100, total: 100, desc: "x".to_string() };
    assert_eq!(cb.update(&e), line("100/100 x"));
}

#[test]
fn generic_events_are_narrated() {
    let mut cb = EventCallback::new();
    let cases = [
        (EventType::CheckDepsStart, "checking dependencies..."),
        (EventType::ResolveDepsStart, "resolving dependencies..."),
        (EventType::InterConflictsStart, "looking for conflicting packages..."),
        (EventType::TransactionStart, "Processing package changes..."),
        (EventType::KeyDownloadStart, "downloading required keys"),
        (EventType::PkgDownloadStart, "Retrieving packages..."),
    ];
    for (t, text) in cases {
        assert_eq!(cb.update(&Event::Other(t)), line(text));
    }
    assert!(cb.update(&Event::Other(EventType::Unnarrated)).is_empty());
    assert!(cb.update(&Event::PkgDownload).is_empty());
}

#[test]
fn data_events_are_narrated() {
    let mut cb = EventCallback::new();
    assert_eq!(
        cb.update(&Event::ScriptletInfo("hello\n".to_string())),
        vec![Narration::Raw("hello\n".to_string())]
    );
    assert_eq!(
        cb.update(&Event::OptDepRemoval { pkg: "a".to_string(), optdep: "b".to_string() }),
        line("a optionally requires b")
    );
    assert_eq!(
        cb.update(&Event::DatabaseMissing { dbname: "core".to_string() }),
        line("database file for 'core' is missing (use '[S|F]y' to download)")
    );
    assert_eq!(
        cb.update(&Event::PacnewCreated { file: "/etc/x.conf".to_string() }),
        line("/etc/x.conf installed as /etc/x.conf.pacnew")
    );
    assert_eq!(
        cb.update(&Event::PacsaveCreated { file: "/etc/y".to_string() }),
        line("/etc/y saved as /etc/y.pacsave")
    );
}

#[test]
fn install_lists_optional_dependencies() {
    let mut cb = EventCallback::new();
    let e = Event::PackageOperation(PackageOperation::Install(pkg("vlc", &["a", "b"])));
    assert_eq!(cb.update(&e), line("New optional dependencies for vlc: a, b"));
    let e = Event::PackageOperation(PackageOperation::Install(pkg("vlc", &[])));
    assert!(cb.update(&e).is_empty());
}

#[test]
fn upgrade_lists_only_new_optional_dependencies() {
    let mut cb = EventCallback::new();
    let e = Event::PackageOperation(PackageOperation::Upgrade(
        pkg("mpv", &["a", "c", "d"]),
        pkg("mpv", &["a", "b"]),
    ));
    assert_eq!(cb.update(&e), line("New optional dependencies for mpv: c, d"));
    let e = Event::PackageOperation(PackageOperation::Downgrade(
        pkg("mpv", &["a"]),
        pkg("mpv", &["a", "b"]),
    ));
    assert!(cb.update(&e).is_empty());
    let e = Event::PackageOperation(PackageOperation::Reinstall(pkg("x", &["n"]), pkg("x", &[])));
    assert!(cb.update(&e).is_empty());
    let e = Event::PackageOperation(PackageOperation::Remove(pkg("x", &["n"])));
    assert!(cb.update(&e).is_empty());
}

#[test]
fn added_items_keeps_order() {
    let old = vec!["b".to_string()];
    let new = vec!["c".to_string(), "b".to_string(), "a".to_string()];
    assert_eq!(added_items(&old, &new), vec!["c".to_string(), "a".to_string()]);
}

#[test]
fn log_levels_map_to_severities() {
    let cb = LogCallback::new();
    assert_eq!(cb.update(LogLevel::Function, "f\n"), (Severity::Trace, "f".to_string()));
    assert_eq!(cb.update(LogLevel::Debug, "d"), (Severity::Debug, "d".to_string()));
    assert_eq!(cb.update(LogLevel::Warning, "w\n\n"), (Severity::Warn, "w".to_string()));
    assert_eq!(cb.update(LogLevel::Error, "a\nb\n"), (Severity::Error, "a\nb".to_string()));
    assert_eq!(cb.update(LogLevel::Error, "\n"), (Severity::Error, String::new()));
}

#[test]
fn log_bits_decode() {
    assert_eq!(LogLevel::from_bits(1), Some(LogLevel::Error));
    assert_eq!(LogLevel::from_bits(2), Some(LogLevel::Warning));
    assert_eq!(LogLevel::from_bits(4), Some(LogLevel::Debug));
    assert_eq!(LogLevel::from_bits(8), Some(LogLevel::Function));
    assert_eq!(LogLevel::from_bits(0), None);
    assert_eq!(LogLevel::from_bits(3), None);
}
