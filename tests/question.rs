use rpac::callbacks::question::{Answer, Prompt, Question, QuestionCallback, Reply, Resolution};

fn conflict() -> Question {
    Question::Conflict { package1: "a".to_string(), package2: "b".to_string() }
}

fn remove_pkgs() -> Question {
    Question::RemovePkgs { packages: vec!["x".to_string(), "y".to_string()] }
}

#[test]
fn forced_policy_accepts_destructive_answers() {
    let mut cb = QuestionCallback::with_flags(true, true);
    assert_eq!(cb.update(&conflict()), Resolution::Answered(Answer::Remove(true)));
    assert_eq!(cb.update(&remove_pkgs()), Resolution::Answered(Answer::Skip(true)));
}

#[test]
fn unforced_policy_declines_destructive_answers() {
    let mut cb = QuestionCallback::with_flags(true, false);
    assert_eq!(cb.update(&conflict()), Resolution::Answered(Answer::Remove(false)));
    assert_eq!(cb.update(&remove_pkgs()), Resolution::Answered(Answer::Skip(false)));
}

#[test]
fn policy_accepts_optional_confirmations() {
    let mut cb = QuestionCallback::with_flags(true, false);
    let q = Question::InstallIgnorepkg { pkg: "p".to_string() };
    assert_eq!(cb.update(&q), Resolution::Answered(Answer::Install(true)));
    let q = Question::ImportKey { fingerprint: "F".to_string(), uid: "U".to_string() };
    assert_eq!(cb.update(&q), Resolution::Answered(Answer::Import(true)));
    let q = Question::Replace {
        oldpkg: "o".to_string(),
        newdb: "core".to_string(),
        newpkg: "n".to_string(),
    };
    assert_eq!(cb.update(&q), Resolution::Answered(Answer::Replace(true)));
    let q = Question::Corrupted { filepath: "f".to_string(), reason: "r".to_string() };
    assert_eq!(cb.update(&q), Resolution::Answered(Answer::Remove(false)));
    let q = Question::SelectProvider {
        depend: "sh".to_string(),
        providers: vec!["bash".to_string(), "dash".to_string()],
    };
    assert_eq!(cb.update(&q), Resolution::Answered(Answer::Provider(0)));
}

#[test]
fn conflict_prompt_names_both_packages() {
    let mut cb = QuestionCallback::new();
    assert_eq!(
        cb.update(&conflict()),
        Resolution::Ask {
            preamble: vec![],
            prompt: Prompt::Confirm {
                text: "a and b are in conflict. Remove a?".to_string(),
                default: Some(false),
            },
        }
    );
}

#[test]
fn forced_prompt_defaults_to_accept() {
    let mut cb = QuestionCallback::with_flags(false, true);
    match cb.update(&conflict()) {
        Resolution::Ask { prompt: Prompt::Confirm { default, .. }, .. } => {
            assert_eq!(default, Some(true))
        }
        other => panic!("unexpected {:?}", other),
    }
}

#[test]
fn remove_pkgs_lists_packages_then_asks_once() {
    let mut cb = QuestionCallback::new();
    assert_eq!(
        cb.update(&remove_pkgs()),
        Resolution::Ask {
            preamble: vec![
                "The following package[s] cannot be upgraded due to unresolvable dependencies:"
                    .to_string(),
                "x".to_string(),
                "y".to_string(),
            ],
            prompt: Prompt::Confirm {
                text: "Do you want to skip the above package for this upgrade?".to_string(),
                default: Some(false),
            },
        }
    );
}

#[test]
fn prompts_for_each_confirmation() {
    let mut cb = QuestionCallback::new();
    let cases = [
        (Question::InstallIgnorepkg { pkg: "vim".to_string() }, "vim is in IgnorePkg. Install anyway?", None),
        (
            Question::Replace {
                oldpkg: "old".to_string(),
                newdb: "extra".to_string(),
                newpkg: "new".to_string(),
            },
            "Replace old with extra/new",
            None,
        ),
        (
            Question::Corrupted { filepath: "/c/p.pkg".to_string(), reason: "bad".to_string() },
            "File /c/p.pkg is corrupted (bad). Remove it?",
            Some(false),
        ),
        (
            Question::ImportKey { fingerprint: "ABCD".to_string(), uid: "Me <m@e>".to_string() },
            "Import PGP key ABCD \"Me <m@e>\"?",
            None,
        ),
    ];
    for (q, text, default) in cases {
        assert_eq!(
            cb.update(&q),
            Resolution::Ask {
                preamble: vec![],
                prompt: Prompt::Confirm { text: text.to_string(), default },
            }
        );
    }
}

#[test]
fn provider_menu_lists_candidates() {
    let mut cb = QuestionCallback::new();
    let q = Question::SelectProvider {
        depend: "sh".to_string(),
        providers: vec!["bash".to_string(), "dash".to_string(), "zsh".to_string()],
    };
    assert_eq!(
        cb.update(&q),
        Resolution::Ask {
            preamble: vec![],
            prompt: Prompt::Select {
                text: "There are 3 providers available for sh:".to_string(),
                items: vec!["bash".to_string(), "dash".to_string(), "zsh".to_string()],
            },
        }
    );
}

#[test]
fn replies_fill_the_right_slot() {
    let q = Question::SelectProvider {
        depend: "sh".to_string(),
        providers: vec!["bash".to_string(), "dash".to_string()],
    };
    assert_eq!(QuestionCallback::reply(&q, Reply::Select(1)), Some(Answer::Provider(1)));
    assert_eq!(QuestionCallback::reply(&q, Reply::Select(2)), None);
    assert_eq!(QuestionCallback::reply(&q, Reply::Confirm(true)), None);
    assert_eq!(QuestionCallback::reply(&conflict(), Reply::Confirm(true)), Some(Answer::Remove(true)));
    assert_eq!(QuestionCallback::reply(&remove_pkgs(), Reply::Confirm(false)), Some(Answer::Skip(false)));
    assert_eq!(QuestionCallback::reply(&conflict(), Reply::Select(0)), None);
}

#[test]
fn registry_starts_fresh() {
    let r = rpac::callbacks::init(3, true, false);
    assert!(r.question.non_interactive);
    assert!(!r.question.force);
    assert_eq!(r.download.db_count, 3);
    assert_eq!(r.download.current_db, 0);
    assert_eq!(r.progress.bar.length, 100);
    assert_eq!(r.progress.last_step, None);
}
