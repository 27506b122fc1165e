//! Turns the questions that the package database library asks in the middle
//! of a transaction into answers: fixed policy answers when running without
//! confirmation, otherwise a prompt for the user and a check of the reply.
use crate::text::{concat2, copy_strings, decimal, push_decimal, views};
use vstd::prelude::*;

verus! {

/// A question raised during a transaction.
#[derive(Clone, Debug, PartialEq, Eq)]
pub enum Question {
    /// A package listed in IgnorePkg is about to be installed.
    InstallIgnorepkg { pkg: String },
    /// `oldpkg` is to be replaced by `newpkg` from database `newdb`.
    Replace { oldpkg: String, newdb: String, newpkg: String },
    /// Two packages conflict; the answer says whether to remove `package1`.
    Conflict { package1: String, package2: String },
    /// A package file in the cache is corrupted.
    Corrupted { filepath: String, reason: String },
    /// These packages cannot be upgraded because of unresolvable dependencies.
    RemovePkgs { packages: Vec<String> },
    /// Several packages provide `depend`; one of `providers` must be chosen.
    SelectProvider { depend: String, providers: Vec<String> },
    /// A PGP key is missing from the keyring.
    ImportKey { fingerprint: String, uid: String },
}

/// The answer slot that a question fills.
#[derive(Clone, Copy, Debug, PartialEq, Eq)]
pub enum Answer {
    Install(bool),
    Replace(bool),
    Remove(bool),
    Skip(bool),
    Import(bool),
    /// Zero-based index into the question's providers.
    Provider(usize),
}

/// What to ask the user.
#[derive(Clone, Debug, PartialEq, Eq)]
pub enum Prompt {
    /// A yes/no question; `default` is taken when the user just confirms.
    Confirm { text: String, default: Option<bool> },
    /// A menu; the reply is the index of the chosen item.
    Select { text: String, items: Vec<String> },
}

/// How a question is settled.
#[derive(Clone, Debug, PartialEq, Eq)]
pub enum Resolution {
    /// Settled by policy, without asking.
    Answered(Answer),
    /// Print `preamble` line by line, then ask `prompt`.
    Ask { preamble: Vec<String>, prompt: Prompt },
}

/// The user's reply to a prompt.
#[derive(Clone, Copy, Debug, PartialEq, Eq)]
pub enum Reply {
    Confirm(bool),
    Select(usize),
}

/// Decides the answers to questions.
#[derive(Clone, Copy, Debug, PartialEq, Eq)]
pub struct QuestionCallback {
    /// Answer by fixed policy instead of asking.
    pub non_interactive: bool,
    /// Accept destructive confirmations (conflicts, skipped upgrades).
    pub force: bool,
}

impl Question {
    /// A menu question must offer at least one provider.
    pub open spec fn well_formed(self) -> bool {
        match self {
            Question::SelectProvider { providers, .. } => providers@.len() > 0,
            _ => true,
        }
    }

    /// The slot that a yes/no reply fills, or the chosen provider.
    pub open spec fn slot(self, yes: bool, index: usize) -> Answer {
        match self {
            Question::InstallIgnorepkg { .. } => Answer::Install(yes),
            Question::Replace { .. } => Answer::Replace(yes),
            Question::Conflict { .. } => Answer::Remove(yes),
            Question::Corrupted { .. } => Answer::Remove(yes),
            Question::RemovePkgs { .. } => Answer::Skip(yes),
            Question::SelectProvider { .. } => Answer::Provider(index),
            Question::ImportKey { .. } => Answer::Import(yes),
        }
    }
}

/// The line printed before the list of packages that cannot be upgraded.
pub open spec fn remove_pkgs_header() -> Seq<char> {
    "The following package[s] cannot be upgraded due to unresolvable dependencies:"@
}

/// The confirmation asked after that list.
pub open spec fn remove_pkgs_prompt() -> Seq<char> {
    "Do you want to skip the above package for this upgrade?"@
}

/// The text of the prompt for `q`.
pub open spec fn prompt_text(q: Question) -> Seq<char> {
    match q {
        Question::InstallIgnorepkg { pkg } => pkg@ + " is in IgnorePkg. Install anyway?"@,
        Question::Replace { oldpkg, newdb, newpkg } => "Replace "@ + oldpkg@ + " with "@
            + newdb@ + "/"@ + newpkg@,
        Question::Conflict { package1, package2 } => package1@ + " and "@ + package2@
            + " are in conflict. Remove "@ + package1@ + "?"@,
        Question::Corrupted { filepath, reason } => "File "@ + filepath@ + " is corrupted ("@
            + reason@ + "). Remove it?"@,
        Question::RemovePkgs { .. } => remove_pkgs_prompt(),
        Question::SelectProvider { depend, providers } => "There are "@ + decimal(
            providers@.len(),
        ) + " providers available for "@ + depend@ + ":"@,
        Question::ImportKey { fingerprint, uid } => "Import PGP key "@ + fingerprint@ + " \""@
            + uid@ + "\"?"@,
    }
}

/// The lines printed before the prompt for `q`.
pub open spec fn preamble(q: Question) -> Seq<Seq<char>> {
    match q {
        Question::RemovePkgs { packages } => seq![remove_pkgs_header()] + views(packages@),
        _ => Seq::empty(),
    }
}

impl QuestionCallback {
    /// The answer taken when the user just confirms a yes/no prompt; `None`
    /// where the user has to choose.
    pub open spec fn default_for(self, q: Question) -> Option<bool> {
        match q {
            Question::Conflict { .. } => Some(self.force),
            Question::RemovePkgs { .. } => Some(self.force),
            Question::Corrupted { .. } => Some(false),
            _ => None,
        }
    }

    /// The answer given without asking: optional confirmations accept, a
    /// conflict removal or a skipped upgrade is accepted only when forced, a
    /// corrupted package file is kept, and the first provider wins.
    pub open spec fn policy(self, q: Question) -> Answer {
        match q {
            Question::Conflict { .. } => Answer::Remove(self.force),
            Question::RemovePkgs { .. } => Answer::Skip(self.force),
            Question::Corrupted { .. } => Answer::Remove(false),
            _ => q.slot(true, 0),
        }
    }

    /// `r` asks exactly what is to be asked for `q`.
    pub open spec fn asks(self, q: Question, r: Resolution) -> bool {
        match r {
            Resolution::Ask { preamble: pre, prompt } => views(pre@) == preamble(q) && match q {
                Question::SelectProvider { providers, .. } => match prompt {
                    Prompt::Select { text, items } => text@ == prompt_text(q) && items@
                        == providers@,
                    _ => false,
                },
                _ => match prompt {
                    Prompt::Confirm { text, default } => text@ == prompt_text(q) && default
                        == self.default_for(q),
                    _ => false,
                },
            },
            _ => false,
        }
    }

    /// The answer that `reply` gives to `q`, if it is a reply to it at all.
    pub open spec fn reply_spec(q: Question, reply: Reply) -> Option<Answer> {
        match (q, reply) {
            (Question::SelectProvider { providers, .. }, Reply::Select(i)) => if i
                < providers@.len() {
                Some(Answer::Provider(i))
            } else {
                None
            },
            (Question::SelectProvider { .. }, Reply::Confirm(_)) => None,
            (_, Reply::Confirm(yes)) => Some(q.slot(yes, 0)),
            (_, Reply::Select(_)) => None,
        }
    }

    /// An interactive resolver that does not force destructive answers.
    pub fn new() -> (r: Self)
        ensures
            !r.non_interactive,
            !r.force,
    {
        QuestionCallback { non_interactive: false, force: false }
    }

    /// A resolver with the given confirmation and force settings.
    pub fn with_flags(non_interactive: bool, force: bool) -> (r: Self)
        ensures
            r.non_interactive == non_interactive,
            r.force == force,
    {
        QuestionCallback { non_interactive, force }
    }

    /// Settles `question`: by policy when not interactive, otherwise by
    /// describing the prompt to show.
    pub fn update(&mut self, question: &Question) -> (r: Resolution)
        requires
            question.well_formed(),
        ensures
            *final(self) == *old(self),
            old(self).non_interactive ==> r == Resolution::Answered(old(self).policy(*question)),
            !old(self).non_interactive ==> old(self).asks(*question, r),
    {
        if self.non_interactive {
            let a = match question {
                Question::InstallIgnorepkg { .. } => Answer::Install(true),
                Question::Replace { .. } => Answer::Replace(true),
                Question::Conflict { .. } => Answer::Remove(self.force),
                Question::Corrupted { .. } => Answer::Remove(false),
                Question::RemovePkgs { .. } => Answer::Skip(self.force),
                Question::SelectProvider { .. } => Answer::Provider(0),
                Question::ImportKey { .. } => Answer::Import(true),
            };
            return Resolution::Answered(a);
        }
        let mut preamble: Vec<String> = Vec::new();
        let prompt = match question {
            Question::InstallIgnorepkg { pkg } => {
                let text = concat2(pkg.as_str(), " is in IgnorePkg. Install anyway?");
                Prompt::Confirm { text, default: None }
            },
            Question::Replace { oldpkg, newdb, newpkg } => {
                let mut text = String::from_str("Replace ");
                text.append(oldpkg.as_str());
                text.append(" with ");
                text.append(newdb.as_str());
                text.append("/");
                text.append(newpkg.as_str());
                Prompt::Confirm { text, default: None }
            },
            Question::Conflict { package1, package2 } => {
                let mut text = String::from_str(package1.as_str());
                text.append(" and ");
                text.append(package2.as_str());
                text.append(" are in conflict. Remove ");
                text.append(package1.as_str());
                text.append("?");
                Prompt::Confirm { text, default: Some(self.force) }
            },
            Question::Corrupted { filepath, reason } => {
                let mut text = String::from_str("File ");
                text.append(filepath.as_str());
                text.append(" is corrupted (");
                text.append(reason.as_str());
                text.append("). Remove it?");
                Prompt::Confirm { text, default: Some(false) }
            },
            Question::RemovePkgs { packages } => {
                preamble.push(
                    String::from_str(
                        "The following package[s] cannot be upgraded due to unresolvable dependencies:",
                    ),
                );
                let mut i: usize = 0;
                while i < packages.len()
                    invariant
                        i <= packages.len(),
                        views(preamble@) == seq![remove_pkgs_header()] + views(
                            packages@.subrange(0, i as int),
                        ),
                    decreases packages.len() - i,
                {
                    let ghost before = preamble@;
                    preamble.push(packages[i].clone());
                    assert(views(preamble@) =~= views(before).push(packages@[i as int]@));
                    assert(packages@.subrange(0, i + 1) =~= packages@.subrange(0, i as int).push(
                        packages@[i as int],
                    ));
                    assert(views(packages@.subrange(0, i + 1)) =~= views(
                        packages@.subrange(0, i as int),
                    ).push(packages@[i as int]@));
                    i += 1;
                    assert(views(preamble@) =~= seq![remove_pkgs_header()] + views(
                        packages@.subrange(0, i as int),
                    ));
                }
                assert(packages@.subrange(0, packages@.len() as int) =~= packages@);
                let text = String::from_str(
                    "Do you want to skip the above package for this upgrade?",
                );
                Prompt::Confirm { text, default: Some(self.force) }
            },
            Question::SelectProvider { depend, providers } => {
                let mut text = String::from_str("There are ");
                push_decimal(&mut text, providers.len() as u64);
                text.append(" providers available for ");
                text.append(depend.as_str());
                text.append(":");
                Prompt::Select { text, items: copy_strings(providers) }
            },
            Question::ImportKey { fingerprint, uid } => {
                let mut text = String::from_str("Import PGP key ");
                text.append(fingerprint.as_str());
                text.append(" \"");
                text.append(uid.as_str());
                text.append("\"?");
                Prompt::Confirm { text, default: None }
            },
        };
        proof {
            if !(question is RemovePkgs) {
                assert(views(preamble@) =~= Seq::<Seq<char>>::empty());
            }
        }
        Resolution::Ask { preamble, prompt }
    }

    /// The answer that the user's `reply` gives to `question`; `None` when
    /// the reply does not fit the question (a yes/no reply to a menu, a menu
    /// choice to a yes/no question, or an index past the last provider).
    pub fn reply(question: &Question, reply: Reply) -> (r: Option<Answer>)
        ensures
            r == Self::reply_spec(*question, reply),
    {
        match (question, reply) {
            (Question::SelectProvider { providers, .. }, Reply::Select(i)) => {
                if i < providers.len() {
                    Some(Answer::Provider(i))
                } else {
                    None
                }
            },
            (Question::SelectProvider { .. }, Reply::Confirm(_)) => None,
            (Question::InstallIgnorepkg { .. }, Reply::Confirm(yes)) => Some(Answer::Install(yes)),
            (Question::Replace { .. }, Reply::Confirm(yes)) => Some(Answer::Replace(yes)),
            (Question::Conflict { .. }, Reply::Confirm(yes)) => Some(Answer::Remove(yes)),
            (Question::Corrupted { .. }, Reply::Confirm(yes)) => Some(Answer::Remove(yes)),
            (Question::RemovePkgs { .. }, Reply::Confirm(yes)) => Some(Answer::Skip(yes)),
            (Question::ImportKey { .. }, Reply::Confirm(yes)) => Some(Answer::Import(yes)),
            (_, Reply::Select(_)) => None,
        }
    }
}

} // verus!
