//! Rendering helpers for package information, and the file check.
use crate::package::{Package, PackageReason};
use crate::text::{join_with, joined, views};
use vstd::prelude::*;

verus! {

/// `items` joined by `sep`, or "None" when there are none.
pub open spec fn joined_or_none(items: Seq<Seq<char>>, sep: Seq<char>) -> Seq<char> {
    if items.len() == 0 {
        "None"@
    } else {
        joined(items, sep)
    }
}

/// Lists that render as their items joined by a separator.
pub trait Join {
    /// The items, as characters.
    spec fn items(&self) -> Seq<Seq<char>>;

    /// The items joined by `sep`; "None" when there are none.
    fn join(&self, sep: &str) -> (r: String)
        ensures
            r@ == joined_or_none(self.items(), sep@),
    ;
}

impl Join for Vec<String> {
    open spec fn items(&self) -> Seq<Seq<char>> {
        views(self@)
    }

    fn join(&self, sep: &str) -> (r: String) {
        if self.len() == 0 {
            String::from_str("None")
        } else {
            join_with(self, sep)
        }
    }
}

/// How a package's integrity was established.
#[derive(Clone, Copy, Debug, PartialEq, Eq, Structural)]
pub struct PackageValidation {
    pub none: bool,
    pub md5sum: bool,
    pub sha256sum: bool,
    pub signature: bool,
}

/// A value that renders as words for package information.
#[derive(Clone, Copy, Debug, PartialEq, Eq, Structural)]
pub enum EnumFormatter {
    Reason(PackageReason),
    Validation(PackageValidation),
}

impl From<PackageReason> for EnumFormatter {
    fn from(reason: PackageReason) -> (r: Self) {
        EnumFormatter::Reason(reason)
    }
}

impl vstd::std_specs::convert::FromSpecImpl<PackageReason> for EnumFormatter {
    open spec fn obeys_from_spec() -> bool {
        true
    }

    open spec fn from_spec(v: PackageReason) -> Self {
        EnumFormatter::Reason(v)
    }
}

impl From<PackageValidation> for EnumFormatter {
    fn from(validation: PackageValidation) -> (r: Self) {
        EnumFormatter::Validation(validation)
    }
}

impl vstd::std_specs::convert::FromSpecImpl<PackageValidation> for EnumFormatter {
    open spec fn obeys_from_spec() -> bool {
        true
    }

    open spec fn from_spec(v: PackageValidation) -> Self {
        EnumFormatter::Validation(v)
    }
}

/// The words naming each way of validation that `v` holds, in a fixed order.
pub open spec fn validation_words(v: PackageValidation) -> Seq<Seq<char>> {
    (if v.md5sum {
        seq!["MD5"@]
    } else {
        Seq::empty()
    }) + (if v.sha256sum {
        seq!["SHA256"@]
    } else {
        Seq::empty()
    }) + (if v.signature {
        seq!["Signature"@]
    } else {
        Seq::empty()
    }) + (if v.none {
        seq!["None"@]
    } else {
        Seq::empty()
    })
}

/// The text of a formatter.
pub open spec fn rendered(f: EnumFormatter) -> Seq<char> {
    match f {
        EnumFormatter::Reason(PackageReason::Explicit) => "Explicit"@,
        EnumFormatter::Reason(PackageReason::Depend) => "Dependency"@,
        EnumFormatter::Validation(v) => joined(validation_words(v), " "@),
    }
}

fn push_word(words: &mut Vec<String>, word: &str)
    ensures
        views(final(words)@) == views(old(words)@).push(word@),
{
    let ghost before = words@;
    words.push(String::from_str(word));
    assert(views(words@) =~= views(before).push(word@));
}

impl EnumFormatter {
    /// The text shown for the value.
    pub fn to_string(&self) -> (r: String)
        ensures
            r@ == rendered(*self),
    {
        match self {
            EnumFormatter::Reason(PackageReason::Explicit) => String::from_str("Explicit"),
            EnumFormatter::Reason(PackageReason::Depend) => String::from_str("Dependency"),
            EnumFormatter::Validation(v) => {
                let mut words: Vec<String> = Vec::new();
                assert(views(words@) =~= Seq::<Seq<char>>::empty());
                if v.md5sum {
                    push_word(&mut words, "MD5");
                }
                if v.sha256sum {
                    push_word(&mut words, "SHA256");
                }
                if v.signature {
                    push_word(&mut words, "Signature");
                }
                if v.none {
                    push_word(&mut words, "None");
                }
                assert(views(words@) =~= validation_words(*v));
                join_with(&words, " ")
            },
        }
    }
}

/// What is on disk at the place of an installed file.
#[derive(Clone, Copy, Debug, PartialEq, Eq, Structural)]
pub enum FileStatus {
    Missing,
    File,
    Directory,
}

/// What is wrong with an installed file.
#[derive(Clone, Copy, Debug, PartialEq, Eq, Structural)]
pub enum FileProblem {
    /// Nothing is there.
    Missing,
    /// A directory where a file belongs, or the other way round.
    TypeMismatch,
}

/// Whether a recorded path names a directory (it ends in a slash).
pub open spec fn names_directory(path: Seq<char>) -> bool {
    path.len() > 0 && path.last() == '/'
}

/// The problem with a file recorded as `path` and found as `status`.
pub open spec fn problem_of(path: Seq<char>, status: FileStatus) -> Option<FileProblem> {
    match status {
        FileStatus::Missing => Some(FileProblem::Missing),
        FileStatus::File => if names_directory(path) {
            Some(FileProblem::TypeMismatch)
        } else {
            None
        },
        FileStatus::Directory => if names_directory(path) {
            None
        } else {
            Some(FileProblem::TypeMismatch)
        },
    }
}

/// Checks each file of `package` against what was found on disk for it
/// (`statuses[i]` for file `i`): the problem of each file, `None` where it
/// is sound. The number of errors is the number of problems.
pub fn check(package: &Package, statuses: &Vec<FileStatus>) -> (r: Vec<Option<FileProblem>>)
    requires
        statuses@.len() == package.files@.len(),
    ensures
        r@.len() == package.files@.len(),
        forall|i: int|
            0 <= i < r@.len() ==> #[trigger] r@[i] == problem_of(
                package.files@[i]@,
                statuses@[i],
            ),
{
    let mut r: Vec<Option<FileProblem>> = Vec::new();
    let mut i: usize = 0;
    while i < package.files.len()
        invariant
            i <= package.files@.len(),
            statuses@.len() == package.files@.len(),
            r@.len() == i,
            forall|j: int|
                0 <= j < i ==> #[trigger] r@[j] == problem_of(package.files@[j]@, statuses@[j]),
        decreases package.files.len() - i,
    {
        let path = package.files[i].as_str();
        let len = path.unicode_len();
        let is_dir = len > 0 && path.get_char(len - 1) == '/';
        let problem = match statuses[i] {
            FileStatus::Missing => Some(FileProblem::Missing),
            FileStatus::File => if is_dir {
                Some(FileProblem::TypeMismatch)
            } else {
                None
            },
            FileStatus::Directory => if is_dir {
                None
            } else {
                Some(FileProblem::TypeMismatch)
            },
        };
        r.push(problem);
        i += 1;
    }
    r
}

/// The number of files with a problem.
pub fn count_errors(problems: &Vec<Option<FileProblem>>) -> (n: usize)
    ensures
        n == problems@.filter(|p: Option<FileProblem>| p is Some).len(),
{
    let mut n: usize = 0;
    let mut i: usize = 0;
    while i < problems.len()
        invariant
            i <= problems@.len(),
            n == problems@.subrange(0, i as int).filter(|p: Option<FileProblem>| p is Some).len(),
            n <= i,
        decreases problems.len() - i,
    {
        let ghost s = problems@.subrange(0, i + 1);
        assert(s.drop_last() =~= problems@.subrange(0, i as int));
        reveal(Seq::filter);
        if problems[i].is_some() {
            n = n + 1;
        }
        i += 1;
    }
    assert(problems@.subrange(0, problems@.len() as int) =~= problems@);
    n
}

} // verus!
