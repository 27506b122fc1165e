//! Searching package file lists with a set of regular expressions.
use crate::text::views;
use vstd::prelude::*;

verus! {

#[verifier::external_type_specification]
#[verifier::external_body]
pub struct ExRegexSet(regex::RegexSet);

#[verifier::external_type_specification]
#[verifier::external_body]
pub struct ExRegexError(regex::Error);

/// The patterns that a compiled set was built from, in order.
pub uninterp spec fn compiled_patterns(set: regex::RegexSet) -> Seq<Seq<char>>;

/// Whether a set was built with the default options (case-sensitive,
/// default limits), as `regex::RegexSet::new` builds it.
pub uninterp spec fn default_options(set: regex::RegexSet) -> bool;

/// Whether every item of `patterns` is a valid regular expression that the
/// default limits accept.
pub uninterp spec fn patterns_compile(patterns: Seq<Seq<char>>) -> bool;

/// Whether some regular expression of `patterns` matches somewhere in `text`.
pub uninterp spec fn any_pattern_matches(patterns: Seq<Seq<char>>, text: Seq<char>) -> bool;

/// Relies on `regex::RegexSet::new`: when every pattern compiles, the set
/// holds the given patterns, in order; whether they compile depends on the
/// patterns alone, and no patterns at all always compile.
#[verifier::external_body]
fn compile_set(patterns: &Vec<String>) -> (r: Result<regex::RegexSet, regex::Error>)
    ensures
        r is Ok <==> patterns_compile(views(patterns@)),
        r matches Ok(set) ==> compiled_patterns(set) == views(patterns@) && default_options(set),
        patterns@.len() == 0 ==> r is Ok,
{
    regex::RegexSet::new(patterns)
}

/// Relies on `regex::RegexSet::is_match`: for a set built with the default
/// options, whether some pattern of the set matches somewhere in `text`; a
/// set without patterns matches nothing.
#[verifier::external_body]
fn set_is_match(set: &regex::RegexSet, text: &str) -> (r: bool)
    ensures
        default_options(*set) ==> r == any_pattern_matches(compiled_patterns(*set), text@),
        compiled_patterns(*set).len() == 0 ==> !r,
{
    set.is_match(text)
}

/// The items of `files` that some pattern of `patterns` matches, in order.
pub open spec fn matching(patterns: Seq<Seq<char>>, files: Seq<Seq<char>>) -> Seq<Seq<char>>
    decreases files.len(),
{
    if files.len() == 0 {
        Seq::empty()
    } else if any_pattern_matches(patterns, files.last()) {
        matching(patterns, files.drop_last()).push(files.last())
    } else {
        matching(patterns, files.drop_last())
    }
}

/// A search pattern that is not a valid regular expression.
#[derive(Clone, Copy, Debug, PartialEq, Eq, Structural)]
pub struct InvalidPattern {}

/// Search targets compiled into one set of regular expressions.
#[derive(Debug)]
pub struct FileMatcher {
    set: regex::RegexSet,
}

impl FileMatcher {
    /// The search targets, in order.
    pub closed spec fn patterns(self) -> Seq<Seq<char>> {
        compiled_patterns(self.set)
    }

    /// The set was built with the default options.
    pub closed spec fn wf(self) -> bool {
        default_options(self.set)
    }

    /// Compiles the search targets; fails when one of them is not a valid
    /// regular expression.
    pub fn new(targets: &Vec<String>) -> (r: Result<FileMatcher, InvalidPattern>)
        ensures
            r is Ok <==> patterns_compile(views(targets@)),
            r matches Ok(m) ==> m.patterns() == views(targets@) && m.wf(),
            targets@.len() == 0 ==> r is Ok,
    {
        match compile_set(targets) {
            Ok(set) => Ok(FileMatcher { set }),
            Err(_) => Err(InvalidPattern {}),
        }
    }

    /// The paths of `files` that some target matches, in order.
    pub fn matching_files(&self, files: &Vec<String>) -> (r: Vec<String>)
        requires
            self.wf(),
        ensures
            views(r@) == matching(self.patterns(), views(files@)),
            self.patterns().len() == 0 ==> r@.len() == 0,
    {
        let mut r: Vec<String> = Vec::new();
        let mut i: usize = 0;
        while i < files.len()
            invariant
                i <= files@.len(),
                self.wf(),
                views(r@) == matching(self.patterns(), views(files@.subrange(0, i as int))),
                self.patterns().len() == 0 ==> r@.len() == 0,
            decreases files.len() - i,
        {
            let ghost next = views(files@.subrange(0, i + 1));
            assert(next.drop_last() =~= views(files@.subrange(0, i as int)));
            assert(next.last() == files@[i as int]@);
            if set_is_match(&self.set, files[i].as_str()) {
                let ghost before = r@;
                r.push(files[i].clone());
                assert(views(r@) =~= views(before).push(files@[i as int]@));
            }
            i += 1;
        }
        assert(files@.subrange(0, files@.len() as int) =~= files@);
        r
    }
}

} // verus!
