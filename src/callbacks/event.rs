//! Turns transaction lifecycle events into the lines shown to the user.
use crate::text::{concat2, joined, join_with, push_decimal_two, decimal_two, views};
use vstd::prelude::*;

verus! {

/// When a hook runs.
#[derive(Clone, Copy, Debug, PartialEq, Eq, Structural)]
pub enum HookWhen {
    PreTransaction,
    PostTransaction,
}

/// Lifecycle events that carry no data.
#[derive(Clone, Copy, Debug, PartialEq, Eq, Structural)]
pub enum EventType {
    CheckDepsStart,
    ResolveDepsStart,
    InterConflictsStart,
    TransactionStart,
    KeyDownloadStart,
    PkgDownloadStart,
    /// Any other kind; such events are not narrated.
    Unnarrated,
}

/// The part of a package that operation events narrate.
#[derive(Clone, Debug, PartialEq, Eq)]
pub struct OpPackage {
    pub name: String,
    pub optdepends: Vec<String>,
}

/// A package operation; where there are two packages the new one comes first.
#[derive(Clone, Debug, PartialEq, Eq)]
pub enum PackageOperation {
    Install(OpPackage),
    Upgrade(OpPackage, OpPackage),
    Downgrade(OpPackage, OpPackage),
    Reinstall(OpPackage, OpPackage),
    Remove(OpPackage),
}

/// A lifecycle event of a transaction.
#[derive(Clone, Debug, PartialEq, Eq)]
pub enum Event {
    Hook(HookWhen),
    HookRun { position: usize, total: usize, desc: String },
    Other(EventType),
    PackageOperation(PackageOperation),
    /// Output of an install script, with its own line break.
    ScriptletInfo(String),
    OptDepRemoval { pkg: String, optdep: String },
    DatabaseMissing { dbname: String },
    PacnewCreated { file: String },
    PacsaveCreated { file: String },
    PkgDownload,
}

/// Text for the user: a whole line, or raw text printed as it is.
#[derive(Clone, Debug, PartialEq, Eq)]
pub enum Narration {
    Line(String),
    Raw(String),
}

/// A narration with its text as characters.
pub enum NarrationView {
    Line(Seq<char>),
    Raw(Seq<char>),
}

impl View for Narration {
    type V = NarrationView;

    open spec fn view(&self) -> NarrationView {
        match self {
            Narration::Line(s) => NarrationView::Line(s@),
            Narration::Raw(s) => NarrationView::Raw(s@),
        }
    }
}

/// The items of `new` that `old` does not hold, in order.
pub open spec fn added(old: Seq<Seq<char>>, new: Seq<Seq<char>>) -> Seq<Seq<char>>
    decreases new.len(),
{
    if new.len() == 0 {
        Seq::empty()
    } else if old.contains(new.last()) {
        added(old, new.drop_last())
    } else {
        added(old, new.drop_last()).push(new.last())
    }
}

/// The optional dependencies that an operation introduces.
pub open spec fn introduced(op: PackageOperation) -> Seq<Seq<char>> {
    match op {
        PackageOperation::Install(new) => added(Seq::empty(), views(new.optdepends@)),
        PackageOperation::Upgrade(new, old) => added(
            views(old.optdepends@),
            views(new.optdepends@),
        ),
        PackageOperation::Downgrade(new, old) => added(
            views(old.optdepends@),
            views(new.optdepends@),
        ),
        _ => Seq::empty(),
    }
}

/// The package whose optional dependencies an operation narrates.
pub open spec fn narrated_name(op: PackageOperation) -> Seq<char> {
    match op {
        PackageOperation::Install(new) => new.name@,
        PackageOperation::Upgrade(new, _) => new.name@,
        PackageOperation::Downgrade(new, _) => new.name@,
        PackageOperation::Reinstall(new, _) => new.name@,
        PackageOperation::Remove(old) => old.name@,
    }
}

/// The narration of `e`.
pub open spec fn narration(e: Event) -> Seq<NarrationView> {
    match e {
        Event::Hook(HookWhen::PreTransaction) => seq![
            NarrationView::Line("Running pre-transaction hooks..."@),
        ],
        Event::Hook(HookWhen::PostTransaction) => seq![
            NarrationView::Line("Running post-transaction hooks..."@),
        ],
        Event::HookRun { position, total, desc } => seq![
            NarrationView::Line(
                decimal_two(position as nat) + "/"@ + decimal_two(total as nat) + " "@ + desc@,
            ),
        ],
        Event::Other(t) => match t {
            EventType::CheckDepsStart => seq![NarrationView::Line("checking dependencies..."@)],
            EventType::ResolveDepsStart => seq![
                NarrationView::Line("resolving dependencies..."@),
            ],
            EventType::InterConflictsStart => seq![
                NarrationView::Line("looking for conflicting packages..."@),
            ],
            EventType::TransactionStart => seq![
                NarrationView::Line("Processing package changes..."@),
            ],
            EventType::KeyDownloadStart => seq![NarrationView::Line("downloading required keys"@)],
            EventType::PkgDownloadStart => seq![NarrationView::Line("Retrieving packages..."@)],
            EventType::Unnarrated => Seq::empty(),
        },
        Event::PackageOperation(op) => if introduced(op).len() == 0 {
            Seq::empty()
        } else {
            seq![
                NarrationView::Line(
                    "New optional dependencies for "@ + narrated_name(op) + ": "@ + joined(
                        introduced(op),
                        ", "@,
                    ),
                ),
            ]
        },
        Event::ScriptletInfo(line) => seq![NarrationView::Raw(line@)],
        Event::OptDepRemoval { pkg, optdep } => seq![
            NarrationView::Line(pkg@ + " optionally requires "@ + optdep@),
        ],
        Event::DatabaseMissing { dbname } => seq![
            NarrationView::Line(
                "database file for '"@ + dbname@ + "' is missing (use '[S|F]y' to download)"@,
            ),
        ],
        Event::PacnewCreated { file } => seq![
            NarrationView::Line(file@ + " installed as "@ + file@ + ".pacnew"@),
        ],
        Event::PacsaveCreated { file } => seq![
            NarrationView::Line(file@ + " saved as "@ + file@ + ".pacsave"@),
        ],
        Event::PkgDownload => Seq::empty(),
    }
}

/// Narrates lifecycle events; it keeps no state between events.
#[derive(Clone, Copy, Debug, PartialEq, Eq)]
pub struct EventCallback {}

/// Whether `v` holds a string equal to `s`.
pub fn contains_string(v: &Vec<String>, s: &String) -> (r: bool)
    ensures
        r == views(v@).contains(s@),
{
    let mut i: usize = 0;
    while i < v.len()
        invariant
            i <= v.len(),
            forall|j: int| 0 <= j < i ==> v@[j]@ != s@,
        decreases v.len() - i,
    {
        if v[i] == *s {
            assert(views(v@)[i as int] == s@);
            return true;
        }
        i += 1;
    }
    proof {
        if views(v@).contains(s@) {
            let j = choose|j: int| 0 <= j < views(v@).len() && views(v@)[j] == s@;
            assert(v@[j]@ == s@);
        }
    }
    false
}

/// The items of `new` that `old` does not hold, in order.
pub fn added_items(old: &Vec<String>, new: &Vec<String>) -> (r: Vec<String>)
    ensures
        views(r@) == added(views(old@), views(new@)),
{
    let mut r: Vec<String> = Vec::new();
    let mut i: usize = 0;
    while i < new.len()
        invariant
            i <= new.len(),
            views(r@) == added(views(old@), views(new@.subrange(0, i as int))),
        decreases new.len() - i,
    {
        let ghost prefix = new@.subrange(0, i + 1);
        assert(views(prefix).drop_last() =~= views(new@.subrange(0, i as int)));
        assert(views(prefix).last() == new@[i as int]@);
        if !contains_string(old, &new[i]) {
            let ghost before = r@;
            r.push(new[i].clone());
            assert(views(r@) =~= views(before).push(new@[i as int]@));
        }
        i += 1;
    }
    assert(new@.subrange(0, new@.len() as int) =~= new@);
    r
}

fn operation_lines(op: &PackageOperation) -> (r: Vec<Narration>)
    ensures
        r@.map_values(|n: Narration| n@) == narration(Event::PackageOperation(*op)),
{
    let empty: Vec<String> = Vec::new();
    assert(views(empty@) =~= Seq::<Seq<char>>::empty());
    let (name, deps) = match op {
        PackageOperation::Install(new) => (&new.name, added_items(&empty, &new.optdepends)),
        PackageOperation::Upgrade(new, old) => (&new.name, added_items(&old.optdepends, &new.optdepends)),
        PackageOperation::Downgrade(new, old) => (&new.name, added_items(&old.optdepends, &new.optdepends)),
        PackageOperation::Reinstall(new, _) => (&new.name, Vec::new()),
        PackageOperation::Remove(old) => (&old.name, Vec::new()),
    };
    assert(views(deps@) == introduced(*op));
    let mut r: Vec<Narration> = Vec::new();
    if deps.len() > 0 {
        let mut line = String::from_str("New optional dependencies for ");
        line.append(name.as_str());
        line.append(": ");
        let list = join_with(&deps, ", ");
        line.append(list.as_str());
        r.push(Narration::Line(line));
    }
    assert(r@.map_values(|n: Narration| n@) =~= narration(Event::PackageOperation(*op)));
    r
}

fn one_line(s: String) -> (r: Vec<Narration>)
    ensures
        r@.map_values(|n: Narration| n@) == seq![NarrationView::Line(s@)],
{
    let r = vec![Narration::Line(s)];
    assert(r@.map_values(|n: Narration| n@) =~= seq![NarrationView::Line(s@)]);
    r
}

impl EventCallback {
    pub fn new() -> (r: Self) {
        EventCallback {}
    }

    /// The lines that narrate `event`, in order; none for events that are
    /// not narrated.
    pub fn update(&mut self, event: &Event) -> (r: Vec<Narration>)
        ensures
            *final(self) == *old(self),
            r@.map_values(|n: Narration| n@) == narration(*event),
    {
        let none: Vec<Narration> = Vec::new();
        assert(none@.map_values(|n: Narration| n@) =~= Seq::<NarrationView>::empty());
        match event {
            Event::Hook(HookWhen::PreTransaction) => one_line(
                String::from_str("Running pre-transaction hooks..."),
            ),
            Event::Hook(HookWhen::PostTransaction) => one_line(
                String::from_str("Running post-transaction hooks..."),
            ),
            Event::HookRun { position, total, desc } => {
                let mut line = String::new();
                push_decimal_two(&mut line, *position as u64);
                line.append("/");
                push_decimal_two(&mut line, *total as u64);
                line.append(" ");
                line.append(desc.as_str());
                proof {
                    assert(line@ =~= decimal_two(*position as nat) + "/"@ + decimal_two(
                        *total as nat,
                    ) + " "@ + desc@);
                }
                one_line(line)
            },
            Event::Other(t) => match t {
                EventType::CheckDepsStart => one_line(String::from_str("checking dependencies...")),
                EventType::ResolveDepsStart => one_line(
                    String::from_str("resolving dependencies..."),
                ),
                EventType::InterConflictsStart => one_line(
                    String::from_str("looking for conflicting packages..."),
                ),
                EventType::TransactionStart => one_line(
                    String::from_str("Processing package changes..."),
                ),
                EventType::KeyDownloadStart => one_line(
                    String::from_str("downloading required keys"),
                ),
                EventType::PkgDownloadStart => one_line(String::from_str("Retrieving packages...")),
                EventType::Unnarrated => none,
            },
            Event::PackageOperation(op) => operation_lines(op),
            Event::ScriptletInfo(line) => {
                let r = vec![Narration::Raw(line.clone())];
                assert(r@.map_values(|n: Narration| n@) =~= narration(*event));
                r
            },
            Event::OptDepRemoval { pkg, optdep } => {
                let mut line = concat2(pkg.as_str(), " optionally requires ");
                line.append(optdep.as_str());
                one_line(line)
            },
            Event::DatabaseMissing { dbname } => {
                let mut line = concat2("database file for '", dbname.as_str());
                line.append("' is missing (use '[S|F]y' to download)");
                one_line(line)
            },
            Event::PacnewCreated { file } => {
                let mut line = concat2(file.as_str(), " installed as ");
                line.append(file.as_str());
                line.append(".pacnew");
                one_line(line)
            },
            Event::PacsaveCreated { file } => {
                let mut line = concat2(file.as_str(), " saved as ");
                line.append(file.as_str());
                line.append(".pacsave");
                one_line(line)
            },
            Event::PkgDownload => none,
        }
    }
}

} // verus!
