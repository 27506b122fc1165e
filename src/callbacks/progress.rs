//! Tracks the operation progress bar across the phases of a transaction.
use crate::bar::{apply_ops, emit, op_views, BarOp, BarState, OpView};
use crate::text::{decimal, push_decimal};
use vstd::prelude::*;

verus! {

/// The phase that a progress report belongs to.
#[derive(Clone, Copy, Debug, PartialEq, Eq, Structural)]
pub enum Progress {
    AddStart,
    UpgradeStart,
    DowngradeStart,
    ReinstallStart,
    RemoveStart,
    ConflictsStart,
    DiskspaceStart,
    IntegrityStart,
    KeyringStart,
    LoadStart,
}

/// Phases that run once per package; the others run over the whole
/// transaction and report a step count.
pub open spec fn per_package(p: Progress) -> bool {
    match p {
        Progress::AddStart | Progress::UpgradeStart | Progress::DowngradeStart
        | Progress::ReinstallStart | Progress::RemoveStart => true,
        _ => false,
    }
}

/// The bar's message while `p` runs for package `name`.
pub open spec fn running_text(p: Progress, name: Seq<char>) -> Seq<char> {
    match p {
        Progress::AddStart => "installing "@ + name,
        Progress::UpgradeStart => "upgrading "@ + name,
        Progress::DowngradeStart => "downgrading "@ + name,
        Progress::ReinstallStart => "reinstalling "@ + name,
        Progress::RemoveStart => "removing "@ + name,
        Progress::ConflictsStart => "checking for file conflicts"@,
        Progress::DiskspaceStart => "checking available disk space"@,
        Progress::IntegrityStart => "checking package integrity"@,
        Progress::KeyringStart => "checking keys in keyring"@,
        Progress::LoadStart => "loading package files"@,
    }
}

/// The line printed when `p` has completed for package `name`.
pub open spec fn done_text(p: Progress, name: Seq<char>) -> Seq<char> {
    match p {
        Progress::AddStart => "Installed "@ + name,
        Progress::UpgradeStart => "Upgraded "@ + name,
        Progress::DowngradeStart => "Downgraded "@ + name,
        Progress::ReinstallStart => "Reinstalled "@ + name,
        Progress::RemoveStart => "Removed "@ + name,
        Progress::ConflictsStart => "Checked for file conflicts"@,
        Progress::DiskspaceStart => "Checked available disk space"@,
        Progress::IntegrityStart => "Checked package integrity"@,
        Progress::KeyringStart => "Checked keys in keyring"@,
        Progress::LoadStart => "Loaded package files"@,
    }
}

/// The step counter "(current/howmany)".
pub open spec fn step_text(current: nat, howmany: nat) -> Seq<char> {
    "("@ + decimal(current) + "/"@ + decimal(howmany) + ")"@
}

/// Whether a report completes its unit: a per-package phase at 100%, or an
/// aggregate phase at 100% on its last step.
pub open spec fn completes(p: Progress, percent: i32, howmany: usize, current: usize) -> bool {
    percent == 100 && (per_package(p) || howmany == current)
}

/// The operations for a report with a nonzero percentage.
pub open spec fn report_ops(
    last: Option<Progress>,
    p: Progress,
    name: Seq<char>,
    percent: i32,
    howmany: usize,
    current: usize,
) -> Seq<OpView> {
    (if last != Some(p) {
        seq![OpView::Reset]
    } else {
        Seq::empty()
    }) + (if percent == 100 {
        seq![OpView::Finish]
    } else {
        Seq::empty()
    }) + seq![
        OpView::SetPosition(percent as u64),
        OpView::SetPrefix(step_text(current as nat, howmany as nat)),
        OpView::SetMessage(running_text(p, name)),
    ] + (if completes(p, percent, howmany, current) {
        seq![OpView::Println(done_text(p, name))]
    } else {
        Seq::empty()
    })
}

/// The state of the operation progress bar.
#[derive(Clone, Debug, PartialEq, Eq)]
pub struct ProgressCallback {
    pub bar: BarState,
    /// The phase of the latest report with a nonzero percentage.
    pub last_step: Option<Progress>,
}

fn running_message(p: Progress, name: &str) -> (r: String)
    ensures
        r@ == running_text(p, name@),
{
    let (head, whole) = match p {
        Progress::AddStart => ("installing ", false),
        Progress::UpgradeStart => ("upgrading ", false),
        Progress::DowngradeStart => ("downgrading ", false),
        Progress::ReinstallStart => ("reinstalling ", false),
        Progress::RemoveStart => ("removing ", false),
        Progress::ConflictsStart => ("checking for file conflicts", true),
        Progress::DiskspaceStart => ("checking available disk space", true),
        Progress::IntegrityStart => ("checking package integrity", true),
        Progress::KeyringStart => ("checking keys in keyring", true),
        Progress::LoadStart => ("loading package files", true),
    };
    let mut r = String::from_str(head);
    if !whole {
        r.append(name);
    }
    r
}

fn done_message(p: Progress, name: &str) -> (r: String)
    ensures
        r@ == done_text(p, name@),
{
    let (head, whole) = match p {
        Progress::AddStart => ("Installed ", false),
        Progress::UpgradeStart => ("Upgraded ", false),
        Progress::DowngradeStart => ("Downgraded ", false),
        Progress::ReinstallStart => ("Reinstalled ", false),
        Progress::RemoveStart => ("Removed ", false),
        Progress::ConflictsStart => ("Checked for file conflicts", true),
        Progress::DiskspaceStart => ("Checked available disk space", true),
        Progress::IntegrityStart => ("Checked package integrity", true),
        Progress::KeyringStart => ("Checked keys in keyring", true),
        Progress::LoadStart => ("Loaded package files", true),
    };
    let mut r = String::from_str(head);
    if !whole {
        r.append(name);
    }
    r
}

/// Renders "(current/howmany)".
pub fn step_counter(current: usize, howmany: usize) -> (r: String)
    ensures
        r@ == step_text(current as nat, howmany as nat),
{
    let mut r = String::from_str("(");
    push_decimal(&mut r, current as u64);
    r.append("/");
    push_decimal(&mut r, howmany as u64);
    r.append(")");
    r
}

impl ProgressCallback {
    /// A bar of length 100 that has seen no report yet.
    pub fn new() -> (r: Self)
        ensures
            r.bar.length == 100,
            r.bar.position == 0,
            !r.bar.finished,
            !r.bar.cleared,
            r.last_step is None,
    {
        ProgressCallback { bar: BarState::new(100), last_step: None }
    }

    /// Handles one report of phase `progress` for package `pkgname`.
    ///
    /// A zero percentage only animates the bar. Otherwise a change of phase
    /// rewinds the bar first, the bar moves to `percent`, shows the step
    /// counter and the phase's message, and a completed unit prints its line.
    /// The returned operations are to be replayed on the visible bar; the
    /// model bar is the old one after them.
    pub fn update(
        &mut self,
        progress: Progress,
        pkgname: &str,
        percent: i32,
        howmany: usize,
        current: usize,
    ) -> (ops: Vec<BarOp>)
        requires
            0 <= percent <= 100,
        ensures
            final(self).bar == apply_ops(old(self).bar, ops@),
            percent == 0 ==> op_views(ops@) == seq![OpView::Tick] && final(self).last_step
                == old(self).last_step,
            percent != 0 ==> op_views(ops@) == report_ops(
                old(self).last_step,
                progress,
                pkgname@,
                percent,
                howmany,
                current,
            ) && final(self).last_step == Some(progress),
            percent != 0 ==> final(self).bar.position == percent as u64,
    {
        let ghost start = self.bar;
        let mut ops: Vec<BarOp> = Vec::new();
        if percent == 0 {
            emit(&mut self.bar, &mut ops, BarOp::Tick, Ghost(start));
            assert(op_views(ops@) =~= seq![OpView::Tick]);
            return ops;
        }
        let switched = match self.last_step {
            Some(p) => p != progress,
            None => true,
        };
        if switched {
            emit(&mut self.bar, &mut ops, BarOp::Reset, Ghost(start));
            self.last_step = Some(progress);
        }
        let ghost after_reset = op_views(ops@);
        if percent == 100 {
            emit(&mut self.bar, &mut ops, BarOp::Finish, Ghost(start));
        }
        let ghost after_finish = op_views(ops@);
        emit(&mut self.bar, &mut ops, BarOp::SetPosition(percent as u64), Ghost(start));
        emit(&mut self.bar, &mut ops, BarOp::SetPrefix(step_counter(current, howmany)), Ghost(start));
        emit(&mut self.bar, &mut ops, BarOp::SetMessage(running_message(progress, pkgname)), Ghost(start));
        let ghost after_message = op_views(ops@);
        let per_package = match progress {
            Progress::AddStart | Progress::UpgradeStart | Progress::DowngradeStart
            | Progress::ReinstallStart | Progress::RemoveStart => true,
            _ => false,
        };
        if percent == 100 && (per_package || howmany == current) {
            emit(&mut self.bar, &mut ops, BarOp::Println(done_message(progress, pkgname)), Ghost(start));
        }
        proof {
            let r = report_ops(old(self).last_step, progress, pkgname@, percent, howmany, current);
            assert(after_reset =~= (if old(self).last_step != Some(progress) {
                seq![OpView::Reset]
            } else {
                Seq::empty()
            }));
            assert(op_views(ops@) =~= r);
        }
        self.last_step = Some(progress);
        ops
    }
}

} // verus!
