//! Aggregates the download progress of the sync databases into one bar.
use crate::bar::{apply_ops, emit, op_views, BarOp, BarState, OpView};
use crate::callbacks::progress::{step_counter, step_text};
use crate::text::concat2;
use vstd::prelude::*;

verus! {

/// The state of the database download bar.
#[derive(Clone, Debug, PartialEq, Eq)]
pub struct DlCallback {
    pub bar: BarState,
    /// The number of databases that are downloaded in this transaction.
    pub db_count: usize,
    /// How many of them have started, at most `db_count`.
    pub current_db: usize,
}

impl DlCallback {
    pub open spec fn well_formed(self) -> bool {
        self.current_db <= self.db_count
    }

    /// Whether a report with this total starts a new download.
    pub open spec fn starts_unit(self, total: u64) -> bool {
        self.bar.length != total
    }

    /// The count of started downloads after a report that starts one.
    pub open spec fn next_db(self) -> usize {
        if self.current_db < self.db_count {
            (self.current_db + 1) as usize
        } else {
            self.current_db
        }
    }

    /// The operations for report `(filename, transferred, total)`.
    pub open spec fn report_ops(self, filename: Seq<char>, transferred: u64, total: u64) -> Seq<
        OpView,
    > {
        if total == 0 {
            seq![OpView::Tick]
        } else if transferred == total {
            seq![
                if self.current_db == self.db_count {
                    OpView::FinishAndClear
                } else {
                    OpView::Finish
                },
                OpView::Println("  Synced "@ + filename),
            ]
        } else if self.starts_unit(total) {
            seq![
                OpView::Reset,
                OpView::SetLength(total),
                OpView::SetMessage(filename),
                OpView::SetPrefix(step_text(self.next_db() as nat, self.db_count as nat)),
                OpView::SetPosition(transferred),
            ]
        } else {
            seq![OpView::SetPosition(transferred)]
        }
    }

    /// Whether a report starts the next download: it has a total, is not a
    /// completion, and its total differs from the bar's length.
    pub open spec fn report_starts(self, transferred: u64, total: u64) -> bool {
        total != 0 && transferred != total && self.starts_unit(total)
    }

    /// A bar for `db_count` downloads, none started yet.
    pub fn new(db_count: usize) -> (r: Self)
        ensures
            r.well_formed(),
            r.db_count == db_count,
            r.current_db == 0,
            r.bar.length == 0,
            r.bar.position == 0,
            !r.bar.finished,
            !r.bar.cleared,
    {
        DlCallback { bar: BarState::new(0), db_count, current_db: 0 }
    }

    /// Handles one report of `transferred` out of `total` bytes of `filename`.
    ///
    /// A report without a total, such as (0, 0), only animates the bar. A
    /// complete download finishes the bar, clearing it after the last
    /// database, and prints a line naming the file. Otherwise a total other
    /// than the bar's length starts the next download, and the bar moves to
    /// `transferred`. The returned operations are to be replayed on the
    /// visible bar; the model bar is the old one after them.
    pub fn update(&mut self, filename: &str, transferred: u64, total: u64) -> (ops: Vec<BarOp>)
        requires
            old(self).well_formed(),
        ensures
            final(self).well_formed(),
            final(self).db_count == old(self).db_count,
            final(self).bar == apply_ops(old(self).bar, ops@),
            op_views(ops@) == old(self).report_ops(filename@, transferred, total),
            final(self).current_db == if old(self).report_starts(transferred, total) {
                old(self).next_db()
            } else {
                old(self).current_db
            },
    {
        let ghost start = self.bar;
        let ghost pre = *self;
        let mut ops: Vec<BarOp> = Vec::new();
        if total == 0 {
            emit(&mut self.bar, &mut ops, BarOp::Tick, Ghost(start));
            assert(op_views(ops@) =~= seq![OpView::Tick]);
            return ops;
        }
        if transferred == total {
            if self.current_db == self.db_count {
                emit(&mut self.bar, &mut ops, BarOp::FinishAndClear, Ghost(start));
            } else {
                emit(&mut self.bar, &mut ops, BarOp::Finish, Ghost(start));
            }
            emit(&mut self.bar, &mut ops, BarOp::Println(concat2("  Synced ", filename)), Ghost(start));
            assert(op_views(ops@) =~= pre.report_ops(filename@, transferred, total));
            return ops;
        }
        if self.bar.length != total {
            emit(&mut self.bar, &mut ops, BarOp::Reset, Ghost(start));
            emit(&mut self.bar, &mut ops, BarOp::SetLength(total), Ghost(start));
            emit(&mut self.bar, &mut ops, BarOp::SetMessage(String::from_str(filename)), Ghost(start));
            if self.current_db < self.db_count {
                self.current_db = self.current_db + 1;
            }
            emit(
                &mut self.bar,
                &mut ops,
                BarOp::SetPrefix(step_counter(self.current_db, self.db_count)),
                Ghost(start),
            );
        }
        emit(&mut self.bar, &mut ops, BarOp::SetPosition(transferred), Ghost(start));
        assert(op_views(ops@) =~= pre.report_ops(filename@, transferred, total));
        ops
    }
}

} // verus!
