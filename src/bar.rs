//! A plain-value model of a terminal progress bar and the operations that
//! the callbacks issue on it. The front end replays the same operations on
//! its real bar, so the model and the screen stay in step.
use vstd::prelude::*;

verus! {

/// One operation on a progress bar.
#[derive(Clone, Debug, PartialEq, Eq)]
pub enum BarOp {
    /// Animate the spinner without moving the bar.
    Tick,
    /// Rewind the bar to zero and mark it running again.
    Reset,
    SetLength(u64),
    SetPosition(u64),
    SetPrefix(String),
    SetMessage(String),
    /// Fill the bar and leave it on screen.
    Finish,
    /// Fill the bar and take it off the screen.
    FinishAndClear,
    /// Print a line above the bar.
    Println(String),
}

/// A bar operation with its text as characters.
pub enum OpView {
    Tick,
    Reset,
    SetLength(u64),
    SetPosition(u64),
    SetPrefix(Seq<char>),
    SetMessage(Seq<char>),
    Finish,
    FinishAndClear,
    Println(Seq<char>),
}

impl View for BarOp {
    type V = OpView;

    open spec fn view(&self) -> OpView {
        match self {
            BarOp::Tick => OpView::Tick,
            BarOp::Reset => OpView::Reset,
            BarOp::SetLength(n) => OpView::SetLength(*n),
            BarOp::SetPosition(p) => OpView::SetPosition(*p),
            BarOp::SetPrefix(s) => OpView::SetPrefix(s@),
            BarOp::SetMessage(s) => OpView::SetMessage(s@),
            BarOp::Finish => OpView::Finish,
            BarOp::FinishAndClear => OpView::FinishAndClear,
            BarOp::Println(s) => OpView::Println(s@),
        }
    }
}

/// The views of a list of operations.
pub open spec fn op_views(ops: Seq<BarOp>) -> Seq<OpView> {
    ops.map_values(|o: BarOp| o@)
}

/// What a progress bar shows.
#[derive(Clone, Debug, PartialEq, Eq)]
pub struct BarState {
    pub length: u64,
    pub position: u64,
    pub prefix: String,
    pub message: String,
    pub finished: bool,
    pub cleared: bool,
}

/// The bar after `op`.
pub open spec fn apply_op(b: BarState, op: BarOp) -> BarState {
    match op {
        BarOp::Tick => b,
        BarOp::Reset => BarState { position: 0, finished: false, cleared: false, ..b },
        BarOp::SetLength(n) => BarState { length: n, ..b },
        BarOp::SetPosition(p) => BarState { position: p, ..b },
        BarOp::SetPrefix(s) => BarState { prefix: s, ..b },
        BarOp::SetMessage(s) => BarState { message: s, ..b },
        BarOp::Finish => BarState { position: b.length, finished: true, ..b },
        BarOp::FinishAndClear => BarState {
            position: b.length,
            finished: true,
            cleared: true,
            ..b
        },
        BarOp::Println(_) => b,
    }
}

/// The bar after the operations `ops`, first to last.
pub open spec fn apply_ops(b: BarState, ops: Seq<BarOp>) -> BarState
    decreases ops.len(),
{
    if ops.len() == 0 {
        b
    } else {
        apply_op(apply_ops(b, ops.drop_last()), ops.last())
    }
}

impl BarState {
    /// An empty, running bar of the given length.
    pub fn new(length: u64) -> (r: BarState)
        ensures
            r.length == length,
            r.position == 0,
            r.prefix@.len() == 0,
            r.message@.len() == 0,
            !r.finished,
            !r.cleared,
    {
        BarState {
            length,
            position: 0,
            prefix: String::new(),
            message: String::new(),
            finished: false,
            cleared: false,
        }
    }

    /// Performs `op` on the model and records it in `ops`.
    pub fn issue(&mut self, op: BarOp, ops: &mut Vec<BarOp>)
        ensures
            *final(self) == apply_op(*old(self), op),
            final(ops)@ == old(ops)@.push(op),
    {
        match &op {
            BarOp::Tick => {},
            BarOp::Reset => {
                self.position = 0;
                self.finished = false;
                self.cleared = false;
            },
            BarOp::SetLength(n) => {
                self.length = *n;
            },
            BarOp::SetPosition(p) => {
                self.position = *p;
            },
            BarOp::SetPrefix(s) => {
                self.prefix = s.clone();
            },
            BarOp::SetMessage(s) => {
                self.message = s.clone();
            },
            BarOp::Finish => {
                self.position = self.length;
                self.finished = true;
            },
            BarOp::FinishAndClear => {
                self.position = self.length;
                self.finished = true;
                self.cleared = true;
            },
            BarOp::Println(_) => {},
        }
        ops.push(op);
    }
}

/// Performs `op` on `bar`, which is `start` after `ops`, and records it.
pub(crate) fn emit(bar: &mut BarState, ops: &mut Vec<BarOp>, op: BarOp, Ghost(start): Ghost<BarState>)
    requires
        *old(bar) == apply_ops(start, old(ops)@),
    ensures
        *final(bar) == apply_ops(start, final(ops)@),
        *final(bar) == apply_op(*old(bar), op),
        final(ops)@ == old(ops)@.push(op),
        op_views(final(ops)@) == op_views(old(ops)@).push(op@),
{
    let ghost before = ops@;
    bar.issue(op, ops);
    proof {
        lemma_apply_push(start, before, op);
        assert(op_views(ops@) =~= op_views(before).push(op@));
    }
}

/// Issuing one more operation extends the replay by that operation.
pub proof fn lemma_apply_push(b: BarState, ops: Seq<BarOp>, op: BarOp)
    ensures
        apply_ops(b, ops.push(op)) == apply_op(apply_ops(b, ops), op),
{
    assert(ops.push(op).drop_last() =~= ops);
}

} // verus!
